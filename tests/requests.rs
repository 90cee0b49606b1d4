use splitwise_mcp_server::decimal::{decimal, signed_decimal};
use splitwise_mcp_server::requests::{
    add_user_to_group_body, create_expense_body, create_group_body, update_expense_body, FormValue,
};
use splitwise_mcp_server::tools::{CreateExpenseArgs, Tool};
use splitwise_mcp_server::types::{
    CreateExpenseRequest, CreateGroupRequest, ExpenseShare, GroupUserInput, ListExpensesParams,
    UpdateExpenseRequest,
};

fn show(b: &[(String, FormValue)]) -> Vec<(String, String)> {
    b.iter()
        .map(|(k, v)| {
            let v = match v {
                FormValue::Int(n) => format!("int:{}", n),
                FormValue::Text(t) => format!("text:{}", t),
                FormValue::Flag(f) => format!("flag:{}", f),
                FormValue::Null => "null".to_string(),
            };
            (k.clone(), v)
        })
        .collect()
}

fn kv(pairs: &[(&str, &str)]) -> Vec<(String, String)> {
    pairs.iter().map(|(k, v)| (k.to_string(), v.to_string())).collect()
}

fn share(user_id: Option<i64>, email: Option<&str>, paid: &str, owed: &str) -> ExpenseShare {
    ExpenseShare {
        user_id,
        email: email.map(|e| e.to_string()),
        first_name: Some("Ann".to_string()),
        last_name: None,
        paid_share: paid.to_string(),
        owed_share: owed.to_string(),
    }
}

#[test]
fn decimal_text() {
    assert_eq!(decimal(0), "0");
    assert_eq!(decimal(7), "7");
    assert_eq!(decimal(1234567890), "1234567890");
    assert_eq!(decimal(u64::MAX), u64::MAX.to_string());
    assert_eq!(signed_decimal(-42), "-42");
    assert_eq!(signed_decimal(i64::MIN), i64::MIN.to_string());
    assert_eq!(signed_decimal(i64::MAX), i64::MAX.to_string());
}

#[test]
fn query_pairs_of_listing_request() {
    let p = ListExpensesParams {
        group_id: Some(-3),
        friend_id: None,
        dated_after: Some("2024-01-01".to_string()),
        dated_before: None,
        updated_after: None,
        updated_before: Some("2024-12-31".to_string()),
        limit: Some(100),
        offset: Some(2500),
    };
    assert_eq!(
        p.query_pairs(),
        kv(&[
            ("group_id", "-3"),
            ("dated_after", "2024-01-01"),
            ("updated_before", "2024-12-31"),
            ("limit", "100"),
            ("offset", "2500"),
        ])
    );
    assert!(ListExpensesParams::default().query_pairs().is_empty());
}

#[test]
fn create_expense_body_with_group_and_shares() {
    let r = CreateExpenseRequest {
        cost: "30.00".to_string(),
        description: "Dinner".to_string(),
        currency_code: Some("EUR".to_string()),
        category_id: Some(25),
        date: None,
        repeat_interval: Some("weekly".to_string()),
        details: None,
        payment: Some(false),
        group_id: Some(9),
        split_equally: None,
        split_by_shares: Some(vec![
            share(Some(11), Some("x@y.z"), "30.00", "15.00"),
            share(None, Some("b@c.d"), "0.00", "15.00"),
        ]),
    };
    assert_eq!(
        show(&create_expense_body(r)),
        kv(&[
            ("cost", "text:30.00"),
            ("description", "text:Dinner"),
            ("currency_code", "text:EUR"),
            ("category_id", "int:25"),
            ("payment", "flag:false"),
            ("group_id", "int:9"),
            ("split_equally", "flag:true"),
            ("users__0__user_id", "int:11"),
            ("users__0__paid_share", "text:30.00"),
            ("users__0__owed_share", "text:15.00"),
            ("users__1__email", "text:b@c.d"),
            ("users__1__first_name", "text:Ann"),
            ("users__1__paid_share", "text:0.00"),
            ("users__1__owed_share", "text:15.00"),
        ])
    );
}

#[test]
fn create_expense_body_without_equal_split() {
    let r = CreateExpenseRequest {
        cost: "5".to_string(),
        description: "Coffee".to_string(),
        currency_code: None,
        category_id: None,
        date: Some("2024-03-03".to_string()),
        repeat_interval: None,
        details: Some("oat milk".to_string()),
        payment: None,
        group_id: Some(2),
        split_equally: Some(false),
        split_by_shares: None,
    };
    assert_eq!(
        show(&create_expense_body(r)),
        kv(&[
            ("cost", "text:5"),
            ("description", "text:Coffee"),
            ("date", "text:2024-03-03"),
            ("details", "text:oat milk"),
            ("group_id", "int:2"),
        ])
    );
}

#[test]
fn update_expense_body_only_present_fields() {
    let r = UpdateExpenseRequest {
        cost: Some("12".to_string()),
        description: None,
        currency_code: None,
        category_id: Some(3),
        date: None,
        details: Some("ignored".to_string()),
        payment: Some(true),
        group_id: Some(4),
        split_equally: Some(false),
        split_by_shares: Some(vec![share(Some(1), Some("a@b.c"), "12", "6")]),
    };
    assert_eq!(
        show(&update_expense_body(r)),
        kv(&[
            ("cost", "text:12"),
            ("category_id", "int:3"),
            ("split_equally", "flag:false"),
            ("users__0__user_id", "int:1"),
            ("users__0__email", "text:a@b.c"),
            ("users__0__paid_share", "text:12"),
            ("users__0__owed_share", "text:6"),
        ])
    );
}

#[test]
fn create_group_body_flattens_users() {
    let mut users = vec![];
    for i in 0..12 {
        users.push(GroupUserInput { user_id: Some(i), first_name: None, last_name: None, email: None });
    }
    users.push(GroupUserInput {
        user_id: None,
        first_name: Some("Bo".to_string()),
        last_name: Some("Li".to_string()),
        email: Some("bo@li.cn".to_string()),
    });
    let r = CreateGroupRequest {
        name: "Trip".to_string(),
        group_type: Some("trip".to_string()),
        simplify_by_default: Some(true),
        users,
    };
    let b = show(&create_group_body(r));
    assert_eq!(b.len(), 3 + 12 + 3);
    assert_eq!(b[0], ("name".to_string(), "text:Trip".to_string()));
    assert_eq!(b[2], ("simplify_by_default".to_string(), "flag:true".to_string()));
    assert_eq!(b[13], ("users__10__user_id".to_string(), "int:10".to_string()));
    assert_eq!(b[15], ("users__12__first_name".to_string(), "text:Bo".to_string()));
    assert_eq!(b[17], ("users__12__email".to_string(), "text:bo@li.cn".to_string()));
}

#[test]
fn add_user_body_by_id_or_by_name() {
    let by_id = GroupUserInput { user_id: Some(5), first_name: Some("x".to_string()), last_name: None, email: None };
    assert_eq!(show(&add_user_to_group_body(8, by_id)), kv(&[("group_id", "int:8"), ("user_id", "int:5")]));
    let by_name = GroupUserInput { user_id: None, first_name: Some("Cy".to_string()), last_name: None, email: Some("c@y.z".to_string()) };
    assert_eq!(
        show(&add_user_to_group_body(8, by_name)),
        kv(&[("group_id", "int:8"), ("first_name", "text:Cy"), ("last_name", "null"), ("email", "text:c@y.z")])
    );
}

#[test]
fn tool_names() {
    assert_eq!(Tool::from_name("list_expenses"), Some(Tool::ListExpenses));
    assert_eq!(Tool::from_name("add_friend"), Some(Tool::AddFriend));
    assert_eq!(Tool::from_name("get_categories"), Some(Tool::GetCategories));
    assert_eq!(Tool::from_name("delete_group"), None);
}

fn create_args(shares: Option<Vec<ExpenseShare>>, split: Option<bool>) -> CreateExpenseArgs {
    CreateExpenseArgs {
        cost: "1".to_string(),
        description: "d".to_string(),
        currency_code: None,
        group_id: Some(1),
        split_equally: split,
        split_by_shares: shares,
        date: None,
        category_id: None,
        details: None,
    }
}

#[test]
fn create_expense_args_split_rules() {
    let r = create_args(Some(vec![share(Some(1), None, "1", "1")]), Some(true)).into_request();
    assert_eq!(r.split_equally, Some(false));
    assert_eq!(r.payment, Some(false));
    assert!(r.repeat_interval.is_none());
    assert_eq!(create_args(None, None).into_request().split_equally, Some(true));
    assert_eq!(create_args(None, Some(false)).into_request().split_equally, Some(false));
}
