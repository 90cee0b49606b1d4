use splitwise_mcp_server::engine::{ListExpensesArgs, ListQuery, Lister, QueryError, BATCH_SIZE};
use splitwise_mcp_server::filter::{DeletedFilter, RecordFilter, SearchField};
use splitwise_mcp_server::in_memory::list_in_memory;
use splitwise_mcp_server::projection::{project, project_all, Field, FieldSet};
use splitwise_mcp_server::text::{chars_of, contains_text, text_eq};
use splitwise_mcp_server::types::{Category, Expense, Receipt, UserReference};

fn user(id: i64) -> UserReference {
    UserReference { id, first_name: format!("User{}", id), last_name: None, picture: None }
}

fn expense(id: i64, deleted: bool, category_id: i64, description: &str, details: Option<&str>) -> Expense {
    Expense {
        id,
        group_id: Some(7),
        friendship_id: None,
        expense_bundle_id: None,
        description: description.to_string(),
        repeats: false,
        repeat_interval: Some("never".to_string()),
        email_reminder: false,
        email_reminder_in_advance: None,
        next_repeat: None,
        details: details.map(|d| d.to_string()),
        comments_count: 0,
        payment: false,
        creation_method: None,
        transaction_method: Some("offline".to_string()),
        transaction_confirmed: false,
        transaction_id: None,
        transaction_status: None,
        cost: "10.00".to_string(),
        currency_code: "USD".to_string(),
        repayments: vec![],
        date: "2024-01-01T00:00:00Z".to_string(),
        created_at: "2024-01-01T00:00:00Z".to_string(),
        created_by: user(1),
        updated_at: "2024-01-02T00:00:00Z".to_string(),
        updated_by: None,
        deleted_at: if deleted { Some("2024-02-01T00:00:00Z".to_string()) } else { None },
        deleted_by: if deleted { Some(user(2)) } else { None },
        category: Category {
            id: category_id,
            name: if category_id == 12 { "Groceries".to_string() } else { "General".to_string() },
            icon: None,
            subcategories: None,
        },
        receipt: Receipt { original: None, large: None },
        users: vec![],
    }
}

fn plain(id: i64) -> Expense {
    expense(id, false, 18, &format!("Expense {}", id), None)
}

fn args(fields: &[&str]) -> ListExpensesArgs {
    ListExpensesArgs {
        group_id: None,
        friend_id: None,
        dated_after: None,
        dated_before: None,
        updated_after: None,
        updated_before: None,
        limit: None,
        offset: None,
        fields: fields.iter().map(|f| f.to_string()).collect(),
        search_text: None,
        search_fields: None,
        category_ids: None,
        include_deleted: None,
    }
}

fn query(a: ListExpensesArgs) -> ListQuery {
    match ListQuery::from_args(a) {
        Ok(q) => q,
        Err(e) => panic!("query refused: {:?}", e),
    }
}

fn filter(mode: &str, ids: Option<Vec<i64>>, search: Option<&str>) -> RecordFilter {
    RecordFilter::new(Some(mode), ids, search, None)
}

#[test]
fn cap_ten_over_250_records_takes_one_call() {
    let up: Vec<Expense> = (1..=250).map(plain).collect();
    let mut a = args(&["id", "description"]);
    a.limit = Some(10);
    a.offset = Some(0);
    let q = query(a);
    let set = FieldSet::from_names(&vec!["id".to_string(), "description".to_string()]);
    let (found, calls) = list_in_memory(up, q);
    assert_eq!(calls, 1);
    let ids: Vec<i64> = found.iter().map(|e| e.id).collect();
    assert_eq!(ids, (1..=10).collect::<Vec<i64>>());
    let projected = project_all(found, &set);
    assert_eq!(projected.len(), 10);
    for (i, p) in projected.iter().enumerate() {
        assert_eq!(p.id, Some(i as i64 + 1));
        assert_eq!(p.description, Some(format!("Expense {}", i + 1)));
        assert!(p.cost.is_none());
        assert!(p.category.is_none());
        assert!(p.deleted_at.is_none());
    }
}

#[test]
fn scattered_category_matches_over_three_batches() {
    // Records 5, 150 and 280 are in category 12; 300 records in all, so the
    // engine cannot know the end before a fourth request comes back empty.
    let up: Vec<Expense> = (1..=300)
        .map(|i| if i == 5 || i == 150 || i == 280 { expense(i, false, 12, "Lunch", None) } else { plain(i) })
        .collect();
    let mut a = args(&["id"]);
    a.category_ids = Some(vec![12]);
    let (found, calls) = list_in_memory(up, query(a));
    let ids: Vec<i64> = found.iter().map(|e| e.id).collect();
    assert_eq!(ids, vec![5, 150, 280]);
    assert_eq!(calls, 4);
}

#[test]
fn scattered_category_matches_with_short_last_batch() {
    let up: Vec<Expense> = (1..=280)
        .map(|i| if i == 5 || i == 150 || i == 280 { expense(i, false, 12, "Lunch", None) } else { plain(i) })
        .collect();
    let mut a = args(&["id"]);
    a.category_ids = Some(vec![12]);
    let (found, calls) = list_in_memory(up, query(a));
    let ids: Vec<i64> = found.iter().map(|e| e.id).collect();
    assert_eq!(ids, vec![5, 150, 280]);
    assert_eq!(calls, 4);
}

#[test]
fn exactly_one_full_batch_takes_two_calls() {
    let up: Vec<Expense> = (1..=100).map(plain).collect();
    let (found, calls) = list_in_memory(up, query(args(&["id"])));
    assert_eq!(found.len(), 100);
    assert_eq!(calls, 2);
}

#[test]
fn calls_stay_within_bound() {
    for n in [0usize, 1, 99, 100, 101, 250, 399] {
        for start in [0i32, 1, 50, 100, 250] {
            if (start as usize) >= n + 100 {
                continue;
            }
            let up: Vec<Expense> = (1..=n as i64).map(plain).collect();
            let mut a = args(&["id"]);
            a.offset = Some(start);
            let (found, calls) = list_in_memory(up, query(a));
            let remaining = n as i64 - start as i64;
            let bound = (remaining + 99).div_euclid(100) + 1;
            assert!((calls as i64) <= bound, "n={} start={} calls={}", n, start, calls);
            assert_eq!(found.len() as i64, remaining.max(0));
        }
    }
}

#[test]
fn cap_is_respected_with_filters() {
    let up: Vec<Expense> = (1..=500).map(|i| expense(i, i % 3 == 0, 18, "Taxi", None)).collect();
    for cap in [0i32, 1, 7, 150, 400] {
        let mut a = args(&["id"]);
        a.limit = Some(cap);
        let (found, _) = list_in_memory(up.clone(), query(a));
        assert!(found.len() <= cap as usize);
        assert!(found.iter().all(|e| e.deleted_at.is_none()));
    }
}

#[test]
fn cap_zero_makes_no_request() {
    let up: Vec<Expense> = (1..=10).map(plain).collect();
    let mut a = args(&["id"]);
    a.limit = Some(0);
    let (found, calls) = list_in_memory(up, query(a));
    assert!(found.is_empty());
    assert_eq!(calls, 0);
}

#[test]
fn exhaustion_without_cap_returns_every_match_in_order() {
    let up: Vec<Expense> = (1..=230).map(|i| expense(i, i % 4 == 0, if i % 5 == 0 { 12 } else { 18 }, "x", None)).collect();
    let mut a = args(&["id"]);
    a.offset = Some(30);
    a.category_ids = Some(vec![12]);
    let (found, calls) = list_in_memory(up, query(a));
    let ids: Vec<i64> = found.iter().map(|e| e.id).collect();
    let expected: Vec<i64> = (31..=230).filter(|i| i % 5 == 0 && i % 4 != 0).collect();
    assert_eq!(ids, expected);
    assert_eq!(calls, 3);
}

#[test]
fn pass_through_makes_one_request_from_the_offset() {
    let up: Vec<Expense> = (1..=250).map(|i| expense(i, i == 200, 18, "x", None)).collect();
    let mut a = args(&["id"]);
    a.include_deleted = Some("include".to_string());
    a.offset = Some(20);
    let (found, calls) = list_in_memory(up, query(a));
    assert_eq!(calls, 1);
    assert_eq!(found.len(), 230);
    assert_eq!(found[0].id, 21);
}

#[test]
fn only_deleted_mode_keeps_deleted_records() {
    let up: Vec<Expense> = (1..=20).map(|i| expense(i, i % 2 == 0, 18, "x", None)).collect();
    let mut a = args(&["id"]);
    a.include_deleted = Some("only".to_string());
    let (found, _) = list_in_memory(up, query(a));
    let ids: Vec<i64> = found.iter().map(|e| e.id).collect();
    assert_eq!(ids, vec![2, 4, 6, 8, 10, 12, 14, 16, 18, 20]);
}

#[test]
fn negative_limit_is_refused() {
    let mut a = args(&["id"]);
    a.limit = Some(-1);
    assert!(matches!(ListQuery::from_args(a), Err(QueryError::NegativeLimit)));
}

#[test]
fn negative_offset_is_refused() {
    let mut a = args(&["id"]);
    a.offset = Some(-5);
    assert!(matches!(ListQuery::from_args(a), Err(QueryError::NegativeOffset)));
}

#[test]
fn empty_field_list_is_refused() {
    assert!(matches!(ListQuery::from_args(args(&[])), Err(QueryError::NoFields)));
}

#[test]
fn lister_requests_batches_and_stops_on_empty_page() {
    let mut a = args(&["id"]);
    a.group_id = Some(42);
    a.dated_after = Some("2024-01-01".to_string());
    a.offset = Some(5);
    let mut lister = Lister::new(query(a));
    let first = lister.next_request().expect("a request");
    assert_eq!(first.group_id, Some(42));
    assert_eq!(first.dated_after.as_deref(), Some("2024-01-01"));
    assert_eq!(first.limit, Some(BATCH_SIZE));
    assert_eq!(first.offset, Some(5));
    lister.take_batch((1..=3).map(plain).collect());
    let second = lister.next_request().expect("a second request");
    assert_eq!(second.offset, Some(105));
    lister.take_batch(vec![]);
    assert!(lister.next_request().is_none());
    assert_eq!(lister.found.len(), 3);
}

#[test]
fn lister_pass_through_uses_callers_paging() {
    let mut a = args(&["id"]);
    a.include_deleted = Some("include".to_string());
    let lister = Lister::new(query(a));
    let req = lister.next_request().expect("a request");
    assert_eq!(req.limit, None);
    assert_eq!(req.offset, None);
}

#[test]
fn filter_composition_table() {
    let active = expense(1, false, 12, "Whole Foods run", Some("weekly shop"));
    let deleted = expense(2, true, 12, "Whole Foods run", None);
    let other_cat = expense(3, false, 18, "Cinema", Some("with friends"));
    let cases: Vec<(&str, Option<Vec<i64>>, Option<&str>, [bool; 3])> = vec![
        ("exclude", None, None, [true, false, true]),
        ("include", None, None, [true, true, true]),
        ("only", None, None, [false, true, false]),
        ("exclude", Some(vec![12]), None, [true, false, false]),
        ("include", Some(vec![12]), None, [true, true, false]),
        ("include", Some(vec![18]), None, [false, false, true]),
        ("include", Some(vec![]), None, [false, false, false]),
        ("include", None, Some("food"), [true, true, false]),
        ("exclude", None, Some("food"), [true, false, false]),
        ("include", None, Some("friends"), [false, false, true]),
        ("include", Some(vec![12]), Some("cinema"), [false, false, false]),
        ("include", None, Some("groceries"), [true, true, false]),
        ("bogus", None, None, [true, false, true]),
    ];
    for (mode, ids, search, expected) in cases {
        let f = filter(mode, ids.clone(), search);
        let got = [f.accepts(&active), f.accepts(&deleted), f.accepts(&other_cat)];
        assert_eq!(got, expected, "mode={} ids={:?} search={:?}", mode, ids, search);
    }
}

#[test]
fn search_is_case_insensitive_substring() {
    let e = expense(1, false, 18, "Whole Foods run", None);
    let f = filter("exclude", None, Some("food"));
    assert!(f.accepts(&e));
    let g = filter("exclude", None, Some("FOOD"));
    assert!(g.accepts(&e));
    let h = filter("exclude", None, Some("fooz"));
    assert!(!h.accepts(&e));
}

#[test]
fn search_text_is_lower_cased() {
    let f = filter("exclude", None, Some("GrÖcEries"));
    assert_eq!(f.search, Some("gröceries".chars().collect::<Vec<char>>()));
}

#[test]
fn search_fields_limit_where_text_is_looked_for() {
    let e = expense(1, false, 12, "Lunch", Some("pizza place"));
    let only_desc = RecordFilter::new(None, None, Some("pizza"), Some(&vec!["description".to_string()]));
    assert!(!only_desc.accepts(&e));
    let details = RecordFilter::new(None, None, Some("pizza"), Some(&vec!["details".to_string(), "nope".to_string()]));
    assert_eq!(details.search_fields, vec![SearchField::Details]);
    assert!(details.accepts(&e));
    let none = RecordFilter::new(None, None, Some("lunch"), Some(&vec![]));
    assert!(!none.accepts(&e));
    let default = RecordFilter::new(None, None, Some("grocer"), None);
    assert_eq!(default.deleted, DeletedFilter::Exclude);
    assert!(default.accepts(&e));
}

#[test]
fn details_absent_never_matches() {
    let e = expense(1, false, 18, "Taxi", None);
    let f = RecordFilter::new(Some("include"), None, Some("taxi"), Some(&vec!["details".to_string()]));
    assert!(!f.accepts(&e));
}

#[test]
fn deleted_filter_names() {
    assert_eq!(DeletedFilter::from_name("include"), DeletedFilter::Include);
    assert_eq!(DeletedFilter::from_name("only"), DeletedFilter::Only);
    assert_eq!(DeletedFilter::from_name("exclude"), DeletedFilter::Exclude);
    assert_eq!(DeletedFilter::from_name("Include"), DeletedFilter::Exclude);
    assert_eq!(SearchField::from_name("category"), Some(SearchField::Category));
    assert_eq!(SearchField::from_name("cost"), None);
}

#[test]
fn projection_of_id_and_deleted_at() {
    let names = vec!["id".to_string(), "deleted_at".to_string()];
    let set = FieldSet::from_names(&names);
    let live = project(expense(4, false, 18, "x", None), &set);
    assert_eq!(live.id, Some(4));
    assert!(live.deleted_at.is_none());
    assert!(live.description.is_none());
    let gone = project(expense(5, true, 18, "x", None), &set);
    assert_eq!(gone.id, Some(5));
    assert_eq!(gone.deleted_at, Some("2024-02-01T00:00:00Z".to_string()));
    assert!(gone.deleted_by.is_none());
}

#[test]
fn projection_writes_absent_values_and_summarises_category() {
    let names: Vec<String> = ["details", "category", "friendship_id", "deleted_by", "unknown", "details"]
        .iter()
        .map(|s| s.to_string())
        .collect();
    let set = FieldSet::from_names(&names);
    let p = project(expense(9, false, 12, "x", None), &set);
    assert_eq!(p.details, Some(None));
    assert_eq!(p.friendship_id, Some(None));
    let c = p.category.expect("category");
    assert_eq!(c.id, 12);
    assert_eq!(c.name, "Groceries");
    assert!(p.deleted_by.is_none());
    assert!(p.id.is_none());
    let d = project(expense(9, true, 12, "x", None), &set);
    assert_eq!(d.deleted_by.map(|u| u.id), Some(2));
}

#[test]
fn field_names_round_trip() {
    for name in ["id", "cost", "users", "deleted_at", "expense_bundle_id", "email_reminder_in_advance"] {
        let f = Field::from_name(name).expect("known field");
        assert_eq!(f.name(), name);
    }
    assert_eq!(Field::from_name("icon"), None);
}

#[test]
fn text_helpers() {
    assert!(text_eq("abc", "abc"));
    assert!(!text_eq("abc", "abd"));
    assert!(!text_eq("abc", "ab"));
    assert_eq!(chars_of("héllo"), vec!['h', 'é', 'l', 'l', 'o']);
    assert!(contains_text("whole foods run", &chars_of("food")));
    assert!(contains_text("anything", &vec![]));
    assert!(!contains_text("foo", &chars_of("food")));
}
