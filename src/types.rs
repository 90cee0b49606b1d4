use std::collections::HashMap;
use vstd::prelude::*;

verus! {

/// An account of the expense service.
#[derive(Clone, Debug)]
pub struct User {
    pub id: i64,
    pub first_name: String,
    pub last_name: Option<String>,
    pub email: String,
    pub registration_status: Option<String>,
    pub picture: Option<Picture>,
    pub default_currency: Option<String>,
    pub locale: Option<String>,
}

/// Links to the sizes of a profile picture.
#[derive(Clone, Debug)]
pub struct Picture {
    pub small: Option<String>,
    pub medium: Option<String>,
    pub large: Option<String>,
}

/// A member of a group, with the member's balances in it.
#[derive(Clone, Debug)]
pub struct GroupMember {
    pub id: i64,
    pub first_name: String,
    pub last_name: Option<String>,
    pub email: Option<String>,
    pub registration_status: Option<String>,
    pub picture: Option<Picture>,
    pub balance: Vec<Balance>,
}

/// An amount owed or owing in one currency.
#[derive(Clone, Debug)]
pub struct Balance {
    pub currency_code: String,
    pub amount: String,
}

/// A debt between two users in a group.
#[derive(Clone, Debug)]
pub struct Debt {
    pub from: i64,
    pub to: i64,
    pub amount: String,
    pub currency_code: String,
}

/// One expense record, as the service returns it. Read-only once fetched.
#[derive(Clone, Debug)]
pub struct Expense {
    pub id: i64,
    pub group_id: Option<i64>,
    pub friendship_id: Option<i64>,
    pub expense_bundle_id: Option<i64>,
    pub description: String,
    pub repeats: bool,
    pub repeat_interval: Option<String>,
    pub email_reminder: bool,
    pub email_reminder_in_advance: Option<i32>,
    pub next_repeat: Option<String>,
    pub details: Option<String>,
    pub comments_count: i32,
    pub payment: bool,
    pub creation_method: Option<String>,
    pub transaction_method: Option<String>,
    pub transaction_confirmed: bool,
    pub transaction_id: Option<String>,
    pub transaction_status: Option<String>,
    pub cost: String,
    pub currency_code: String,
    pub repayments: Vec<Repayment>,
    pub date: String,
    pub created_at: String,
    pub created_by: UserReference,
    pub updated_at: String,
    pub updated_by: Option<UserReference>,
    pub deleted_at: Option<String>,
    pub deleted_by: Option<UserReference>,
    pub category: Category,
    pub receipt: Receipt,
    pub users: Vec<ExpenseUser>,
}

/// A short reference to a user inside an expense.
#[derive(Clone, Debug)]
pub struct UserReference {
    pub id: i64,
    pub first_name: String,
    pub last_name: Option<String>,
    pub picture: Option<Picture>,
}

/// The category of an expense.
#[derive(Clone, Debug)]
pub struct Category {
    pub id: i64,
    pub name: String,
    pub icon: Option<String>,
    pub subcategories: Option<Vec<Subcategory>>,
}

/// A subcategory of a category.
#[derive(Clone, Debug)]
pub struct Subcategory {
    pub id: i64,
    pub name: String,
    pub icon: Option<String>,
}

/// Links to the receipt image of an expense.
#[derive(Clone, Debug)]
pub struct Receipt {
    pub original: Option<String>,
    pub large: Option<String>,
}

/// The share of one user in an expense.
#[derive(Clone, Debug)]
pub struct ExpenseUser {
    pub user_id: i64,
    pub user: Option<UserReference>,
    pub paid_share: String,
    pub owed_share: String,
    pub net_balance: String,
}

/// A flow of money that settles part of an expense.
#[derive(Clone, Debug)]
pub struct Repayment {
    pub from: i64,
    pub to: i64,
    pub amount: String,
}

/// A friend of the current user, with balances.
#[derive(Clone, Debug)]
pub struct Friend {
    pub id: i64,
    pub first_name: String,
    pub last_name: Option<String>,
    pub email: Option<String>,
    pub registration_status: Option<String>,
    pub picture: Option<Picture>,
    pub balance: Vec<Balance>,
    pub groups: Vec<FriendGroup>,
    pub updated_at: String,
}

/// A group shared with a friend, and the balance in it.
#[derive(Clone, Debug)]
pub struct FriendGroup {
    pub group_id: i64,
    pub balance: Vec<Balance>,
}

/// A currency the service knows.
#[derive(Clone, Debug)]
pub struct Currency {
    pub currency_code: String,
    pub unit: String,
}

/// What is needed to create an expense.
#[derive(Clone, Debug)]
pub struct CreateExpenseRequest {
    pub cost: String,
    pub description: String,
    pub currency_code: Option<String>,
    pub category_id: Option<i64>,
    pub date: Option<String>,
    pub repeat_interval: Option<String>,
    pub details: Option<String>,
    pub payment: Option<bool>,
    pub group_id: Option<i64>,
    pub split_equally: Option<bool>,
    pub split_by_shares: Option<Vec<ExpenseShare>>,
}

/// The changes to make to an expense; absent fields stay as they are.
#[derive(Clone, Debug)]
pub struct UpdateExpenseRequest {
    pub cost: Option<String>,
    pub description: Option<String>,
    pub currency_code: Option<String>,
    pub category_id: Option<i64>,
    pub date: Option<String>,
    pub details: Option<String>,
    pub payment: Option<bool>,
    pub group_id: Option<i64>,
    pub split_equally: Option<bool>,
    pub split_by_shares: Option<Vec<ExpenseShare>>,
}

/// How much one user paid and owes in an expense with custom shares.
#[derive(Clone, Debug)]
pub struct ExpenseShare {
    pub user_id: Option<i64>,
    pub email: Option<String>,
    pub first_name: Option<String>,
    pub last_name: Option<String>,
    pub paid_share: String,
    pub owed_share: String,
}

/// What is needed to create a group.
#[derive(Clone, Debug)]
pub struct CreateGroupRequest {
    pub name: String,
    pub group_type: Option<String>,
    pub simplify_by_default: Option<bool>,
    pub users: Vec<GroupUserInput>,
}

/// A user to put into a group, by id or by name and email.
#[derive(Clone, Debug)]
pub struct GroupUserInput {
    pub user_id: Option<i64>,
    pub first_name: Option<String>,
    pub last_name: Option<String>,
    pub email: Option<String>,
}

/// The changes to make to a user; absent fields stay as they are.
#[derive(Clone, Debug)]
pub struct UpdateUserRequest {
    pub first_name: Option<String>,
    pub last_name: Option<String>,
    pub email: Option<String>,
    pub password: Option<String>,
    pub locale: Option<String>,
    pub default_currency: Option<String>,
}

/// The filters that the service applies itself when listing expenses, and its paging.
#[derive(Clone, Debug, Default)]
pub struct ListExpensesParams {
    pub group_id: Option<i64>,
    pub friend_id: Option<i64>,
    pub dated_after: Option<String>,
    pub dated_before: Option<String>,
    pub updated_after: Option<String>,
    pub updated_before: Option<String>,
    pub limit: Option<i32>,
    pub offset: Option<i32>,
}

/// The error body of the service: messages by field.
#[derive(Clone, Debug)]
pub struct ApiError {
    pub errors: HashMap<String, Vec<String>>,
}

/// The body of a call that only reports success.
#[derive(Clone, Debug)]
pub struct SuccessResponse {
    pub success: bool,
    pub errors: Option<Vec<String>>,
}

} // verus!
