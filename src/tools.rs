//! The tools the server offers, and the rules that turn a tool's arguments
//! into a request to the expense service.
use vstd::prelude::*;

use crate::text::text_eq;
use crate::types::{CreateExpenseRequest, ExpenseShare};

verus! {

/// A tool that a client can call.
#[derive(Clone, Copy, Debug, PartialEq, Eq, Structural)]
pub enum Tool {
    GetCurrentUser,
    GetUser,
    ListGroups,
    GetGroup,
    CreateGroup,
    ListExpenses,
    GetExpense,
    CreateExpense,
    UpdateExpense,
    DeleteExpense,
    ListFriends,
    GetFriend,
    AddFriend,
    GetCurrencies,
    GetCategories,
}

/// The tool that a name selects, if any.
pub open spec fn tool_of(name: Seq<char>) -> Option<Tool> {
    if name == "get_current_user"@ {
        Some(Tool::GetCurrentUser)
    } else if name == "get_user"@ {
        Some(Tool::GetUser)
    } else if name == "list_groups"@ {
        Some(Tool::ListGroups)
    } else if name == "get_group"@ {
        Some(Tool::GetGroup)
    } else if name == "create_group"@ {
        Some(Tool::CreateGroup)
    } else if name == "list_expenses"@ {
        Some(Tool::ListExpenses)
    } else if name == "get_expense"@ {
        Some(Tool::GetExpense)
    } else if name == "create_expense"@ {
        Some(Tool::CreateExpense)
    } else if name == "update_expense"@ {
        Some(Tool::UpdateExpense)
    } else if name == "delete_expense"@ {
        Some(Tool::DeleteExpense)
    } else if name == "list_friends"@ {
        Some(Tool::ListFriends)
    } else if name == "get_friend"@ {
        Some(Tool::GetFriend)
    } else if name == "add_friend"@ {
        Some(Tool::AddFriend)
    } else if name == "get_currencies"@ {
        Some(Tool::GetCurrencies)
    } else if name == "get_categories"@ {
        Some(Tool::GetCategories)
    } else {
        None
    }
}

impl Tool {
    /// Reads a tool from its name; an unknown name gives `None`.
    pub fn from_name(name: &str) -> (r: Option<Tool>)
        ensures
            r == tool_of(name@),
    {
        if text_eq(name, "get_current_user") {
            Some(Tool::GetCurrentUser)
        } else if text_eq(name, "get_user") {
            Some(Tool::GetUser)
        } else if text_eq(name, "list_groups") {
            Some(Tool::ListGroups)
        } else if text_eq(name, "get_group") {
            Some(Tool::GetGroup)
        } else if text_eq(name, "create_group") {
            Some(Tool::CreateGroup)
        } else if text_eq(name, "list_expenses") {
            Some(Tool::ListExpenses)
        } else if text_eq(name, "get_expense") {
            Some(Tool::GetExpense)
        } else if text_eq(name, "create_expense") {
            Some(Tool::CreateExpense)
        } else if text_eq(name, "update_expense") {
            Some(Tool::UpdateExpense)
        } else if text_eq(name, "delete_expense") {
            Some(Tool::DeleteExpense)
        } else if text_eq(name, "list_friends") {
            Some(Tool::ListFriends)
        } else if text_eq(name, "get_friend") {
            Some(Tool::GetFriend)
        } else if text_eq(name, "add_friend") {
            Some(Tool::AddFriend)
        } else if text_eq(name, "get_currencies") {
            Some(Tool::GetCurrencies)
        } else if text_eq(name, "get_categories") {
            Some(Tool::GetCategories)
        } else {
            None
        }
    }
}

/// The arguments of the tool that creates an expense.
pub struct CreateExpenseArgs {
    pub cost: String,
    pub description: String,
    pub currency_code: Option<String>,
    pub group_id: Option<i64>,
    pub split_equally: Option<bool>,
    pub split_by_shares: Option<Vec<ExpenseShare>>,
    pub date: Option<String>,
    pub category_id: Option<i64>,
    pub details: Option<String>,
}

impl CreateExpenseArgs {
    /// The request that the tool sends: never a payment, never repeating;
    /// with custom shares the cost is not split equally, and without them it
    /// is unless the caller says otherwise.
    pub fn into_request(self) -> (r: CreateExpenseRequest)
        ensures
            r.cost == self.cost,
            r.description == self.description,
            r.currency_code == self.currency_code,
            r.category_id == self.category_id,
            r.date == self.date,
            r.repeat_interval is None,
            r.details == self.details,
            r.payment == Some(false),
            r.group_id == self.group_id,
            r.split_equally == if self.split_by_shares is Some {
                Some(false)
            } else {
                match self.split_equally {
                    Some(b) => Some(b),
                    None => Some(true),
                }
            },
            r.split_by_shares == self.split_by_shares,
    {
        let split_equally = if self.split_by_shares.is_some() {
            Some(false)
        } else {
            match self.split_equally {
                Some(b) => Some(b),
                None => Some(true),
            }
        };
        CreateExpenseRequest {
            cost: self.cost,
            description: self.description,
            currency_code: self.currency_code,
            category_id: self.category_id,
            date: self.date,
            repeat_interval: None,
            details: self.details,
            payment: Some(false),
            group_id: self.group_id,
            split_equally,
            split_by_shares: self.split_by_shares,
        }
    }
}

} // verus!
