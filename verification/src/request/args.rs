//! The arguments of the tools.

use vstd::prelude::*;

verus! {

/// Which expense to change, and each field that gets a new value.
#[derive(Debug, Clone, PartialEq, Eq)]
pub struct ModifyExpenseArgs {
    pub expense_id: i64,
    pub amount: Option<i64>,
    pub description: Option<String>,
    pub category: Option<String>,
    pub date: Option<String>,
}

/// Which expense to delete.
#[derive(Debug, PartialEq, Eq)]
pub struct DeleteExpenseArgs {
    pub expense_id: i64,
}

/// The period whose expenses are summed by category.
#[derive(Debug, PartialEq, Eq)]
pub struct GetExpenseBreakdownArgs {
    pub start_date: String,
    pub end_date: String,
}

/// The category and the period whose expenses are listed.
#[derive(Debug, PartialEq, Eq)]
pub struct GetCategoryExpensesArgs {
    pub category: String,
    pub start_date: String,
    pub end_date: String,
}

} // verus!
