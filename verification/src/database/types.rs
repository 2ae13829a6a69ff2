//! The records the assistant keeps, and how each is read from a table row.

use super::DatabaseError;
use vstd::prelude::*;

verus! {

/// One recorded expense.
#[derive(Debug, Clone, PartialEq, Eq)]
pub struct Expense {
    pub id: i64,
    pub user_id: i64,
    pub amount: i64,
    pub description: String,
    pub category: String,
    pub expense_date: String,
    pub user_message_id: i64,
    pub bot_message_id: Option<i64>,
    pub created_at: String,
}

/// One recorded change of the cash balance.
#[derive(Debug, Clone, PartialEq, Eq)]
pub struct CashTransaction {
    pub id: i64,
    pub user_id: i64,
    pub amount: i64,
    pub transaction_date: String,
    pub user_message_id: i64,
    pub bot_message_id: Option<i64>,
    pub created_at: String,
}

/// What was spent in one category.
#[derive(Debug, Clone, PartialEq, Eq)]
pub struct CategorySummary {
    pub category: String,
    pub total: i64,
}

/// The columns of an expense row as they were read: each is its value, or
/// the text of the error that reading it gave.
#[derive(Debug, PartialEq, Eq)]
pub struct ExpenseRow {
    pub id: Result<i64, String>,
    pub user_id: Result<i64, String>,
    pub amount: Result<i64, String>,
    pub description: Result<String, String>,
    pub category: Result<String, String>,
    pub expense_date: Result<String, String>,
    pub user_message_id: Result<i64, String>,
    pub bot_message_id: Result<Option<i64>, String>,
    pub created_at: Result<String, String>,
}

/// The columns of a cash transaction row as they were read.
#[derive(Debug, PartialEq, Eq)]
pub struct CashTransactionRow {
    pub id: Result<i64, String>,
    pub user_id: Result<i64, String>,
    pub amount: Result<i64, String>,
    pub transaction_date: Result<String, String>,
    pub user_message_id: Result<i64, String>,
    pub bot_message_id: Result<Option<i64>, String>,
    pub created_at: Result<String, String>,
}

/// The columns of a category summary row as they were read.
#[derive(Debug, PartialEq, Eq)]
pub struct CategorySummaryRow {
    pub category: Result<String, String>,
    pub total: Result<i64, String>,
}

impl Expense {
    /// The expense a row holds: the query error of the first column, in table
    /// order, that could not be read, or else the record of all nine values.
    pub open spec fn row_value(row: ExpenseRow) -> Result<Expense, DatabaseError> {
        if row.id is Err {
            Err(DatabaseError::QueryError(row.id->Err_0))
        } else if row.user_id is Err {
            Err(DatabaseError::QueryError(row.user_id->Err_0))
        } else if row.amount is Err {
            Err(DatabaseError::QueryError(row.amount->Err_0))
        } else if row.description is Err {
            Err(DatabaseError::QueryError(row.description->Err_0))
        } else if row.category is Err {
            Err(DatabaseError::QueryError(row.category->Err_0))
        } else if row.expense_date is Err {
            Err(DatabaseError::QueryError(row.expense_date->Err_0))
        } else if row.user_message_id is Err {
            Err(DatabaseError::QueryError(row.user_message_id->Err_0))
        } else if row.bot_message_id is Err {
            Err(DatabaseError::QueryError(row.bot_message_id->Err_0))
        } else if row.created_at is Err {
            Err(DatabaseError::QueryError(row.created_at->Err_0))
        } else {
            Ok(
                Expense {
                    id: row.id->Ok_0,
                    user_id: row.user_id->Ok_0,
                    amount: row.amount->Ok_0,
                    description: row.description->Ok_0,
                    category: row.category->Ok_0,
                    expense_date: row.expense_date->Ok_0,
                    user_message_id: row.user_message_id->Ok_0,
                    bot_message_id: row.bot_message_id->Ok_0,
                    created_at: row.created_at->Ok_0,
                },
            )
        }
    }

    /// Reads an expense from the columns of its row.
    pub fn from_row(row: ExpenseRow) -> (read: Result<Expense, DatabaseError>)
        ensures
            read == Expense::row_value(row),
    {
        let id = match row.id {
            Ok(value) => value,
            Err(text) => return Err(DatabaseError::QueryError(text)),
        };
        let user_id = match row.user_id {
            Ok(value) => value,
            Err(text) => return Err(DatabaseError::QueryError(text)),
        };
        let amount = match row.amount {
            Ok(value) => value,
            Err(text) => return Err(DatabaseError::QueryError(text)),
        };
        let description = match row.description {
            Ok(value) => value,
            Err(text) => return Err(DatabaseError::QueryError(text)),
        };
        let category = match row.category {
            Ok(value) => value,
            Err(text) => return Err(DatabaseError::QueryError(text)),
        };
        let expense_date = match row.expense_date {
            Ok(value) => value,
            Err(text) => return Err(DatabaseError::QueryError(text)),
        };
        let user_message_id = match row.user_message_id {
            Ok(value) => value,
            Err(text) => return Err(DatabaseError::QueryError(text)),
        };
        let bot_message_id = match row.bot_message_id {
            Ok(value) => value,
            Err(text) => return Err(DatabaseError::QueryError(text)),
        };
        let created_at = match row.created_at {
            Ok(value) => value,
            Err(text) => return Err(DatabaseError::QueryError(text)),
        };
        Ok(
            Expense {
                id,
                user_id,
                amount,
                description,
                category,
                expense_date,
                user_message_id,
                bot_message_id,
                created_at,
            },
        )
    }
}

impl CashTransaction {
    /// The transaction a row holds: the query error of the first column, in
    /// table order, that could not be read, or else the record of all seven
    /// values.
    pub open spec fn row_value(row: CashTransactionRow) -> Result<CashTransaction, DatabaseError> {
        if row.id is Err {
            Err(DatabaseError::QueryError(row.id->Err_0))
        } else if row.user_id is Err {
            Err(DatabaseError::QueryError(row.user_id->Err_0))
        } else if row.amount is Err {
            Err(DatabaseError::QueryError(row.amount->Err_0))
        } else if row.transaction_date is Err {
            Err(DatabaseError::QueryError(row.transaction_date->Err_0))
        } else if row.user_message_id is Err {
            Err(DatabaseError::QueryError(row.user_message_id->Err_0))
        } else if row.bot_message_id is Err {
            Err(DatabaseError::QueryError(row.bot_message_id->Err_0))
        } else if row.created_at is Err {
            Err(DatabaseError::QueryError(row.created_at->Err_0))
        } else {
            Ok(
                CashTransaction {
                    id: row.id->Ok_0,
                    user_id: row.user_id->Ok_0,
                    amount: row.amount->Ok_0,
                    transaction_date: row.transaction_date->Ok_0,
                    user_message_id: row.user_message_id->Ok_0,
                    bot_message_id: row.bot_message_id->Ok_0,
                    created_at: row.created_at->Ok_0,
                },
            )
        }
    }

    /// Reads a cash transaction from the columns of its row.
    pub fn from_row(row: CashTransactionRow) -> (read: Result<CashTransaction, DatabaseError>)
        ensures
            read == CashTransaction::row_value(row),
    {
        let id = match row.id {
            Ok(value) => value,
            Err(text) => return Err(DatabaseError::QueryError(text)),
        };
        let user_id = match row.user_id {
            Ok(value) => value,
            Err(text) => return Err(DatabaseError::QueryError(text)),
        };
        let amount = match row.amount {
            Ok(value) => value,
            Err(text) => return Err(DatabaseError::QueryError(text)),
        };
        let transaction_date = match row.transaction_date {
            Ok(value) => value,
            Err(text) => return Err(DatabaseError::QueryError(text)),
        };
        let user_message_id = match row.user_message_id {
            Ok(value) => value,
            Err(text) => return Err(DatabaseError::QueryError(text)),
        };
        let bot_message_id = match row.bot_message_id {
            Ok(value) => value,
            Err(text) => return Err(DatabaseError::QueryError(text)),
        };
        let created_at = match row.created_at {
            Ok(value) => value,
            Err(text) => return Err(DatabaseError::QueryError(text)),
        };
        Ok(
            CashTransaction {
                id,
                user_id,
                amount,
                transaction_date,
                user_message_id,
                bot_message_id,
                created_at,
            },
        )
    }
}

impl CategorySummary {
    /// The summary a row holds: the query error of the first column that
    /// could not be read, or else the record of both values.
    pub open spec fn row_value(row: CategorySummaryRow) -> Result<CategorySummary, DatabaseError> {
        if row.category is Err {
            Err(DatabaseError::QueryError(row.category->Err_0))
        } else if row.total is Err {
            Err(DatabaseError::QueryError(row.total->Err_0))
        } else {
            Ok(CategorySummary { category: row.category->Ok_0, total: row.total->Ok_0 })
        }
    }

    /// Reads a category summary from the columns of its row.
    pub fn from_row(row: CategorySummaryRow) -> (read: Result<CategorySummary, DatabaseError>)
        ensures
            read == CategorySummary::row_value(row),
    {
        let category = match row.category {
            Ok(value) => value,
            Err(text) => return Err(DatabaseError::QueryError(text)),
        };
        let total = match row.total {
            Ok(value) => value,
            Err(text) => return Err(DatabaseError::QueryError(text)),
        };
        Ok(CategorySummary { category, total })
    }
}

} // verus!
