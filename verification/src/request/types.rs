//! What a request is about and what came of it.

use crate::database::types::{CashTransaction, Expense};
use vstd::prelude::*;

verus! {

/// The kind of record a request created.
#[derive(Debug, Clone, Copy, PartialEq, Eq)]
pub enum ActionType {
    Expense,
    CashTransaction,
}

/// What is left to do once the answer to a request has been sent: the record
/// that the request created is to be tied to the message that answered it.
#[derive(Debug, Clone, PartialEq, Eq)]
pub struct FinalizeAction {
    pub record_id: i64,
    pub action_type: ActionType,
}

/// The outcome of a request: the answer, what is left to do, and a chart
/// where the answer has one.
#[derive(Debug, Clone, PartialEq, Eq)]
pub struct FulfilmentResult {
    pub response: String,
    pub finalize: Option<FinalizeAction>,
    pub image: Option<Vec<u8>>,
}

/// The record that the user replied to.
#[derive(Debug, Clone, PartialEq, Eq)]
pub enum RecordContext {
    Expense(Expense),
    CashTransaction(CashTransaction),
}

/// Who sent a request, with which message, and about which record.
#[derive(Debug, Clone, PartialEq, Eq)]
pub struct SessionContext {
    pub user_id: i64,
    pub user_message_id: i64,
    pub replied_record: Option<RecordContext>,
}

} // verus!
