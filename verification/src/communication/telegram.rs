//! The decisions of the chat service: what a message asks for, which record
//! it is about, and what is reported when something fails.

use crate::database::types::{CashTransaction, Expense};
use crate::database::DatabaseError;
use crate::request::types::{RecordContext, SessionContext};
use crate::request::RequestError;
use vstd::prelude::*;
use vstd::string::*;

verus! {

/// Why the chat service could not start.
#[derive(Debug, Clone, PartialEq, Eq)]
pub enum TelegramServiceError {
    /// The parts that fulfil requests could not be set up.
    InitializationError,
}

impl TelegramServiceError {
    /// The text of the error.
    pub open spec fn text(&self) -> Seq<char> {
        "Initialization Error"@
    }

    /// Writes the error out.
    pub fn message(&self) -> (text: String)
        ensures
            text@ == self.text(),
    {
        String::from_str("Initialization Error")
    }
}

/// Tells whether a message asks for the help text.
pub fn is_help_command(text: &str) -> (help: bool)
    ensures
        help == (text@ == "/help"@),
{
    text.eq("/help")
}

/// What to say to a user whose request could not be fulfilled.
pub fn apology() -> (text: String)
    ensures
        text@ == "Sorry, something went wrong processing your request."@,
{
    String::from_str("Sorry, something went wrong processing your request.")
}

/// The report of a help text that could not be read.
pub fn help_failure_report(detail: &str) -> (report: String)
    ensures
        report@ == "Failed to read help file: "@ + detail@,
{
    String::from_str("Failed to read help file: ").concat(detail)
}

/// The report of a lookup that the database refused.
pub fn lookup_failure_report(error: &DatabaseError) -> (report: String)
    ensures
        report@ == "Database lookup error: "@ + error.text(),
{
    String::from_str("Database lookup error: ").concat(error.message().as_str())
}

/// The report of an answer that could not be tied to its record.
pub fn finalization_failure_report(error: &RequestError) -> (report: String)
    ensures
        report@ == "Finalization error: "@ + error.text(),
{
    String::from_str("Finalization error: ").concat(error.message().as_str())
}

/// The report of an answer that could not be sent.
pub fn send_failure_report(detail: &str) -> (report: String)
    ensures
        report@ == "Failed to send message: "@ + detail@,
{
    String::from_str("Failed to send message: ").concat(detail)
}

/// The report of a request that could not be fulfilled.
pub fn fulfilment_failure_report(error: &RequestError) -> (report: String)
    ensures
        report@ == "Request fulfilment error: "@ + error.text(),
{
    String::from_str("Request fulfilment error: ").concat(error.message().as_str())
}

/// Where the search for the record that a message replies to stands.
#[derive(Debug, Clone, PartialEq, Eq)]
pub enum Lookup {
    /// The message replies to this record.
    Found(RecordContext),
    /// No expense goes with the message: look among the cash transactions.
    TryCash,
    /// No record goes with the message.
    NotFound,
    /// The database refused the lookup; this is to be reported, and the
    /// message is handled as one that replies to no record.
    Failed(String),
}

/// What the lookup among the expenses came to.
pub fn after_expense_lookup(found: Result<Option<Expense>, DatabaseError>) -> (lookup: Lookup)
    ensures
        match found {
            Ok(Some(expense)) => lookup == Lookup::Found(RecordContext::Expense(expense)),
            Ok(None) => lookup == Lookup::TryCash,
            Err(error) => lookup matches Lookup::Failed(report) && report@
                == "Database lookup error: "@ + error.text(),
        },
{
    match found {
        Ok(Some(expense)) => Lookup::Found(RecordContext::Expense(expense)),
        Ok(None) => Lookup::TryCash,
        Err(error) => Lookup::Failed(lookup_failure_report(&error)),
    }
}

/// What the lookup among the cash transactions came to.
pub fn after_cash_lookup(found: Result<Option<CashTransaction>, DatabaseError>) -> (lookup: Lookup)
    ensures
        match found {
            Ok(Some(cash)) => lookup == Lookup::Found(RecordContext::CashTransaction(cash)),
            Ok(None) => lookup == Lookup::NotFound,
            Err(error) => lookup matches Lookup::Failed(report) && report@
                == "Database lookup error: "@ + error.text(),
        },
{
    match found {
        Ok(Some(cash)) => Lookup::Found(RecordContext::CashTransaction(cash)),
        Ok(None) => Lookup::NotFound,
        Err(error) => Lookup::Failed(lookup_failure_report(&error)),
    }
}

/// The record that a finished lookup found, if any.
pub fn replied_record(lookup: Lookup) -> (record: Option<RecordContext>)
    ensures
        record == match lookup {
            Lookup::Found(found) => Some(found),
            _ => None::<RecordContext>,
        },
{
    match lookup {
        Lookup::Found(found) => Some(found),
        _ => None,
    }
}

/// The context of a message: the chat is the user, and the ids of messages
/// are widened to the ids that the records keep.
pub fn session_context(chat_id: i64, message_id: i32, replied_record: Option<RecordContext>) -> (
    context: SessionContext
)
    ensures
        context.user_id == chat_id,
        context.user_message_id == message_id,
        context.replied_record == replied_record,
{
    SessionContext { user_id: chat_id, user_message_id: message_id as i64, replied_record }
}

} // verus!
