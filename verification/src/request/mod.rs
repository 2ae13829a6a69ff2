//! Turning a user's message into a change of the records and an answer.

use vstd::prelude::*;
use vstd::string::*;

pub mod args;
pub mod llm;
pub mod tools;
pub mod types;
pub mod visualization;

use crate::text::{integer_to_text, join, joined, numeral};
use llm::LLMError;
use tools::ToolError;
use types::{ActionType, FinalizeAction, FulfilmentResult, RecordContext};

verus! {

/// Why a request could not be fulfilled.
#[derive(Debug, Clone, PartialEq, Eq)]
pub enum RequestError {
    /// The parts that fulfil requests could not be set up.
    InitializationError,
    /// The language model gave no usable answer.
    LLMError(LLMError),
    /// The tool that the model asked for could not be run.
    ToolError(ToolError),
    /// The database refused a statement.
    DatabaseError(String),
}

impl RequestError {
    /// The text of the error.
    pub open spec fn text(&self) -> Seq<char> {
        match *self {
            RequestError::InitializationError => "Initialization Error"@,
            RequestError::LLMError(cause) => "LLM Error: "@ + cause.text(),
            RequestError::ToolError(cause) => "Tool Execution Error: "@ + cause.text(),
            RequestError::DatabaseError(detail) => "Database error: "@ + detail@,
        }
    }

    /// Writes the error out.
    pub fn message(&self) -> (text: String)
        ensures
            text@ == self.text(),
    {
        match self {
            RequestError::InitializationError => String::from_str("Initialization Error"),
            RequestError::LLMError(cause) => {
                let detail = cause.message();
                String::from_str("LLM Error: ").concat(detail.as_str())
            },
            RequestError::ToolError(cause) => {
                let detail = cause.message();
                String::from_str("Tool Execution Error: ").concat(detail.as_str())
            },
            RequestError::DatabaseError(detail) => String::from_str("Database error: ").concat(
                detail.as_str(),
            ),
        }
    }
}

impl From<LLMError> for RequestError {
    fn from(cause: LLMError) -> (error: RequestError) {
        RequestError::LLMError(cause)
    }
}

impl vstd::std_specs::convert::FromSpecImpl<LLMError> for RequestError {
    open spec fn obeys_from_spec() -> bool {
        true
    }

    open spec fn from_spec(cause: LLMError) -> RequestError {
        RequestError::LLMError(cause)
    }
}

impl From<ToolError> for RequestError {
    fn from(cause: ToolError) -> (error: RequestError) {
        RequestError::ToolError(cause)
    }
}

impl vstd::std_specs::convert::FromSpecImpl<ToolError> for RequestError {
    open spec fn obeys_from_spec() -> bool {
        true
    }

    open spec fn from_spec(cause: ToolError) -> RequestError {
        RequestError::ToolError(cause)
    }
}

/// How the record that the user replied to is put before the language
/// model.
pub open spec fn record_context_text(record: RecordContext) -> Seq<char> {
    match record {
        RecordContext::Expense(expense) =>
            "CONTEXT: The user is replying about an existing expense:\n- Expense ID: "@
            + numeral(expense.id as int) + "\n- Amount: ₹"@ + numeral(expense.amount as int)
            + "\n- Description: "@ + expense.description@ + "\n- Category: "@
            + expense.category@ + "\n- Date: "@ + expense.expense_date@,
        RecordContext::CashTransaction(cash) =>
            "CONTEXT: The user is replying about an existing cash transaction:\n- Transaction ID: "@
            + numeral(cash.id as int) + "\n- Amount: ₹"@ + numeral(cash.amount as int)
            + "\n- Date: "@ + cash.transaction_date@,
    }
}

/// Writes out the record that the user replied to, for the language model.
pub fn format_record_context(record: &RecordContext) -> (text: String)
    ensures
        text@ == record_context_text(*record),
{
    match record {
        RecordContext::Expense(expense) => {
            let mut text = String::from_str(
                "CONTEXT: The user is replying about an existing expense:\n- Expense ID: ",
            );
            text.append(integer_to_text(expense.id as i128).as_str());
            text.append("\n- Amount: ₹");
            text.append(integer_to_text(expense.amount as i128).as_str());
            text.append("\n- Description: ");
            text.append(expense.description.as_str());
            text.append("\n- Category: ");
            text.append(expense.category.as_str());
            text.append("\n- Date: ");
            text.append(expense.expense_date.as_str());
            text
        },
        RecordContext::CashTransaction(cash) => {
            let mut text = String::from_str(
                "CONTEXT: The user is replying about an existing cash transaction:\n- Transaction ID: ",
            );
            text.append(integer_to_text(cash.id as i128).as_str());
            text.append("\n- Amount: ₹");
            text.append(integer_to_text(cash.amount as i128).as_str());
            text.append("\n- Date: ");
            text.append(cash.transaction_date.as_str());
            text
        },
    }
}

/// How the user's categories are put before the language model.
pub open spec fn categories_text(categories: Seq<Seq<char>>) -> Seq<char> {
    "AVAILABLE CATEGORIES: "@ + joined(categories, ", "@)
        + "\nPrefer using existing categories when appropriate. Only create new categories if the expense doesn't fit any existing one."@
}

/// The parts of what the language model is asked, in order: the user's
/// categories, where there are any; the record that the user replied to,
/// where there is one; and the user's own words.
pub open spec fn request_parts(
    categories: Seq<Seq<char>>,
    replied_record: Option<RecordContext>,
    request: Seq<char>,
) -> Seq<Seq<char>> {
    let known = if categories.len() > 0 {
        seq![categories_text(categories)]
    } else {
        Seq::empty()
    };
    let replied = match replied_record {
        Some(record) => seq![record_context_text(record)],
        None => Seq::empty(),
    };
    known + replied + seq!["User request: "@ + request]
}

/// Writes what the language model is asked: the parts of
/// [`request_parts`], with an empty line between each two.
pub fn compose_request(
    categories: &Vec<String>,
    replied_record: &Option<RecordContext>,
    request: &str,
) -> (text: String)
    ensures
        text@ == joined(
            request_parts(categories.deep_view(), *replied_record, request@),
            "\n\n"@,
        ),
{
    let mut parts: Vec<String> = Vec::new();
    if categories.len() > 0 {
        let mut known = String::from_str("AVAILABLE CATEGORIES: ");
        known.append(join(categories, ", ").as_str());
        known.append(
            "\nPrefer using existing categories when appropriate. Only create new categories if the expense doesn't fit any existing one.",
        );
        parts.push(known);
    }
    match replied_record {
        Some(record) => {
            parts.push(format_record_context(record));
        },
        None => {},
    }
    let mut own = String::from_str("User request: ");
    own.append(request);
    parts.push(own);
    assert(parts.deep_view() =~= request_parts(
        categories.deep_view(),
        *replied_record,
        request@,
    ));
    join(&parts, "\n\n")
}

/// What is left to do after a tool has run: a record that the tool created
/// is to be tied to the answer. Only the tools that add a record leave
/// anything to do, and only where they return its id.
pub open spec fn finalize_after(tool_name: Seq<char>, record_id: Option<i64>) -> Option<
    FinalizeAction,
> {
    match record_id {
        Some(id) => if tool_name == "add_cash"@ {
            Some(FinalizeAction { record_id: id, action_type: ActionType::CashTransaction })
        } else if tool_name == "add_expense"@ {
            Some(FinalizeAction { record_id: id, action_type: ActionType::Expense })
        } else {
            None
        },
        None => None,
    }
}

/// Decides what is left to do after the tool `tool_name` has run and
/// returned `record_id`.
pub fn finalize_action(tool_name: &str, record_id: Option<i64>) -> (action: Option<FinalizeAction>)
    ensures
        action == finalize_after(tool_name@, record_id),
{
    match record_id {
        Some(id) => {
            if tool_name.eq("add_cash") {
                Some(FinalizeAction { record_id: id, action_type: ActionType::CashTransaction })
            } else if tool_name.eq("add_expense") {
                Some(FinalizeAction { record_id: id, action_type: ActionType::Expense })
            } else {
                None
            }
        },
        None => None,
    }
}

/// The outcome of a request for which the language model asked for no tool.
pub fn no_action() -> (result: FulfilmentResult)
    ensures
        result.response@ == "No action taken"@,
        result.finalize is None,
        result.image is None,
{
    FulfilmentResult { response: String::from_str("No action taken"), finalize: None, image: None }
}

/// The outcome of a request whose tool `tool_name` has run and returned the
/// id of a record, an answer and a chart.
pub fn fulfilled(
    tool_name: &str,
    record_id: Option<i64>,
    response: String,
    image: Option<Vec<u8>>,
) -> (result: FulfilmentResult)
    ensures
        result.response == response,
        result.finalize == finalize_after(tool_name@, record_id),
        result.image == image,
{
    FulfilmentResult { response, finalize: finalize_action(tool_name, record_id), image }
}

} // verus!
