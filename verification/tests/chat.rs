use cash_tracker::communication::telegram::{
    after_cash_lookup, after_expense_lookup, apology, finalization_failure_report,
    fulfilment_failure_report, help_failure_report, is_help_command, lookup_failure_report,
    replied_record, send_failure_report, session_context, Lookup, TelegramServiceError,
};
use cash_tracker::database::types::{CashTransaction, Expense};
use cash_tracker::database::DatabaseError;
use cash_tracker::request::types::{RecordContext, SessionContext};
use cash_tracker::request::RequestError;

fn expense() -> Expense {
    Expense {
        id: 12,
        user_id: 2,
        amount: 300,
        description: "milk".to_string(),
        category: "Grocery".to_string(),
        expense_date: "01/02/2024".to_string(),
        user_message_id: 10,
        bot_message_id: None,
        created_at: "2024-02-01 10:00:00".to_string(),
    }
}

fn cash() -> CashTransaction {
    CashTransaction {
        id: 5,
        user_id: 2,
        amount: -40,
        transaction_date: "03/02/2024".to_string(),
        user_message_id: 12,
        bot_message_id: None,
        created_at: "2024-02-03 10:00:00".to_string(),
    }
}

#[test]
fn help_is_asked_for_by_its_command_alone() {
    assert!(is_help_command("/help"));
    assert!(!is_help_command("/help "));
    assert!(!is_help_command("help"));
    assert!(!is_help_command("/HELP"));
    assert!(!is_help_command(""));
}

#[test]
fn reports_in_words() {
    assert_eq!(apology(), "Sorry, something went wrong processing your request.");
    assert_eq!(help_failure_report("not found"), "Failed to read help file: not found");
    assert_eq!(send_failure_report("blocked"), "Failed to send message: blocked");
    assert_eq!(
        lookup_failure_report(&DatabaseError::QueryError("locked".to_string())),
        "Database lookup error: Database query error: locked"
    );
    assert_eq!(
        finalization_failure_report(&RequestError::DatabaseError("locked".to_string())),
        "Finalization error: Database error: locked"
    );
    assert_eq!(
        fulfilment_failure_report(&RequestError::InitializationError),
        "Request fulfilment error: Initialization Error"
    );
    assert_eq!(TelegramServiceError::InitializationError.message(), "Initialization Error");
}

#[test]
fn lookup_among_the_expenses() {
    assert_eq!(
        after_expense_lookup(Ok(Some(expense()))),
        Lookup::Found(RecordContext::Expense(expense()))
    );
    assert_eq!(after_expense_lookup(Ok(None)), Lookup::TryCash);
    assert_eq!(
        after_expense_lookup(Err(DatabaseError::QueryError("locked".to_string()))),
        Lookup::Failed("Database lookup error: Database query error: locked".to_string())
    );
}

#[test]
fn lookup_among_the_cash_transactions() {
    assert_eq!(
        after_cash_lookup(Ok(Some(cash()))),
        Lookup::Found(RecordContext::CashTransaction(cash()))
    );
    assert_eq!(after_cash_lookup(Ok(None)), Lookup::NotFound);
    assert_eq!(
        after_cash_lookup(Err(DatabaseError::ConnectionError("down".to_string()))),
        Lookup::Failed("Database lookup error: Database connection error: down".to_string())
    );
}

#[test]
fn only_a_found_record_is_replied_to() {
    assert_eq!(
        replied_record(Lookup::Found(RecordContext::Expense(expense()))),
        Some(RecordContext::Expense(expense()))
    );
    assert_eq!(replied_record(Lookup::TryCash), None);
    assert_eq!(replied_record(Lookup::NotFound), None);
    assert_eq!(replied_record(Lookup::Failed("x".to_string())), None);
}

#[test]
fn context_of_a_message() {
    assert_eq!(
        session_context(-1001, i32::MAX, None),
        SessionContext { user_id: -1001, user_message_id: 2147483647, replied_record: None }
    );
    assert_eq!(
        session_context(5, -3, Some(RecordContext::CashTransaction(cash()))),
        SessionContext {
            user_id: 5,
            user_message_id: -3,
            replied_record: Some(RecordContext::CashTransaction(cash())),
        }
    );
}
