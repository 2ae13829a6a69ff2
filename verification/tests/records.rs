use cash_tracker::configuration::{Config, ConfigError, TelegramConfig};
use cash_tracker::database::types::{
    CashTransaction, CashTransactionRow, CategorySummary, CategorySummaryRow, Expense, ExpenseRow,
};
use cash_tracker::database::{
    category_cache, contains_text, modify_expense_statement, remember_category,
    remember_category_given, with_category, DatabaseError, SqlValue, Statement,
    CATEGORY_CACHE_CAPACITY, DEFAULT_CATEGORY_CACHE_TTL,
};
use cash_tracker::request::args::ModifyExpenseArgs;
use cash_tracker::resilience::cache::ExpirableCache;
use cash_tracker::AppError;

fn list(items: &[&str]) -> Vec<String> {
    items.iter().map(|s| s.to_string()).collect()
}

fn expense_row() -> ExpenseRow {
    ExpenseRow {
        id: Ok(1),
        user_id: Ok(2),
        amount: Ok(300),
        description: Ok("milk".to_string()),
        category: Ok("Grocery".to_string()),
        expense_date: Ok("01/02/2024".to_string()),
        user_message_id: Ok(10),
        bot_message_id: Ok(Some(11)),
        created_at: Ok("2024-02-01 10:00:00".to_string()),
    }
}

fn cash_row() -> CashTransactionRow {
    CashTransactionRow {
        id: Ok(5),
        user_id: Ok(2),
        amount: Ok(-40),
        transaction_date: Ok("03/02/2024".to_string()),
        user_message_id: Ok(12),
        bot_message_id: Ok(None),
        created_at: Ok("2024-02-03 10:00:00".to_string()),
    }
}

#[test]
fn expense_from_a_row() {
    assert_eq!(
        Expense::from_row(expense_row()),
        Ok(Expense {
            id: 1,
            user_id: 2,
            amount: 300,
            description: "milk".to_string(),
            category: "Grocery".to_string(),
            expense_date: "01/02/2024".to_string(),
            user_message_id: 10,
            bot_message_id: Some(11),
            created_at: "2024-02-01 10:00:00".to_string(),
        })
    );
}

#[test]
fn expense_from_a_row_with_a_column_that_failed() {
    let mut row = expense_row();
    row.category = Err("invalid column type".to_string());
    assert_eq!(
        Expense::from_row(row),
        Err(DatabaseError::QueryError("invalid column type".to_string()))
    );
}

#[test]
fn expense_from_a_row_reports_the_first_column_that_failed() {
    let mut row = expense_row();
    row.created_at = Err("last".to_string());
    row.amount = Err("third".to_string());
    row.bot_message_id = Err("eighth".to_string());
    assert_eq!(Expense::from_row(row), Err(DatabaseError::QueryError("third".to_string())));
    let mut row = expense_row();
    row.id = Err("first".to_string());
    row.user_id = Err("second".to_string());
    assert_eq!(Expense::from_row(row), Err(DatabaseError::QueryError("first".to_string())));
    let mut row = expense_row();
    row.created_at = Err("last".to_string());
    assert_eq!(Expense::from_row(row), Err(DatabaseError::QueryError("last".to_string())));
}

#[test]
fn cash_transaction_from_a_row() {
    assert_eq!(
        CashTransaction::from_row(cash_row()),
        Ok(CashTransaction {
            id: 5,
            user_id: 2,
            amount: -40,
            transaction_date: "03/02/2024".to_string(),
            user_message_id: 12,
            bot_message_id: None,
            created_at: "2024-02-03 10:00:00".to_string(),
        })
    );
    let mut row = cash_row();
    row.user_message_id = Err("fifth".to_string());
    row.created_at = Err("seventh".to_string());
    assert_eq!(
        CashTransaction::from_row(row),
        Err(DatabaseError::QueryError("fifth".to_string()))
    );
}

#[test]
fn category_summary_from_a_row() {
    assert_eq!(
        CategorySummary::from_row(CategorySummaryRow {
            category: Ok("Food".to_string()),
            total: Ok(120)
        }),
        Ok(CategorySummary { category: "Food".to_string(), total: 120 })
    );
    assert_eq!(
        CategorySummary::from_row(CategorySummaryRow {
            category: Err("no text".to_string()),
            total: Err("no number".to_string())
        }),
        Err(DatabaseError::QueryError("no text".to_string()))
    );
    assert_eq!(
        CategorySummary::from_row(CategorySummaryRow {
            category: Ok("Food".to_string()),
            total: Err("no number".to_string())
        }),
        Err(DatabaseError::QueryError("no number".to_string()))
    );
}

#[test]
fn database_errors_in_words() {
    assert_eq!(
        DatabaseError::DatabaseBuildError("bad url".to_string()).message(),
        "Error building init database:bad url"
    );
    assert_eq!(
        DatabaseError::ConnectionError("refused".to_string()).message(),
        "Database connection error: refused"
    );
    assert_eq!(
        DatabaseError::QueryError("syntax".to_string()).message(),
        "Database query error: syntax"
    );
}

#[test]
fn config_errors_in_words() {
    assert_eq!(ConfigError::FileError.message(), "File read error");
    assert_eq!(
        ConfigError::DeserializationError("missing field".to_string()).message(),
        "Deserialization error:missing field"
    );
    assert_eq!(ConfigError::DatabaseServiceInitError.message(), "Database init error");
}

#[test]
fn app_errors_in_words() {
    assert_eq!(AppError::ConfigError("File read error".to_string()).message(), "Config Error:File read error");
    assert_eq!(AppError::ServiceError.message(), "Service error");
}

#[test]
fn settings_hold_their_fields() {
    let config = Config {
        log_level: "info".to_string(),
        db_url: "libsql://example".to_string(),
        telegram: TelegramConfig {
            price_alert_subscribers: vec![1, 2],
            error_channel_id: -100,
            admin_telegram_id: "admin".to_string(),
        },
    };
    assert_eq!(config.clone(), config);
    assert_eq!(config.telegram.price_alert_subscribers, vec![1, 2]);
}

#[test]
fn the_category_cache_as_it_starts() {
    assert_eq!(CATEGORY_CACHE_CAPACITY, 10);
    assert_eq!(DEFAULT_CATEGORY_CACHE_TTL, 2_592_000);
    let mut cache = category_cache();
    assert_eq!(cache.get(&1), None);
    cache.insert(1, list(&["Food"]));
    assert_eq!(cache.get(&1), Some(list(&["Food"])));
}

#[test]
fn contains_text_finds_whole_texts_only() {
    let categories = list(&["Food", "Rent"]);
    assert!(contains_text(&categories, "Food"));
    assert!(contains_text(&categories, "Rent"));
    assert!(!contains_text(&categories, "food"));
    assert!(!contains_text(&categories, "Foo"));
    assert!(!contains_text(&categories, ""));
    assert!(!contains_text(&Vec::new(), "Food"));
}

#[test]
fn with_category_adds_what_is_new() {
    assert_eq!(with_category(list(&["Food"]), "Rent"), Some(list(&["Food", "Rent"])));
    assert_eq!(with_category(list(&["Food", "Rent"]), "Rent"), None);
    assert_eq!(with_category(Vec::new(), "Rent"), Some(list(&["Rent"])));
}

#[test]
fn remember_category_extends_a_cached_list() {
    let mut cache = ExpirableCache::new(10, 60_000);
    cache.insert(1, list(&["Food"]));
    cache.insert(2, list(&["Travel"]));
    remember_category(&mut cache, 1, "Rent");
    assert_eq!(cache.get(&1), Some(list(&["Food", "Rent"])));
    assert_eq!(cache.get(&2), Some(list(&["Travel"])));
    remember_category(&mut cache, 1, "Food");
    assert_eq!(cache.get(&1), Some(list(&["Food", "Rent"])));
}

#[test]
fn remember_category_leaves_an_unknown_user_alone() {
    let mut cache = ExpirableCache::new(10, 60_000);
    remember_category(&mut cache, 1, "Rent");
    assert_eq!(cache.get(&1), None);
}

#[test]
fn remember_category_given_a_list_without_the_category() {
    let mut cache = ExpirableCache::new(10, 60_000);
    cache.insert(2, list(&["Travel"]));
    remember_category_given(&mut cache, 1, Some(list(&["Food"])), "Rent");
    assert_eq!(cache.get(&1), Some(list(&["Food", "Rent"])));
    assert_eq!(cache.get(&2), Some(list(&["Travel"])));
    remember_category_given(&mut cache, 3, Some(Vec::new()), "Rent");
    assert_eq!(cache.get(&3), Some(list(&["Rent"])));
}

#[test]
fn remember_category_given_a_list_with_the_category() {
    let mut cache = ExpirableCache::new(10, 60_000);
    cache.insert(1, list(&["Food"]));
    remember_category_given(&mut cache, 1, Some(list(&["Rent", "Food"])), "Rent");
    assert_eq!(cache.get(&1), Some(list(&["Food"])));
    remember_category_given(&mut cache, 2, Some(list(&["Rent"])), "Rent");
    assert_eq!(cache.get(&2), None);
}

#[test]
fn remember_category_given_nothing() {
    let mut cache = ExpirableCache::new(10, 60_000);
    cache.insert(1, list(&["Food"]));
    remember_category_given(&mut cache, 1, None, "Rent");
    assert_eq!(cache.get(&1), Some(list(&["Food"])));
    remember_category_given(&mut cache, 2, None, "Rent");
    assert_eq!(cache.get(&2), None);
}

#[test]
fn statement_for_every_field() {
    let args = ModifyExpenseArgs {
        expense_id: 9,
        amount: Some(250),
        description: Some("20 fruits".to_string()),
        category: Some("Grocery".to_string()),
        date: Some("05/02/2024".to_string()),
    };
    assert_eq!(
        modify_expense_statement(args, 77),
        Ok(Statement {
            sql: "UPDATE expenses SET amount = ?, description = ?, category = ?, expense_date = ? WHERE id = ? AND user_id = ?".to_string(),
            values: vec![
                SqlValue::Integer(250),
                SqlValue::Text("20 fruits".to_string()),
                SqlValue::Text("Grocery".to_string()),
                SqlValue::Text("05/02/2024".to_string()),
                SqlValue::Integer(9),
                SqlValue::Integer(77),
            ],
        })
    );
}

#[test]
fn statement_for_one_field() {
    let args = ModifyExpenseArgs {
        expense_id: 9,
        amount: None,
        description: None,
        category: Some("Grocery".to_string()),
        date: None,
    };
    assert_eq!(
        modify_expense_statement(args, 77),
        Ok(Statement {
            sql: "UPDATE expenses SET category = ? WHERE id = ? AND user_id = ?".to_string(),
            values: vec![
                SqlValue::Text("Grocery".to_string()),
                SqlValue::Integer(9),
                SqlValue::Integer(77),
            ],
        })
    );
    let args = ModifyExpenseArgs {
        expense_id: 3,
        amount: Some(-1),
        description: None,
        category: None,
        date: Some("d".to_string()),
    };
    assert_eq!(
        modify_expense_statement(args, 4),
        Ok(Statement {
            sql: "UPDATE expenses SET amount = ?, expense_date = ? WHERE id = ? AND user_id = ?"
                .to_string(),
            values: vec![
                SqlValue::Integer(-1),
                SqlValue::Text("d".to_string()),
                SqlValue::Integer(3),
                SqlValue::Integer(4),
            ],
        })
    );
}

#[test]
fn statement_for_no_field_is_refused() {
    let args = ModifyExpenseArgs {
        expense_id: 9,
        amount: None,
        description: None,
        category: None,
        date: None,
    };
    assert_eq!(
        modify_expense_statement(args, 77),
        Err(DatabaseError::QueryError("No fields to update".to_string()))
    );
}
