//! What the assistant stores: its records, the statements that change them
//! and the categories it remembers for each user.

use crate::request::args::ModifyExpenseArgs;
use crate::resilience::cache::{no_entries, ExpirableCache};
use crate::text::{join, joined};
use vstd::prelude::*;
use vstd::string::*;

pub mod types;

verus! {

/// Why a database operation failed.
#[derive(Debug, Clone, PartialEq, Eq)]
pub enum DatabaseError {
    /// The database could not be set up.
    DatabaseBuildError(String),
    /// No connection to the database could be made.
    ConnectionError(String),
    /// A statement failed, or a row could not be read.
    QueryError(String),
}

impl DatabaseError {
    /// The text of the error.
    pub open spec fn text(&self) -> Seq<char> {
        match *self {
            DatabaseError::DatabaseBuildError(detail) => "Error building init database:"@
                + detail@,
            DatabaseError::ConnectionError(detail) => "Database connection error: "@ + detail@,
            DatabaseError::QueryError(detail) => "Database query error: "@ + detail@,
        }
    }

    /// Writes the error out.
    pub fn message(&self) -> (text: String)
        ensures
            text@ == self.text(),
    {
        match self {
            DatabaseError::DatabaseBuildError(detail) => String::from_str(
                "Error building init database:",
            ).concat(detail.as_str()),
            DatabaseError::ConnectionError(detail) => String::from_str(
                "Database connection error: ",
            ).concat(detail.as_str()),
            DatabaseError::QueryError(detail) => String::from_str(
                "Database query error: ",
            ).concat(detail.as_str()),
        }
    }
}

/// The number of users whose categories are remembered at a time.
pub const CATEGORY_CACHE_CAPACITY: u64 = 10;

/// The seconds for which a user's categories are remembered: thirty days.
pub const DEFAULT_CATEGORY_CACHE_TTL: u64 = 86400 * 30;

/// The cache of each user's categories, as the assistant starts with it:
/// empty, for [`CATEGORY_CACHE_CAPACITY`] users, each remembered for
/// [`DEFAULT_CATEGORY_CACHE_TTL`] seconds.
pub fn category_cache() -> (cache: ExpirableCache)
    ensures
        cache@ == no_entries(),
        cache.max_capacity() == CATEGORY_CACHE_CAPACITY,
        cache.ttl_millis() == DEFAULT_CATEGORY_CACHE_TTL * 1000,
{
    ExpirableCache::new(CATEGORY_CACHE_CAPACITY, DEFAULT_CATEGORY_CACHE_TTL * 1000)
}

/// Tells whether `text` is one of `list`.
pub fn contains_text(list: &Vec<String>, text: &str) -> (found: bool)
    ensures
        found == list.deep_view().contains(text@),
{
    let mut i: usize = 0;
    while i < list.len()
        invariant
            i <= list.len(),
            forall|j: int| 0 <= j < i ==> list.deep_view()[j] != text@,
        decreases list.len() - i,
    {
        if list[i].as_str().eq(text) {
            assert(list.deep_view()[i as int] == text@);
            return true;
        }
        i = i + 1;
    }
    false
}

/// The list with `category` added at its end, where the list does not hold
/// it yet; nothing where it does.
pub fn with_category(categories: Vec<String>, category: &str) -> (extended: Option<Vec<String>>)
    ensures
        match extended {
            Some(list) => !categories.deep_view().contains(category@) && list.deep_view()
                == categories.deep_view().push(category@),
            None => categories.deep_view().contains(category@),
        },
{
    if contains_text(&categories, category) {
        None
    } else {
        let mut list = categories;
        list.push(String::from_str(category));
        Some(list)
    }
}

/// What is written of the users' categories once `category` is remembered
/// for `user_id`: the user's list with the category added, where a list is
/// written for the user and does not hold the category; what was written
/// before, anywhere else.
pub open spec fn remembered(entries: Map<i64, Seq<Seq<char>>>, user_id: i64, category: Seq<char>)
    -> Map<i64, Seq<Seq<char>>> {
    if entries.contains_key(user_id) && !entries[user_id].contains(category) {
        entries.insert(user_id, entries[user_id].push(category))
    } else {
        entries
    }
}

/// Remembers that `user_id` has used `category`: where the cache still gives
/// the user's categories and the category is not among them, the list with
/// the category added takes the place of the list. Where the cache gives
/// nothing for the user, nothing changes.
pub fn remember_category(cache: &mut ExpirableCache, user_id: i64, category: &str)
    ensures
        final(cache)@ == remembered(old(cache)@, user_id, category@) || final(cache)@ == old(
            cache,
        )@,
        final(cache).max_capacity() == old(cache).max_capacity(),
        final(cache).ttl_millis() == old(cache).ttl_millis(),
{
    let cached = cache.get(&user_id);
    remember_category_given(cache, user_id, cached, category);
}

/// What is written of the users' categories once `category` is remembered
/// for `user_id` and the cache gave `cached` for the user: the list that the
/// cache gave with the category added, written for the user, where the cache
/// gave a list that does not hold the category; what was written before,
/// where the cache gave nothing or a list that holds the category.
pub open spec fn remembered_given(
    entries: Map<i64, Seq<Seq<char>>>,
    user_id: i64,
    cached: Option<Seq<Seq<char>>>,
    category: Seq<char>,
) -> Map<i64, Seq<Seq<char>>> {
    match cached {
        Some(list) => if list.contains(category) {
            entries
        } else {
            entries.insert(user_id, list.push(category))
        },
        None => entries,
    }
}

/// Remembers that `user_id` has used `category`, given what the cache gave
/// for the user: a list without the category is written anew with the
/// category at its end; anything else leaves the cache as it is.
pub fn remember_category_given(
    cache: &mut ExpirableCache,
    user_id: i64,
    cached: Option<Vec<String>>,
    category: &str,
)
    ensures
        final(cache)@ == remembered_given(old(cache)@, user_id, cached.deep_view(), category@),
        final(cache).max_capacity() == old(cache).max_capacity(),
        final(cache).ttl_millis() == old(cache).ttl_millis(),
{
    match cached {
        Some(categories) => {
            match with_category(categories, category) {
                Some(extended) => {
                    cache.remove(&user_id);
                    cache.insert(user_id, extended);
                },
                None => {},
            }
        },
        None => {},
    }
}

/// A value bound to a placeholder of a statement.
#[derive(Debug, Clone, PartialEq, Eq)]
pub enum SqlValue {
    Integer(i64),
    Text(String),
}

/// A [`SqlValue`] with its text as a sequence of characters.
pub enum SqlValueView {
    Integer(i64),
    Text(Seq<char>),
}

impl View for SqlValue {
    type V = SqlValueView;

    open spec fn view(&self) -> SqlValueView {
        match *self {
            SqlValue::Integer(number) => SqlValueView::Integer(number),
            SqlValue::Text(text) => SqlValueView::Text(text@),
        }
    }
}

/// A statement with placeholders, and the values bound to them, in order.
#[derive(Debug, Clone, PartialEq, Eq)]
pub struct Statement {
    pub sql: String,
    pub values: Vec<SqlValue>,
}

/// The assignments of the statement that changes an expense as `args` asks:
/// one for each field that gets a new value, in the order amount,
/// description, category, date.
pub open spec fn set_clauses(args: ModifyExpenseArgs) -> Seq<Seq<char>> {
    let amount = if args.amount is Some {
        seq!["amount = ?"@]
    } else {
        Seq::empty()
    };
    let description = if args.description is Some {
        seq!["description = ?"@]
    } else {
        Seq::empty()
    };
    let category = if args.category is Some {
        seq!["category = ?"@]
    } else {
        Seq::empty()
    };
    let date = if args.date is Some {
        seq!["expense_date = ?"@]
    } else {
        Seq::empty()
    };
    amount + description + category + date
}

/// The new values of the fields that `args` changes, in the order of
/// [`set_clauses`].
pub open spec fn set_values(args: ModifyExpenseArgs) -> Seq<SqlValueView> {
    let amount = if args.amount is Some {
        seq![SqlValueView::Integer(args.amount->Some_0)]
    } else {
        Seq::empty()
    };
    let description = if args.description is Some {
        seq![SqlValueView::Text(args.description->Some_0@)]
    } else {
        Seq::empty()
    };
    let category = if args.category is Some {
        seq![SqlValueView::Text(args.category->Some_0@)]
    } else {
        Seq::empty()
    };
    let date = if args.date is Some {
        seq![SqlValueView::Text(args.date->Some_0@)]
    } else {
        Seq::empty()
    };
    amount + description + category + date
}

/// The text of the statement that changes the fields named by `clauses` of
/// one expense of one user.
pub open spec fn update_sql(clauses: Seq<Seq<char>>) -> Seq<char> {
    "UPDATE expenses SET "@ + joined(clauses, ", "@) + " WHERE id = ? AND user_id = ?"@
}

/// Whether `args` gives any field a new value.
pub open spec fn changes_something(args: ModifyExpenseArgs) -> bool {
    args.amount is Some || args.description is Some || args.category is Some || args.date
        is Some
}

/// The statement that changes an expense of `user_id` as `args` asks: it
/// sets each field that gets a new value, and is bound to those values, the
/// expense's id and the user's id, in this order. A change of no field is
/// refused.
pub fn modify_expense_statement(args: ModifyExpenseArgs, user_id: i64) -> (built: Result<
    Statement,
    DatabaseError,
>)
    ensures
        match built {
            Ok(statement) => changes_something(args) && statement.sql@ == update_sql(
                set_clauses(args),
            ) && statement.values@.map_values(|value: SqlValue| value@) == set_values(args)
                + seq![SqlValueView::Integer(args.expense_id), SqlValueView::Integer(user_id)],
            Err(error) => !changes_something(args) && (error matches DatabaseError::QueryError(
                detail,
            ) && detail@ == "No fields to update"@),
        },
{
    let mut clauses: Vec<String> = Vec::new();
    let mut values: Vec<SqlValue> = Vec::new();
    let ghost bound = |value: SqlValue| value@;
    if let Some(amount) = args.amount {
        clauses.push(String::from_str("amount = ?"));
        values.push(SqlValue::Integer(amount));
    }
    if let Some(description) = args.description {
        clauses.push(String::from_str("description = ?"));
        values.push(SqlValue::Text(description));
    }
    if let Some(category) = args.category {
        clauses.push(String::from_str("category = ?"));
        values.push(SqlValue::Text(category));
    }
    if let Some(date) = args.date {
        clauses.push(String::from_str("expense_date = ?"));
        values.push(SqlValue::Text(date));
    }
    assert(clauses.deep_view() =~= set_clauses(args));
    if clauses.len() == 0 {
        return Err(DatabaseError::QueryError(String::from_str("No fields to update")));
    }
    let mut sql = String::from_str("UPDATE expenses SET ");
    let assignments = join(&clauses, ", ");
    sql.append(assignments.as_str());
    sql.append(" WHERE id = ? AND user_id = ?");
    values.push(SqlValue::Integer(args.expense_id));
    values.push(SqlValue::Integer(user_id));
    Ok(Statement { sql, values })
}

} // verus!
