//! The tools the language model can ask for.

use super::visualization::VisualizationError;
use crate::database::types::{CategorySummary, Expense};
use crate::text::{integer_to_text, join, joined, numeral};
use vstd::prelude::*;
use vstd::string::*;

verus! {

/// Why a tool could not be run.
#[derive(Debug, Clone, PartialEq, Eq)]
pub enum ToolError {
    /// The model asked for a tool that does not exist.
    UnknownTool(String),
    /// The arguments the model gave do not fit the tool.
    ArgumentParseError(String),
    /// The database refused what the tool asked of it.
    DatabaseError(String),
    /// The chart of the answer could not be drawn.
    VisualizationError(VisualizationError),
}

impl ToolError {
    /// The text of the error.
    pub open spec fn text(&self) -> Seq<char> {
        match *self {
            ToolError::UnknownTool(name) => "Unknown tool: "@ + name@,
            ToolError::ArgumentParseError(detail) => "Failed to parse tool arguments: "@
                + detail@,
            ToolError::DatabaseError(detail) => "Database error: "@ + detail@,
            ToolError::VisualizationError(cause) => "Visualization error: "@ + cause.text(),
        }
    }

    /// Writes the error out.
    pub fn message(&self) -> (text: String)
        ensures
            text@ == self.text(),
    {
        match self {
            ToolError::UnknownTool(name) => String::from_str("Unknown tool: ").concat(
                name.as_str(),
            ),
            ToolError::ArgumentParseError(detail) => String::from_str(
                "Failed to parse tool arguments: ",
            ).concat(detail.as_str()),
            ToolError::DatabaseError(detail) => String::from_str("Database error: ").concat(
                detail.as_str(),
            ),
            ToolError::VisualizationError(cause) => {
                let detail = cause.message();
                String::from_str("Visualization error: ").concat(detail.as_str())
            },
        }
    }
}

impl From<VisualizationError> for ToolError {
    fn from(cause: VisualizationError) -> (error: ToolError) {
        ToolError::VisualizationError(cause)
    }
}

impl vstd::std_specs::convert::FromSpecImpl<VisualizationError> for ToolError {
    open spec fn obeys_from_spec() -> bool {
        true
    }

    open spec fn from_spec(cause: VisualizationError) -> ToolError {
        ToolError::VisualizationError(cause)
    }
}

/// A tool that the language model can ask for.
#[derive(Debug, Clone, Copy, PartialEq, Eq, Structural)]
pub enum Tool {
    AddCash,
    AddExpense,
    ModifyExpense,
    DeleteExpense,
    GetBalance,
    GetExpenseBreakdown,
    GetCategoryExpenses,
    GetCategories,
}

impl Tool {
    /// The name by which the language model asks for the tool.
    pub open spec fn name(self) -> Seq<char> {
        match self {
            Tool::AddCash => "add_cash"@,
            Tool::AddExpense => "add_expense"@,
            Tool::ModifyExpense => "modify_expense"@,
            Tool::DeleteExpense => "delete_expense"@,
            Tool::GetBalance => "get_balance"@,
            Tool::GetExpenseBreakdown => "get_expense_breakdown"@,
            Tool::GetCategoryExpenses => "get_category_expenses"@,
            Tool::GetCategories => "get_categories"@,
        }
    }

    /// Whether a tool goes by the name `name`.
    pub open spec fn known(name: Seq<char>) -> bool {
        exists|tool: Tool| #[trigger] tool.name() == name
    }

    /// The tool that the language model asks for by `name`; the name is
    /// returned in the error where no tool goes by it.
    pub fn parse(name: &str) -> (parsed: Result<Tool, ToolError>)
        ensures
            match parsed {
                Ok(tool) => tool.name() == name@,
                Err(error) => !Tool::known(name@) && (error matches ToolError::UnknownTool(
                    unknown,
                ) && unknown@ == name@),
            },
    {
        if name.eq("add_cash") {
            Ok(Tool::AddCash)
        } else if name.eq("add_expense") {
            Ok(Tool::AddExpense)
        } else if name.eq("modify_expense") {
            Ok(Tool::ModifyExpense)
        } else if name.eq("delete_expense") {
            Ok(Tool::DeleteExpense)
        } else if name.eq("get_balance") {
            Ok(Tool::GetBalance)
        } else if name.eq("get_expense_breakdown") {
            Ok(Tool::GetExpenseBreakdown)
        } else if name.eq("get_category_expenses") {
            Ok(Tool::GetCategoryExpenses)
        } else if name.eq("get_categories") {
            Ok(Tool::GetCategories)
        } else {
            assert(!Tool::known(name@)) by {
                assert forall|tool: Tool| tool.name() != name@ by {
                    match tool {
                        Tool::AddCash => {},
                        Tool::AddExpense => {},
                        Tool::ModifyExpense => {},
                        Tool::DeleteExpense => {},
                        Tool::GetBalance => {},
                        Tool::GetExpenseBreakdown => {},
                        Tool::GetCategoryExpenses => {},
                        Tool::GetCategories => {},
                    }
                }
            }
            Err(ToolError::UnknownTool(String::from_str(name)))
        }
    }
}

/// The answer to the user once an expense has been changed.
pub fn expense_modified() -> (text: String)
    ensures
        text@ == "✅ Expense modified successfully"@,
{
    String::from_str("✅ Expense modified successfully")
}

/// The answer to the user once an expense has been deleted.
pub fn expense_deleted() -> (text: String)
    ensures
        text@ == "✅ Expense deleted successfully"@,
{
    String::from_str("✅ Expense deleted successfully")
}

/// The answer to the user who asked for the cash balance.
pub fn balance_message(balance: i64) -> (text: String)
    ensures
        text@ == "Cash balance: Rs."@ + numeral(balance as int),
{
    let mut text = String::from_str("Cash balance: Rs.");
    text.append(integer_to_text(balance as i128).as_str());
    text
}

/// The sum of the totals of `breakdown`.
pub open spec fn breakdown_total(breakdown: Seq<CategorySummary>) -> int
    decreases breakdown.len(),
{
    if breakdown.len() == 0 {
        0
    } else {
        breakdown_total(breakdown.drop_last()) + breakdown.last().total
    }
}

/// One line for each category of `breakdown`, in order: the category, its
/// total, and the end of the line.
pub open spec fn breakdown_lines(breakdown: Seq<CategorySummary>) -> Seq<char>
    decreases breakdown.len(),
{
    if breakdown.len() == 0 {
        Seq::empty()
    } else {
        breakdown_lines(breakdown.drop_last()) + breakdown.last().category@ + " - Rs."@ + numeral(
            breakdown.last().total as int,
        ) + "\n"@
    }
}

/// The answer to the user who asked what was spent by category: the lines
/// of the categories and, after an empty line, the sum of their totals; or
/// that there was nothing, where there was nothing.
pub open spec fn breakdown_text(breakdown: Seq<CategorySummary>) -> Seq<char> {
    if breakdown.len() == 0 {
        "No expenses found for this period"@
    } else {
        breakdown_lines(breakdown) + "\nTotal: Rs."@ + numeral(breakdown_total(breakdown))
    }
}

/// The sum of so many totals of 64 bits is within so many times their range.
proof fn lemma_total_bounds(breakdown: Seq<CategorySummary>)
    ensures
        -breakdown.len() * 0x8000_0000_0000_0000 <= breakdown_total(breakdown) <= breakdown.len()
            * 0x8000_0000_0000_0000,
    decreases breakdown.len(),
{
    if breakdown.len() > 0 {
        lemma_total_bounds(breakdown.drop_last());
    }
}

/// Writes the answer to the user who asked what was spent by category.
pub fn expense_breakdown_summary(breakdown: &Vec<CategorySummary>) -> (text: String)
    ensures
        text@ == breakdown_text(breakdown@),
{
    if breakdown.len() == 0 {
        return String::from_str("No expenses found for this period");
    }
    let mut total: i128 = 0;
    let mut text = String::new();
    let mut i: usize = 0;
    while i < breakdown.len()
        invariant
            i <= breakdown.len(),
            total == breakdown_total(breakdown@.take(i as int)),
            text@ == breakdown_lines(breakdown@.take(i as int)),
        decreases breakdown.len() - i,
    {
        proof {
            let before = breakdown@.take(i as int);
            let after = breakdown@.take(i + 1);
            assert(after.drop_last() =~= before);
            lemma_total_bounds(before);
            assert(before.len() * 0x8000_0000_0000_0000 <= 0xffff_ffff_ffff_ffff
                * 0x8000_0000_0000_0000) by (nonlinear_arith)
                requires
                    before.len() <= 0xffff_ffff_ffff_ffff,
            ;
        }
        total = total + breakdown[i].total as i128;
        text.append(breakdown[i].category.as_str());
        text.append(" - Rs.");
        text.append(integer_to_text(breakdown[i].total as i128).as_str());
        text.append("\n");
        i = i + 1;
    }
    assert(breakdown@.take(breakdown.len() as int) =~= breakdown@);
    text.append("\nTotal: Rs.");
    text.append(integer_to_text(total).as_str());
    text
}

/// The descriptions of `expenses`, in order, each on a line of its own.
pub open spec fn description_lines(expenses: Seq<Expense>) -> Seq<char>
    decreases expenses.len(),
{
    if expenses.len() == 0 {
        Seq::empty()
    } else {
        description_lines(expenses.drop_last()) + expenses.last().description@ + "\n"@
    }
}

/// Writes the answer to the user who asked for the expenses of a category.
pub fn category_expenses_summary(expenses: &Vec<Expense>) -> (text: String)
    ensures
        text@ == description_lines(expenses@),
{
    let mut text = String::new();
    let mut i: usize = 0;
    while i < expenses.len()
        invariant
            i <= expenses.len(),
            text@ == description_lines(expenses@.take(i as int)),
        decreases expenses.len() - i,
    {
        proof {
            let before = expenses@.take(i as int);
            let after = expenses@.take(i + 1);
            assert(after.drop_last() =~= before);
        }
        text.append(expenses[i].description.as_str());
        text.append("\n");
        i = i + 1;
    }
    assert(expenses@.take(expenses.len() as int) =~= expenses@);
    text
}

/// Writes the answer to the user who asked for the categories: one on each
/// line.
pub fn categories_summary(categories: &Vec<String>) -> (text: String)
    ensures
        text@ == joined(categories.deep_view(), "\n"@),
{
    join(categories, "\n")
}

} // verus!
