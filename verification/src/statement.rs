//! Statements: a fixed text and the values bound to its placeholders.
//!
//! The text of a statement is one of the constants of this module. Values that
//! a caller supplies are bound, in order, to the question marks of the text and
//! never become part of it.

use crate::decimal::Decimal;
use vstd::prelude::*;

verus! {

/// Creates the ledger table unless it exists. Products are kept as text that is
/// compared character by character, with regard to case and to spaces at the
/// end.
pub const CREATE_LEDGER_SQL: &'static str =
    "CREATE TABLE IF NOT EXISTS week6_mini (Date DATE, Product VARCHAR(255) CHARACTER SET utf8mb4 COLLATE utf8mb4_0900_bin, Price FLOAT, Quantity INT)";

/// Creates the discount table unless it exists. Products are kept as in the
/// ledger table, so that the two compare character by character.
pub const CREATE_DISCOUNTS_SQL: &'static str =
    "CREATE TABLE IF NOT EXISTS week6_mini_discounts (Product VARCHAR(255) CHARACTER SET utf8mb4 COLLATE utf8mb4_0900_bin, Discount FLOAT)";

/// Removes every row of the ledger.
pub const CLEAR_SQL: &'static str = "DELETE FROM week6_mini";

/// Appends one row: date, product, price, quantity.
pub const INSERT_SQL: &'static str =
    "INSERT INTO week6_mini (Date, Product, Price, Quantity) VALUES (?, ?, ?, ?)";

/// Sets price and quantity on the rows of a date and product:
/// price, quantity, date, product.
pub const UPDATE_SQL: &'static str =
    "UPDATE week6_mini SET Price = ?, Quantity = ? WHERE Date = ? AND Product = ?";

/// Removes the rows of a date and product: date, product.
pub const DELETE_SQL: &'static str = "DELETE FROM week6_mini WHERE Date = ? AND Product = ?";

/// Reads every row of the ledger, earliest date first.
pub const SELECT_SQL: &'static str =
    "SELECT Date, Product, Price, Quantity FROM week6_mini ORDER BY Date ASC";

/// Reads every ledger row beside each discount row of its product, or beside
/// none, with the revenue price * quantity * (1 - discount), where an absent
/// discount counts as 0; highest revenue first.
pub const REVENUE_SQL: &'static str =
    "SELECT w.Date, w.Product, w.Price, w.Quantity, d.Discount, w.Price * w.Quantity * (1 - COALESCE(d.Discount, 0)) AS Total_Revenue FROM week6_mini w LEFT JOIN week6_mini_discounts d ON w.Product = d.Product ORDER BY Total_Revenue DESC";

/// A value bound to a placeholder.
#[derive(Debug, PartialEq, Eq)]
pub enum Param {
    Text(String),
    Decimal(Decimal),
    Integer(i32),
}

/// A bound value as mathematics: a text, the text of a decimal, or an integer.
pub enum ParamView {
    Text(Seq<char>),
    Decimal(Seq<char>),
    Integer(int),
}

impl View for Param {
    type V = ParamView;

    open spec fn view(&self) -> ParamView {
        match self {
            Param::Text(text) => ParamView::Text(text@),
            Param::Decimal(number) => ParamView::Decimal(number@),
            Param::Integer(number) => ParamView::Integer(*number as int),
        }
    }
}

/// The rows that the store hands back for a statement.
#[derive(Debug, Clone, Copy, PartialEq, Eq, Structural)]
pub enum Rows {
    /// None: the statement only changes the store.
    Nothing,
    /// Ledger rows: date, product, price, quantity.
    Ledger,
    /// Revenue rows: date, product, price, quantity, discount or none, revenue.
    Revenue,
}

/// A statement for the store.
#[derive(Debug, PartialEq, Eq)]
pub struct Statement {
    /// The text, with one question mark for each bound value.
    pub sql: &'static str,
    /// The bound values, in the order of the question marks.
    pub params: Vec<Param>,
    /// What the store hands back.
    pub rows: Rows,
}

/// A statement as mathematics.
pub struct StatementView {
    pub sql: Seq<char>,
    pub params: Seq<ParamView>,
    pub rows: Rows,
}

impl View for Statement {
    type V = StatementView;

    open spec fn view(&self) -> StatementView {
        StatementView {
            sql: self.sql@,
            params: self.params@.map_values(|p: Param| p@),
            rows: self.rows,
        }
    }
}

/// The number of question marks among the first `n` characters of `sql`.
pub open spec fn placeholders_before(sql: Seq<char>, n: nat) -> nat
    decreases n,
{
    if n == 0 {
        0
    } else {
        placeholders_before(sql, (n - 1) as nat) + if sql[n - 1] == '?' {
            1nat
        } else {
            0nat
        }
    }
}

/// The number of placeholders of a statement text. The texts of this module
/// hold no quoted text, so each question mark is a placeholder.
pub open spec fn placeholders(sql: Seq<char>) -> nat {
    placeholders_before(sql, sql.len())
}

impl StatementView {
    /// Each placeholder has its value and each value its placeholder.
    pub open spec fn well_formed(self) -> bool {
        placeholders(self.sql) == self.params.len()
    }
}

impl Statement {
    /// Whether the statement goes to the store as a prepared statement. One
    /// that binds values does; one that binds none goes as plain text.
    pub fn is_prepared(&self) -> (prepared: bool)
        ensures
            prepared == (self@.params.len() > 0),
    {
        self.params.len() > 0
    }
}

/// The text that creates the ledger table: its length, and no placeholder.
pub proof fn lemma_create_ledger_text()
    ensures
        CREATE_LEDGER_SQL@.len() == 145,
        placeholders(CREATE_LEDGER_SQL@) == 0,
{
    reveal_strlit(
        "CREATE TABLE IF NOT EXISTS week6_mini (Date DATE, Product VARCHAR(255) CHARACTER SET utf8mb4 COLLATE utf8mb4_0900_bin, Price FLOAT, Quantity INT)",
    );
    reveal_with_fuel(placeholders_before, 32);
    assert(placeholders_before(CREATE_LEDGER_SQL@, 30) == 0);
    assert(placeholders_before(CREATE_LEDGER_SQL@, 60) == 0);
    assert(placeholders_before(CREATE_LEDGER_SQL@, 90) == 0);
    assert(placeholders_before(CREATE_LEDGER_SQL@, 120) == 0);
}

/// The text that creates the discount table: its length, and no placeholder.
pub proof fn lemma_create_discounts_text()
    ensures
        CREATE_DISCOUNTS_SQL@.len() == 133,
        placeholders(CREATE_DISCOUNTS_SQL@) == 0,
{
    reveal_strlit(
        "CREATE TABLE IF NOT EXISTS week6_mini_discounts (Product VARCHAR(255) CHARACTER SET utf8mb4 COLLATE utf8mb4_0900_bin, Discount FLOAT)",
    );
    reveal_with_fuel(placeholders_before, 32);
    assert(placeholders_before(CREATE_DISCOUNTS_SQL@, 30) == 0);
    assert(placeholders_before(CREATE_DISCOUNTS_SQL@, 60) == 0);
    assert(placeholders_before(CREATE_DISCOUNTS_SQL@, 90) == 0);
    assert(placeholders_before(CREATE_DISCOUNTS_SQL@, 120) == 0);
}

/// The texts that create the tables: their lengths, and no placeholder.
pub proof fn lemma_create_texts()
    ensures
        CREATE_LEDGER_SQL@.len() == 145,
        CREATE_DISCOUNTS_SQL@.len() == 133,
        placeholders(CREATE_LEDGER_SQL@) == 0,
        placeholders(CREATE_DISCOUNTS_SQL@) == 0,
{
    lemma_create_ledger_text();
    lemma_create_discounts_text();
}

/// The text that clears the ledger: its length, and no placeholder.
pub proof fn lemma_clear_text()
    ensures
        CLEAR_SQL@.len() == 22,
        placeholders(CLEAR_SQL@) == 0,
{
    reveal_strlit("DELETE FROM week6_mini");
    reveal_with_fuel(placeholders_before, 30);
}

/// The text that inserts a row: its length, and four placeholders.
pub proof fn lemma_insert_text()
    ensures
        INSERT_SQL@.len() == 75,
        placeholders(INSERT_SQL@) == 4,
{
    reveal_strlit("INSERT INTO week6_mini (Date, Product, Price, Quantity) VALUES (?, ?, ?, ?)");
    reveal_with_fuel(placeholders_before, 50);
    assert(placeholders_before(INSERT_SQL@, 40) == 0);
}

/// The text that updates rows: its length, and four placeholders.
pub proof fn lemma_update_text()
    ensures
        UPDATE_SQL@.len() == 76,
        placeholders(UPDATE_SQL@) == 4,
{
    reveal_strlit("UPDATE week6_mini SET Price = ?, Quantity = ? WHERE Date = ? AND Product = ?");
    reveal_with_fuel(placeholders_before, 50);
    assert(placeholders_before(UPDATE_SQL@, 40) == 1);
}

/// The text that deletes rows: its length, and two placeholders.
pub proof fn lemma_delete_text()
    ensures
        DELETE_SQL@.len() == 53,
        placeholders(DELETE_SQL@) == 2,
{
    reveal_strlit("DELETE FROM week6_mini WHERE Date = ? AND Product = ?");
    reveal_with_fuel(placeholders_before, 60);
}

/// The text that reads the ledger: its length, and no placeholder.
pub proof fn lemma_select_text()
    ensures
        SELECT_SQL@.len() == 71,
        placeholders(SELECT_SQL@) == 0,
{
    reveal_strlit("SELECT Date, Product, Price, Quantity FROM week6_mini ORDER BY Date ASC");
    reveal_with_fuel(placeholders_before, 32);
    assert(placeholders_before(SELECT_SQL@, 30) == 0);
    assert(placeholders_before(SELECT_SQL@, 60) == 0);
}

/// The text that reads the report: its length, and no placeholder.
pub proof fn lemma_revenue_text()
    ensures
        REVENUE_SQL@.len() == 232,
        placeholders(REVENUE_SQL@) == 0,
{
    reveal_strlit(
        "SELECT w.Date, w.Product, w.Price, w.Quantity, d.Discount, w.Price * w.Quantity * (1 - COALESCE(d.Discount, 0)) AS Total_Revenue FROM week6_mini w LEFT JOIN week6_mini_discounts d ON w.Product = d.Product ORDER BY Total_Revenue DESC",
    );
    reveal_with_fuel(placeholders_before, 32);
    assert(placeholders_before(REVENUE_SQL@, 30) == 0);
    assert(placeholders_before(REVENUE_SQL@, 60) == 0);
    assert(placeholders_before(REVENUE_SQL@, 90) == 0);
    assert(placeholders_before(REVENUE_SQL@, 120) == 0);
    assert(placeholders_before(REVENUE_SQL@, 150) == 0);
    assert(placeholders_before(REVENUE_SQL@, 180) == 0);
    assert(placeholders_before(REVENUE_SQL@, 210) == 0);
}

/// The texts that read rows: their lengths, and no placeholder.
pub proof fn lemma_read_texts()
    ensures
        SELECT_SQL@.len() == 71,
        REVENUE_SQL@.len() == 232,
        placeholders(SELECT_SQL@) == 0,
        placeholders(REVENUE_SQL@) == 0,
{
    lemma_select_text();
    lemma_revenue_text();
}

/// The texts of the statements, in the order of this module.
pub open spec fn texts() -> Seq<Seq<char>> {
    seq![
        CREATE_LEDGER_SQL@,
        CREATE_DISCOUNTS_SQL@,
        CLEAR_SQL@,
        INSERT_SQL@,
        UPDATE_SQL@,
        DELETE_SQL@,
        SELECT_SQL@,
        REVENUE_SQL@,
    ]
}

/// No two statements have the same text.
pub proof fn lemma_texts_differ()
    ensures
        forall|i: int, j: int|
            0 <= i < j < texts().len() ==> #[trigger] texts()[i] != #[trigger] texts()[j],
{
    lemma_create_texts();
    lemma_clear_text();
    lemma_insert_text();
    lemma_update_text();
    lemma_delete_text();
    lemma_read_texts();
}

} // verus!
