//! What the statements mean to the store.
//!
//! The store is outside this library, and nothing here is run against it. This
//! module says, as mathematics, what the library takes the store to do when it
//! runs a statement: how its rows change, and what it hands back. What follows
//! for the operations of the ledger is proved in `crate::effects`. The results
//! hold of a store that behaves as described; that a given store does is not
//! proved.
//!
//! Rows are compared by the texts of date and product, character by character
//! and with regard to case. A price is the text that was bound. For a store
//! to compare and keep as this module says, the following is assumed of it:
//!
//! - The product columns compare character by character. The statements that
//!   create the tables ask for that with a binary collation without padding,
//!   `utf8mb4_0900_bin`, which the store must know. A table that was there
//!   before keeps the collation that it was created with; under one that
//!   disregards case, rows of `Apple` and `apple` are one product to the store
//!   and two to this module.
//! - Dates are written as year, month and day with leading zeros, as in
//!   `2022-01-03`, the form in which the store hands them back. The store
//!   takes other writings of a date for the same day; this module takes them
//!   for other texts.
//! - A price is handed back as it was bound. The store keeps it as a binary
//!   floating-point number of single precision, so what it hands back is the
//!   number nearest to the one that was bound.

use crate::ledger::{LedgerEntryView, PlanView};
use crate::run::{run_through, start, Reply};
use crate::statement::{
    ParamView, StatementView, CLEAR_SQL, CREATE_DISCOUNTS_SQL, CREATE_LEDGER_SQL, DELETE_SQL,
    INSERT_SQL, REVENUE_SQL, SELECT_SQL, UPDATE_SQL,
};
use vstd::prelude::*;

verus! {

/// One of the two tables.
pub enum Table {
    Ledger,
    Discounts,
}

/// A row of the discount table: a product and its discount, a rate as a decimal
/// text, or none. No statement of this library writes such a row.
pub struct DiscountEntry {
    pub product: Seq<char>,
    pub discount: Option<Seq<char>>,
}

/// The store, as far as the statements of this library read or change it: the
/// tables that exist, and the rows of the ledger and of the discount table, in
/// the order in which they are kept.
pub struct Store {
    pub tables: Set<Table>,
    pub ledger: Seq<LedgerEntryView>,
    pub discounts: Seq<DiscountEntry>,
}

/// Whether a row is one of the given date and product.
pub open spec fn concerns(row: LedgerEntryView, date: Seq<char>, product: Seq<char>) -> bool {
    row.date == date && row.product == product
}

/// The rows with the price and quantity of `entry` on each row of its date and
/// product, and the other rows as they are.
pub open spec fn rewritten(ledger: Seq<LedgerEntryView>, entry: LedgerEntryView) -> Seq<
    LedgerEntryView,
> {
    ledger.map_values(
        |row: LedgerEntryView|
            if concerns(row, entry.date, entry.product) {
                LedgerEntryView { price: entry.price, quantity: entry.quantity, ..row }
            } else {
                row
            },
    )
}

/// The rows that are not of the given date and product, in their order.
pub open spec fn without(ledger: Seq<LedgerEntryView>, date: Seq<char>, product: Seq<char>) -> Seq<
    LedgerEntryView,
> {
    ledger.filter(|row: LedgerEntryView| !concerns(row, date, product))
}

/// The rows of a date and product, in their order: what a selection by date
/// and product hands back.
pub open spec fn rows_of(ledger: Seq<LedgerEntryView>, date: Seq<char>, product: Seq<char>) -> Seq<
    LedgerEntryView,
> {
    ledger.filter(|row: LedgerEntryView| concerns(row, date, product))
}

/// The text bound at a position, or the empty text where none is bound there.
pub open spec fn text_at(params: Seq<ParamView>, at: int) -> Seq<char> {
    if 0 <= at < params.len() {
        match params[at] {
            ParamView::Text(text) => text,
            ParamView::Decimal(text) => text,
            ParamView::Integer(_) => Seq::empty(),
        }
    } else {
        Seq::empty()
    }
}

/// The integer bound at a position, or 0 where none is bound there.
pub open spec fn integer_at(params: Seq<ParamView>, at: int) -> int {
    if 0 <= at < params.len() {
        match params[at] {
            ParamView::Integer(number) => number,
            _ => 0,
        }
    } else {
        0
    }
}

/// The store after it ran a statement.
///
/// - Creating a table makes it exist and leaves every row as it is.
/// - Clearing removes every row of the ledger.
/// - An insert appends its row, whatever rows are there.
/// - An update rewrites price and quantity, both, on every row of its date and
///   product.
/// - A delete removes every row of its date and product.
/// - Reading changes nothing.
pub open spec fn after(statement: StatementView, store: Store) -> Store {
    let params = statement.params;
    if statement.sql == CREATE_LEDGER_SQL@ {
        Store { tables: store.tables.insert(Table::Ledger), ..store }
    } else if statement.sql == CREATE_DISCOUNTS_SQL@ {
        Store { tables: store.tables.insert(Table::Discounts), ..store }
    } else if statement.sql == CLEAR_SQL@ {
        Store { ledger: Seq::empty(), ..store }
    } else if statement.sql == INSERT_SQL@ {
        Store {
            ledger: store.ledger.push(
                LedgerEntryView {
                    date: text_at(params, 0),
                    product: text_at(params, 1),
                    price: text_at(params, 2),
                    quantity: integer_at(params, 3),
                },
            ),
            ..store
        }
    } else if statement.sql == UPDATE_SQL@ {
        Store {
            ledger: rewritten(
                store.ledger,
                LedgerEntryView {
                    date: text_at(params, 2),
                    product: text_at(params, 3),
                    price: text_at(params, 0),
                    quantity: integer_at(params, 1),
                },
            ),
            ..store
        }
    } else if statement.sql == DELETE_SQL@ {
        Store { ledger: without(store.ledger, text_at(params, 0), text_at(params, 1)), ..store }
    } else {
        store
    }
}

/// The store after it ran statements one after another.
pub open spec fn after_all(statements: Seq<StatementView>, store: Store) -> Store
    decreases statements.len(),
{
    if statements.len() == 0 {
        store
    } else {
        after(statements.last(), after_all(statements.drop_last(), store))
    }
}

/// Whether text `a` comes before text `b` in the order of a dictionary. Of two
/// dates written as year, month and day with leading zeros, the earlier one
/// comes before the later one.
pub open spec fn precedes(a: Seq<char>, b: Seq<char>) -> bool
    decreases a.len(),
{
    if b.len() == 0 {
        false
    } else if a.len() == 0 {
        true
    } else if a[0] != b[0] {
        a[0] < b[0]
    } else {
        precedes(a.drop_first(), b.drop_first())
    }
}

/// Whether `rows` is what reading the ledger hands back: every row of the
/// ledger, each as often as it is there, and none with an earlier date behind
/// one with a later date.
pub open spec fn is_reading(rows: Seq<LedgerEntryView>, store: Store) -> bool {
    &&& rows.to_multiset() == store.ledger.to_multiset()
    &&& forall|i: int, j: int|
        0 <= i < j < rows.len() ==> !precedes(#[trigger] rows[j].date, #[trigger] rows[i].date)
}

/// A row of the report, but for its revenue: a row of the ledger beside the
/// discount of a discount row of its product, or beside none.
pub struct ReportRow {
    pub entry: LedgerEntryView,
    pub discount: Option<Seq<char>>,
}

/// The discount rows of a product, in their order.
pub open spec fn discounts_of(discounts: Seq<DiscountEntry>, product: Seq<char>) -> Seq<
    DiscountEntry,
> {
    discounts.filter(|row: DiscountEntry| row.product == product)
}

/// The rows that the report has for one row of the ledger: one beside each
/// discount row of its product, or, where the product has none, one beside no
/// discount.
pub open spec fn beside(entry: LedgerEntryView, discounts: Seq<DiscountEntry>) -> Seq<ReportRow> {
    if discounts_of(discounts, entry.product).len() == 0 {
        seq![ReportRow { entry, discount: None }]
    } else {
        discounts_of(discounts, entry.product).map_values(
            |row: DiscountEntry| ReportRow { entry, discount: row.discount },
        )
    }
}

/// The rows of the report, ledger row by ledger row.
pub open spec fn joined(ledger: Seq<LedgerEntryView>, discounts: Seq<DiscountEntry>) -> Seq<
    ReportRow,
>
    decreases ledger.len(),
{
    if ledger.len() == 0 {
        Seq::empty()
    } else {
        joined(ledger.drop_last(), discounts) + beside(ledger.last(), discounts)
    }
}

/// Whether `rows` is what the report hands back, but for revenue and order:
/// every ledger row beside each discount row of its product, or beside none,
/// each as often as that gives it.
///
/// The revenue of a row (price times quantity times what the discount leaves
/// of one, where no discount leaves all of it) and the order of the rows by it,
/// highest first, are the store's arithmetic in binary floating point. They
/// are not described here.
pub open spec fn is_report(rows: Seq<ReportRow>, store: Store) -> bool {
    rows.to_multiset() == joined(store.ledger, store.discounts).to_multiset()
}

/// What the store hands back for a statement.
pub enum Answer {
    /// Nothing but the word that the statement ran.
    Nothing,
    /// Rows of the ledger.
    Ledger(Seq<LedgerEntryView>),
    /// Rows of the report.
    Report(Seq<ReportRow>),
}

/// Whether the store may hand back `answer` for a statement: a reading for the
/// statement that reads the ledger, a report for the one that reads the
/// report, and nothing for the others.
pub open spec fn may_answer(statement: StatementView, store: Store, answer: Answer) -> bool {
    if statement.sql == SELECT_SQL@ {
        answer is Ledger && is_reading(answer->Ledger_0, store)
    } else if statement.sql == REVENUE_SQL@ {
        answer is Report && is_report(answer->Report_0, store)
    } else {
        answer is Nothing
    }
}

/// The store after a conversation about a plan: it has run a statement each
/// time it said so in answer to the request to run one.
pub open spec fn store_after(plan: PlanView, replies: Seq<Reply>, store: Store) -> Store
    decreases replies.len(),
{
    if replies.len() == 0 {
        store
    } else {
        let before = run_through(start(plan), replies.drop_last());
        let earlier = store_after(plan, replies.drop_last(), store);
        if before.stage is Executing && replies.last() is Executed {
            after(plan.statements[before.next as int], earlier)
        } else {
            earlier
        }
    }
}

} // verus!
