//! The operations on the ledger, each as the plan of what is sent to the store.
//!
//! A plan names the statements of one operation, in the order in which they
//! run. Which error a failure becomes, and how connections are borrowed for the
//! statements, follows from the kind of the operation.

use crate::decimal::{is_decimal, Decimal};
use crate::statement::{
    lemma_clear_text, lemma_create_texts, lemma_delete_text, lemma_insert_text, lemma_read_texts,
    lemma_update_text, Param, ParamView, Rows, Statement, StatementView, CLEAR_SQL,
    CREATE_DISCOUNTS_SQL, CREATE_LEDGER_SQL, DELETE_SQL, INSERT_SQL, REVENUE_SQL, SELECT_SQL,
    UPDATE_SQL,
};
use crate::effects::{
    lemma_after_one, lemma_answers_to_reading, lemma_clear_and_read,
    lemma_delete_removes_the_matching_rows, lemma_insert_appends,
    lemma_provisioning_is_idempotent, lemma_update_rewrites_the_matching_rows,
};
use crate::store::{
    after_all, is_reading, is_report, may_answer, rewritten, without, Answer, ReportRow, Store,
    Table,
};
use vstd::prelude::*;

verus! {

/// One sale: what was sold on which day, at which price, and how many.
///
/// Date and product together tell which rows an update or a delete affects.
/// They are no key: several rows may share them.
#[derive(Debug, PartialEq, Eq)]
pub struct LedgerEntry {
    pub date: String,
    pub product: String,
    pub price: Decimal,
    pub quantity: i32,
}

/// A sale as mathematics.
pub struct LedgerEntryView {
    pub date: Seq<char>,
    pub product: Seq<char>,
    pub price: Seq<char>,
    pub quantity: int,
}

impl View for LedgerEntry {
    type V = LedgerEntryView;

    open spec fn view(&self) -> LedgerEntryView {
        LedgerEntryView {
            date: self.date@,
            product: self.product@,
            price: self.price@,
            quantity: self.quantity as int,
        }
    }
}

impl LedgerEntry {
    /// Types the four fields of a row: the entry where the price is a decimal,
    /// nothing otherwise.
    pub fn parse(date: &str, product: &str, price: &str, quantity: i32) -> (entry: Option<
        LedgerEntry,
    >)
        ensures
            entry is Some == is_decimal(price@),
            entry is Some ==> entry->0@ == entry_of(date@, product@, price@, quantity),
    {
        match Decimal::parse(price) {
            Some(price) => Some(
                LedgerEntry { date: date.to_owned(), product: product.to_owned(), price, quantity },
            ),
            None => None,
        }
    }
}

/// The sale of the given date, product, price and quantity.
pub open spec fn entry_of(
    date: Seq<char>,
    product: Seq<char>,
    price: Seq<char>,
    quantity: i32,
) -> LedgerEntryView {
    LedgerEntryView { date, product, price, quantity: quantity as int }
}

/// The kind of an operation.
#[derive(Debug, Clone, Copy, PartialEq, Eq, Structural)]
pub enum Operation {
    /// Provisioning the schema: one connection for all statements.
    Provisioning,
    /// Loading rows from a file: a connection of its own for each row.
    Ingestion,
    /// One statement of the repository or of the report.
    Query,
}

/// The statements of one operation, in the order in which they run.
#[derive(Debug, PartialEq, Eq)]
pub struct Plan {
    pub operation: Operation,
    pub statements: Vec<Statement>,
}

/// A plan as mathematics.
pub struct PlanView {
    pub operation: Operation,
    pub statements: Seq<StatementView>,
}

impl View for Plan {
    type V = PlanView;

    open spec fn view(&self) -> PlanView {
        PlanView {
            operation: self.operation,
            statements: self.statements@.map_values(|s: Statement| s@),
        }
    }
}

impl PlanView {
    /// Every statement has as many bound values as placeholders.
    pub open spec fn well_formed(self) -> bool {
        forall|i: int|
            0 <= i < self.statements.len() ==> (#[trigger] self.statements[i]).well_formed()
    }
}

/// The statement with the given text, no bound value and the given rows.
pub open spec fn fixed(sql: Seq<char>, rows: Rows) -> StatementView {
    StatementView { sql, params: Seq::empty(), rows }
}

/// The statement that appends `entry`: the insert text with date, product,
/// price and quantity bound in this order.
pub open spec fn insert_of(entry: LedgerEntryView) -> StatementView {
    StatementView {
        sql: INSERT_SQL@,
        params: seq![
            ParamView::Text(entry.date),
            ParamView::Text(entry.product),
            ParamView::Decimal(entry.price),
            ParamView::Integer(entry.quantity),
        ],
        rows: Rows::Nothing,
    }
}

/// The statement that rewrites the rows of `entry`'s date and product: the
/// update text with price, quantity, date and product bound in this order.
pub open spec fn update_of(entry: LedgerEntryView) -> StatementView {
    StatementView {
        sql: UPDATE_SQL@,
        params: seq![
            ParamView::Decimal(entry.price),
            ParamView::Integer(entry.quantity),
            ParamView::Text(entry.date),
            ParamView::Text(entry.product),
        ],
        rows: Rows::Nothing,
    }
}

/// The statement that removes the rows of a date and product: the delete text
/// with date and product bound in this order.
pub open spec fn delete_of(date: Seq<char>, product: Seq<char>) -> StatementView {
    StatementView {
        sql: DELETE_SQL@,
        params: seq![ParamView::Text(date), ParamView::Text(product)],
        rows: Rows::Nothing,
    }
}

/// The statements that provision the schema: the ledger table, then the
/// discount table, each created only where it does not exist.
pub open spec fn provisioning() -> Seq<StatementView> {
    seq![fixed(CREATE_LEDGER_SQL@, Rows::Nothing), fixed(CREATE_DISCOUNTS_SQL@, Rows::Nothing)]
}

/// The plan of a single statement of the repository or of the report.
pub open spec fn query_of(statement: StatementView) -> PlanView {
    PlanView { operation: Operation::Query, statements: seq![statement] }
}

/// The statement that appends a sale to the ledger.
pub fn insert_statement(entry: LedgerEntry) -> (statement: Statement)
    ensures
        statement@ == insert_of(entry@),
        statement@.well_formed(),
{
    let LedgerEntry { date, product, price, quantity } = entry;
    let statement = Statement {
        sql: INSERT_SQL,
        params: vec![
            Param::Text(date),
            Param::Text(product),
            Param::Decimal(price),
            Param::Integer(quantity),
        ],
        rows: Rows::Nothing,
    };
    proof {
        lemma_insert_text();
        assert(statement@.params =~= insert_of(entry@).params);
    }
    statement
}

/// Wraps one statement as the plan of a query.
fn single(statement: Statement) -> (plan: Plan)
    ensures
        plan@ == query_of(statement@),
        statement@.well_formed() ==> plan@.well_formed(),
{
    let plan = Plan { operation: Operation::Query, statements: vec![statement] };
    assert(plan@.statements =~= seq![statement@]);
    plan
}

/// A statement without bound values.
fn fixed_statement(sql: &'static str, rows: Rows) -> (statement: Statement)
    ensures
        statement@ == fixed(sql@, rows),
{
    let statement = Statement { sql, params: Vec::new(), rows };
    assert(statement@.params =~= Seq::<ParamView>::empty());
    statement
}

/// Provisions the schema: creates the ledger table, then the discount table,
/// each only where it does not exist yet. The plan is the same on every call.
///
/// In the store as `crate::store` describes it, the plan makes both tables
/// exist and leaves every row as it is, and running it once more changes
/// nothing: it can be run at each start.
pub fn create_tables_if_not_exists() -> (plan: Plan)
    ensures
        plan@ == (PlanView { operation: Operation::Provisioning, statements: provisioning() }),
        plan@.well_formed(),
        forall|store: Store|
            (#[trigger] after_all(plan@.statements, store)) == (Store {
                tables: store.tables.insert(Table::Ledger).insert(Table::Discounts),
                ..store
            }),
        forall|store: Store|
            after_all(plan@.statements, #[trigger] after_all(plan@.statements, store))
                == after_all(plan@.statements, store),
{
    let plan = Plan {
        operation: Operation::Provisioning,
        statements: vec![
            fixed_statement(CREATE_LEDGER_SQL, Rows::Nothing),
            fixed_statement(CREATE_DISCOUNTS_SQL, Rows::Nothing),
        ],
    };
    proof {
        lemma_create_texts();
        assert(plan@.statements =~= provisioning());
        assert forall|store: Store|
            (#[trigger] after_all(provisioning(), store)) == (Store {
                tables: store.tables.insert(Table::Ledger).insert(Table::Discounts),
                ..store
            }) && after_all(provisioning(), after_all(provisioning(), store)) == after_all(
                provisioning(),
                store,
            ) by {
            lemma_provisioning_is_idempotent(store);
        }
    }
    plan
}

/// Removes every row of the ledger.
///
/// In the store as `crate::store` describes it, the plan leaves the ledger
/// empty and the tables as they are.
pub fn clear_table() -> (plan: Plan)
    ensures
        plan@ == query_of(fixed(CLEAR_SQL@, Rows::Nothing)),
        plan@.well_formed(),
        forall|store: Store|
            (#[trigger] after_all(plan@.statements, store)) == (Store {
                ledger: Seq::empty(),
                ..store
            }),
{
    proof {
        lemma_clear_text();
        assert forall|store: Store|
            (#[trigger] after_all(query_of(fixed(CLEAR_SQL@, Rows::Nothing)).statements, store))
                == (Store { ledger: Seq::empty(), ..store }) by {
            lemma_after_one(fixed(CLEAR_SQL@, Rows::Nothing), store);
            lemma_clear_and_read(store);
            assert(after_all(seq![fixed(CLEAR_SQL@, Rows::Nothing)], store).ledger =~= Seq::<
                LedgerEntryView,
            >::empty());
        }
    }
    single(fixed_statement(CLEAR_SQL, Rows::Nothing))
}

/// Reads every ledger row beside each discount of its product, or beside none
/// where the product has no discount, with the revenue that the store computes
/// from them, highest revenue first.
///
/// Of the store as `crate::store` describes it, the contract says that
/// reading changes nothing and which rows are handed back. The revenue of a
/// row, and the order of the rows by it, are the store's arithmetic in binary
/// floating point: of them the contract says nothing.
pub fn complex_query() -> (plan: Plan)
    ensures
        plan@ == query_of(fixed(REVENUE_SQL@, Rows::Revenue)),
        plan@.well_formed(),
        forall|store: Store| #[trigger] after_all(plan@.statements, store) == store,
        forall|store: Store, rows: Seq<ReportRow>| #[trigger]
            may_answer(plan@.statements[0], store, Answer::Report(rows)) == is_report(rows, store),
{
    proof {
        lemma_read_texts();
        assert forall|store: Store, rows: Seq<ReportRow>| #[trigger]
            may_answer(fixed(REVENUE_SQL@, Rows::Revenue), store, Answer::Report(rows))
                == is_report(rows, store) by {
            lemma_answers_to_reading(store, Answer::Report(rows));
        }
        assert forall|store: Store| #[trigger]
            after_all(query_of(fixed(REVENUE_SQL@, Rows::Revenue)).statements, store)
                == store by {
            lemma_after_one(fixed(REVENUE_SQL@, Rows::Revenue), store);
            lemma_clear_and_read(store);
        }
    }
    single(fixed_statement(REVENUE_SQL, Rows::Revenue))
}

/// Reads every row of the ledger, earliest date first.
///
/// Of the store as `crate::store` describes it, the contract says that reading
/// changes nothing and hands back every row, none with an earlier date behind
/// one with a later date.
pub fn check_data() -> (plan: Plan)
    ensures
        plan@ == query_of(fixed(SELECT_SQL@, Rows::Ledger)),
        plan@.well_formed(),
        forall|store: Store| #[trigger] after_all(plan@.statements, store) == store,
        forall|store: Store, rows: Seq<LedgerEntryView>| #[trigger]
            may_answer(plan@.statements[0], store, Answer::Ledger(rows)) == is_reading(
                rows,
                store,
            ),
{
    proof {
        lemma_read_texts();
        assert forall|store: Store, rows: Seq<LedgerEntryView>| #[trigger]
            may_answer(fixed(SELECT_SQL@, Rows::Ledger), store, Answer::Ledger(rows))
                == is_reading(rows, store) by {
            lemma_answers_to_reading(store, Answer::Ledger(rows));
        }
        assert forall|store: Store| #[trigger]
            after_all(query_of(fixed(SELECT_SQL@, Rows::Ledger)).statements, store) == store by {
            lemma_after_one(fixed(SELECT_SQL@, Rows::Ledger), store);
            lemma_clear_and_read(store);
        }
    }
    single(fixed_statement(SELECT_SQL, Rows::Ledger))
}

/// Appends one row to the ledger. Nothing is checked against the rows that are
/// there: a second row of the same date and product is appended like the first.
///
/// In the store as `crate::store` describes it, the plan appends the row and
/// changes nothing else.
pub fn insert_data(date: &str, product: &str, price: Decimal, quantity: i32) -> (plan: Plan)
    ensures
        plan@ == query_of(insert_of(entry_of(date@, product@, price@, quantity))),
        plan@.well_formed(),
        forall|store: Store|
            (#[trigger] after_all(plan@.statements, store)) == (Store {
                ledger: store.ledger.push(entry_of(date@, product@, price@, quantity)),
                ..store
            }),
{
    let ghost entry = entry_of(date@, product@, price@, quantity);
    proof {
        assert forall|store: Store|
            (#[trigger] after_all(query_of(insert_of(entry)).statements, store)) == (Store {
                ledger: store.ledger.push(entry),
                ..store
            }) by {
            lemma_after_one(insert_of(entry), store);
            lemma_insert_appends(entry, store);
        }
    }
    single(
        insert_statement(
            LedgerEntry { date: date.to_owned(), product: product.to_owned(), price, quantity },
        ),
    )
}

/// Removes every row whose date and product are exactly the given ones, which
/// may be none.
///
/// In the store as `crate::store` describes it, the plan leaves the other rows,
/// in their order, and changes nothing else.
pub fn delete_data(date: &str, product: &str) -> (plan: Plan)
    ensures
        plan@ == query_of(delete_of(date@, product@)),
        plan@.well_formed(),
        forall|store: Store|
            (#[trigger] after_all(plan@.statements, store)) == (Store {
                ledger: without(store.ledger, date@, product@),
                ..store
            }),
{
    let statement = Statement {
        sql: DELETE_SQL,
        params: vec![Param::Text(date.to_owned()), Param::Text(product.to_owned())],
        rows: Rows::Nothing,
    };
    proof {
        lemma_delete_text();
        assert(statement@.params =~= delete_of(date@, product@).params);
        assert forall|store: Store|
            (#[trigger] after_all(query_of(delete_of(date@, product@)).statements, store))
                == (Store { ledger: without(store.ledger, date@, product@), ..store }) by {
            lemma_after_one(delete_of(date@, product@), store);
            lemma_delete_removes_the_matching_rows(date@, product@, store);
        }
    }
    single(statement)
}

/// Sets price and quantity, both together, on every row whose date and product
/// are exactly the given ones, which may be none.
///
/// In the store as `crate::store` describes it, the plan rewrites those rows
/// where they stand and changes nothing else.
pub fn update_data(date: &str, product: &str, price: Decimal, quantity: i32) -> (plan: Plan)
    ensures
        plan@ == query_of(update_of(entry_of(date@, product@, price@, quantity))),
        plan@.well_formed(),
        forall|store: Store|
            (#[trigger] after_all(plan@.statements, store)) == (Store {
                ledger: rewritten(store.ledger, entry_of(date@, product@, price@, quantity)),
                ..store
            }),
{
    let ghost entry = entry_of(date@, product@, price@, quantity);
    let statement = Statement {
        sql: UPDATE_SQL,
        params: vec![
            Param::Decimal(price),
            Param::Integer(quantity),
            Param::Text(date.to_owned()),
            Param::Text(product.to_owned()),
        ],
        rows: Rows::Nothing,
    };
    proof {
        lemma_update_text();
        assert(statement@.params =~= update_of(entry).params);
        assert forall|store: Store|
            (#[trigger] after_all(query_of(update_of(entry)).statements, store)) == (Store {
                ledger: rewritten(store.ledger, entry),
                ..store
            }) by {
            lemma_after_one(update_of(entry), store);
            lemma_update_rewrites_the_matching_rows(entry, store);
            assert(after_all(seq![update_of(entry)], store).ledger =~= rewritten(
                store.ledger,
                entry,
            ));
        }
    }
    single(statement)
}

} // verus!
