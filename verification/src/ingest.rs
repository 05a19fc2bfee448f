//! Loading the ledger from comma-separated text.
//!
//! The text has a header record and then one record for each row: date,
//! product, price, quantity. The `csv` crate decodes the records; this module
//! types what was decoded and plans one insert for each row that could be
//! typed. A record that cannot be decoded, and a row whose price is no decimal,
//! is skipped and counted. Each insert stands alone: when one fails, the rows
//! before it stay written.
//!
//! Date and product are taken as they are written. The quantity is read by
//! `csv`, as an integer of 32 bits. Where the header has more than four fields,
//! a record of as many fields is read by its first four.

use crate::decimal::is_decimal;
use crate::error::LedgerError;
use crate::ledger::{
    entry_of, insert_of, insert_statement, LedgerEntry, LedgerEntryView, Operation, Plan, PlanView,
};
use crate::statement::{Statement, StatementView};
use crate::effects::lemma_inserts_append;
use crate::store::{after_all, Store};
use vstd::prelude::*;

verus! {

/// The error with which reading a file fails, as `std` reports it.
#[verifier::external_type_specification]
#[verifier::external_body]
pub struct ExIoError(std::io::Error);

/// What `csv` decodes from comma-separated text with a header record, record by
/// record after the header: the first three fields as texts and the fourth as
/// an integer, or `None` for a record that cannot be read in this way.
pub uninterp spec fn csv_rows(data: Seq<u8>) -> Seq<Option<(Seq<char>, Seq<char>, Seq<char>, i32)>>;

/// Calls `csv::Reader::deserialize` on a reader that `csv::ReaderBuilder` makes
/// over the bytes, with a comma as delimiter and otherwise as the crate sets it
/// up, and keeps each item of the iteration: the row, or `None` for an error.
/// Taken on trust: what is decoded depends on the bytes alone, which is what
/// `csv_rows` names.
#[verifier::external_body]
fn decode_rows(data: &[u8]) -> (rows: Vec<Option<(String, String, String, i32)>>)
    ensures
        rows.deep_view() == csv_rows(data@),
{
    let mut reader = csv::ReaderBuilder::new().delimiter(b',').from_reader(data);
    reader.deserialize::<(String, String, String, i32)>().map(|row| row.ok()).collect()
}

/// The entry of a decoded record: there is one where the record was decoded and
/// its price is a decimal.
pub open spec fn typed(row: Option<(Seq<char>, Seq<char>, Seq<char>, i32)>) -> Option<
    LedgerEntryView,
> {
    match row {
        Some((date, product, price, quantity)) => if is_decimal(price) {
            Some(entry_of(date, product, price, quantity))
        } else {
            None
        },
        None => None,
    }
}

/// The typing of decoded records, as a function.
pub open spec fn typing() -> spec_fn(Option<(Seq<char>, Seq<char>, Seq<char>, i32)>) -> Option<
    LedgerEntryView,
> {
    |row: Option<(Seq<char>, Seq<char>, Seq<char>, i32)>| typed(row)
}

/// The entries of the decoded records, in the order of the records: the records
/// that have an entry, each as its entry.
pub open spec fn entries_of(rows: Seq<Option<(Seq<char>, Seq<char>, Seq<char>, i32)>>) -> Seq<
    LedgerEntryView,
> {
    rows.filter_map(typing())
}

/// One insert for each entry, in order.
pub open spec fn inserts_of(entries: Seq<LedgerEntryView>) -> Seq<StatementView> {
    entries.map_values(|entry: LedgerEntryView| insert_of(entry))
}

/// What is to be written for a file, and how many of its records are left out.
#[derive(Debug, PartialEq, Eq)]
pub struct Ingestion {
    /// One insert for each row that could be typed, in the order of the file.
    pub plan: Plan,
    /// The number of records after the header that are skipped.
    pub skipped: usize,
}

/// An ingestion as mathematics.
pub struct IngestionView {
    pub plan: PlanView,
    pub skipped: nat,
}

impl View for Ingestion {
    type V = IngestionView;

    open spec fn view(&self) -> IngestionView {
        IngestionView { plan: self.plan@, skipped: self.skipped as nat }
    }
}

/// The ingestion of decoded records: an insert for each entry, and the count of
/// the records that have none.
pub open spec fn ingestion_of(
    rows: Seq<Option<(Seq<char>, Seq<char>, Seq<char>, i32)>>,
) -> IngestionView {
    IngestionView {
        plan: PlanView {
            operation: Operation::Ingestion,
            statements: inserts_of(entries_of(rows)),
        },
        skipped: (rows.len() - entries_of(rows).len()) as nat,
    }
}

/// No more entries than records.
pub proof fn lemma_entries_bounded(rows: Seq<Option<(Seq<char>, Seq<char>, Seq<char>, i32)>>)
    ensures
        entries_of(rows).len() <= rows.len(),
    decreases rows.len(),
{
    if rows.len() > 0 {
        lemma_entries_bounded(rows.drop_last());
    }
}

/// Every record is either written or counted as skipped.
pub proof fn lemma_every_row_accounted(rows: Seq<Option<(Seq<char>, Seq<char>, Seq<char>, i32)>>)
    ensures
        ingestion_of(rows).plan.statements.len() + ingestion_of(rows).skipped == rows.len(),
{
    lemma_entries_bounded(rows);
}

/// Where every record is decoded and has a decimal price, every record is
/// written, in the order of the file, and none is skipped.
pub proof fn lemma_clean_rows_all_written(
    rows: Seq<Option<(Seq<char>, Seq<char>, Seq<char>, i32)>>,
)
    requires
        forall|i: int| 0 <= i < rows.len() ==> typed(#[trigger] rows[i]) is Some,
    ensures
        ingestion_of(rows).skipped == 0,
        ingestion_of(rows).plan.statements.len() == rows.len(),
        forall|i: int|
            0 <= i < rows.len() ==> #[trigger] ingestion_of(rows).plan.statements[i] == insert_of(
                typed(rows[i])->0,
            ),
    decreases rows.len(),
{
    if rows.len() > 0 {
        let init = rows.drop_last();
        assert forall|i: int| 0 <= i < init.len() implies typed(#[trigger] init[i]) is Some by {
            assert(init[i] == rows[i]);
        }
        lemma_clean_rows_all_written(init);
        assert forall|i: int| 0 <= i < rows.len() implies #[trigger] ingestion_of(
            rows,
        ).plan.statements[i] == insert_of(typed(rows[i])->0) by {
            if i < init.len() {
                assert(ingestion_of(init).plan.statements[i] == insert_of(typed(init[i])->0));
                assert(init[i] == rows[i]);
            }
        }
    }
}

/// Types one decoded record.
fn typed_entry(row: &Option<(String, String, String, i32)>) -> (entry: Option<LedgerEntry>)
    ensures
        entry is Some == typed(row.deep_view()) is Some,
        entry is Some ==> entry->0@ == typed(row.deep_view())->0,
{
    match row {
        Some((date, product, price, quantity)) => LedgerEntry::parse(
            date.as_str(),
            product.as_str(),
            price.as_str(),
            *quantity,
        ),
        None => None,
    }
}

/// Plans the ingestion of decoded records: one insert for each record that was
/// decoded and has a decimal price, in the order of the records; the others are
/// skipped and counted.
///
/// Run to its end, the plan appends the rows of these records to the ledger, in
/// their order, and changes nothing else.
pub fn ingest_rows(rows: &Vec<Option<(String, String, String, i32)>>) -> (ingestion: Ingestion)
    ensures
        ingestion@ == ingestion_of(rows.deep_view()),
        ingestion@.plan.well_formed(),
        forall|store: Store|
            (#[trigger] after_all(ingestion@.plan.statements, store)) == (Store {
                ledger: store.ledger + entries_of(rows.deep_view()),
                ..store
            }),
{
    let ghost decoded = rows.deep_view();
    let mut statements: Vec<Statement> = Vec::new();
    let mut skipped: usize = 0;
    let mut i: usize = 0;
    while i < rows.len()
        invariant
            i <= rows.len(),
            decoded == rows.deep_view(),
            statements@.map_values(|s: Statement| s@) =~= inserts_of(
                entries_of(decoded.take(i as int)),
            ),
            skipped + entries_of(decoded.take(i as int)).len() == i,
            forall|k: int| 0 <= k < statements.len() ==> (#[trigger] statements[k])@.well_formed(),
        decreases rows.len() - i,
    {
        proof {
            decoded.lemma_filter_map_take_succ(typing(), i as int);
            assert(decoded[i as int] == rows[i as int].deep_view());
        }
        let ghost before = statements@;
        let ghost entries = entries_of(decoded.take(i as int));
        match typed_entry(&rows[i]) {
            Some(entry) => {
                statements.push(insert_statement(entry));
                proof {
                    assert(statements@.map_values(|s: Statement| s@) =~= before.map_values(
                        |s: Statement| s@,
                    ).push(insert_of(entry@)));
                    assert(inserts_of(entries + seq![entry@]) =~= inserts_of(entries).push(
                        insert_of(entry@),
                    ));
                }
            },
            None => {
                skipped += 1;
            },
        }
        i += 1;
    }
    proof {
        assert(decoded.take(rows.len() as int) =~= decoded);
        lemma_entries_bounded(decoded);
        assert forall|store: Store|
            (#[trigger] after_all(inserts_of(entries_of(decoded)), store)) == (Store {
                ledger: store.ledger + entries_of(decoded),
                ..store
            }) by {
            lemma_inserts_append(entries_of(decoded), store);
        }
    }
    Ingestion { plan: Plan { operation: Operation::Ingestion, statements }, skipped }
}

/// Plans the ingestion of comma-separated text: decodes it and plans one insert
/// for each row that could be typed. Lines that could not are skipped, and the
/// result says how many.
///
/// Run to its end, the plan appends the typed rows to the ledger, in the order
/// of the file, and changes nothing else. Each insert stands alone: a run that
/// fails leaves the rows before the failure written.
pub fn ingest_csv(data: &[u8]) -> (ingestion: Ingestion)
    ensures
        ingestion@ == ingestion_of(csv_rows(data@)),
        ingestion@.plan.well_formed(),
        forall|store: Store|
            (#[trigger] after_all(ingestion@.plan.statements, store)) == (Store {
                ledger: store.ledger + entries_of(csv_rows(data@)),
                ..store
            }),
{
    let rows = decode_rows(data);
    ingest_rows(&rows)
}

/// Plans the ingestion of a file from what reading it gave: the plan for its
/// bytes as `ingest_csv` makes it, or the error of a file that could not be
/// read.
pub fn insert_data_from_csv(read: Result<Vec<u8>, std::io::Error>) -> (planned: Result<
    Ingestion,
    LedgerError,
>)
    ensures
        planned is Ok == read is Ok,
        planned is Err ==> planned->Err_0 == LedgerError::Io,
        planned is Ok ==> planned->Ok_0@ == ingestion_of(csv_rows(read->Ok_0@))
            && planned->Ok_0@.plan.well_formed(),
        planned is Ok ==> forall|store: Store|
            (#[trigger] after_all(planned->Ok_0@.plan.statements, store)) == (Store {
                ledger: store.ledger + entries_of(csv_rows(read->Ok_0@)),
                ..store
            }),
{
    match read {
        Ok(data) => Ok(ingest_csv(data.as_slice())),
        Err(_) => Err(LedgerError::Io),
    }
}

} // verus!
