//! What the operations of the ledger do to the store, proved of the store as
//! `crate::store` describes it.

use crate::ingest::{
    entries_of, ingestion_of, inserts_of, lemma_clean_rows_all_written, typed,
};
use crate::ledger::{
    delete_of, fixed, insert_of, provisioning, update_of, LedgerEntryView, PlanView,
};
use crate::run::{lemma_reached_states_are_consistent, outcome, run_through, start, Reply, RunView};
use crate::statement::{
    lemma_texts_differ, texts, Rows, StatementView, CLEAR_SQL, CREATE_DISCOUNTS_SQL,
    CREATE_LEDGER_SQL, DELETE_SQL, INSERT_SQL, REVENUE_SQL, SELECT_SQL, UPDATE_SQL,
};
use crate::store::{
    after, after_all, beside, concerns, discounts_of, is_reading, is_report, joined, may_answer,
    rewritten, rows_of, store_after, without, Answer, DiscountEntry, ReportRow, Store, Table,
};
use vstd::prelude::*;
use vstd::seq_lib::{to_multiset_contains, to_multiset_len};

verus! {

/// Running one statement alone is running it.
pub proof fn lemma_after_one(statement: StatementView, store: Store)
    ensures
        after_all(seq![statement], store) == after(statement, store),
{
    let one = seq![statement];
    assert(one.drop_last() =~= Seq::<StatementView>::empty());
    assert(after_all(one.drop_last(), store) == store);
}

/// Tells the eight texts apart.
proof fn lemma_tell_texts_apart()
    ensures
        CREATE_LEDGER_SQL@ != CREATE_DISCOUNTS_SQL@,
        CLEAR_SQL@ != CREATE_LEDGER_SQL@ && CLEAR_SQL@ != CREATE_DISCOUNTS_SQL@,
        INSERT_SQL@ != CREATE_LEDGER_SQL@ && INSERT_SQL@ != CREATE_DISCOUNTS_SQL@ && INSERT_SQL@
            != CLEAR_SQL@,
        UPDATE_SQL@ != CREATE_LEDGER_SQL@ && UPDATE_SQL@ != CREATE_DISCOUNTS_SQL@ && UPDATE_SQL@
            != CLEAR_SQL@ && UPDATE_SQL@ != INSERT_SQL@,
        DELETE_SQL@ != CREATE_LEDGER_SQL@ && DELETE_SQL@ != CREATE_DISCOUNTS_SQL@ && DELETE_SQL@
            != CLEAR_SQL@ && DELETE_SQL@ != INSERT_SQL@ && DELETE_SQL@ != UPDATE_SQL@,
        SELECT_SQL@ != CREATE_LEDGER_SQL@ && SELECT_SQL@ != CREATE_DISCOUNTS_SQL@ && SELECT_SQL@
            != CLEAR_SQL@ && SELECT_SQL@ != INSERT_SQL@ && SELECT_SQL@ != UPDATE_SQL@
            && SELECT_SQL@ != DELETE_SQL@,
        REVENUE_SQL@ != CREATE_LEDGER_SQL@ && REVENUE_SQL@ != CREATE_DISCOUNTS_SQL@
            && REVENUE_SQL@ != CLEAR_SQL@ && REVENUE_SQL@ != INSERT_SQL@ && REVENUE_SQL@
            != UPDATE_SQL@ && REVENUE_SQL@ != DELETE_SQL@ && REVENUE_SQL@ != SELECT_SQL@,
{
    lemma_texts_differ();
    let all = texts();
    assert(all[0] != all[1]);
    assert(all[0] != all[2] && all[1] != all[2]);
    assert(all[0] != all[3] && all[1] != all[3] && all[2] != all[3]);
    assert(all[0] != all[4] && all[1] != all[4] && all[2] != all[4] && all[3] != all[4]);
    assert(all[0] != all[5] && all[1] != all[5] && all[2] != all[5] && all[3] != all[5] && all[4]
        != all[5]);
    assert(all[0] != all[6] && all[1] != all[6] && all[2] != all[6] && all[3] != all[6] && all[4]
        != all[6] && all[5] != all[6]);
    assert(all[0] != all[7] && all[1] != all[7] && all[2] != all[7] && all[3] != all[7] && all[4]
        != all[7] && all[5] != all[7] && all[6] != all[7]);
}

/// Provisioning is idempotent: after it both tables exist and every row is as
/// it was, and provisioning once more changes nothing.
pub proof fn lemma_provisioning_is_idempotent(store: Store)
    ensures
        after_all(provisioning(), store) == (Store {
            tables: store.tables.insert(Table::Ledger).insert(Table::Discounts),
            ..store
        }),
        after_all(provisioning(), after_all(provisioning(), store)) == after_all(
            provisioning(),
            store,
        ),
{
    lemma_tell_texts_apart();
    lemma_provisioning_unfolds(store);
    let once = after_all(provisioning(), store);
    lemma_provisioning_unfolds(once);
    assert(after_all(provisioning(), once).tables =~= once.tables);
}

/// Provisioning creates the ledger table, then the discount table.
proof fn lemma_provisioning_unfolds(store: Store)
    ensures
        after_all(provisioning(), store) == after(
            fixed(CREATE_DISCOUNTS_SQL@, Rows::Nothing),
            after(fixed(CREATE_LEDGER_SQL@, Rows::Nothing), store),
        ),
{
    let both = provisioning();
    let first = both.drop_last();
    assert(first.drop_last() =~= Seq::<StatementView>::empty());
    assert(after_all(first.drop_last(), store) == store);
    assert(after_all(first, store) == after(first.last(), store));
}

/// An insert appends its row to the ledger, whether or not a row of the same
/// date and product is there already; no row is changed or lost, and no table
/// is.
pub proof fn lemma_insert_appends(entry: LedgerEntryView, store: Store)
    ensures
        after(insert_of(entry), store) == (Store { ledger: store.ledger.push(entry), ..store }),
{
    lemma_tell_texts_apart();
}

/// Two inserts of one date and product are both kept, in the order in which
/// they ran.
pub proof fn lemma_inserts_of_one_day_and_product_are_both_kept(
    first: LedgerEntryView,
    second: LedgerEntryView,
    store: Store,
)
    requires
        concerns(second, first.date, first.product),
    ensures
        after_all(seq![insert_of(first), insert_of(second)], store).ledger == store.ledger.push(
            first,
        ).push(second),
{
    let both = seq![insert_of(first), insert_of(second)];
    let one = both.drop_last();
    assert(one.drop_last() =~= Seq::<StatementView>::empty());
    assert(after_all(one.drop_last(), store) == store);
    assert(after_all(one, store) == after(insert_of(first), store));
    lemma_insert_appends(first, store);
    lemma_insert_appends(second, after(insert_of(first), store));
}

/// An update sets price and quantity on every row of its date and product,
/// which makes each of them the entry of the update, and leaves every other row
/// as it is. No row is added, lost or moved.
pub proof fn lemma_update_rewrites_the_matching_rows(entry: LedgerEntryView, store: Store)
    ensures
        after(update_of(entry), store) == (Store {
            ledger: rewritten(store.ledger, entry),
            ..store
        }),
        after(update_of(entry), store).ledger.len() == store.ledger.len(),
        forall|i: int|
            0 <= i < store.ledger.len() ==> #[trigger] after(update_of(entry), store).ledger[i]
                == if concerns(store.ledger[i], entry.date, entry.product) {
                entry
            } else {
                store.ledger[i]
            },
{
    lemma_tell_texts_apart();
}

/// After an update, a selection by its date and product hands back as many rows
/// as before, and each of them is the entry of the update: a ledger with one
/// row of the date and product has one afterwards, with the new price and
/// quantity.
pub proof fn lemma_selection_after_update(entry: LedgerEntryView, store: Store)
    ensures
        rows_of(after(update_of(entry), store).ledger, entry.date, entry.product).len() == rows_of(
            store.ledger,
            entry.date,
            entry.product,
        ).len(),
        forall|i: int|
            0 <= i < rows_of(store.ledger, entry.date, entry.product).len() ==> #[trigger] rows_of(
                after(update_of(entry), store).ledger,
                entry.date,
                entry.product,
            )[i] == entry,
{
    lemma_tell_texts_apart();
    lemma_rows_of_rewritten(store.ledger, entry);
}

/// The rows of the entry's date and product among the rewritten rows: as many
/// as before, each the entry.
proof fn lemma_rows_of_rewritten(ledger: Seq<LedgerEntryView>, entry: LedgerEntryView)
    ensures
        rows_of(rewritten(ledger, entry), entry.date, entry.product).len() == rows_of(
            ledger,
            entry.date,
            entry.product,
        ).len(),
        forall|i: int|
            0 <= i < rows_of(ledger, entry.date, entry.product).len() ==> #[trigger] rows_of(
                rewritten(ledger, entry),
                entry.date,
                entry.product,
            )[i] == entry,
    decreases ledger.len(),
{
    reveal(Seq::filter);
    if ledger.len() > 0 {
        let init = ledger.drop_last();
        lemma_rows_of_rewritten(init, entry);
        assert(rewritten(ledger, entry).drop_last() =~= rewritten(init, entry));
    }
}

/// After a delete, a selection by its date and product hands back no row.
pub proof fn lemma_selection_after_delete(date: Seq<char>, product: Seq<char>, store: Store)
    ensures
        rows_of(after(delete_of(date, product), store).ledger, date, product).len() == 0,
{
    lemma_tell_texts_apart();
    let kept = without(store.ledger, date, product);
    let of_them = |row: LedgerEntryView| concerns(row, date, product);
    lemma_without(store.ledger, date, product);
    if kept.filter(of_them).len() > 0 {
        let row = kept.filter(of_them)[0];
        kept.lemma_filter_pred(of_them, 0);
        assert(kept.filter(of_them).contains(row));
        kept.lemma_filter_contains_rev(of_them, row);
        let k = choose|k: int| 0 <= k < kept.len() && kept[k] == row;
        assert(!concerns(kept[k], date, product));
    }
}

/// A delete removes every row of its date and product and keeps every other
/// row.
pub proof fn lemma_delete_removes_the_matching_rows(
    date: Seq<char>,
    product: Seq<char>,
    store: Store,
)
    ensures
        after(delete_of(date, product), store) == (Store {
            ledger: without(store.ledger, date, product),
            ..store
        }),
        forall|i: int|
            0 <= i < without(store.ledger, date, product).len() ==> !concerns(
                #[trigger] without(store.ledger, date, product)[i],
                date,
                product,
            ),
        forall|i: int|
            0 <= i < store.ledger.len() && !concerns(store.ledger[i], date, product) ==> without(
                store.ledger,
                date,
                product,
            ).contains(#[trigger] store.ledger[i]),
{
    lemma_tell_texts_apart();
    lemma_without(store.ledger, date, product);
}

/// What `without` keeps: no row of the date and product, every other row, and
/// nothing that was not there.
pub proof fn lemma_without(ledger: Seq<LedgerEntryView>, date: Seq<char>, product: Seq<char>)
    ensures
        without(ledger, date, product).len() <= ledger.len(),
        forall|i: int|
            0 <= i < without(ledger, date, product).len() ==> !concerns(
                #[trigger] without(ledger, date, product)[i],
                date,
                product,
            ) && ledger.contains(without(ledger, date, product)[i]),
        forall|i: int|
            0 <= i < ledger.len() && !concerns(ledger[i], date, product) ==> without(
                ledger,
                date,
                product,
            ).contains(#[trigger] ledger[i]),
{
    let other = |row: LedgerEntryView| !concerns(row, date, product);
    let kept = ledger.filter(other);
    ledger.lemma_filter_len(other);
    assert forall|i: int| 0 <= i < kept.len() implies !concerns(#[trigger] kept[i], date, product)
        && ledger.contains(kept[i]) by {
        ledger.lemma_filter_pred(other, i);
        assert(kept.contains(kept[i]));
        ledger.lemma_filter_contains_rev(other, kept[i]);
    }
    assert forall|i: int|
        0 <= i < ledger.len() && !concerns(ledger[i], date, product) implies kept.contains(
        #[trigger] ledger[i],
    ) by {
        ledger.lemma_filter_contains(other, i);
    }
}

/// An update or a delete for a date and product of which the ledger has no row
/// leaves the store as it is.
pub proof fn lemma_no_match_changes_nothing(entry: LedgerEntryView, store: Store)
    requires
        forall|i: int|
            0 <= i < store.ledger.len() ==> !concerns(
                #[trigger] store.ledger[i],
                entry.date,
                entry.product,
            ),
    ensures
        after(update_of(entry), store) == store,
        after(delete_of(entry.date, entry.product), store) == store,
{
    lemma_tell_texts_apart();
    assert(rewritten(store.ledger, entry) =~= store.ledger);
    lemma_without_keeps_all(store.ledger, entry.date, entry.product);
}

/// Where no row is of the date and product, `without` keeps the rows as they
/// are.
proof fn lemma_without_keeps_all(ledger: Seq<LedgerEntryView>, date: Seq<char>, product: Seq<char>)
    requires
        forall|i: int| 0 <= i < ledger.len() ==> !concerns(#[trigger] ledger[i], date, product),
    ensures
        without(ledger, date, product) == ledger,
    decreases ledger.len(),
{
    reveal(Seq::filter);
    if ledger.len() > 0 {
        let init = ledger.drop_last();
        assert forall|i: int| 0 <= i < init.len() implies !concerns(
            #[trigger] init[i],
            date,
            product,
        ) by {
            assert(init[i] == ledger[i]);
        }
        lemma_without_keeps_all(init, date, product);
        assert(!concerns(ledger[ledger.len() - 1], date, product));
        assert(init.push(ledger.last()) =~= ledger);
    }
}

/// Clearing removes every row and no table; reading changes nothing.
pub proof fn lemma_clear_and_read(store: Store)
    ensures
        after(fixed(CLEAR_SQL@, Rows::Nothing), store) == (Store {
            ledger: Seq::empty(),
            ..store
        }),
        after(fixed(SELECT_SQL@, Rows::Ledger), store) == store,
        after(fixed(REVENUE_SQL@, Rows::Revenue), store) == store,
{
    lemma_tell_texts_apart();
}

/// Running one insert for each entry appends the entries, in order.
pub proof fn lemma_inserts_append(entries: Seq<LedgerEntryView>, store: Store)
    ensures
        after_all(inserts_of(entries), store) == (Store {
            ledger: store.ledger + entries,
            ..store
        }),
    decreases entries.len(),
{
    if entries.len() == 0 {
        assert(store.ledger + entries =~= store.ledger);
    } else {
        let init = entries.drop_last();
        assert(inserts_of(entries).drop_last() =~= inserts_of(init));
        lemma_inserts_append(init, store);
        lemma_insert_appends(entries.last(), after_all(inserts_of(init), store));
        assert((store.ledger + init).push(entries.last()) =~= store.ledger + entries);
    }
}

/// An ingestion that runs to its end appends the row of every record that could
/// be typed, in the order of the file. Into an empty ledger, a file whose
/// records can all be typed gives as many rows as it has records.
pub proof fn lemma_ingestion_appends_the_typed_rows(
    rows: Seq<Option<(Seq<char>, Seq<char>, Seq<char>, i32)>>,
    store: Store,
)
    ensures
        after_all(ingestion_of(rows).plan.statements, store).ledger == store.ledger + entries_of(
            rows,
        ),
        store.ledger.len() == 0 && (forall|i: int|
            0 <= i < rows.len() ==> typed(#[trigger] rows[i]) is Some) ==> after_all(
            ingestion_of(rows).plan.statements,
            store,
        ).ledger.len() == rows.len(),
{
    lemma_inserts_append(entries_of(rows), store);
    if forall|i: int| 0 <= i < rows.len() ==> typed(#[trigger] rows[i]) is Some {
        lemma_clean_rows_all_written(rows);
    }
}

/// Reading hands back as many rows as the ledger has, every row of the ledger
/// and no other.
pub proof fn lemma_a_reading_has_every_row(rows: Seq<LedgerEntryView>, store: Store)
    requires
        is_reading(rows, store),
    ensures
        rows.len() == store.ledger.len(),
        forall|i: int| 0 <= i < store.ledger.len() ==> rows.contains(#[trigger] store.ledger[i]),
        forall|i: int| 0 <= i < rows.len() ==> store.ledger.contains(#[trigger] rows[i]),
{
    to_multiset_len(rows);
    to_multiset_len(store.ledger);
    assert forall|i: int| 0 <= i < store.ledger.len() implies rows.contains(
        #[trigger] store.ledger[i],
    ) by {
        assert(store.ledger.contains(store.ledger[i]));
        to_multiset_contains(store.ledger, store.ledger[i]);
        to_multiset_contains(rows, store.ledger[i]);
    }
    assert forall|i: int| 0 <= i < rows.len() implies store.ledger.contains(#[trigger] rows[i]) by {
        assert(rows.contains(rows[i]));
        to_multiset_contains(rows, rows[i]);
        to_multiset_contains(store.ledger, rows[i]);
    }
}

/// After an ingestion into an empty ledger that ran to its end, reading hands
/// back one row for each record that could be typed: as many rows as the file
/// has records where all of them can be.
pub proof fn lemma_reading_after_ingestion(
    records: Seq<Option<(Seq<char>, Seq<char>, Seq<char>, i32)>>,
    store: Store,
    rows: Seq<LedgerEntryView>,
)
    requires
        store.ledger.len() == 0,
        is_reading(rows, after_all(ingestion_of(records).plan.statements, store)),
    ensures
        rows.len() == entries_of(records).len(),
        (forall|i: int| 0 <= i < records.len() ==> typed(#[trigger] records[i]) is Some)
            ==> rows.len() == records.len(),
{
    lemma_ingestion_appends_the_typed_rows(records, store);
    lemma_a_reading_has_every_row(rows, after_all(ingestion_of(records).plan.statements, store));
    assert(store.ledger + entries_of(records) =~= entries_of(records));
}

/// After two inserts of one date and product, reading hands back both rows.
pub proof fn lemma_reading_after_two_inserts(
    first: LedgerEntryView,
    second: LedgerEntryView,
    store: Store,
    rows: Seq<LedgerEntryView>,
)
    requires
        concerns(second, first.date, first.product),
        is_reading(rows, after_all(seq![insert_of(first), insert_of(second)], store)),
    ensures
        rows.contains(first),
        rows.contains(second),
        rows.len() == store.ledger.len() + 2,
{
    lemma_inserts_of_one_day_and_product_are_both_kept(first, second, store);
    let written = after_all(seq![insert_of(first), insert_of(second)], store);
    lemma_a_reading_has_every_row(rows, written);
    assert(written.ledger[written.ledger.len() - 2] == first);
    assert(written.ledger[written.ledger.len() - 1] == second);
}

/// At every moment of a conversation the store has run the statements that the
/// run counts as run, which are the first ones of the plan, in its order, each
/// once, and no other. So a run that is over without a failure has had the
/// whole plan run, and a run that failed has left what ran before the failure:
/// nothing is taken back.
pub proof fn lemma_the_store_ran_the_first_statements(
    plan: PlanView,
    replies: Seq<Reply>,
    store: Store,
)
    ensures
        run_through(start(plan), replies).next <= plan.statements.len(),
        store_after(plan, replies, store) == after_all(
            plan.statements.take(run_through(start(plan), replies).next as int),
            store,
        ),
        run_through(start(plan), replies).stage is Finished && outcome(
            run_through(start(plan), replies),
        ) is Ok ==> store_after(plan, replies, store) == after_all(plan.statements, store),
    decreases replies.len(),
{
    lemma_reached_states_are_consistent(plan, replies);
    let reached: RunView = run_through(start(plan), replies);
    if replies.len() == 0 {
        assert(plan.statements.take(0) =~= Seq::<StatementView>::empty());
    } else {
        let init = replies.drop_last();
        let before = run_through(start(plan), init);
        lemma_reached_states_are_consistent(plan, init);
        lemma_the_store_ran_the_first_statements(plan, init, store);
        if before.stage is Executing && replies.last() is Executed {
            let ran = plan.statements.take(before.next as int + 1);
            assert(ran.drop_last() =~= plan.statements.take(before.next as int));
            assert(ran.last() == plan.statements[before.next as int]);
        }
    }
    if reached.stage is Finished && outcome(reached) is Ok {
        assert(plan.statements.take(plan.statements.len() as int) =~= plan.statements);
    }
}

/// What the statements that read hand back: a reading of the ledger, or a
/// report.
pub proof fn lemma_answers_to_reading(store: Store, answer: Answer)
    ensures
        may_answer(fixed(SELECT_SQL@, Rows::Ledger), store, answer) == (answer is Ledger
            && is_reading(answer->Ledger_0, store)),
        may_answer(fixed(REVENUE_SQL@, Rows::Revenue), store, answer) == (answer is Report
            && is_report(answer->Report_0, store)),
{
    lemma_tell_texts_apart();
}

/// The rows that the report has for a ledger row are among the joined rows.
proof fn lemma_joined_has_beside(
    ledger: Seq<LedgerEntryView>,
    discounts: Seq<DiscountEntry>,
    i: int,
    k: int,
)
    requires
        0 <= i < ledger.len(),
        0 <= k < beside(ledger[i], discounts).len(),
    ensures
        joined(ledger, discounts).contains(beside(ledger[i], discounts)[k]),
    decreases ledger.len(),
{
    let init = ledger.drop_last();
    let before = joined(init, discounts);
    let last = beside(ledger.last(), discounts);
    if i < init.len() {
        assert(init[i] == ledger[i]);
        lemma_joined_has_beside(init, discounts, i, k);
        let at = choose|at: int| 0 <= at < before.len() && before[at] == beside(
            ledger[i],
            discounts,
        )[k];
        assert((before + last)[at] == before[at]);
    } else {
        assert((before + last)[before.len() + k] == last[k]);
    }
}

/// The report has at least one row for each row of the ledger.
proof fn lemma_joined_is_no_shorter(ledger: Seq<LedgerEntryView>, discounts: Seq<DiscountEntry>)
    ensures
        joined(ledger, discounts).len() >= ledger.len(),
    decreases ledger.len(),
{
    if ledger.len() > 0 {
        lemma_joined_is_no_shorter(ledger.drop_last(), discounts);
    }
}

/// The report is a left outer join: it has every row of the ledger, at least
/// once, whether or not its product has a discount.
pub proof fn lemma_report_has_every_ledger_row(rows: Seq<ReportRow>, store: Store)
    requires
        is_report(rows, store),
    ensures
        rows.len() >= store.ledger.len(),
        forall|i: int|
            0 <= i < store.ledger.len() ==> exists|k: int|
                0 <= k < rows.len() && (#[trigger] rows[k]).entry == #[trigger] store.ledger[i],
{
    let all = joined(store.ledger, store.discounts);
    to_multiset_len(rows);
    to_multiset_len(all);
    lemma_joined_is_no_shorter(store.ledger, store.discounts);
    assert forall|i: int| 0 <= i < store.ledger.len() implies exists|k: int|
        0 <= k < rows.len() && (#[trigger] rows[k]).entry == #[trigger] store.ledger[i] by {
        let row = beside(store.ledger[i], store.discounts)[0];
        lemma_joined_has_beside(store.ledger, store.discounts, i, 0);
        to_multiset_contains(all, row);
        to_multiset_contains(rows, row);
        let k = choose|k: int| 0 <= k < rows.len() && rows[k] == row;
        assert(rows[k].entry == store.ledger[i]);
    }
}

/// A ledger row whose product has no discount row is in the report beside no
/// discount.
pub proof fn lemma_report_without_discount(rows: Seq<ReportRow>, store: Store, i: int)
    requires
        is_report(rows, store),
        0 <= i < store.ledger.len(),
        discounts_of(store.discounts, store.ledger[i].product).len() == 0,
    ensures
        rows.contains(ReportRow { entry: store.ledger[i], discount: None }),
{
    let all = joined(store.ledger, store.discounts);
    let row = ReportRow { entry: store.ledger[i], discount: None };
    lemma_joined_has_beside(store.ledger, store.discounts, i, 0);
    to_multiset_contains(all, row);
    to_multiset_contains(rows, row);
}

/// A ledger row is in the report once beside each discount row of its product:
/// several discount rows of one product multiply the row.
pub proof fn lemma_report_beside_each_discount(
    rows: Seq<ReportRow>,
    store: Store,
    i: int,
    j: int,
)
    requires
        is_report(rows, store),
        0 <= i < store.ledger.len(),
        0 <= j < store.discounts.len(),
        store.discounts[j].product == store.ledger[i].product,
    ensures
        rows.contains(ReportRow { entry: store.ledger[i], discount: store.discounts[j].discount }),
        beside(store.ledger[i], store.discounts).len() == discounts_of(
            store.discounts,
            store.ledger[i].product,
        ).len(),
{
    let all = joined(store.ledger, store.discounts);
    let entry = store.ledger[i];
    let row = ReportRow { entry, discount: store.discounts[j].discount };
    let own = discounts_of(store.discounts, entry.product);
    let of_product = |row: DiscountEntry| row.product == entry.product;
    store.discounts.lemma_filter_contains(of_product, j);
    let m = choose|m: int| 0 <= m < own.len() && own[m] == store.discounts[j];
    assert(beside(entry, store.discounts)[m] == row);
    lemma_joined_has_beside(store.ledger, store.discounts, i, m);
    to_multiset_contains(all, row);
    to_multiset_contains(rows, row);
}

} // verus!
