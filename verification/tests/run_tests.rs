use indiv_proj2::{
    clear_table, create_tables_if_not_exists, delete_data, ingest_csv, update_data,
    Action, Decimal, LedgerError, Operation, Plan, Reply, Run, Summary,
};

const FOUR_ROWS: &[u8] = b"Date,Product,Price,Quantity\n\
2023-09-01,Apple,1.2,50\n\
2023-09-01,Banana,0.5,40\n\
2023-09-02,Apple,1.3,45\n\
2023-09-02,Banana,0.6,50\n";

/// Hands the replies to a run one by one and returns the actions that it asked
/// for, the first one included.
fn converse(plan: Plan, replies: &[Reply]) -> Vec<Action> {
    let mut run = Run::new(plan);
    let mut actions = vec![run.pending()];
    for reply in replies {
        actions.push(run.advance(*reply));
    }
    actions
}

fn done(executed: usize, affected: u64) -> Action {
    Action::Finish(Ok(Summary { executed, affected }))
}

#[test]
fn a_query_borrows_runs_returns_and_stops() {
    let actions = converse(clear_table(), &[Reply::Acquired, Reply::Executed(12), Reply::Released]);
    assert_eq!(actions, vec![Action::Acquire, Action::Execute(0), Action::Release, done(1, 12)]);
}

#[test]
fn provisioning_runs_both_statements_on_one_connection() {
    let actions = converse(
        create_tables_if_not_exists(),
        &[Reply::Acquired, Reply::Executed(0), Reply::Executed(0), Reply::Released],
    );
    assert_eq!(
        actions,
        vec![Action::Acquire, Action::Execute(0), Action::Execute(1), Action::Release, done(2, 0)]
    );
}

#[test]
fn ingestion_borrows_a_connection_for_each_row() {
    let plan = ingest_csv(FOUR_ROWS).plan;
    let mut run = Run::new(plan);
    let mut action = run.pending();
    let mut acquired = 0;
    let mut released = 0;
    let mut ran = Vec::new();
    let result = loop {
        action = match action {
            Action::Acquire => {
                assert_eq!(acquired, released);
                acquired += 1;
                run.advance(Reply::Acquired)
            }
            Action::Execute(index) => {
                assert_eq!(acquired, released + 1);
                ran.push(index);
                run.advance(Reply::Executed(1))
            }
            Action::Release => {
                released += 1;
                run.advance(Reply::Released)
            }
            Action::Finish(result) => break result,
        };
    };
    assert_eq!(ran, vec![0, 1, 2, 3]);
    assert_eq!((acquired, released), (4, 4));
    assert_eq!(result, Ok(Summary { executed: 4, affected: 4 }));
}

#[test]
fn a_failed_insert_ends_the_ingestion() {
    let plan = ingest_csv(FOUR_ROWS).plan;
    let actions = converse(
        plan,
        &[
            Reply::Acquired,
            Reply::Executed(1),
            Reply::Released,
            Reply::Acquired,
            Reply::Executed(1),
            Reply::Released,
            Reply::Acquired,
            Reply::Failed,
            Reply::Released,
        ],
    );
    assert_eq!(
        actions,
        vec![
            Action::Acquire,
            Action::Execute(0),
            Action::Release,
            Action::Acquire,
            Action::Execute(1),
            Action::Release,
            Action::Acquire,
            Action::Execute(2),
            Action::Release,
            Action::Finish(Err(LedgerError::Write { row: 2 })),
        ]
    );
}

#[test]
fn a_failed_statement_of_the_schema_is_a_schema_error() {
    let first = converse(create_tables_if_not_exists(), &[Reply::Acquired, Reply::Failed, Reply::Released]);
    assert_eq!(
        first,
        vec![
            Action::Acquire,
            Action::Execute(0),
            Action::Release,
            Action::Finish(Err(LedgerError::Schema)),
        ]
    );
    let second = converse(
        create_tables_if_not_exists(),
        &[Reply::Acquired, Reply::Executed(0), Reply::Failed, Reply::Released],
    );
    assert_eq!(second.last(), Some(&Action::Finish(Err(LedgerError::Schema))));
    assert!(!second.contains(&Action::Execute(2)));
}

#[test]
fn a_failed_statement_of_the_repository_is_a_query_error() {
    let price = Decimal::parse("1.5").unwrap();
    for plan in [clear_table(), delete_data("2022-01-03", "Orange"), update_data("2022-01-02", "Grape", price, 7)] {
        let actions = converse(plan, &[Reply::Acquired, Reply::Failed, Reply::Released]);
        assert_eq!(
            actions,
            vec![
                Action::Acquire,
                Action::Execute(0),
                Action::Release,
                Action::Finish(Err(LedgerError::Query)),
            ]
        );
    }
}

#[test]
fn no_connection_is_a_connection_error() {
    let actions = converse(clear_table(), &[Reply::Unavailable]);
    assert_eq!(actions, vec![Action::Acquire, Action::Finish(Err(LedgerError::Connection))]);

    let plan = ingest_csv(FOUR_ROWS).plan;
    let actions = converse(
        plan,
        &[Reply::Acquired, Reply::Executed(1), Reply::Released, Reply::Unavailable],
    );
    assert_eq!(actions.last(), Some(&Action::Finish(Err(LedgerError::Connection))));
}

#[test]
fn an_update_or_delete_that_matches_nothing_is_no_error() {
    let price = Decimal::parse("1.5").unwrap();
    let updated = converse(
        update_data("1999-01-01", "Nothing", price, 7),
        &[Reply::Acquired, Reply::Executed(0), Reply::Released],
    );
    assert_eq!(updated.last(), Some(&done(1, 0)));
    let deleted = converse(
        delete_data("1999-01-01", "Nothing"),
        &[Reply::Acquired, Reply::Executed(0), Reply::Released],
    );
    assert_eq!(deleted.last(), Some(&done(1, 0)));
}

#[test]
fn an_empty_plan_is_over_at_once() {
    let plan = ingest_csv(b"Date,Product,Price,Quantity\n").plan;
    assert_eq!(plan.operation, Operation::Ingestion);
    let mut run = Run::new(plan);
    assert_eq!(run.pending(), done(0, 0));
    assert!(run.statement().is_none());
    assert_eq!(run.advance(Reply::Acquired), done(0, 0));
}

#[test]
fn a_reply_that_answers_nothing_changes_nothing() {
    let mut run = Run::new(clear_table());
    assert_eq!(run.advance(Reply::Released), Action::Acquire);
    assert_eq!(run.advance(Reply::Executed(3)), Action::Acquire);
    assert_eq!(run.advance(Reply::Failed), Action::Acquire);
    assert_eq!(run.advance(Reply::Acquired), Action::Execute(0));
    assert_eq!(run.advance(Reply::Acquired), Action::Execute(0));
    assert_eq!(run.advance(Reply::Unavailable), Action::Execute(0));
    assert_eq!(run.advance(Reply::Released), Action::Execute(0));
    assert_eq!(run.advance(Reply::Executed(3)), Action::Release);
    assert_eq!(run.advance(Reply::Executed(3)), Action::Release);
    assert_eq!(run.advance(Reply::Failed), Action::Release);
    assert_eq!(run.advance(Reply::Released), done(1, 3));
    assert_eq!(run.advance(Reply::Failed), done(1, 3));
    assert_eq!(run.advance(Reply::Acquired), done(1, 3));
}

#[test]
fn the_statement_is_there_while_one_is_to_run() {
    let mut run = Run::new(create_tables_if_not_exists());
    assert!(run.statement().is_none());
    run.advance(Reply::Acquired);
    assert_eq!(run.statement().map(|s| s.sql), Some(indiv_proj2::statement::CREATE_LEDGER_SQL));
    run.advance(Reply::Executed(0));
    assert_eq!(run.statement().map(|s| s.sql), Some(indiv_proj2::statement::CREATE_DISCOUNTS_SQL));
    run.advance(Reply::Executed(0));
    assert!(run.statement().is_none());
    run.advance(Reply::Released);
    assert!(run.statement().is_none());
}

#[test]
fn nothing_runs_after_a_failure() {
    let plan = ingest_csv(FOUR_ROWS).plan;
    let mut run = Run::new(plan);
    run.advance(Reply::Acquired);
    run.advance(Reply::Failed);
    let failed = Action::Finish(Err(LedgerError::Write { row: 0 }));
    assert_eq!(run.advance(Reply::Released), failed);
    for reply in [Reply::Acquired, Reply::Executed(1), Reply::Released, Reply::Failed, Reply::Unavailable] {
        assert_eq!(run.advance(reply), failed);
        assert!(run.statement().is_none());
    }
}

#[test]
fn the_count_of_touched_rows_stops_at_the_largest_number() {
    let actions = converse(
        create_tables_if_not_exists(),
        &[Reply::Acquired, Reply::Executed(u64::MAX - 1), Reply::Executed(5), Reply::Released],
    );
    assert_eq!(actions.last(), Some(&done(2, u64::MAX)));
    let exact = converse(
        create_tables_if_not_exists(),
        &[Reply::Acquired, Reply::Executed(u64::MAX - 5), Reply::Executed(5), Reply::Released],
    );
    assert_eq!(exact.last(), Some(&done(2, u64::MAX)));
    let small = converse(
        create_tables_if_not_exists(),
        &[Reply::Acquired, Reply::Executed(7), Reply::Executed(5), Reply::Released],
    );
    assert_eq!(small.last(), Some(&done(2, 12)));
}
