use indiv_proj2::statement::{CREATE_DISCOUNTS_SQL, CREATE_LEDGER_SQL, REVENUE_SQL, SELECT_SQL};
use indiv_proj2::{
    check_data, clear_table, complex_query, create_tables_if_not_exists, delete_data, insert_data,
    insert_data_from_csv, update_data, Action, Decimal, LedgerError, Operation, Param, Plan,
    Reply, Rows, Run, Summary,
};

/// Runs a plan against a store that runs every statement and touches one row
/// each time; returns the texts in the order in which they ran, and the result.
fn run_on_willing_store(plan: Plan) -> (Vec<String>, Result<Summary, LedgerError>) {
    let mut run = Run::new(plan);
    let mut ran = Vec::new();
    let mut action = run.pending();
    loop {
        action = match action {
            Action::Acquire => run.advance(Reply::Acquired),
            Action::Execute(_) => {
                ran.push(run.statement().expect("a statement is pending").sql.to_string());
                run.advance(Reply::Executed(1))
            }
            Action::Release => run.advance(Reply::Released),
            Action::Finish(result) => return (ran, result),
        };
    }
}

fn price(text: &str) -> Decimal {
    Decimal::parse(text).expect("a decimal")
}

fn as_number(param: &Param) -> f64 {
    match param {
        Param::Decimal(number) => number.as_str().parse().expect("a number"),
        other => panic!("no decimal: {:?}", other),
    }
}

#[test]
fn test_table_creation() {
    let plan = create_tables_if_not_exists();
    assert_eq!(plan.operation, Operation::Provisioning);
    assert_eq!(plan.statements.len(), 2);
    assert_eq!(plan.statements[0].sql, CREATE_LEDGER_SQL);
    assert_eq!(plan.statements[1].sql, CREATE_DISCOUNTS_SQL);
    assert!(plan.statements[0].sql.starts_with("CREATE TABLE IF NOT EXISTS week6_mini ("));
    assert!(plan.statements[1].sql.starts_with("CREATE TABLE IF NOT EXISTS week6_mini_discounts ("));
    assert!(plan.statements.iter().all(|s| s.params.is_empty() && s.rows == Rows::Nothing));
    let product = "Product VARCHAR(255) CHARACTER SET utf8mb4 COLLATE utf8mb4_0900_bin";
    assert!(plan.statements.iter().all(|s| s.sql.matches(product).count() == 1));
    assert_eq!(
        plan.statements[0].sql,
        "CREATE TABLE IF NOT EXISTS week6_mini (Date DATE, Product VARCHAR(255) CHARACTER SET \
         utf8mb4 COLLATE utf8mb4_0900_bin, Price FLOAT, Quantity INT)"
    );
    assert_eq!(
        plan.statements[1].sql,
        "CREATE TABLE IF NOT EXISTS week6_mini_discounts (Product VARCHAR(255) CHARACTER SET \
         utf8mb4 COLLATE utf8mb4_0900_bin, Discount FLOAT)"
    );

    let (ran, result) = run_on_willing_store(plan);
    assert_eq!(ran, vec![CREATE_LEDGER_SQL.to_string(), CREATE_DISCOUNTS_SQL.to_string()]);
    assert_eq!(result.map(|summary| summary.executed), Ok(2));
}

#[test]
fn provisioning_twice_sends_the_same_statements() {
    let first = create_tables_if_not_exists();
    let second = create_tables_if_not_exists();
    assert_eq!(first, second);
    let (ran_first, result_first) = run_on_willing_store(first);
    let (ran_second, result_second) = run_on_willing_store(second);
    assert_eq!(ran_first, ran_second);
    assert!(result_first.is_ok() && result_second.is_ok());
}

const TEN_ROWS: &str = "Date,Product,Price,Quantity\n\
2023-09-01,Apple,1.2,50\n\
2023-09-01,Banana,0.5,40\n\
2023-09-02,Apple,1.3,45\n\
2023-09-02,Banana,0.6,50\n\
2023-09-03,Apple,1.1,55\n\
2023-09-03,Banana,0.7,35\n\
2023-09-04,Cherry,2.5,20\n\
2023-09-04,Apple,1.2,60\n\
2023-09-05,Banana,0.5,45\n\
2023-09-05,Cherry,2.4,25\n";

#[test]
fn test_data_insert_csv() {
    let cleared = clear_table();
    assert_eq!(cleared.statements.len(), 1);
    assert_eq!(cleared.statements[0].sql, "DELETE FROM week6_mini");

    let ingestion = insert_data_from_csv(Ok(TEN_ROWS.as_bytes().to_vec())).expect("a plan");
    assert_eq!(ingestion.skipped, 0);
    assert_eq!(ingestion.plan.operation, Operation::Ingestion);
    assert_eq!(ingestion.plan.statements.len(), 10, "Data insertion from CSV failed");
    let (ran, result) = run_on_willing_store(ingestion.plan);
    assert_eq!(ran.len(), 10);
    assert_eq!(result, Ok(Summary { executed: 10, affected: 10 }));
}

#[test]
fn test_complex_query() {
    let plan = complex_query();
    assert_eq!(plan.operation, Operation::Query);
    assert_eq!(plan.statements.len(), 1);
    let statement = &plan.statements[0];
    assert_eq!(statement.sql, REVENUE_SQL);
    assert_eq!(statement.rows, Rows::Revenue);
    assert!(statement.params.is_empty());
    assert!(statement.sql.contains("w.Price * w.Quantity * (1 - COALESCE(d.Discount, 0)) AS Total_Revenue"));
    assert!(statement.sql.contains("FROM week6_mini w LEFT JOIN week6_mini_discounts d ON w.Product = d.Product"));
    assert!(statement.sql.ends_with("ORDER BY Total_Revenue DESC"));
}

#[test]
fn test_data_insert() {
    let plan = insert_data("2022-01-01", "Banana", price("0.5"), 2);
    assert_eq!(plan.operation, Operation::Query);
    assert_eq!(plan.statements.len(), 1, "Data insertion failed");
    let statement = &plan.statements[0];
    assert_eq!(
        statement.sql,
        "INSERT INTO week6_mini (Date, Product, Price, Quantity) VALUES (?, ?, ?, ?)"
    );
    assert_eq!(statement.rows, Rows::Nothing);
    assert_eq!(statement.params.len(), 4);
    assert_eq!(statement.params[0], Param::Text("2022-01-01".to_string()));
    assert_eq!(statement.params[1], Param::Text("Banana".to_string()));
    assert_eq!(as_number(&statement.params[2]), 0.5, "Inserted price does not match");
    assert_eq!(statement.params[3], Param::Integer(2), "Inserted quantity does not match");
}

#[test]
fn test_data_update() {
    let inserted = insert_data("2022-01-02", "Grape", price("1.2"), 5);
    assert_eq!(as_number(&inserted.statements[0].params[2]), 1.2);
    assert_eq!(inserted.statements[0].params[3], Param::Integer(5));

    let plan = update_data("2022-01-02", "Grape", price("1.5"), 7);
    assert_eq!(plan.operation, Operation::Query);
    assert_eq!(plan.statements.len(), 1, "Data update failed");
    let statement = &plan.statements[0];
    assert_eq!(
        statement.sql,
        "UPDATE week6_mini SET Price = ?, Quantity = ? WHERE Date = ? AND Product = ?"
    );
    assert_eq!(statement.params.len(), 4);
    assert_eq!(as_number(&statement.params[0]), 1.5, "Updated price does not match");
    assert_eq!(statement.params[1], Param::Integer(7), "Updated quantity does not match");
    assert_eq!(statement.params[2], Param::Text("2022-01-02".to_string()));
    assert_eq!(statement.params[3], Param::Text("Grape".to_string()));
}

#[test]
fn test_data_delete() {
    let inserted = insert_data("2022-01-03", "Orange", price("0.8"), 3);
    assert_eq!(as_number(&inserted.statements[0].params[2]), 0.8);

    let plan = delete_data("2022-01-03", "Orange");
    assert_eq!(plan.operation, Operation::Query);
    assert_eq!(plan.statements.len(), 1, "Data deletion failed");
    let statement = &plan.statements[0];
    assert_eq!(statement.sql, "DELETE FROM week6_mini WHERE Date = ? AND Product = ?");
    assert_eq!(
        statement.params,
        vec![Param::Text("2022-01-03".to_string()), Param::Text("Orange".to_string())]
    );
}

#[test]
fn check_data_reads_the_ledger_by_date() {
    let plan = check_data();
    assert_eq!(plan.operation, Operation::Query);
    assert_eq!(plan.statements.len(), 1);
    assert_eq!(plan.statements[0].sql, SELECT_SQL);
    assert_eq!(
        plan.statements[0].sql,
        "SELECT Date, Product, Price, Quantity FROM week6_mini ORDER BY Date ASC"
    );
    assert_eq!(plan.statements[0].rows, Rows::Ledger);
    assert!(plan.statements[0].params.is_empty());
}

#[test]
fn two_rows_of_one_date_and_product_are_both_inserted() {
    let first = insert_data("2022-02-01", "Pear", price("1.0"), 1);
    let second = insert_data("2022-02-01", "Pear", price("2.0"), 9);
    assert_eq!(first.statements[0].sql, second.statements[0].sql);
    assert_ne!(first.statements[0].params, second.statements[0].params);
    for plan in [first, second] {
        let (ran, result) = run_on_willing_store(plan);
        assert_eq!(ran.len(), 1);
        assert_eq!(result, Ok(Summary { executed: 1, affected: 1 }));
    }
}

#[test]
fn values_never_reach_the_statement_text() {
    let hostile = "x'); DROP TABLE week6_mini; --";
    let inserted = insert_data(hostile, hostile, price("1"), 1);
    let updated = update_data(hostile, hostile, price("1"), 1);
    let deleted = delete_data(hostile, hostile);
    assert_eq!(inserted.statements[0].sql, insert_data("a", "b", price("2"), 2).statements[0].sql);
    assert_eq!(updated.statements[0].sql, update_data("a", "b", price("2"), 2).statements[0].sql);
    assert_eq!(deleted.statements[0].sql, delete_data("a", "b").statements[0].sql);
    assert_eq!(inserted.statements[0].params[0], Param::Text(hostile.to_string()));
    assert_eq!(deleted.statements[0].params[1], Param::Text(hostile.to_string()));
}

#[test]
fn every_statement_has_a_value_for_each_placeholder() {
    let mut plans = vec![
        create_tables_if_not_exists(),
        clear_table(),
        check_data(),
        complex_query(),
        insert_data("2022-01-01", "Banana", price("0.5"), 2),
        update_data("2022-01-01", "Banana", price("0.5"), 2),
        delete_data("2022-01-01", "Banana"),
    ];
    plans.push(insert_data_from_csv(Ok(TEN_ROWS.as_bytes().to_vec())).expect("a plan").plan);
    for plan in &plans {
        for statement in &plan.statements {
            let marks = statement.sql.chars().filter(|c| *c == '?').count();
            assert_eq!(marks, statement.params.len(), "{}", statement.sql);
        }
    }
}

#[test]
fn a_statement_is_prepared_where_it_binds_values() {
    assert!(insert_data("2022-01-01", "Banana", price("0.5"), 2).statements[0].is_prepared());
    assert!(update_data("2022-01-01", "Banana", price("0.5"), 2).statements[0].is_prepared());
    assert!(delete_data("2022-01-01", "Banana").statements[0].is_prepared());
    assert!(!clear_table().statements[0].is_prepared());
    assert!(!check_data().statements[0].is_prepared());
    assert!(!complex_query().statements[0].is_prepared());
    assert!(create_tables_if_not_exists().statements.iter().all(|s| !s.is_prepared()));
}
