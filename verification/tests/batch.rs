use sql_gateway::batch::{open, BatchItem, Progress};
use sql_gateway::codec::{Binding, CellProbe};
use sql_gateway::error::GatewayError;
use sql_gateway::statement::{complete, prepare, RawRow, ResultSet, Statement};
use sql_gateway::store::Store;
use sql_gateway::value::DynValue;

fn item(sql: &str, params: Vec<DynValue>) -> BatchItem {
    BatchItem { sql: String::from(sql), params, method: String::from("run") }
}

fn integer_row(i: i64) -> RawRow {
    vec![CellProbe { integer: Some(i), float: None, text: None, boolean: None }]
}

/// Runs a batch against scripted answers and notes what was asked of the
/// store on the way.
fn drive(
    store: Store<()>,
    items: Vec<BatchItem>,
    begin: Result<(), String>,
    mut fetches: Vec<Result<Vec<RawRow>, String>>,
    commit: Result<(), String>,
    asked: &mut Vec<String>,
) -> Result<Vec<ResultSet>, GatewayError> {
    fetches.reverse();
    let (_, opening) = open(&store, items)?;
    asked.push(String::from("begin"));
    let (_, mut progress) = opening.began(begin)?;
    loop {
        match progress {
            Progress::Run(running) => {
                let statement = running.statement();
                asked.push(statement.sql.clone());
                progress = running.fetched(fetches.pop().unwrap())?;
            }
            Progress::Commit(committing) => {
                asked.push(String::from("commit"));
                return committing.committed(commit);
            }
        }
    }
}

#[test]
fn batch_before_ready_asks_nothing() {
    for store in [Store::Uninitialized, Store::Initializing] {
        let mut asked = Vec::new();
        let result = drive(
            store,
            vec![item("SELECT 1", vec![])],
            Ok(()),
            vec![Ok(vec![integer_row(1)])],
            Ok(()),
            &mut asked,
        );
        assert_eq!(result, Err(GatewayError::StoreNotInitialized));
        assert!(asked.is_empty());
    }
}

#[test]
fn batch_returns_result_sets_in_order() {
    let mut asked = Vec::new();
    let result = drive(
        Store::Ready(()),
        vec![item("SELECT 1", vec![]), item("SELECT 2", vec![]), item("SELECT 3", vec![])],
        Ok(()),
        vec![
            Ok(vec![integer_row(1)]),
            Ok(vec![integer_row(2), integer_row(20)]),
            Ok(vec![integer_row(3)]),
        ],
        Ok(()),
        &mut asked,
    );
    assert_eq!(
        result,
        Ok(vec![
            vec![vec![DynValue::Int(1)]],
            vec![vec![DynValue::Int(2)], vec![DynValue::Int(20)]],
            vec![vec![DynValue::Int(3)]],
        ])
    );
    assert_eq!(asked, vec!["begin", "SELECT 1", "SELECT 2", "SELECT 3", "commit"]);
}

#[test]
fn batch_result_sets_match_single_statements() {
    let answers = vec![
        vec![integer_row(1)],
        vec![],
        vec![integer_row(3), integer_row(4)],
    ];
    let mut asked = Vec::new();
    let batch = drive(
        Store::Ready(()),
        vec![item("a", vec![]), item("b", vec![]), item("c", vec![])],
        Ok(()),
        answers.iter().cloned().map(Ok).collect(),
        Ok(()),
        &mut asked,
    )
    .unwrap();
    assert_eq!(batch.len(), 3);
    for (set, answer) in batch.into_iter().zip(answers) {
        assert_eq!(Ok(set), complete(Ok(answer)));
    }
}

#[test]
fn batch_binds_as_single_statements_do() {
    let params = vec![DynValue::Int(5), DynValue::Text(String::from("x")), DynValue::Null];
    let store = Store::Ready(11u8);
    let (pool, opening) = open(&store, vec![item("INSERT ?", params.clone())]).unwrap();
    assert_eq!(pool, &11);
    match opening.began(Ok("transaction")).unwrap() {
        (transaction, Progress::Run(running)) => {
            assert_eq!(transaction, "transaction");
            let statement = running.statement();
            assert_eq!(
                statement,
                Statement {
                    sql: String::from("INSERT ?"),
                    bindings: vec![
                        Binding::Int(5),
                        Binding::Text(String::from("x")),
                        Binding::Null
                    ],
                }
            );
            assert_eq!(Ok((&11, statement)), prepare(&store, String::from("INSERT ?"), &params));
        }
        (_, Progress::Commit(_)) => panic!("nothing ran"),
    }
}

#[test]
fn failing_third_statement_fails_the_batch_without_commit() {
    let mut asked = Vec::new();
    let result = drive(
        Store::Ready(()),
        vec![item("one", vec![]), item("two", vec![]), item("three", vec![])],
        Ok(()),
        vec![Ok(vec![]), Ok(vec![integer_row(2)]), Err(String::from("constraint failed"))],
        Ok(()),
        &mut asked,
    );
    assert_eq!(result, Err(GatewayError::StatementError(String::from("constraint failed"))));
    assert_eq!(asked, vec!["begin", "one", "two", "three"]);
}

#[test]
fn failing_first_statement_stops_the_batch() {
    let mut asked = Vec::new();
    let result = drive(
        Store::Ready(()),
        vec![item("one", vec![]), item("two", vec![])],
        Ok(()),
        vec![Err(String::from("no such table: t")), Ok(vec![])],
        Ok(()),
        &mut asked,
    );
    assert_eq!(result, Err(GatewayError::StatementError(String::from("no such table: t"))));
    assert_eq!(asked, vec!["begin", "one"]);
}

#[test]
fn transaction_that_does_not_begin_fails_the_batch() {
    let mut asked = Vec::new();
    let result = drive(
        Store::Ready(()),
        vec![item("one", vec![])],
        Err(String::from("pool closed")),
        vec![Ok(vec![])],
        Ok(()),
        &mut asked,
    );
    assert_eq!(result, Err(GatewayError::TransactionError(String::from("pool closed"))));
    assert_eq!(asked, vec!["begin"]);
}

#[test]
fn commit_that_fails_fails_the_batch() {
    let mut asked = Vec::new();
    let result = drive(
        Store::Ready(()),
        vec![item("one", vec![])],
        Ok(()),
        vec![Ok(vec![integer_row(1)])],
        Err(String::from("database is locked")),
        &mut asked,
    );
    assert_eq!(result, Err(GatewayError::TransactionError(String::from("database is locked"))));
    assert_eq!(asked, vec!["begin", "one", "commit"]);
}

#[test]
fn empty_batch_commits_at_once() {
    let mut asked = Vec::new();
    let result = drive(Store::Ready(()), vec![], Ok(()), vec![], Ok(()), &mut asked);
    assert_eq!(result, Ok(vec![]));
    assert_eq!(asked, vec!["begin", "commit"]);
}

#[test]
fn method_label_changes_nothing() {
    let run = |method: &str| {
        let mut asked = Vec::new();
        let items = vec![BatchItem {
            sql: String::from("SELECT ?"),
            params: vec![DynValue::Int(1)],
            method: String::from(method),
        }];
        let result =
            drive(Store::Ready(()), items, Ok(()), vec![Ok(vec![integer_row(1)])], Ok(()), &mut asked);
        (result, asked)
    };
    assert_eq!(run("run"), run("all"));
    assert_eq!(run(""), run("no such method"));
}

#[test]
fn batch_item_clone_keeps_every_field() {
    let first = BatchItem {
        sql: String::from("SELECT ?"),
        params: vec![DynValue::Int(1), DynValue::Text(String::from("x"))],
        method: String::from("all"),
    };
    let copy = first.clone();
    assert_eq!(copy, first);
    assert_eq!(copy.method, "all");
}
