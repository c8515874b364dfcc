use sql_gateway::codec::{Binding, CellProbe};
use sql_gateway::error::GatewayError;
use sql_gateway::statement::{complete, prepare, Statement};
use sql_gateway::store::Store;
use sql_gateway::value::DynValue;

fn silent() -> CellProbe {
    CellProbe { integer: None, float: None, text: None, boolean: None }
}

#[test]
fn prepare_before_ready_is_refused() {
    let params = vec![DynValue::Int(1)];
    assert_eq!(
        prepare(&Store::<u8>::Uninitialized, String::from("SELECT ?"), &params),
        Err(GatewayError::StoreNotInitialized)
    );
    assert_eq!(
        prepare(&Store::<u8>::Initializing, String::from("SELECT ?"), &params),
        Err(GatewayError::StoreNotInitialized)
    );
}

#[test]
fn prepare_keeps_text_and_binds_in_order() {
    let params = vec![DynValue::Text(String::from("a")), DynValue::Int(2), DynValue::Null];
    assert_eq!(
        prepare(&Store::Ready(8u8), String::from("INSERT INTO t VALUES (?, ?, ?)"), &params),
        Ok((
            &8,
            Statement {
                sql: String::from("INSERT INTO t VALUES (?, ?, ?)"),
                bindings: vec![Binding::Text(String::from("a")), Binding::Int(2), Binding::Null],
            }
        ))
    );
}

#[test]
fn prepare_does_not_judge_the_text() {
    assert_eq!(
        prepare(&Store::Ready(()), String::from("not sql at all ?"), &Vec::new()),
        Ok((&(), Statement { sql: String::from("not sql at all ?"), bindings: vec![] }))
    );
    assert_eq!(
        prepare(&Store::Ready(()), String::new(), &vec![DynValue::Bool(true)]),
        Ok((&(), Statement { sql: String::new(), bindings: vec![Binding::Bool(true)] }))
    );
}

#[test]
fn complete_decodes_rows() {
    let rows = vec![
        vec![
            CellProbe { integer: Some(1), boolean: Some(true), ..silent() },
            CellProbe { text: Some(String::from("x")), ..silent() },
        ],
        vec![silent(), CellProbe { boolean: Some(false), ..silent() }],
    ];
    assert_eq!(
        complete(Ok(rows)),
        Ok(vec![
            vec![DynValue::Int(1), DynValue::Text(String::from("x"))],
            vec![DynValue::Null, DynValue::Bool(false)],
        ])
    );
}

#[test]
fn complete_without_rows_is_empty_set() {
    assert_eq!(complete(Ok(Vec::new())), Ok(Vec::new()));
}

#[test]
fn complete_passes_the_store_message_on() {
    assert_eq!(
        complete(Err(String::from("UNIQUE constraint failed: t.id"))),
        Err(GatewayError::StatementError(String::from("UNIQUE constraint failed: t.id")))
    );
}

#[test]
fn clones_are_equal_to_what_they_were_made_of() {
    let statement = Statement {
        sql: String::from("SELECT ?, ?"),
        bindings: vec![Binding::Text(String::from("a")), Binding::Null, Binding::Int(1)],
    };
    assert_eq!(statement.clone(), statement);
    let cell = CellProbe { integer: Some(1), text: Some(String::from("1")), ..silent() };
    assert_eq!(cell.clone(), cell);
    for error in [
        GatewayError::StoreNotInitialized,
        GatewayError::StatementError(String::from("s")),
        GatewayError::TransactionError(String::from("t")),
    ] {
        assert_eq!(error.clone(), error);
    }
}
