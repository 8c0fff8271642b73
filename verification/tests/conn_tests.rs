use std::sync::Arc;

use mysql::consts::ColumnType;
use mysql::Column;
use mysql::Params;
use mysql::Value;

use mockconn::conn::MockConnection;
use mockconn::error::MockError;
use mockconn::error::MockResult;
use mockconn::result_set::MockQueryResult;
use mockconn::row::MockRow;
use mockconn::stmt::MockStmt;

type QueryCb = fn(String) -> MockResult<MockQueryResult>;
type FirstCb = fn(String) -> MockResult<Option<MockRow>>;
type ExecCb = fn(String, Params) -> MockResult<MockQueryResult>;
type FirstExecCb = fn(String, Params) -> MockResult<Option<MockRow>>;
type PrepareCb = fn(String) -> MockResult<MockStmt<ExecCb, FirstExecCb>>;

fn col(name: &str) -> Column {
    Column::new(ColumnType::MYSQL_TYPE_LONG).with_name(name.as_bytes())
}

fn empty_result(affected_rows: u64) -> MockQueryResult {
    MockQueryResult::new(affected_rows, 0, 0, Vec::new(), Vec::new(), false, None)
}

fn one_row() -> MockRow {
    MockRow::new(
        vec![Some(Value::Int(1))],
        Arc::new(vec![col("n")]),
    )
}

#[test]
fn query_returns_the_callback_result_unchanged() {
    let conn = MockConnection {
        fn_query: Some(|q: String| -> MockResult<MockQueryResult> {
            assert_eq!(q, "SELECT 1");
            Ok(empty_result(41))
        }),
        fn_first: None::<FirstCb>,
        fn_prepare: None::<PrepareCb>,
        fn_prep_exec: None::<ExecCb>,
        fn_first_exec: None::<FirstExecCb>,
    };
    let qr = conn.query(String::from("SELECT 1")).unwrap();
    assert_eq!(qr.affected_rows(), 41);
}

#[test]
fn query_passes_a_callback_error_through() {
    let conn = MockConnection {
        fn_query: Some(|_q: String| -> MockResult<MockQueryResult> {
            Err(MockError::new(String::from("no such table")))
        }),
        fn_first: None::<FirstCb>,
        fn_prepare: None::<PrepareCb>,
        fn_prep_exec: None::<ExecCb>,
        fn_first_exec: None::<FirstExecCb>,
    };
    let r = conn.query(String::from("SELECT 1"));
    assert_eq!(r.unwrap_err().text(), "no such table");
}

#[test]
fn first_returns_the_callback_row_unchanged() {
    let conn = MockConnection {
        fn_query: None::<QueryCb>,
        fn_first: Some(|q: String| -> MockResult<Option<MockRow>> {
            assert_eq!(q, "SELECT n");
            Ok(Some(one_row()))
        }),
        fn_prepare: None::<PrepareCb>,
        fn_prep_exec: None::<ExecCb>,
        fn_first_exec: None::<FirstExecCb>,
    };
    let row = conn.first(String::from("SELECT n")).unwrap().unwrap();
    assert_eq!(row.values[0], Some(Value::Int(1)));
}

#[test]
fn prep_exec_hands_over_text_and_params() {
    let conn = MockConnection {
        fn_query: None::<QueryCb>,
        fn_first: None::<FirstCb>,
        fn_prepare: None::<PrepareCb>,
        fn_prep_exec: Some(|q: String, p: Params| -> MockResult<MockQueryResult> {
            assert_eq!(q, "INSERT ?");
            assert_eq!(p, Params::Empty);
            Ok(empty_result(1))
        }),
        fn_first_exec: None::<FirstExecCb>,
    };
    let qr = conn.prep_exec(String::from("INSERT ?"), Params::Empty).unwrap();
    assert_eq!(qr.affected_rows(), 1);
}

#[test]
fn first_exec_hands_over_text_and_params() {
    let conn = MockConnection {
        fn_query: None::<QueryCb>,
        fn_first: None::<FirstCb>,
        fn_prepare: None::<PrepareCb>,
        fn_prep_exec: None::<ExecCb>,
        fn_first_exec: Some(|q: String, p: Params| -> MockResult<Option<MockRow>> {
            assert_eq!(q, "SELECT n WHERE ?");
            assert_eq!(p, Params::Empty);
            Ok(None)
        }),
    };
    let r = conn
        .first_exec(String::from("SELECT n WHERE ?"), Params::Empty)
        .unwrap();
    assert!(r.is_none());
}

#[test]
fn prepare_yields_a_statement_that_replays_the_held_text() {
    let conn = MockConnection {
        fn_query: None::<QueryCb>,
        fn_first: None::<FirstCb>,
        fn_prepare: Some(|q: String| {
            Ok(MockStmt::new(
                None,
                Some(vec![col("id"), col("amount")]),
                Some(|held: String, p: Params| -> MockResult<MockQueryResult> {
                    assert_eq!(held, "UPDATE t SET a = ?");
                    assert_eq!(p, Params::Empty);
                    Ok(empty_result(5))
                }),
                None::<FirstExecCb>,
                q,
            ))
        }),
        fn_prep_exec: None::<ExecCb>,
        fn_first_exec: None::<FirstExecCb>,
    };
    let stmt = conn.prepare(String::from("UPDATE t SET a = ?")).unwrap();
    assert_eq!(stmt.column_index("amount"), Some(1));
    assert_eq!(stmt.column_index("missing"), None);
    let qr = stmt.execute(Params::Empty).unwrap();
    assert_eq!(qr.affected_rows(), 5);
}

#[test]
fn statement_metadata_views_report_what_was_supplied() {
    let stmt = MockStmt::new(
        Some(vec![col("p0")]),
        Some(vec![col("id"), col("name"), col("amount")]),
        None::<ExecCb>,
        None::<FirstExecCb>,
        String::from("SELECT id, name, amount"),
    );
    let params = stmt.params_ref().unwrap();
    assert_eq!(params.len(), 1);
    assert_eq!(params[0].name_str(), "p0");
    let columns = stmt.columns_ref().unwrap();
    assert_eq!(columns.len(), 3);
    assert_eq!(stmt.column_index("amount"), Some(2));
    assert_eq!(stmt.query, "SELECT id, name, amount");
}

#[test]
fn absent_statement_metadata_stays_absent() {
    let stmt = MockStmt::new(
        None,
        None,
        None::<ExecCb>,
        None::<FirstExecCb>,
        String::from("SELECT 1"),
    );
    assert!(stmt.params_ref().is_none());
    assert!(stmt.columns_ref().is_none());
    assert_eq!(stmt.column_index("anything"), None);
}

#[test]
fn first_exec_on_a_statement_replays_the_held_text() {
    let stmt = MockStmt::new(
        None,
        None,
        None::<ExecCb>,
        Some(|held: String, _p: Params| -> MockResult<Option<MockRow>> {
            assert_eq!(held, "SELECT n");
            Ok(Some(one_row()))
        }),
        String::from("SELECT n"),
    );
    let row = stmt.first_exec(Params::Empty).unwrap().unwrap();
    assert_eq!(row.values[0], Some(Value::Int(1)));
}
