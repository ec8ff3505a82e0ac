use kuzu_rs::connection::Connection;
use kuzu_rs::error::Error;
use kuzu_rs::database::{Database, DatabaseBuilder, LogLevel};
use kuzu_rs::engine::{EngineCall, PrepareOutcome, QueryOutcome, RawPayload, RawValue};
use kuzu_rs::logical_type::KUZU_INT64;
use kuzu_rs::prepared_statement::Statement;
use kuzu_rs::query_result::QueryResult;
use kuzu_rs::value::KuzuValue;

/// A mock of the engine holding one node table `User(name, age)`. It hands
/// out handles, remembers bound parameters, and answers an executed
/// statement by filtering the table on the parameter bound to name `"1"`.
struct MockEngine {
    users: Vec<(String, i64)>,
    bound_name: Option<String>,
    next_handle: u64,
    result_rows: Vec<Vec<RawValue>>,
}

impl MockEngine {
    fn new() -> MockEngine {
        MockEngine { users: Vec::new(), bound_name: None, next_handle: 100, result_rows: Vec::new() }
    }

    fn fresh_handle(&mut self) -> u64 {
        self.next_handle += 1;
        self.next_handle
    }

    fn perform(&mut self, call: EngineCall) -> u64 {
        match call {
            EngineCall::DatabaseInit { .. } => self.fresh_handle(),
            EngineCall::SetLoggingLevel { .. } => 0,
            EngineCall::ConnectionInit { .. } => self.fresh_handle(),
            EngineCall::Query { text, .. } => {
                if text.starts_with("CREATE NODE TABLE User") {
                    self.result_rows = Vec::new();
                }
                self.fresh_handle()
            },
            EngineCall::Prepare { .. } => self.fresh_handle(),
            EngineCall::BindValue { name, value, .. } => {
                if name == "1" {
                    if let RawPayload::Bytes(bytes) = value.payload {
                        self.bound_name = Some(String::from_utf8(bytes).unwrap());
                    }
                }
                0
            },
            EngineCall::Execute { .. } => {
                let wanted = self.bound_name.clone().unwrap_or_default();
                self.result_rows = self
                    .users
                    .iter()
                    .filter(|(name, _)| *name == wanted)
                    .map(|(_, age)| {
                        vec![RawValue {
                            type_tag: KUZU_INT64,
                            fixed_list_len: 0,
                            payload: RawPayload::Int64(*age),
                        }]
                    })
                    .collect();
                self.fresh_handle()
            },
            EngineCall::Destroy { .. } => 0,
            _ => 0,
        }
    }
}

#[test]
fn select_bound_parameter_yields_typed_row() {
    let mut engine = MockEngine::new();
    engine.users.push(("elma".to_owned(), 12));

    // open the database and a connection through the builder
    let builder = Database::builder("demo-db").with_log_level(LogLevel::Debug);
    let (init, logging) = builder.build().unwrap();
    let db_handle = engine.perform(init);
    engine.perform(logging);
    let db = Database::new(db_handle);

    let conn_handle = engine.perform(EngineCall::ConnectionInit { database: db_handle });
    let mut conn = Connection::new(conn_handle).unwrap();

    // prepare the statement and bind the positional parameter
    let prepare = conn.prepare("SELECT a.age FROM User a WHERE a.name = $1").unwrap();
    let stmt_handle = engine.perform(prepare);
    let mut stmt = Statement::new(
        &conn,
        PrepareOutcome {
            raw: stmt_handle,
            is_success: true,
            error_message: vec![],
            allow_active_transaction: true,
        },
    )
    .unwrap();
    stmt.bind(1usize, KuzuValue::String("elma".to_owned())).unwrap();

    // execute: one bind call, then the execute call
    let calls = stmt.execute().unwrap();
    let mut result_handle = 0u64;
    for call in calls {
        result_handle = engine.perform(call);
    }

    let result = QueryResult::from_outcome(QueryOutcome {
        raw: result_handle,
        is_success: true,
        error_message: vec![],
    })
    .unwrap();

    // pull the rows the mock produced
    let rows = std::mem::take(&mut engine.result_rows);
    assert_eq!(rows.len(), 1);
    let mut iter = result.iter(vec![b"a.age".to_vec()], rows.len()).unwrap();
    let mut ages: Vec<i64> = Vec::new();
    for tuple in rows {
        let row = iter.next_row(tuple).unwrap();
        ages.push(row.get_val::<i64>(0).unwrap());
    }
    assert_eq!(ages, vec![12]);

    // tear down, one destroy call per live guard
    let mut stmt = stmt;
    assert!(matches!(stmt.release(), Some(EngineCall::Destroy { .. })));
    let mut iter = iter;
    assert!(matches!(iter.release(), Some(EngineCall::Destroy { .. })));
    assert!(matches!(conn.release(), Some(EngineCall::Destroy { .. })));
    let mut db = db;
    assert!(matches!(db.release(), Some(EngineCall::Destroy { .. })));
}

#[test]
fn builder_collects_path_pool_and_level() {
    let builder = DatabaseBuilder::new("some/path").with_page_buffer_pool_size(4096);
    let (init, logging) = builder.build().unwrap();
    match init {
        EngineCall::DatabaseInit { path, buffer_pool_size } => {
            assert_eq!(path, "some/path");
            assert_eq!(buffer_pool_size, 4096);
        },
        other => panic!("expected the init call, got {:?}", other),
    }
    match logging {
        EngineCall::SetLoggingLevel { level } => assert_eq!(level, "err"),
        other => panic!("expected the logging call, got {:?}", other),
    }
}

#[test]
fn statement_failures_follow_the_prepare_report() {
    let conn = Connection::new(9).unwrap();
    match Statement::new(
        &conn,
        PrepareOutcome {
            raw: 0,
            is_success: true,
            error_message: vec![],
            allow_active_transaction: true,
        },
    ) {
        Err(Error::FFIGotNull(what)) => assert_eq!(what, "kuzu_prepared_statement"),
        other => panic!("expected a null-handle error, got {:?}", other),
    }
    match Statement::new(
        &conn,
        PrepareOutcome {
            raw: 4,
            is_success: false,
            error_message: b"Parser exception".to_vec(),
            allow_active_transaction: true,
        },
    ) {
        Err(Error::ConnectionError(msg)) => assert_eq!(msg, "Parser exception"),
        other => panic!("expected a connection error, got {:?}", other),
    }
    match Statement::new(
        &conn,
        PrepareOutcome {
            raw: 4,
            is_success: true,
            error_message: vec![],
            allow_active_transaction: false,
        },
    ) {
        Err(Error::TxNotAllowed) => {},
        other => panic!("expected the transaction-not-allowed error, got {:?}", other),
    }
}

#[test]
fn composite_arguments_fail_fast_before_any_call() {
    let conn = Connection::new(9).unwrap();
    let mut stmt = Statement::new(
        &conn,
        PrepareOutcome {
            raw: 4,
            is_success: true,
            error_message: vec![],
            allow_active_transaction: true,
        },
    )
    .unwrap();
    let list = {
        let raw = RawValue {
            type_tag: kuzu_rs::logical_type::KUZU_VAR_LIST,
            fixed_list_len: 0,
            payload: RawPayload::List(vec![]),
        };
        KuzuValue::from_raw(raw).unwrap()
    };
    stmt.bind("xs", list).unwrap();
    match stmt.execute() {
        Err(Error::DecodeError(from, to)) => {
            assert_eq!(from, "KuzuValue::VarList");
            assert_eq!(to, "kuzu_value");
        },
        other => panic!("expected a decode error, got {:?}", other),
    }
}

#[test]
fn bound_parameters_are_named_in_order() {
    let conn = Connection::new(9).unwrap();
    let mut stmt = Statement::new(
        &conn,
        PrepareOutcome {
            raw: 4,
            is_success: true,
            error_message: vec![],
            allow_active_transaction: true,
        },
    )
    .unwrap();
    stmt.bind(0usize, KuzuValue::Int64(5)).unwrap();
    stmt.bind("age", KuzuValue::Int64(40)).unwrap();
    stmt.bind(300usize, KuzuValue::Bool(true)).unwrap();
    let calls = stmt.execute().unwrap();
    assert_eq!(calls.len(), 4);
    let names: Vec<String> = calls
        .iter()
        .filter_map(|c| match c {
            EngineCall::BindValue { name, .. } => Some(name.clone()),
            _ => None,
        })
        .collect();
    assert_eq!(names, vec!["0".to_owned(), "age".to_owned(), "300".to_owned()]);
    assert!(matches!(calls.last(), Some(EngineCall::Execute { .. })));
}
