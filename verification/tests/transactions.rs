use kuzu_rs::connection::{Connection, TransactionType};
use kuzu_rs::engine::EngineCall;
use kuzu_rs::error::Error;

/// A call-count mock of the foreign layer: it performs the calls the
/// library hands out and keeps one account's balance with the staging
/// semantics of a write transaction.
struct MockEngine {
    begin_read_calls: usize,
    begin_write_calls: usize,
    commit_calls: usize,
    rollback_calls: usize,
    committed_balance: f64,
    staged_balance: Option<f64>,
}

impl MockEngine {
    fn new(balance: f64) -> MockEngine {
        MockEngine {
            begin_read_calls: 0,
            begin_write_calls: 0,
            commit_calls: 0,
            rollback_calls: 0,
            committed_balance: balance,
            staged_balance: None,
        }
    }

    fn perform(&mut self, call: EngineCall) {
        match call {
            EngineCall::BeginReadTransaction { .. } => {
                self.begin_read_calls += 1;
            },
            EngineCall::BeginWriteTransaction { .. } => {
                self.begin_write_calls += 1;
                self.staged_balance = Some(self.committed_balance);
            },
            EngineCall::Commit { .. } => {
                self.commit_calls += 1;
                if let Some(b) = self.staged_balance.take() {
                    self.committed_balance = b;
                }
            },
            EngineCall::Rollback { .. } => {
                self.rollback_calls += 1;
                self.staged_balance = None;
            },
            EngineCall::Query { text, .. } => {
                if text == "UPDATE balance" {
                    if let Some(b) = self.staged_balance {
                        self.staged_balance = Some(b - 100.0);
                    }
                }
            },
            _ => {},
        }
    }

    fn balance(&self) -> f64 {
        self.committed_balance
    }
}

#[test]
fn second_write_transaction_is_rejected_without_a_begin_call() {
    let mut engine = MockEngine::new(1000.0);
    let mut conn = Connection::new(7).unwrap();

    let (tx1, begin) = conn.transaction(TransactionType::ReadWrite).unwrap();
    engine.perform(begin);
    assert_eq!(engine.begin_write_calls, 1);

    match conn.transaction(TransactionType::ReadWrite) {
        Err(Error::MultipleWriteTxNotAllowed) => {},
        other => panic!("expected the write-conflict error, got {:?}", other),
    }
    // no call was handed out, so the mock saw no second begin
    assert_eq!(engine.begin_write_calls, 1);

    if let Some(call) = tx1.finish(&mut conn) {
        engine.perform(call);
    }
    assert_eq!(engine.rollback_calls, 1);

    // once the writer is gone, a new write transaction may begin
    let (tx2, begin2) = conn.transaction(TransactionType::ReadWrite).unwrap();
    engine.perform(begin2);
    assert_eq!(engine.begin_write_calls, 2);
    tx2.finish(&mut conn);
}

#[test]
fn many_readers_may_run_at_once() {
    let mut engine = MockEngine::new(0.0);
    let mut conn = Connection::new(7).unwrap();
    let (r1, c1) = conn.transaction(TransactionType::Readonly).unwrap();
    engine.perform(c1);
    let (r2, c2) = conn.transaction(TransactionType::Readonly).unwrap();
    engine.perform(c2);
    let (w, c3) = conn.transaction(TransactionType::ReadWrite).unwrap();
    engine.perform(c3);
    assert_eq!(engine.begin_read_calls, 2);
    assert_eq!(engine.begin_write_calls, 1);
    r1.finish(&mut conn);
    r2.finish(&mut conn);
    w.finish(&mut conn);
}

#[test]
fn dropping_without_commit_rolls_back() {
    let mut engine = MockEngine::new(1000.0);
    let mut conn = Connection::new(7).unwrap();

    let (tx, begin) = conn.transaction(TransactionType::ReadWrite).unwrap();
    engine.perform(begin);
    engine.perform(conn.query("UPDATE balance").unwrap());

    // the transaction ends without a commit: the library orders a rollback
    if let Some(call) = tx.finish(&mut conn) {
        engine.perform(call);
    }
    assert_eq!(engine.rollback_calls, 1);
    assert_eq!(engine.commit_calls, 0);
    assert_eq!(engine.balance(), 1000.0);
}

#[test]
fn committing_keeps_the_update() {
    let mut engine = MockEngine::new(1000.0);
    let mut conn = Connection::new(7).unwrap();

    let (mut tx, begin) = conn.transaction(TransactionType::ReadWrite).unwrap();
    engine.perform(begin);
    engine.perform(conn.query("UPDATE balance").unwrap());

    engine.perform(tx.commit());
    // a committed transaction is left alone on drop: no rollback call
    assert_eq!(tx.finish(&mut conn), None);
    assert_eq!(engine.commit_calls, 1);
    assert_eq!(engine.rollback_calls, 0);
    assert_eq!(engine.balance(), 900.0);
}

#[test]
fn transactions_share_the_connection_call_surface() {
    let mut engine = MockEngine::new(1000.0);
    let mut conn = Connection::new(7).unwrap();
    let (mut tx, begin) = conn.transaction(TransactionType::ReadWrite).unwrap();
    engine.perform(begin);
    engine.perform(tx.query("UPDATE balance").unwrap());
    assert!(tx.prepare("SELECT 1").is_ok());
    engine.perform(tx.commit());
    tx.finish(&mut conn);
    assert_eq!(engine.balance(), 900.0);
}

#[test]
fn query_text_with_nul_is_rejected() {
    let conn = Connection::new(7).unwrap();
    match conn.query("bad\0text") {
        Err(Error::CStringEncodeError(t)) => assert_eq!(t, "bad\0text"),
        other => panic!("expected a C-string encode error, got {:?}", other),
    }
}
