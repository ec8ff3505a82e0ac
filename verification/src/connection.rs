use vstd::prelude::*;

use crate::engine::{EngineCall, ResourceKind};
use crate::error::Error;
use crate::ptrc::PtrContainer;

verus! {

/// The type of a transaction: read-only transactions may run many at a
/// time; a read-write transaction excludes every other writer.
#[derive(Debug, Clone, Copy, PartialEq, Eq, Structural)]
pub enum TransactionType {
    Readonly,
    ReadWrite,
}

/// What a transaction does when it is finished without an explicit commit.
#[derive(Debug, Clone, Copy, PartialEq, Eq, Structural)]
pub enum DropBehaviour {
    RollBack,
    Commit,
    Ignore,
    Panic,
}

/// How many transactions of each type are active on a connection.
#[derive(Debug)]
pub struct TransactionStats {
    r: usize,
    rw: usize,
}

impl TransactionStats {
    /// The number of active read-only transactions.
    pub closed spec fn spec_r(&self) -> usize {
        self.r
    }

    /// The number of active read-write transactions.
    pub closed spec fn spec_rw(&self) -> usize {
        self.rw
    }
}

impl Default for TransactionStats {
    /// A fresh connection has no active transactions.
    fn default() -> (r: Self)
        ensures
            r.spec_r() == 0 && r.spec_rw() == 0,
    {
        TransactionStats { r: 0, rw: 0 }
    }
}

/// A connection to a database: the guard over the engine's connection
/// handle, and the transaction counters that enforce the single-writer
/// discipline.
#[derive(Debug)]
pub struct Connection {
    inner: PtrContainer,
    tx_stats: TransactionStats,
}

impl Connection {
    /// The engine handle this connection runs on.
    pub closed spec fn spec_raw(&self) -> u64 {
        self.inner.raw()
    }

    /// The guard over the connection handle.
    pub closed spec fn spec_guard(&self) -> PtrContainer {
        self.inner
    }

    /// The number of active read-only transactions.
    pub closed spec fn spec_r(&self) -> usize {
        self.tx_stats.spec_r()
    }

    /// The number of active read-write transactions.
    pub closed spec fn spec_rw(&self) -> usize {
        self.tx_stats.spec_rw()
    }

    /// A connection's guard is over a live connection handle.
    pub open spec fn wf(&self) -> bool {
        self.spec_guard().kind() == ResourceKind::Connection && self.spec_raw() != 0
    }

    /// The connection handle, for naming this connection in engine calls.
    pub(crate) fn to_inner(&self) -> (r: u64)
        ensures
            r == self.spec_raw(),
    {
        self.inner.raw_handle()
    }

    /// Wraps the handle the engine's connection-init call returned.
    /// Fails with `Error::FFIGotNull` if and only if the handle is null;
    /// a fresh connection has no active transactions.
    pub fn new(raw: u64) -> (r: Result<Connection, Error>)
        ensures
            raw == 0 <==> r is Err,
            r matches Err(e) ==> e matches Error::FFIGotNull(n) && n@ == "kuzu_connection"@,
            r matches Ok(c) ==> c.wf() && c.spec_raw() == raw && c.spec_r() == 0 && c.spec_rw()
                == 0,
    {
        let inner = PtrContainer::try_new(raw, ResourceKind::Connection)?;
        Ok(Connection { inner, tx_stats: TransactionStats::default() })
    }

    /// Gives up the connection's handle: the destroy call the driver must
    /// make, exactly once.
    pub fn release(&mut self) -> (c: Option<EngineCall>)
        ensures
            final(self).spec_raw() == old(self).spec_raw(),
            c is Some <==> old(self).spec_guard().alive() && old(self).spec_raw() != 0,
            c matches Some(call) ==> call == (EngineCall::Destroy {
                kind: old(self).spec_guard().kind(),
                raw: old(self).spec_raw(),
            }),
    {
        self.inner.release()
    }

    /// Begins a transaction of the given type.
    ///
    /// At any point in time there can be many read transactions but at most
    /// one write transaction: asking for a second active read-write
    /// transaction fails with `Error::MultipleWriteTxNotAllowed`, leaves the
    /// connection untouched, and — since no call is handed back — the
    /// engine's begin entry point is never reached. Otherwise the matching
    /// counter goes up by one and the caller receives the fresh transaction
    /// together with the begin call the driver must perform.
    pub fn transaction(&mut self, transaction_type: TransactionType) -> (r: Result<
        (Transaction, EngineCall),
        Error,
    >)
        requires
            transaction_type is Readonly ==> old(self).spec_r() < usize::MAX,
        ensures
            final(self).spec_raw() == old(self).spec_raw(),
            final(self).spec_guard() == old(self).spec_guard(),
            r is Err <==> transaction_type is ReadWrite && old(self).spec_rw() > 0,
            r matches Err(e) ==> e == Error::MultipleWriteTxNotAllowed && final(self).spec_r()
                == old(self).spec_r() && final(self).spec_rw() == old(self).spec_rw(),
            r matches Ok(p) ==> {
                &&& p.0.spec_conn() == old(self).spec_raw()
                &&& p.0.spec_type() == transaction_type
                &&& !p.0.spec_committed()
                &&& p.0.spec_on_drop() is RollBack
                &&& transaction_type is ReadWrite ==> final(self).spec_rw() == old(self).spec_rw()
                    + 1 && final(self).spec_r() == old(self).spec_r() && p.1
                    == (EngineCall::BeginWriteTransaction { connection: old(self).spec_raw() })
                &&& transaction_type is Readonly ==> final(self).spec_r() == old(self).spec_r() + 1
                    && final(self).spec_rw() == old(self).spec_rw() && p.1
                    == (EngineCall::BeginReadTransaction { connection: old(self).spec_raw() })
            },
    {
        match transaction_type {
            TransactionType::ReadWrite => {
                if self.tx_stats.rw > 0 {
                    return Err(Error::MultipleWriteTxNotAllowed);
                }
                self.tx_stats.rw = self.tx_stats.rw + 1;
                let tx = Transaction {
                    conn: self.inner.raw_handle(),
                    transaction_type: TransactionType::ReadWrite,
                    on_drop: DropBehaviour::RollBack,
                    committed: false,
                };
                Ok((tx, EngineCall::BeginWriteTransaction { connection: self.inner.raw_handle() }))
            },
            TransactionType::Readonly => {
                self.tx_stats.r = self.tx_stats.r + 1;
                let tx = Transaction {
                    conn: self.inner.raw_handle(),
                    transaction_type: TransactionType::Readonly,
                    on_drop: DropBehaviour::RollBack,
                    committed: false,
                };
                Ok((tx, EngineCall::BeginReadTransaction { connection: self.inner.raw_handle() }))
            },
        }
    }
}

/// A scoped unit of work on one connection. A transaction remembers whether
/// it was committed; finishing an uncommitted transaction rolls it back, so
/// dropping a transaction without committing undoes its work.
#[derive(Debug)]
pub struct Transaction {
    conn: u64,
    transaction_type: TransactionType,
    on_drop: DropBehaviour,
    committed: bool,
}

impl Transaction {
    /// The connection handle the transaction runs on.
    pub closed spec fn spec_conn(&self) -> u64 {
        self.conn
    }

    /// The transaction's type.
    pub closed spec fn spec_type(&self) -> TransactionType {
        self.transaction_type
    }

    /// Whether the transaction was committed.
    pub closed spec fn spec_committed(&self) -> bool {
        self.committed
    }

    /// What finishing does when the transaction was not committed.
    pub closed spec fn spec_on_drop(&self) -> DropBehaviour {
        self.on_drop
    }

    /// The connection handle, for naming the connection in engine calls.
    pub(crate) fn conn_handle(&self) -> (r: u64)
        ensures
            r == self.spec_conn(),
    {
        self.conn
    }

    /// Commits the transaction: marks it committed and hands back the
    /// commit call the driver must perform.
    pub fn commit(&mut self) -> (c: EngineCall)
        ensures
            final(self).spec_conn() == old(self).spec_conn(),
            final(self).spec_type() == old(self).spec_type(),
            final(self).spec_on_drop() == old(self).spec_on_drop(),
            final(self).spec_committed(),
            c == (EngineCall::Commit { connection: old(self).spec_conn() }),
    {
        self.committed = true;
        EngineCall::Commit { connection: self.conn }
    }

    /// The rollback call for this transaction's connection.
    pub fn rollback(&self) -> (c: EngineCall)
        ensures
            c == (EngineCall::Rollback { connection: self.spec_conn() }),
    {
        EngineCall::Rollback { connection: self.conn }
    }

    /// Finishes the transaction and returns the connection's counter for its
    /// type. Exactly when the transaction was never committed, the driver
    /// receives the rollback call to perform: work not committed by the time
    /// the transaction ends is undone, and a committed transaction is left
    /// alone. Consuming `self` makes a second finish impossible.
    pub fn finish(self, conn: &mut Connection) -> (c: Option<EngineCall>)
        requires
            self.spec_conn() == old(conn).spec_raw(),
            self.spec_type() is ReadWrite ==> old(conn).spec_rw() > 0,
            self.spec_type() is Readonly ==> old(conn).spec_r() > 0,
        ensures
            final(conn).spec_raw() == old(conn).spec_raw(),
            final(conn).spec_guard() == old(conn).spec_guard(),
            self.spec_type() is ReadWrite ==> final(conn).spec_rw() == old(conn).spec_rw() - 1
                && final(conn).spec_r() == old(conn).spec_r(),
            self.spec_type() is Readonly ==> final(conn).spec_r() == old(conn).spec_r() - 1
                && final(conn).spec_rw() == old(conn).spec_rw(),
            c is Some <==> !self.spec_committed(),
            c matches Some(call) ==> call == (EngineCall::Rollback {
                connection: self.spec_conn(),
            }),
    {
        let c = if !self.committed {
            Some(self.rollback())
        } else {
            None
        };
        match self.transaction_type {
            TransactionType::ReadWrite => {
                conn.tx_stats.rw = conn.tx_stats.rw - 1;
            },
            TransactionType::Readonly => {
                conn.tx_stats.r = conn.tx_stats.r - 1;
            },
        }
        c
    }
}

} // verus!
