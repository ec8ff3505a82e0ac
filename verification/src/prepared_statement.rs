use vstd::prelude::*;

use crate::connection::Connection;
use crate::encode::{encode_value, encodes_to, is_scalar};
use crate::engine::{EngineCall, PrepareOutcome, ResourceKind};
use crate::error::Error;
use crate::helper::{check_c_string, convert_inner_to_owned_string, dec_chars, u64_to_string};
use crate::ptrc::PtrContainer;
use crate::value::{variant_name_spec, KuzuValue};
use vstd::utf8::{decode_utf8, valid_utf8};

verus! {

broadcast use vstd::std_specs::vec::group_vec_axioms;

/// A pending argument of a prepared statement: the parameter name it will
/// be bound to and the value, stored without touching the engine (binding
/// is lazy; the calls are made when the statement is executed).
#[derive(Debug)]
pub struct Argument {
    name: String,
    value: KuzuValue,
}

impl Argument {
    /// The parameter name the value will be bound to.
    pub closed spec fn spec_name(&self) -> Seq<char> {
        self.name@
    }

    /// The pending value.
    pub closed spec fn spec_value(&self) -> KuzuValue {
        self.value
    }
}

/// A parameter key for [`Statement::bind`]: a positional index or a
/// parameter name.
pub trait BindKey: Sized {
    /// Whether the key can become a parameter name.
    spec fn key_ok(self) -> bool;

    /// The parameter name the key becomes.
    spec fn key_name(self) -> Seq<char>;

    /// The error reported for a key that cannot become a parameter name.
    spec fn key_err(self, e: Error) -> bool;

    /// Builds the pending argument for this key.
    fn to_argument(self, value: KuzuValue) -> (r: Result<Argument, Error>)
        ensures
            r is Ok <==> self.key_ok(),
            r matches Ok(a) ==> a.spec_name() == self.key_name() && a.spec_value() == value,
            r matches Err(e) ==> self.key_err(e),
    ;
}

impl BindKey for usize {
    /// A position always has a name: its decimal rendering. The engine
    /// numbers positional parameters this way, so no lookup can fail.
    open spec fn key_ok(self) -> bool {
        true
    }

    open spec fn key_name(self) -> Seq<char> {
        dec_chars(self as nat)
    }

    open spec fn key_err(self, e: Error) -> bool {
        false
    }

    fn to_argument(self, value: KuzuValue) -> (r: Result<Argument, Error>) {
        Ok(Argument { name: u64_to_string(self as u64), value })
    }
}

impl BindKey for &str {
    /// A name is usable unless it holds an interior NUL byte, which cannot
    /// cross the boundary as a C string.
    open spec fn key_ok(self) -> bool {
        !self@.contains('\0')
    }

    open spec fn key_name(self) -> Seq<char> {
        self@
    }

    open spec fn key_err(self, e: Error) -> bool {
        e matches Error::CStringEncodeError(t) && t@ == self@
    }

    fn to_argument(self, value: KuzuValue) -> (r: Result<Argument, Error>) {
        check_c_string(self)?;
        Ok(Argument { name: self.to_owned(), value })
    }
}

/// A prepared, parameterized statement awaiting argument binding and
/// execution: the guard over the engine's statement handle, the connection
/// it was prepared on, and the pending arguments in binding order.
#[derive(Debug)]
pub struct Statement {
    conn: u64,
    stmt: PtrContainer,
    args: Vec<Argument>,
}

/// One parameter-binding call of an execution: it names the statement, the
/// parameter, and carries the encoded scalar.
pub open spec fn bind_call_is(call: EngineCall, stmt: u64, name: Seq<char>, v: KuzuValue) -> bool {
    call matches EngineCall::BindValue { statement, name: n, value } && statement == stmt && n@
        == name && encodes_to(v, value)
}

impl Statement {
    /// The connection handle the statement was prepared on.
    pub closed spec fn spec_conn(&self) -> u64 {
        self.conn
    }

    /// The guard over the statement handle.
    pub closed spec fn spec_guard(&self) -> PtrContainer {
        self.stmt
    }

    /// The pending arguments, in binding order.
    pub closed spec fn spec_args(&self) -> Seq<Argument> {
        self.args@
    }

    /// A statement's guard is over a live statement handle.
    pub open spec fn wf(&self) -> bool {
        self.spec_guard().kind() == ResourceKind::PreparedStatement && self.spec_guard().raw()
            != 0
    }

    /// Interprets what the engine reported for a prepare call, in the order
    /// the failures are discovered: a null handle is `Error::FFIGotNull`; a
    /// reported failure surfaces the engine's message as
    /// `Error::ConnectionError` (or `Error::CStringDecodeError` if that
    /// message is not UTF-8); a statement the engine forbids inside an
    /// active transaction is `Error::TxNotAllowed`. Otherwise the statement
    /// owns the handle and has no pending arguments.
    pub fn new(conn: &Connection, outcome: PrepareOutcome) -> (r: Result<Statement, Error>)
        ensures
            r is Ok <==> outcome.raw != 0 && outcome.is_success
                && outcome.allow_active_transaction,
            r matches Ok(st) ==> st.wf() && st.spec_conn() == conn.spec_raw()
                && st.spec_guard().raw() == outcome.raw && st.spec_guard().alive()
                && st.spec_args() == Seq::<Argument>::empty(),
            r matches Err(e) ==> if outcome.raw == 0 {
                e matches Error::FFIGotNull(n) && n@ == "kuzu_prepared_statement"@
            } else if !outcome.is_success {
                if valid_utf8(outcome.error_message@) {
                    e matches Error::ConnectionError(m) && m@ == decode_utf8(
                        outcome.error_message@,
                    )
                } else {
                    e matches Error::CStringDecodeError(b) && b@ == outcome.error_message@
                }
            } else {
                e == Error::TxNotAllowed
            },
    {
        let stmt = PtrContainer::try_new(outcome.raw, ResourceKind::PreparedStatement)?;
        if !outcome.is_success {
            let message = convert_inner_to_owned_string(outcome.error_message)?;
            return Err(Error::ConnectionError(message));
        }
        if !outcome.allow_active_transaction {
            return Err(Error::TxNotAllowed);
        }
        Ok(Statement { conn: conn.to_inner(), stmt, args: Vec::new() })
    }

    /// Stores one pending argument without touching the engine: the key
    /// becomes the parameter name and is appended, in order, to the
    /// pending list. Fails only where the key itself cannot become a
    /// parameter name; the statement is then left unchanged.
    pub fn bind<K: BindKey>(&mut self, k: K, v: KuzuValue) -> (r: Result<(), Error>)
        ensures
            final(self).spec_conn() == old(self).spec_conn(),
            final(self).spec_guard() == old(self).spec_guard(),
            r is Ok <==> k.key_ok(),
            r is Ok ==> final(self).spec_args().len() == old(self).spec_args().len() + 1
                && final(self).spec_args().subrange(0, old(self).spec_args().len() as int)
                == old(self).spec_args() && final(self).spec_args().last().spec_name()
                == k.key_name() && final(self).spec_args().last().spec_value() == v,
            r matches Err(e) ==> k.key_err(e) && final(self).spec_args() == old(
                self,
            ).spec_args(),
    {
        let arg = k.to_argument(v)?;
        self.args.push(arg);
        proof {
            assert(self.spec_args().subrange(0, old(self).spec_args().len() as int) =~= old(
                self,
            ).spec_args());
        }
        Ok(())
    }

    /// Compiles the execution into engine calls: one binding call per
    /// pending argument, in binding order, each carrying the argument's
    /// scalar encoding, followed by the execute call. A pending composite
    /// value (node, relationship, list, struct) has no parameter encoding:
    /// execution fails fast on the first one, before any call is owed.
    pub fn execute(&self) -> (r: Result<Vec<EngineCall>, Error>)
        ensures
            r is Ok <==> (forall|i: int|
                0 <= i < self.spec_args().len() ==> is_scalar(
                    (#[trigger] self.spec_args()[i]).spec_value(),
                )),
            r matches Ok(calls) ==> {
                &&& calls@.len() == self.spec_args().len() + 1
                &&& forall|i: int|
                    0 <= i < self.spec_args().len() ==> bind_call_is(
                        #[trigger] calls@[i],
                        self.spec_guard().raw(),
                        self.spec_args()[i].spec_name(),
                        self.spec_args()[i].spec_value(),
                    )
                &&& calls@.last() == (EngineCall::Execute {
                    connection: self.spec_conn(),
                    statement: self.spec_guard().raw(),
                })
            },
            r matches Err(e) ==> (exists|i: int|
                #![trigger self.spec_args()[i]]
                {
                    &&& 0 <= i < self.spec_args().len()
                    &&& forall|j: int|
                        0 <= j < i ==> is_scalar((#[trigger] self.spec_args()[j]).spec_value())
                    &&& !is_scalar(self.spec_args()[i].spec_value())
                    &&& e matches Error::DecodeError(a, b) && a@ == variant_name_spec(
                        self.spec_args()[i].spec_value(),
                    ) && b@ == "kuzu_value"@
                }),
    {
        let mut calls: Vec<EngineCall> = Vec::new();
        let mut i: usize = 0;
        while i < self.args.len()
            invariant
                i <= self.args@.len(),
                calls@.len() == i,
                forall|j: int|
                    0 <= j < i ==> is_scalar((#[trigger] self.args@[j]).spec_value()),
                forall|j: int|
                    0 <= j < i ==> bind_call_is(
                        #[trigger] calls@[j],
                        self.stmt.raw(),
                        self.args@[j].spec_name(),
                        self.args@[j].spec_value(),
                    ),
            decreases self.args@.len() - i,
        {
            let arg = &self.args[i];
            match encode_value(&arg.value) {
                Ok(raw) => {
                    calls.push(
                        EngineCall::BindValue {
                            statement: self.stmt.raw_handle(),
                            name: arg.name.clone(),
                            value: raw,
                        },
                    );
                },
                Err(e) => {
                    proof {
                        let k = i as int;
                        assert({
                            &&& 0 <= k < self.spec_args().len()
                            &&& forall|j: int|
                                0 <= j < k ==> is_scalar(
                                    (#[trigger] self.spec_args()[j]).spec_value(),
                                )
                            &&& !is_scalar(self.spec_args()[k].spec_value())
                        });
                    }
                    return Err(e);
                },
            }
            i = i + 1;
        }
        calls.push(EngineCall::Execute { connection: self.conn, statement: self.stmt.raw_handle() });
        Ok(calls)
    }

    /// Gives up the statement handle: the destroy call the driver must
    /// make, exactly once.
    pub fn release(&mut self) -> (c: Option<EngineCall>)
        ensures
            c is Some <==> old(self).spec_guard().alive() && old(self).spec_guard().raw() != 0,
            c matches Some(call) ==> call == (EngineCall::Destroy {
                kind: old(self).spec_guard().kind(),
                raw: old(self).spec_guard().raw(),
            }),
    {
        self.stmt.release()
    }
}

impl Connection {
    /// Validates a statement's text and names the engine call that prepares
    /// it on this connection. Text with an interior NUL byte fails with
    /// `Error::CStringEncodeError`; the engine's answer comes back through
    /// [`Statement::new`].
    pub fn prepare(&self, query: &str) -> (r: Result<EngineCall, Error>)
        ensures
            r is Ok <==> !query@.contains('\0'),
            r matches Ok(c) ==> c matches EngineCall::Prepare { connection, text } && connection
                == self.spec_raw() && text@ == query@,
            r matches Err(e) ==> e matches Error::CStringEncodeError(t) && t@ == query@,
    {
        check_c_string(query)?;
        Ok(EngineCall::Prepare { connection: self.to_inner(), text: query.to_owned() })
    }
}

impl crate::connection::Transaction {
    /// Prepares through the transaction's connection: transactional and
    /// non-transactional code share one call surface.
    pub fn prepare(&self, query: &str) -> (r: Result<EngineCall, Error>)
        ensures
            r is Ok <==> !query@.contains('\0'),
            r matches Ok(c) ==> c matches EngineCall::Prepare { connection, text } && connection
                == self.spec_conn() && text@ == query@,
            r matches Err(e) ==> e matches Error::CStringEncodeError(t) && t@ == query@,
    {
        check_c_string(query)?;
        Ok(EngineCall::Prepare { connection: self.conn_handle(), text: query.to_owned() })
    }
}

} // verus!
