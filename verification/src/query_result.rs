use vstd::prelude::*;

use std::rc::Rc;

use crate::connection::Connection;
use crate::engine::{EngineCall, QueryOutcome, RawValue, ResourceKind};
use crate::error::Error;
use crate::helper::{check_c_string, convert_inner_to_owned_string};
use crate::ptrc::PtrContainer;
use crate::row::{rc_clone_names, Row};
use crate::value::{decode_err_is, decode_ok, value_decodes, KuzuValue};
use vstd::utf8::{decode_utf8, valid_utf8};

verus! {

broadcast use vstd::std_specs::vec::group_vec_axioms;

/// The result of one query or statement execution: the guard over the
/// engine's result handle. The engine walks the result with an internal
/// cursor, so a result is a single-pass, forward-only source of rows.
#[derive(Debug)]
pub struct QueryResult {
    guard: PtrContainer,
}

impl QueryResult {
    /// The guard over the result handle.
    pub closed spec fn spec_guard(&self) -> PtrContainer {
        self.guard
    }

    /// A result's guard is over a live result handle.
    pub open spec fn wf(&self) -> bool {
        self.spec_guard().kind() == ResourceKind::QueryResult && self.spec_guard().raw() != 0
    }

    /// Interprets what the engine reported for a query or execute call.
    /// A null handle fails with `Error::FFIGotNull`; a reported failure
    /// surfaces the engine's own message as `Error::QueryResultError`
    /// (or `Error::CStringDecodeError` if that message is not UTF-8);
    /// otherwise the result owns the handle.
    pub fn from_outcome(outcome: QueryOutcome) -> (r: Result<QueryResult, Error>)
        ensures
            r is Ok <==> outcome.raw != 0 && outcome.is_success,
            r matches Ok(q) ==> q.wf() && q.spec_guard().raw() == outcome.raw
                && q.spec_guard().alive(),
            r matches Err(e) ==> if outcome.raw == 0 {
                e matches Error::FFIGotNull(n) && n@ == "kuzu_query_result"@
            } else if valid_utf8(outcome.error_message@) {
                e matches Error::QueryResultError(m) && m@ == decode_utf8(outcome.error_message@)
            } else {
                e matches Error::CStringDecodeError(b) && b@ == outcome.error_message@
            },
    {
        let guard = PtrContainer::try_new(outcome.raw, ResourceKind::QueryResult)?;
        if !outcome.is_success {
            let message = convert_inner_to_owned_string(outcome.error_message)?;
            return Err(Error::QueryResultError(message));
        }
        Ok(QueryResult { guard })
    }

    /// Binds column names to positions and starts iteration: builds the
    /// shared column table once from the names the engine reported, in
    /// column order, validating each as UTF-8. The engine also reports how
    /// many tuples the result holds.
    pub fn iter(self, column_names: Vec<Vec<u8>>, num_tuples: usize) -> (r: Result<Iter, Error>)
        ensures
            r is Ok <==> (forall|i: int|
                0 <= i < column_names@.len() ==> valid_utf8((#[trigger] column_names@[i])@)),
            r matches Ok(it) ==> {
                &&& it.spec_guard() == self.spec_guard()
                &&& it.spec_len() == num_tuples
                &&& it.spec_columns().len() == column_names@.len()
                &&& forall|i: int|
                    0 <= i < column_names@.len() ==> (#[trigger] it.spec_columns()[i])
                        == decode_utf8(column_names@[i]@)
            },
            r matches Err(e) ==> e matches Error::CStringDecodeError(b) && (exists|i: int|
                #![trigger column_names@[i]]
                {
                    &&& 0 <= i < column_names@.len()
                    &&& forall|j: int| 0 <= j < i ==> valid_utf8((#[trigger] column_names@[j])@)
                    &&& !valid_utf8(column_names@[i]@)
                    &&& b@ == column_names@[i]@
                }),
    {
        let ghost orig = column_names@;
        let mut rest = column_names;
        let mut names: Vec<String> = Vec::new();
        let mut i: usize = 0;
        let total = rest.len();
        proof {
            assert(orig.len() == total);
            assert(rest@ =~= orig.subrange(0, orig.len() as int));
        }
        while rest.len() > 0
            invariant
                column_names@ == orig,
                orig.len() <= usize::MAX,
                i + rest@.len() == orig.len(),
                rest@ == orig.subrange(i as int, orig.len() as int),
                names@.len() == i,
                forall|j: int| 0 <= j < i ==> valid_utf8((#[trigger] orig[j])@),
                forall|j: int|
                    0 <= j < i ==> (#[trigger] names@[j])@ == decode_utf8(orig[j]@),
            decreases rest@.len(),
        {
            let bytes = rest.remove(0);
            proof {
                assert(bytes == orig[i as int]);
                assert(rest@ =~= orig.subrange(i + 1, orig.len() as int));
            }
            match convert_inner_to_owned_string(bytes) {
                Ok(s) => {
                    names.push(s);
                    i = i + 1;
                },
                Err(e) => {
                    proof {
                        let k = i as int;
                        assert(0 <= k < orig.len() && !valid_utf8((orig[k])@));
                    }
                    return Err(e);
                },
            }
        }
        let it = Iter { inner: self, columns: Rc::new(names), len: num_tuples };
        proof {
            assert forall|j: int| 0 <= j < orig.len() implies (#[trigger] it.spec_columns()[j])
                == decode_utf8(orig[j]@) by {
                assert(it.spec_columns()[j] == names@[j]@);
            }
        }
        Ok(it)
    }
}

/// The pull-based iteration protocol over a query result: the shared column
/// table, the result's guard, and how many tuples are still to come. The
/// driver asks the engine's cursor for the next tuple and hands its raw
/// column values to [`Iter::next_row`]; when the cursor says there is no
/// next tuple, iteration is over (a terminal state at this layer).
#[derive(Debug)]
pub struct Iter {
    inner: QueryResult,
    columns: Rc<Vec<String>>,
    len: usize,
}

impl Iter {
    /// The guard over the result handle.
    pub closed spec fn spec_guard(&self) -> PtrContainer {
        self.inner.spec_guard()
    }

    /// The column names, in column order.
    pub closed spec fn spec_columns(&self) -> Seq<Seq<char>> {
        self.columns.deep_view()
    }

    /// How many tuples are still to come.
    pub closed spec fn spec_len(&self) -> usize {
        self.len
    }

    /// Decodes the next tuple into a row bound to the shared column table.
    /// The driver hands in one raw value per column, in column order; every
    /// column is decoded and a failure at any column aborts the row. The
    /// error is surfaced to the caller, who decides whether iteration ends.
    pub fn next_row(&mut self, tuple: Vec<RawValue>) -> (r: Result<Row, Error>)
        requires
            tuple@.len() == old(self).spec_columns().len(),
            old(self).spec_len() > 0,
        ensures
            final(self).spec_columns() == old(self).spec_columns(),
            final(self).spec_guard() == old(self).spec_guard(),
            final(self).spec_len() == old(self).spec_len() - 1,
            r is Ok <==> (forall|i: int|
                0 <= i < tuple@.len() ==> decode_ok(#[trigger] tuple@[i])),
            r matches Ok(row) ==> {
                &&& row.wf()
                &&& row.spec_keys() == old(self).spec_columns()
                &&& row.spec_values().len() == tuple@.len()
                &&& forall|i: int|
                    0 <= i < tuple@.len() ==> value_decodes(
                        #[trigger] tuple@[i],
                        row.spec_values()[i],
                    )
            },
            r matches Err(e) ==> (exists|i: int|
                {
                    &&& 0 <= i < tuple@.len()
                    &&& forall|j: int| 0 <= j < i ==> decode_ok(#[trigger] tuple@[j])
                    &&& !decode_ok(#[trigger] tuple@[i])
                    &&& decode_err_is(tuple@[i], e)
                }),
    {
        let ghost orig = tuple@;
        let mut rest = tuple;
        let mut values: Vec<KuzuValue> = Vec::new();
        let mut i: usize = 0;
        let total = rest.len();
        proof {
            assert(orig.len() == total);
            assert(rest@ =~= orig.subrange(0, orig.len() as int));
        }
        while rest.len() > 0
            invariant
                *self == *old(self),
                old(self).spec_len() > 0,
                tuple@ == orig,
                orig.len() <= usize::MAX,
                i + rest@.len() == orig.len(),
                rest@ == orig.subrange(i as int, orig.len() as int),
                values@.len() == i,
                forall|j: int| 0 <= j < i ==> decode_ok(#[trigger] orig[j]),
                forall|j: int| 0 <= j < i ==> value_decodes(orig[j], #[trigger] values@[j]),
            decreases rest@.len(),
        {
            let raw = rest.remove(0);
            proof {
                assert(raw == orig[i as int]);
                assert(rest@ =~= orig.subrange(i + 1, orig.len() as int));
            }
            match KuzuValue::from_raw(raw) {
                Ok(v) => {
                    values.push(v);
                    i = i + 1;
                },
                Err(e) => {
                    proof {
                        let k = i as int;
                        assert({
                            &&& 0 <= k < orig.len()
                            &&& forall|j: int| 0 <= j < k ==> decode_ok(#[trigger] orig[j])
                            &&& !decode_ok(orig[k])
                            &&& decode_err_is(orig[k], e)
                        });
                    }
                    self.len = self.len - 1;
                    return Err(e);
                },
            }
        }
        self.len = self.len - 1;
        let row = Row::new(rc_clone_names(&self.columns), values);
        Ok(row)
    }

    /// How many tuples are still to come: the exact remaining length.
    pub fn size_hint(&self) -> (r: (usize, Option<usize>))
        ensures
            r.0 == self.spec_len(),
            r.1 == Some(self.spec_len()),
    {
        (self.len, Some(self.len))
    }

    /// Gives up the underlying result handle: the destroy call the driver
    /// must make, exactly once.
    pub fn release(&mut self) -> (c: Option<EngineCall>)
        ensures
            c is Some <==> old(self).spec_guard().alive() && old(self).spec_guard().raw() != 0,
            c matches Some(call) ==> call == (EngineCall::Destroy {
                kind: old(self).spec_guard().kind(),
                raw: old(self).spec_guard().raw(),
            }),
    {
        self.inner.release()
    }
}

impl QueryResult {
    /// Gives up the result handle: the destroy call the driver must make,
    /// exactly once.
    pub fn release(&mut self) -> (c: Option<EngineCall>)
        ensures
            c is Some <==> old(self).spec_guard().alive() && old(self).spec_guard().raw() != 0,
            c matches Some(call) ==> call == (EngineCall::Destroy {
                kind: old(self).spec_guard().kind(),
                raw: old(self).spec_guard().raw(),
            }),
    {
        self.guard.release()
    }
}

impl Connection {
    /// Validates a query's text and names the engine call that runs it on
    /// this connection. Text with an interior NUL byte cannot cross the
    /// boundary and fails with `Error::CStringEncodeError`; the engine's
    /// answer comes back through [`QueryResult::from_outcome`].
    pub fn query(&self, query: &str) -> (r: Result<EngineCall, Error>)
        ensures
            r is Ok <==> !query@.contains('\0'),
            r matches Ok(c) ==> c matches EngineCall::Query { connection, text } && connection
                == self.spec_raw() && text@ == query@,
            r matches Err(e) ==> e matches Error::CStringEncodeError(t) && t@ == query@,
    {
        check_c_string(query)?;
        Ok(EngineCall::Query { connection: self.to_inner(), text: query.to_owned() })
    }
}

impl crate::connection::Transaction {
    /// Queries through the transaction's connection: transactional and
    /// non-transactional code share one call surface.
    pub fn query(&self, query: &str) -> (r: Result<EngineCall, Error>)
        ensures
            r is Ok <==> !query@.contains('\0'),
            r matches Ok(c) ==> c matches EngineCall::Query { connection, text } && connection
                == self.spec_conn() && text@ == query@,
            r matches Err(e) ==> e matches Error::CStringEncodeError(t) && t@ == query@,
    {
        check_c_string(query)?;
        Ok(EngineCall::Query { connection: self.conn_handle(), text: query.to_owned() })
    }
}

} // verus!
