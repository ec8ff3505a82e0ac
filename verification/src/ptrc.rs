use vstd::prelude::*;

use crate::engine::{EngineCall, ResourceKind};
use crate::error::Error;

verus! {

/// An ownership-tracked guard over one engine handle.
///
/// A guard is created only from a non-null handle; the raw address is never
/// exposed outside the crate. The guard remembers whether its resource is
/// still to be destroyed: [`PtrContainer::release`] hands out the destroy
/// call for the resource the first time and never again, so exactly one
/// destructor call is issued per successfully constructed guard.
#[derive(Debug)]
pub struct PtrContainer {
    raw: u64,
    kind: ResourceKind,
    alive: bool,
}

impl PtrContainer {
    /// The handle's address.
    pub closed spec fn raw(&self) -> u64 {
        self.raw
    }

    /// The kind of resource the handle refers to.
    pub closed spec fn kind(&self) -> ResourceKind {
        self.kind
    }

    /// Whether the resource behind the handle is still to be destroyed.
    pub closed spec fn alive(&self) -> bool {
        self.alive
    }

    /// Validates the handle and creates a guard over it.
    /// Fails with `Error::FFIGotNull` if and only if the handle is null;
    /// a failed construction owes the engine no destructor call.
    pub fn try_new(raw: u64, kind: ResourceKind) -> (r: Result<PtrContainer, Error>)
        ensures
            raw == 0 <==> r is Err,
            r matches Err(e) ==> e matches Error::FFIGotNull(n) && n@ == kind_name_spec(kind),
            r matches Ok(g) ==> g.raw() == raw && g.kind() == kind && g.alive(),
    {
        if raw == 0 {
            Err(Error::FFIGotNull(kind_name(kind)))
        } else {
            Ok(PtrContainer { raw, kind, alive: true })
        }
    }

    /// Wraps a handle without the null check, for the one resource whose
    /// init call reports failure through later calls instead of a null
    /// handle. A null handle here is owed no destructor call either:
    /// `release` hands out a destroy call only for a non-null handle.
    pub(crate) fn wrap(raw: u64, kind: ResourceKind) -> (g: PtrContainer)
        ensures
            g.raw() == raw && g.kind() == kind && g.alive(),
    {
        PtrContainer { raw, kind, alive: true }
    }

    /// The guarded handle, for the library's own use when naming the
    /// resource in an engine call. Never exposed outside the crate.
    pub(crate) fn raw_handle(&self) -> (r: u64)
        ensures
            r == self.raw(),
    {
        self.raw
    }

    /// Whether the guarded handle is non-null. Guards built by
    /// [`PtrContainer::try_new`] always are.
    pub fn is_valid(&self) -> (r: bool)
        ensures
            r == (self.raw() != 0),
    {
        self.raw != 0
    }

    /// Gives up the resource: returns the destroy call the driver must make,
    /// or `None` if the resource was already given up. Calling this twice on
    /// one guard can never yield two destroy calls, whatever the order of
    /// events: destruction is one-time by construction.
    pub fn release(&mut self) -> (c: Option<EngineCall>)
        ensures
            final(self).raw() == old(self).raw(),
            final(self).kind() == old(self).kind(),
            !final(self).alive(),
            c is Some <==> old(self).alive() && old(self).raw() != 0,
            c matches Some(call) ==> call == (EngineCall::Destroy {
                kind: old(self).kind(),
                raw: old(self).raw(),
            }),
    {
        if self.alive && self.raw != 0 {
            self.alive = false;
            Some(EngineCall::Destroy { kind: self.kind, raw: self.raw })
        } else {
            self.alive = false;
            None
        }
    }
}

/// The engine resource each kind names, as written at the boundary.
pub open spec fn kind_name_spec(kind: ResourceKind) -> Seq<char> {
    match kind {
        ResourceKind::Database => "kuzu_database"@,
        ResourceKind::Connection => "kuzu_connection"@,
        ResourceKind::PreparedStatement => "kuzu_prepared_statement"@,
        ResourceKind::QueryResult => "kuzu_query_result"@,
        ResourceKind::LogicalType => "kuzu_logical_type"@,
        ResourceKind::Value => "kuzu_value"@,
        ResourceKind::NodeVal => "kuzu_node_val"@,
        ResourceKind::RelVal => "kuzu_rel_val"@,
    }
}

/// The name of the resource a kind refers to.
pub fn kind_name(kind: ResourceKind) -> (r: &'static str)
    ensures
        r@ == kind_name_spec(kind),
{
    match kind {
        ResourceKind::Database => "kuzu_database",
        ResourceKind::Connection => "kuzu_connection",
        ResourceKind::PreparedStatement => "kuzu_prepared_statement",
        ResourceKind::QueryResult => "kuzu_query_result",
        ResourceKind::LogicalType => "kuzu_logical_type",
        ResourceKind::Value => "kuzu_value",
        ResourceKind::NodeVal => "kuzu_node_val",
        ResourceKind::RelVal => "kuzu_rel_val",
    }
}

} // verus!
