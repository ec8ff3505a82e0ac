use vstd::prelude::*;

use crate::error::Error;

verus! {

// The engine's runtime type-tag enumeration, as its C API numbers it.
pub const KUZU_ANY: u32 = 0;

pub const KUZU_NODE: u32 = 10;

pub const KUZU_REL: u32 = 11;

pub const KUZU_BOOL: u32 = 22;

pub const KUZU_INT64: u32 = 23;

pub const KUZU_INT32: u32 = 24;

pub const KUZU_INT16: u32 = 25;

pub const KUZU_DOUBLE: u32 = 26;

pub const KUZU_FLOAT: u32 = 27;

pub const KUZU_DATE: u32 = 28;

pub const KUZU_TIMESTAMP: u32 = 29;

pub const KUZU_INTERVAL: u32 = 30;

pub const KUZU_FIXED_LIST: u32 = 31;

pub const KUZU_INTERNAL_ID: u32 = 40;

pub const KUZU_STRING: u32 = 50;

pub const KUZU_VAR_LIST: u32 = 52;

pub const KUZU_STRUCT: u32 = 53;

/// The logical type ids this binding understands. The tag is always the
/// engine's, mapped through the closed table below, never invented locally.
#[derive(Debug, Clone, Copy, PartialEq, Eq, Structural)]
pub enum LogicalTypeID {
    Any,
    Node,
    Rel,
    Bool,
    Int64,
    Int32,
    Int16,
    Double,
    Float,
    Date,
    Timestamp,
    Interval,
    FixedList,
    InternalId,
    String,
    VarList,
    Struct,
}

/// The closed, total mapping from the engine's tag ids to logical type ids;
/// `None` for any id the binding does not know.
pub open spec fn tag_of_id(v: u32) -> Option<LogicalTypeID> {
    if v == KUZU_ANY {
        Some(LogicalTypeID::Any)
    } else if v == KUZU_NODE {
        Some(LogicalTypeID::Node)
    } else if v == KUZU_REL {
        Some(LogicalTypeID::Rel)
    } else if v == KUZU_BOOL {
        Some(LogicalTypeID::Bool)
    } else if v == KUZU_INT64 {
        Some(LogicalTypeID::Int64)
    } else if v == KUZU_INT32 {
        Some(LogicalTypeID::Int32)
    } else if v == KUZU_INT16 {
        Some(LogicalTypeID::Int16)
    } else if v == KUZU_DOUBLE {
        Some(LogicalTypeID::Double)
    } else if v == KUZU_FLOAT {
        Some(LogicalTypeID::Float)
    } else if v == KUZU_DATE {
        Some(LogicalTypeID::Date)
    } else if v == KUZU_TIMESTAMP {
        Some(LogicalTypeID::Timestamp)
    } else if v == KUZU_INTERVAL {
        Some(LogicalTypeID::Interval)
    } else if v == KUZU_FIXED_LIST {
        Some(LogicalTypeID::FixedList)
    } else if v == KUZU_INTERNAL_ID {
        Some(LogicalTypeID::InternalId)
    } else if v == KUZU_STRING {
        Some(LogicalTypeID::String)
    } else if v == KUZU_VAR_LIST {
        Some(LogicalTypeID::VarList)
    } else if v == KUZU_STRUCT {
        Some(LogicalTypeID::Struct)
    } else {
        None
    }
}

/// The engine tag id of a logical type id: the inverse of `tag_of_id`.
pub open spec fn id_of_tag(t: LogicalTypeID) -> u32 {
    match t {
        LogicalTypeID::Any => KUZU_ANY,
        LogicalTypeID::Node => KUZU_NODE,
        LogicalTypeID::Rel => KUZU_REL,
        LogicalTypeID::Bool => KUZU_BOOL,
        LogicalTypeID::Int64 => KUZU_INT64,
        LogicalTypeID::Int32 => KUZU_INT32,
        LogicalTypeID::Int16 => KUZU_INT16,
        LogicalTypeID::Double => KUZU_DOUBLE,
        LogicalTypeID::Float => KUZU_FLOAT,
        LogicalTypeID::Date => KUZU_DATE,
        LogicalTypeID::Timestamp => KUZU_TIMESTAMP,
        LogicalTypeID::Interval => KUZU_INTERVAL,
        LogicalTypeID::FixedList => KUZU_FIXED_LIST,
        LogicalTypeID::InternalId => KUZU_INTERNAL_ID,
        LogicalTypeID::String => KUZU_STRING,
        LogicalTypeID::VarList => KUZU_VAR_LIST,
        LogicalTypeID::Struct => KUZU_STRUCT,
    }
}

/// The two tables above invert each other: every logical type id comes back
/// unchanged through its engine tag id.
pub proof fn lemma_tag_id_round_trip(t: LogicalTypeID)
    ensures
        tag_of_id(id_of_tag(t)) == Some(t),
{
}

impl LogicalTypeID {
    /// Maps an engine tag id to a logical type id. An id outside the closed
    /// table is an engine/binding version mismatch and fails with
    /// `Error::BindingMismatch`; nothing is guessed in its place.
    pub fn try_from_id(v: u32) -> (r: Result<LogicalTypeID, Error>)
        ensures
            tag_of_id(v) matches Some(t) ==> r == Ok::<LogicalTypeID, Error>(t),
            tag_of_id(v) is None ==> r == Err::<LogicalTypeID, Error>(Error::BindingMismatch(v)),
    {
        if v == KUZU_ANY {
            Ok(LogicalTypeID::Any)
        } else if v == KUZU_NODE {
            Ok(LogicalTypeID::Node)
        } else if v == KUZU_REL {
            Ok(LogicalTypeID::Rel)
        } else if v == KUZU_BOOL {
            Ok(LogicalTypeID::Bool)
        } else if v == KUZU_INT64 {
            Ok(LogicalTypeID::Int64)
        } else if v == KUZU_INT32 {
            Ok(LogicalTypeID::Int32)
        } else if v == KUZU_INT16 {
            Ok(LogicalTypeID::Int16)
        } else if v == KUZU_DOUBLE {
            Ok(LogicalTypeID::Double)
        } else if v == KUZU_FLOAT {
            Ok(LogicalTypeID::Float)
        } else if v == KUZU_DATE {
            Ok(LogicalTypeID::Date)
        } else if v == KUZU_TIMESTAMP {
            Ok(LogicalTypeID::Timestamp)
        } else if v == KUZU_INTERVAL {
            Ok(LogicalTypeID::Interval)
        } else if v == KUZU_FIXED_LIST {
            Ok(LogicalTypeID::FixedList)
        } else if v == KUZU_INTERNAL_ID {
            Ok(LogicalTypeID::InternalId)
        } else if v == KUZU_STRING {
            Ok(LogicalTypeID::String)
        } else if v == KUZU_VAR_LIST {
            Ok(LogicalTypeID::VarList)
        } else if v == KUZU_STRUCT {
            Ok(LogicalTypeID::Struct)
        } else {
            Err(Error::BindingMismatch(v))
        }
    }

    /// The engine tag id of this logical type id.
    pub fn tag_id(&self) -> (r: u32)
        ensures
            r == id_of_tag(*self),
    {
        match self {
            LogicalTypeID::Any => KUZU_ANY,
            LogicalTypeID::Node => KUZU_NODE,
            LogicalTypeID::Rel => KUZU_REL,
            LogicalTypeID::Bool => KUZU_BOOL,
            LogicalTypeID::Int64 => KUZU_INT64,
            LogicalTypeID::Int32 => KUZU_INT32,
            LogicalTypeID::Int16 => KUZU_INT16,
            LogicalTypeID::Double => KUZU_DOUBLE,
            LogicalTypeID::Float => KUZU_FLOAT,
            LogicalTypeID::Date => KUZU_DATE,
            LogicalTypeID::Timestamp => KUZU_TIMESTAMP,
            LogicalTypeID::Interval => KUZU_INTERVAL,
            LogicalTypeID::FixedList => KUZU_FIXED_LIST,
            LogicalTypeID::InternalId => KUZU_INTERNAL_ID,
            LogicalTypeID::String => KUZU_STRING,
            LogicalTypeID::VarList => KUZU_VAR_LIST,
            LogicalTypeID::Struct => KUZU_STRUCT,
        }
    }
}

/// How to interpret one value handle: its logical type id and, for fixed
/// lists, the declared element count (read unconditionally; a cheap no-op
/// for every other type).
#[derive(Debug, Clone, Copy, PartialEq, Eq, Structural)]
pub struct LogicaType {
    pub tid: LogicalTypeID,
    pub fixed_num_elements_in_list: u64,
}

impl LogicaType {
    /// Builds a descriptor from an already-mapped type id and the descriptor
    /// handle it was read from. Fails with `Error::FFIGotNull` if and only
    /// if that handle is null.
    pub fn new_with_id(tid: LogicalTypeID, inner: u64, fixed_num_elements_in_list: u64) -> (r:
        Result<LogicaType, Error>)
        ensures
            inner == 0 <==> r is Err,
            r matches Err(e) ==> e matches Error::FFIGotNull(n) && n@ == "LogicalType"@,
            r matches Ok(t) ==> t == (LogicaType { tid, fixed_num_elements_in_list }),
    {
        if inner == 0 {
            Err(Error::FFIGotNull("LogicalType"))
        } else {
            Ok(LogicaType { tid, fixed_num_elements_in_list })
        }
    }

    /// Builds a descriptor from the raw tag id and auxiliary length the
    /// engine reported for a value handle. Fails exactly where the tag id
    /// is outside the closed table.
    pub fn try_from_parts(tag_id: u32, fixed_num_elements_in_list: u64) -> (r: Result<
        LogicaType,
        Error,
    >)
        ensures
            tag_of_id(tag_id) matches Some(t) ==> r == Ok::<LogicaType, Error>(
                LogicaType { tid: t, fixed_num_elements_in_list },
            ),
            tag_of_id(tag_id) is None ==> r == Err::<LogicaType, Error>(
                Error::BindingMismatch(tag_id),
            ),
    {
        let tid = LogicalTypeID::try_from_id(tag_id)?;
        Ok(LogicaType { tid, fixed_num_elements_in_list })
    }
}

} // verus!
