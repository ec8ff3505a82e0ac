use vstd::prelude::*;

verus! {

/// A graph-element identity handed across the boundary by value.
#[allow(non_camel_case_types)]
#[derive(Debug, Clone, Copy, PartialEq, Eq, Structural)]
pub struct kuzu_internal_id_t {
    pub table_id: u64,
    pub offset: u64,
}

/// A date handed across the boundary by value, as days since the epoch.
#[allow(non_camel_case_types)]
#[derive(Debug, Clone, Copy, PartialEq, Eq, Structural)]
pub struct kuzu_date_t {
    pub days: i32,
}

/// A timestamp handed across the boundary by value, in microseconds.
#[allow(non_camel_case_types)]
#[derive(Debug, Clone, Copy, PartialEq, Eq, Structural)]
pub struct kuzu_timestamp_t {
    pub value: i64,
}

/// An interval handed across the boundary by value.
#[allow(non_camel_case_types)]
#[derive(Debug, Clone, Copy, PartialEq, Eq, Structural)]
pub struct kuzu_interval_t {
    pub months: i32,
    pub days: i32,
    pub micros: i64,
}

/// The kinds of engine resource a handle can refer to. Each kind has its own
/// destructor entry point on the engine side.
#[derive(Debug, Clone, Copy, PartialEq, Eq, Structural)]
pub enum ResourceKind {
    Database,
    Connection,
    PreparedStatement,
    QueryResult,
    LogicalType,
    Value,
    NodeVal,
    RelVal,
}

/// One call the driver must make into the engine, with its arguments.
/// Functions of this library never reach the engine themselves: where the
/// original operation would call it, they hand back one of these values,
/// and the unverified driver performs it.
#[derive(Debug, PartialEq)]
pub enum EngineCall {
    /// Open or create the database at `path`.
    DatabaseInit { path: String, buffer_pool_size: u64 },
    /// Set the engine's logging level.
    SetLoggingLevel { level: String },
    /// Open a connection to the database behind a handle.
    ConnectionInit { database: u64 },
    /// Run a query on the connection.
    Query { connection: u64, text: String },
    /// Prepare a parameterized statement on the connection.
    Prepare { connection: u64, text: String },
    /// Begin a read-only transaction on the connection.
    BeginReadTransaction { connection: u64 },
    /// Begin a write transaction on the connection.
    BeginWriteTransaction { connection: u64 },
    /// Commit the connection's active transaction.
    Commit { connection: u64 },
    /// Roll back the connection's active transaction.
    Rollback { connection: u64 },
    /// Bind one named parameter of a prepared statement to a value.
    BindValue { statement: u64, name: String, value: RawValue },
    /// Execute a prepared statement on the connection.
    Execute { connection: u64, statement: u64 },
    /// Destroy the resource behind a handle, exactly once.
    Destroy { kind: ResourceKind, raw: u64 },
}

/// What the engine reports for one value handle, read back as plain data:
/// the runtime type tag, the auxiliary fixed-list length (read
/// unconditionally; meaningful only for fixed lists), and the data behind
/// the accessor that matches the tag. Strings arrive as raw bytes, not yet
/// validated as UTF-8; composites carry their children recursively.
#[derive(Debug, PartialEq)]
pub struct RawValue {
    pub type_tag: u32,
    pub fixed_list_len: u64,
    pub payload: RawPayload,
}

/// The data behind one value handle's accessor.
#[derive(Debug, PartialEq)]
pub enum RawPayload {
    /// No accessor data was read (unknown or unsupported tags).
    Missing,
    Bool(bool),
    Int16(i16),
    Int32(i32),
    Int64(i64),
    /// A single-precision float, carried as its bit pattern.
    FloatBits(u32),
    /// A double-precision float, carried as its bit pattern.
    DoubleBits(u64),
    /// A string's bytes, before UTF-8 validation.
    Bytes(Vec<u8>),
    Id(kuzu_internal_id_t),
    /// A node: its identity, its label bytes, and its named properties in
    /// the engine's iteration order.
    NodeVal { id: kuzu_internal_id_t, label: Vec<u8>, properties: Vec<(Vec<u8>, RawValue)> },
    /// A relationship: its label bytes, endpoints, and named properties.
    RelVal {
        label: Vec<u8>,
        src: kuzu_internal_id_t,
        dst: kuzu_internal_id_t,
        properties: Vec<(Vec<u8>, RawValue)>,
    },
    /// A list's elements in order.
    List(Vec<RawValue>),
    /// A struct's named fields in the engine's iteration order.
    Fields(Vec<(Vec<u8>, RawValue)>),
}

/// What the engine reports after a prepare call.
#[derive(Debug)]
pub struct PrepareOutcome {
    /// The prepared-statement handle, possibly null.
    pub raw: u64,
    /// The engine's success flag for the prepare.
    pub is_success: bool,
    /// The engine's error message bytes; meaningful only on failure.
    pub error_message: Vec<u8>,
    /// Whether the statement may run inside an active transaction.
    pub allow_active_transaction: bool,
}

/// What the engine reports after a query or execute call.
#[derive(Debug)]
pub struct QueryOutcome {
    /// The query-result handle, possibly null.
    pub raw: u64,
    /// The engine's success flag for the execution.
    pub is_success: bool,
    /// The engine's error message bytes; meaningful only on failure.
    pub error_message: Vec<u8>,
}

} // verus!
