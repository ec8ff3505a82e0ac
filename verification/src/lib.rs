//! A safety layer over a native graph-database engine that is reached only
//! through opaque handles. The library owns the client-side rules: handle
//! guards with one-time destruction, the recursive decoder from runtime-tagged
//! engine data to strongly typed values, column binding and row extraction,
//! parameter binding for prepared statements, and the transaction state
//! machine. Every call into the engine is described as plain data (see
//! [`engine`]); a thin unverified driver performs those calls and hands the
//! engine's answers back as plain data.

/// Errors reported by the library.
pub mod error;

/// The engine boundary, described as plain data.
pub mod engine;

/// Ownership-tracked handle guards.
pub mod ptrc;

/// String utilities shared across the library.
pub mod helper;

/// Logical type descriptors: the engine's runtime type tags.
pub mod logical_type;

/// The tagged value model and the recursive decoder.
pub mod value;

/// Encoding values for the engine: the decoder's scalar inverse.
pub mod encode;

/// Typed extraction from decoded values.
pub mod decode;

/// Rows: column binding and typed access.
pub mod row;

/// Connections and the transaction state machine.
pub mod connection;

/// Query results and the row iteration protocol.
pub mod query_result;

/// Prepared statements and parameter binding.
pub mod prepared_statement;

/// Opening databases.
pub mod database;

/// Opaque foreign object storage.
pub mod opaque_types;
