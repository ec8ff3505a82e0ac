use vstd::prelude::*;

verus! {

/// Everything that can go wrong between the caller and the engine.
///
/// The first group are boundary faults (null handles, string conversion);
/// the second are schema faults the caller can recover from (wrong variant,
/// unknown column, mixed list); the rest carry the engine's own report or
/// guard the transaction discipline.
#[derive(Debug, PartialEq)]
pub enum Error {
    /// A string headed for the engine held an interior NUL byte and cannot be
    /// passed as a C string; holds the offending string.
    CStringEncodeError(String),
    /// Bytes handed back by the engine were not valid UTF-8; holds the bytes.
    CStringDecodeError(Vec<u8>),
    /// A value of one variant was asked for as an incompatible type; holds the
    /// variant's name and the requested type's name.
    DecodeError(&'static str, &'static str),
    /// A column or field was not found; holds the requested name and the
    /// names that exist.
    ColumnNotFound(String, Vec<String>),
    /// The engine reported a failed query; holds its message.
    QueryResultError(String),
    /// The engine reported a failed prepare; holds its message.
    ConnectionError(String),
    /// The engine handed back a null handle where a live one was required;
    /// names the expected resource.
    FFIGotNull(&'static str),
    /// The statement is not allowed inside an active transaction.
    TxNotAllowed,
    /// At any point in time there can be many read transactions but at most
    /// one write transaction per connection.
    MultipleWriteTxNotAllowed,
    /// A list can only have one value kind inside it.
    ListTypeError,
    /// The engine reported a type tag this binding does not know: an
    /// engine/binding version mismatch, not an ordinary decode failure.
    BindingMismatch(u32),
}

} // verus!
