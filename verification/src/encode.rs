use vstd::prelude::*;

use crate::engine::{RawPayload, RawValue};
use crate::error::Error;
use crate::logical_type::{
    KUZU_BOOL, KUZU_DOUBLE, KUZU_FLOAT, KUZU_INT16, KUZU_INT32, KUZU_INT64, KUZU_STRING,
};
use crate::value::{decode_ok, value_decodes, variant_name_spec, veq, KuzuValue};
use vstd::string::StrSliceExecFns;
use vstd::utf8::{encode_utf8, encode_utf8_decode_utf8, encode_utf8_valid_utf8};

verus! {

/// The value kinds that can be handed to the engine as statement
/// parameters: the scalar cases, whose encoding inverts the decoder's
/// scalar cases. Composite values (nodes, relationships, lists, structs)
/// have no parameter encoding and are rejected before any engine call.
pub open spec fn is_scalar(v: KuzuValue) -> bool {
    match v {
        KuzuValue::Bool(_) => true,
        KuzuValue::Int64(_) => true,
        KuzuValue::Int32(_) => true,
        KuzuValue::Int16(_) => true,
        KuzuValue::Double(_) => true,
        KuzuValue::Float(_) => true,
        KuzuValue::String(_) => true,
        _ => false,
    }
}

/// What one scalar value encodes to at the boundary: the tag and accessor
/// data that, read back, decode to the same value.
pub open spec fn encodes_to(v: KuzuValue, raw: RawValue) -> bool {
    match v {
        KuzuValue::Bool(b) => raw == (RawValue {
            type_tag: KUZU_BOOL,
            fixed_list_len: 0,
            payload: RawPayload::Bool(b),
        }),
        KuzuValue::Int64(x) => raw == (RawValue {
            type_tag: KUZU_INT64,
            fixed_list_len: 0,
            payload: RawPayload::Int64(x),
        }),
        KuzuValue::Int32(x) => raw == (RawValue {
            type_tag: KUZU_INT32,
            fixed_list_len: 0,
            payload: RawPayload::Int32(x),
        }),
        KuzuValue::Int16(x) => raw == (RawValue {
            type_tag: KUZU_INT16,
            fixed_list_len: 0,
            payload: RawPayload::Int16(x),
        }),
        KuzuValue::Double(x) => raw == (RawValue {
            type_tag: KUZU_DOUBLE,
            fixed_list_len: 0,
            payload: RawPayload::DoubleBits(x),
        }),
        KuzuValue::Float(x) => raw == (RawValue {
            type_tag: KUZU_FLOAT,
            fixed_list_len: 0,
            payload: RawPayload::FloatBits(x),
        }),
        KuzuValue::String(s) => {
            &&& raw.type_tag == KUZU_STRING
            &&& raw.fixed_list_len == 0
            &&& raw.payload matches RawPayload::Bytes(bs) && bs@ == encode_utf8(s@)
        },
        _ => false,
    }
}

/// Encodes one value for the engine: the inverse of the decoder's scalar
/// cases. Succeeds exactly on scalars; a composite value fails fast with
/// `Error::DecodeError` and no engine call is owed.
pub fn encode_value(v: &KuzuValue) -> (r: Result<RawValue, Error>)
    ensures
        r is Ok <==> is_scalar(*v),
        r matches Ok(raw) ==> encodes_to(*v, raw),
        r matches Err(e) ==> e matches Error::DecodeError(a, b) && a@ == variant_name_spec(*v)
            && b@ == "kuzu_value"@,
{
    match v {
        KuzuValue::Bool(b) => Ok(
            RawValue { type_tag: KUZU_BOOL, fixed_list_len: 0, payload: RawPayload::Bool(*b) },
        ),
        KuzuValue::Int64(x) => Ok(
            RawValue { type_tag: KUZU_INT64, fixed_list_len: 0, payload: RawPayload::Int64(*x) },
        ),
        KuzuValue::Int32(x) => Ok(
            RawValue { type_tag: KUZU_INT32, fixed_list_len: 0, payload: RawPayload::Int32(*x) },
        ),
        KuzuValue::Int16(x) => Ok(
            RawValue { type_tag: KUZU_INT16, fixed_list_len: 0, payload: RawPayload::Int16(*x) },
        ),
        KuzuValue::Double(x) => Ok(
            RawValue {
                type_tag: KUZU_DOUBLE,
                fixed_list_len: 0,
                payload: RawPayload::DoubleBits(*x),
            },
        ),
        KuzuValue::Float(x) => Ok(
            RawValue {
                type_tag: KUZU_FLOAT,
                fixed_list_len: 0,
                payload: RawPayload::FloatBits(*x),
            },
        ),
        KuzuValue::String(s) => {
            let bytes = s.as_str().as_bytes_vec();
            Ok(RawValue { type_tag: KUZU_STRING, fixed_list_len: 0, payload: RawPayload::Bytes(bytes) })
        },
        _ => Err(Error::DecodeError(v.name(), "kuzu_value")),
    }
}

/// Round trip for scalars: a scalar value, encoded into engine data and
/// decoded back, always decodes successfully, and whatever the decoder
/// returns is the value itself (bit-exact for integers, booleans and float
/// bit patterns, character-exact for strings).
pub proof fn lemma_scalar_round_trip(v: KuzuValue, raw: RawValue, w: KuzuValue)
    requires
        is_scalar(v),
        encodes_to(v, raw),
    ensures
        decode_ok(raw),
        value_decodes(raw, w) ==> veq(w, v),
{
    match v {
        KuzuValue::String(s) => {
            encode_utf8_valid_utf8(s@);
            encode_utf8_decode_utf8(s@);
        },
        _ => {},
    }
}

} // verus!
