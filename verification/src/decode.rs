use vstd::prelude::*;

use crate::error::Error;
use crate::value::{
    elems_veq, node_veq, pairs_veq, rel_veq, variant_name_spec, veq, FixedList, KuzuValue, Node,
    Relation, Struct, VarList,
};

verus! {

/// Typed extraction from a decoded value: `T::decode_kuzuval(v)` succeeds
/// exactly when the value's variant matches `T`, and otherwise reports which
/// variant was found and which type was asked for.
pub trait Decode: Sized {
    /// Whether the value can be extracted as `Self`.
    spec fn decodable(value: KuzuValue) -> bool;

    /// Whether `r` is the extraction of the value.
    spec fn decodes(value: KuzuValue, r: Self) -> bool;

    /// The error reported when the value cannot be extracted as `Self`.
    spec fn decode_err(value: KuzuValue, e: Error) -> bool;

    /// Extracts the value as `Self`, or reports why it cannot be.
    fn decode_kuzuval(value: &KuzuValue) -> (r: Result<Self, Error>)
        ensures
            r is Ok <==> Self::decodable(*value),
            r matches Ok(x) ==> Self::decodes(*value, x),
            r matches Err(e) ==> Self::decode_err(*value, e),
    ;
}

/// The mismatch error of an extraction: the found variant's name and the
/// requested type's name.
pub open spec fn target_err(value: KuzuValue, target: Seq<char>, e: Error) -> bool {
    e matches Error::DecodeError(a, b) && a@ == variant_name_spec(value) && b@ == target
}

impl Decode for bool {
    open spec fn decodable(value: KuzuValue) -> bool {
        value is Bool
    }

    open spec fn decodes(value: KuzuValue, r: bool) -> bool {
        value == KuzuValue::Bool(r)
    }

    open spec fn decode_err(value: KuzuValue, e: Error) -> bool {
        target_err(value, "bool"@, e)
    }

    fn decode_kuzuval(value: &KuzuValue) -> (r: Result<bool, Error>) {
        match value {
            KuzuValue::Bool(b) => Ok(*b),
            _ => Err(Error::DecodeError(value.name(), "bool")),
        }
    }
}

impl Decode for i16 {
    open spec fn decodable(value: KuzuValue) -> bool {
        value is Int16
    }

    open spec fn decodes(value: KuzuValue, r: i16) -> bool {
        value == KuzuValue::Int16(r)
    }

    open spec fn decode_err(value: KuzuValue, e: Error) -> bool {
        target_err(value, "i16"@, e)
    }

    fn decode_kuzuval(value: &KuzuValue) -> (r: Result<i16, Error>) {
        match value {
            KuzuValue::Int16(x) => Ok(*x),
            _ => Err(Error::DecodeError(value.name(), "i16")),
        }
    }
}

impl Decode for i32 {
    open spec fn decodable(value: KuzuValue) -> bool {
        value is Int32
    }

    open spec fn decodes(value: KuzuValue, r: i32) -> bool {
        value == KuzuValue::Int32(r)
    }

    open spec fn decode_err(value: KuzuValue, e: Error) -> bool {
        target_err(value, "i32"@, e)
    }

    fn decode_kuzuval(value: &KuzuValue) -> (r: Result<i32, Error>) {
        match value {
            KuzuValue::Int32(x) => Ok(*x),
            _ => Err(Error::DecodeError(value.name(), "i32")),
        }
    }
}

impl Decode for i64 {
    open spec fn decodable(value: KuzuValue) -> bool {
        value is Int64
    }

    open spec fn decodes(value: KuzuValue, r: i64) -> bool {
        value == KuzuValue::Int64(r)
    }

    open spec fn decode_err(value: KuzuValue, e: Error) -> bool {
        target_err(value, "i64"@, e)
    }

    fn decode_kuzuval(value: &KuzuValue) -> (r: Result<i64, Error>) {
        match value {
            KuzuValue::Int64(x) => Ok(*x),
            _ => Err(Error::DecodeError(value.name(), "i64")),
        }
    }
}

impl Decode for String {
    open spec fn decodable(value: KuzuValue) -> bool {
        value is String
    }

    open spec fn decodes(value: KuzuValue, r: String) -> bool {
        value matches KuzuValue::String(s) && r@ == s@
    }

    open spec fn decode_err(value: KuzuValue, e: Error) -> bool {
        target_err(value, "String"@, e)
    }

    fn decode_kuzuval(value: &KuzuValue) -> (r: Result<String, Error>) {
        match value {
            KuzuValue::String(s) => Ok(s.clone()),
            _ => Err(Error::DecodeError(value.name(), "String")),
        }
    }
}

impl Decode for Node {
    open spec fn decodable(value: KuzuValue) -> bool {
        value is Node
    }

    open spec fn decodes(value: KuzuValue, r: Node) -> bool {
        value matches KuzuValue::Node(n) && node_veq(r, n)
    }

    open spec fn decode_err(value: KuzuValue, e: Error) -> bool {
        target_err(value, "Node"@, e)
    }

    fn decode_kuzuval(value: &KuzuValue) -> (r: Result<Node, Error>) {
        match value {
            KuzuValue::Node(n) => Ok(n.clone()),
            _ => Err(Error::DecodeError(value.name(), "Node")),
        }
    }
}

impl Decode for Relation {
    open spec fn decodable(value: KuzuValue) -> bool {
        value is Rel
    }

    open spec fn decodes(value: KuzuValue, r: Relation) -> bool {
        value matches KuzuValue::Rel(x) && rel_veq(r, x)
    }

    open spec fn decode_err(value: KuzuValue, e: Error) -> bool {
        target_err(value, "Relation"@, e)
    }

    fn decode_kuzuval(value: &KuzuValue) -> (r: Result<Relation, Error>) {
        match value {
            KuzuValue::Rel(x) => Ok(x.clone()),
            _ => Err(Error::DecodeError(value.name(), "Relation")),
        }
    }
}

impl Decode for VarList {
    open spec fn decodable(value: KuzuValue) -> bool {
        value is VarList
    }

    open spec fn decodes(value: KuzuValue, r: VarList) -> bool {
        value matches KuzuValue::VarList(l) && elems_veq(r.inner@, l.inner@)
    }

    open spec fn decode_err(value: KuzuValue, e: Error) -> bool {
        target_err(value, "VarList"@, e)
    }

    fn decode_kuzuval(value: &KuzuValue) -> (r: Result<VarList, Error>) {
        match value {
            KuzuValue::VarList(l) => Ok(l.clone()),
            _ => Err(Error::DecodeError(value.name(), "VarList")),
        }
    }
}

impl Decode for FixedList {
    open spec fn decodable(value: KuzuValue) -> bool {
        value is FixedList
    }

    open spec fn decodes(value: KuzuValue, r: FixedList) -> bool {
        value matches KuzuValue::FixedList(l) && r.len == l.len && elems_veq(r.inner@, l.inner@)
    }

    open spec fn decode_err(value: KuzuValue, e: Error) -> bool {
        target_err(value, "FixedList"@, e)
    }

    fn decode_kuzuval(value: &KuzuValue) -> (r: Result<FixedList, Error>) {
        match value {
            KuzuValue::FixedList(l) => Ok(l.clone()),
            _ => Err(Error::DecodeError(value.name(), "FixedList")),
        }
    }
}

impl Decode for Struct {
    open spec fn decodable(value: KuzuValue) -> bool {
        value is Struct
    }

    open spec fn decodes(value: KuzuValue, r: Struct) -> bool {
        value matches KuzuValue::Struct(st) && pairs_veq(r.spec_fields(), st.spec_fields())
    }

    open spec fn decode_err(value: KuzuValue, e: Error) -> bool {
        target_err(value, "Struct"@, e)
    }

    fn decode_kuzuval(value: &KuzuValue) -> (r: Result<Struct, Error>) {
        match value {
            KuzuValue::Struct(st) => Ok(st.clone()),
            _ => Err(Error::DecodeError(value.name(), "Struct")),
        }
    }
}

impl Decode for KuzuValue {
    open spec fn decodable(value: KuzuValue) -> bool {
        true
    }

    open spec fn decodes(value: KuzuValue, r: KuzuValue) -> bool {
        veq(r, value)
    }

    open spec fn decode_err(value: KuzuValue, e: Error) -> bool {
        false
    }

    fn decode_kuzuval(value: &KuzuValue) -> (r: Result<KuzuValue, Error>) {
        Ok(value.clone())
    }
}

/// Whether every element of a sequence can be extracted as `T`.
pub open spec fn seq_decodable<T: Decode>(s: Seq<KuzuValue>) -> bool {
    forall|i: int| 0 <= i < s.len() ==> T::decodable(#[trigger] s[i])
}

/// Whether `r` extracts a sequence elementwise, in order.
pub open spec fn seq_decodes<T: Decode>(s: Seq<KuzuValue>, r: Seq<T>) -> bool {
    &&& r.len() == s.len()
    &&& forall|i: int| 0 <= i < s.len() ==> T::decodes(#[trigger] s[i], r[i])
}

/// The error of the first element that cannot be extracted as `T`.
pub open spec fn seq_decode_err<T: Decode>(s: Seq<KuzuValue>, e: Error) -> bool {
    exists|i: int|
        #![trigger s[i]]
        {
            &&& 0 <= i < s.len()
            &&& forall|j: int| 0 <= j < i ==> T::decodable(#[trigger] s[j])
            &&& !T::decodable(s[i])
            &&& T::decode_err(s[i], e)
        }
}

/// Extracts every element of a list as `T`, in order, stopping at the first
/// failure: no partial vector is returned.
fn decode_seq<T: Decode>(items: &Vec<KuzuValue>) -> (r: Result<Vec<T>, Error>)
    ensures
        r is Ok <==> seq_decodable::<T>(items@),
        r matches Ok(vs) ==> seq_decodes::<T>(items@, vs@),
        r matches Err(e) ==> seq_decode_err::<T>(items@, e),
{
    let mut out: Vec<T> = Vec::new();
    let mut i: usize = 0;
    while i < items.len()
        invariant
            i <= items@.len(),
            out@.len() == i,
            forall|j: int| 0 <= j < i ==> T::decodable(#[trigger] items@[j]),
            forall|j: int| 0 <= j < i ==> T::decodes(#[trigger] items@[j], out@[j]),
        decreases items@.len() - i,
    {
        match T::decode_kuzuval(&items[i]) {
            Ok(v) => {
                out.push(v);
            },
            Err(e) => {
                proof {
                    let k = i as int;
                    assert({
                        &&& 0 <= k < items@.len()
                        &&& forall|j: int| 0 <= j < k ==> T::decodable(#[trigger] items@[j])
                        &&& !T::decodable(items@[k])
                        &&& T::decode_err(items@[k], e)
                    });
                    assert(seq_decode_err::<T>(items@, e));
                }
                return Err(e);
            },
        }
        i = i + 1;
    }
    Ok(out)
}

impl<T: Decode> Decode for Vec<T> {
    open spec fn decodable(value: KuzuValue) -> bool {
        match value {
            KuzuValue::VarList(l) => seq_decodable::<T>(l.inner@),
            KuzuValue::FixedList(l) => seq_decodable::<T>(l.inner@),
            _ => false,
        }
    }

    open spec fn decodes(value: KuzuValue, r: Vec<T>) -> bool {
        match value {
            KuzuValue::VarList(l) => seq_decodes::<T>(l.inner@, r@),
            KuzuValue::FixedList(l) => seq_decodes::<T>(l.inner@, r@),
            _ => false,
        }
    }

    open spec fn decode_err(value: KuzuValue, e: Error) -> bool {
        match value {
            KuzuValue::VarList(l) => seq_decode_err::<T>(l.inner@, e),
            KuzuValue::FixedList(l) => seq_decode_err::<T>(l.inner@, e),
            _ => target_err(value, "Vec"@, e),
        }
    }

    fn decode_kuzuval(value: &KuzuValue) -> (r: Result<Vec<T>, Error>) {
        match value {
            KuzuValue::VarList(l) => decode_seq::<T>(&l.inner),
            KuzuValue::FixedList(l) => decode_seq::<T>(&l.inner),
            _ => Err(Error::DecodeError(value.name(), "Vec")),
        }
    }
}

} // verus!
