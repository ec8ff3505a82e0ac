use vstd::prelude::*;

use crate::engine::{kuzu_internal_id_t, RawPayload, RawValue};
use crate::error::Error;
use crate::helper::{convert_inner_to_owned_string, to_uppercase, upper_of};
use crate::logical_type::{tag_of_id, LogicaType, LogicalTypeID};
use vstd::utf8::{decode_utf8, valid_utf8};

verus! {

broadcast use vstd::std_specs::vec::group_vec_axioms;

/// The stable identity of a graph node or edge endpoint.
#[derive(Debug, Clone, Copy, PartialEq, Eq, Structural)]
pub struct InternalId {
    pub offset: u64,
    pub table_id: u64,
}

impl From<kuzu_internal_id_t> for InternalId {
    fn from(value: kuzu_internal_id_t) -> Self {
        InternalId { offset: value.offset, table_id: value.table_id }
    }
}

impl vstd::std_specs::convert::FromSpecImpl<kuzu_internal_id_t> for InternalId {
    open spec fn obeys_from_spec() -> bool {
        true
    }

    open spec fn from_spec(t: kuzu_internal_id_t) -> Self {
        InternalId { offset: t.offset, table_id: t.table_id }
    }
}

/// A fully decoded graph node: identity, label, and named properties in the
/// engine's iteration order. A later property with the same name shadows an
/// earlier one (last write wins); duplicates are kept, not dropped.
#[derive(Debug)]
pub struct Node {
    pub id: InternalId,
    pub label: String,
    pub properties: Vec<(String, KuzuValue)>,
}

/// A fully decoded relationship: label, endpoints, and named properties in
/// the engine's iteration order, last write wins as for [`Node`].
#[derive(Debug, PartialEq)]
pub struct Relation {
    label: String,
    src: InternalId,
    dst: InternalId,
    properties: Vec<(String, KuzuValue)>,
}

impl Relation {
    /// The relationship's label.
    pub closed spec fn spec_label(&self) -> Seq<char> {
        self.label@
    }

    /// The source endpoint's identity.
    pub closed spec fn spec_src(&self) -> InternalId {
        self.src
    }

    /// The destination endpoint's identity.
    pub closed spec fn spec_dst(&self) -> InternalId {
        self.dst
    }

    /// The named properties, in the engine's iteration order.
    pub closed spec fn spec_properties(&self) -> Seq<(String, KuzuValue)> {
        self.properties@
    }
}

/// A fixed-length list; all elements share one value kind.
#[derive(Debug, PartialEq)]
pub struct FixedList {
    pub inner: Vec<KuzuValue>,
    pub len: usize,
}

/// A variable-length list; all elements share one value kind.
#[derive(Debug, PartialEq)]
pub struct VarList {
    pub inner: Vec<KuzuValue>,
}

/// A decoded struct value. Field names are case-normalized (uppercased) when
/// the struct is built, and lookups normalize the queried name the same way.
#[derive(Debug, PartialEq)]
pub struct Struct {
    inner: Vec<(String, KuzuValue)>,
}

impl Struct {
    /// The case-normalized fields, in the engine's iteration order.
    pub closed spec fn spec_fields(&self) -> Seq<(String, KuzuValue)> {
        self.inner@
    }
}

/// A fully decoded, engine-independent value: one case per supported runtime
/// type tag. Composite cases own their children outright; no case retains an
/// engine handle. Floats are carried as their IEEE-754 bit patterns, so a
/// value crosses the boundary bit-exactly.
#[derive(Debug, PartialEq)]
pub enum KuzuValue {
    Node(Node),
    Rel(Relation),
    Bool(bool),
    Int64(i64),
    Int32(i32),
    Int16(i16),
    /// A double-precision float's bit pattern.
    Double(u64),
    /// A single-precision float's bit pattern.
    Float(u32),
    String(String),
    InternalId(InternalId),
    FixedList(FixedList),
    VarList(VarList),
    Struct(Struct),
}

/// A number for each variant of [`KuzuValue`], to speak about which case a
/// value is in without looking inside it.
pub open spec fn variant_idx(v: KuzuValue) -> int {
    match v {
        KuzuValue::Node(_) => 0,
        KuzuValue::Rel(_) => 1,
        KuzuValue::Bool(_) => 2,
        KuzuValue::Int64(_) => 3,
        KuzuValue::Int32(_) => 4,
        KuzuValue::Int16(_) => 5,
        KuzuValue::Double(_) => 6,
        KuzuValue::Float(_) => 7,
        KuzuValue::String(_) => 8,
        KuzuValue::InternalId(_) => 9,
        KuzuValue::FixedList(_) => 10,
        KuzuValue::VarList(_) => 11,
        KuzuValue::Struct(_) => 12,
    }
}

/// The display name of a value's variant.
pub open spec fn variant_name_spec(v: KuzuValue) -> Seq<char> {
    match v {
        KuzuValue::Node(_) => "KuzuValue::Node"@,
        KuzuValue::Rel(_) => "KuzuValue::Rel"@,
        KuzuValue::Bool(_) => "KuzuValue::Bool"@,
        KuzuValue::Int64(_) => "KuzuValue::Int64"@,
        KuzuValue::Int32(_) => "KuzuValue::Int32"@,
        KuzuValue::Int16(_) => "KuzuValue::Int16"@,
        KuzuValue::Double(_) => "KuzuValue::Double"@,
        KuzuValue::Float(_) => "KuzuValue::Float"@,
        KuzuValue::String(_) => "KuzuValue::String"@,
        KuzuValue::InternalId(_) => "KuzuValue::InternalId"@,
        KuzuValue::FixedList(_) => "KuzuValue::FixedList"@,
        KuzuValue::VarList(_) => "KuzuValue::VarList"@,
        KuzuValue::Struct(_) => "KuzuValue::Struct"@,
    }
}

impl KuzuValue {
    /// The name of this value's variant.
    pub fn name(&self) -> (r: &'static str)
        ensures
            r@ == variant_name_spec(*self),
    {
        match self {
            KuzuValue::Node(_) => "KuzuValue::Node",
            KuzuValue::Rel(_) => "KuzuValue::Rel",
            KuzuValue::Bool(_) => "KuzuValue::Bool",
            KuzuValue::Int64(_) => "KuzuValue::Int64",
            KuzuValue::Int32(_) => "KuzuValue::Int32",
            KuzuValue::Int16(_) => "KuzuValue::Int16",
            KuzuValue::Double(_) => "KuzuValue::Double",
            KuzuValue::Float(_) => "KuzuValue::Float",
            KuzuValue::String(_) => "KuzuValue::String",
            KuzuValue::InternalId(_) => "KuzuValue::InternalId",
            KuzuValue::FixedList(_) => "KuzuValue::FixedList",
            KuzuValue::VarList(_) => "KuzuValue::VarList",
            KuzuValue::Struct(_) => "KuzuValue::Struct",
        }
    }

    /// Whether two values are in the same variant.
    pub fn same_variant(&self, other: &KuzuValue) -> (r: bool)
        ensures
            r == (variant_idx(*self) == variant_idx(*other)),
    {
        match (self, other) {
            (KuzuValue::Node(_), KuzuValue::Node(_)) => true,
            (KuzuValue::Rel(_), KuzuValue::Rel(_)) => true,
            (KuzuValue::Bool(_), KuzuValue::Bool(_)) => true,
            (KuzuValue::Int64(_), KuzuValue::Int64(_)) => true,
            (KuzuValue::Int32(_), KuzuValue::Int32(_)) => true,
            (KuzuValue::Int16(_), KuzuValue::Int16(_)) => true,
            (KuzuValue::Double(_), KuzuValue::Double(_)) => true,
            (KuzuValue::Float(_), KuzuValue::Float(_)) => true,
            (KuzuValue::String(_), KuzuValue::String(_)) => true,
            (KuzuValue::InternalId(_), KuzuValue::InternalId(_)) => true,
            (KuzuValue::FixedList(_), KuzuValue::FixedList(_)) => true,
            (KuzuValue::VarList(_), KuzuValue::VarList(_)) => true,
            (KuzuValue::Struct(_), KuzuValue::Struct(_)) => true,
            _ => false,
        }
    }
}

/// Deep equality of two values: equal identities and scalars, equal
/// characters in strings, and equal children pairwise. This is the equality
/// the library's contracts speak of; it ignores how strings and lists are
/// laid out in memory.
pub open spec fn veq(a: KuzuValue, b: KuzuValue) -> bool
    decreases a,
{
    match (a, b) {
        (KuzuValue::Node(x), KuzuValue::Node(y)) => node_veq(x, y),
        (KuzuValue::Rel(x), KuzuValue::Rel(y)) => rel_veq(x, y),
        (KuzuValue::Bool(x), KuzuValue::Bool(y)) => x == y,
        (KuzuValue::Int64(x), KuzuValue::Int64(y)) => x == y,
        (KuzuValue::Int32(x), KuzuValue::Int32(y)) => x == y,
        (KuzuValue::Int16(x), KuzuValue::Int16(y)) => x == y,
        (KuzuValue::Double(x), KuzuValue::Double(y)) => x == y,
        (KuzuValue::Float(x), KuzuValue::Float(y)) => x == y,
        (KuzuValue::String(x), KuzuValue::String(y)) => x@ == y@,
        (KuzuValue::InternalId(x), KuzuValue::InternalId(y)) => x == y,
        (KuzuValue::FixedList(x), KuzuValue::FixedList(y)) => x.len == y.len && elems_veq(
            x.inner@,
            y.inner@,
        ),
        (KuzuValue::VarList(x), KuzuValue::VarList(y)) => elems_veq(x.inner@, y.inner@),
        (KuzuValue::Struct(x), KuzuValue::Struct(y)) => pairs_veq(x.spec_fields(), y.spec_fields()),
        _ => false,
    }
}

/// Deep equality of two nodes.
pub open spec fn node_veq(x: Node, y: Node) -> bool
    decreases x,
{
    x.id == y.id && x.label@ == y.label@ && pairs_veq(x.properties@, y.properties@)
}

/// Deep equality of two relationships.
pub open spec fn rel_veq(x: Relation, y: Relation) -> bool
    decreases x,
{
    &&& x.spec_label() == y.spec_label()
    &&& x.spec_src() == y.spec_src()
    &&& x.spec_dst() == y.spec_dst()
    &&& pairs_veq(x.spec_properties(), y.spec_properties())
}

/// Deep equality of two name/value pair lists, pairwise and in order.
pub open spec fn pairs_veq(p: Seq<(String, KuzuValue)>, q: Seq<(String, KuzuValue)>) -> bool
    decreases p,
{
    &&& p.len() == q.len()
    &&& forall|i: int|
        0 <= i < p.len() ==> (#[trigger] p[i]).0@ == q[i].0@ && veq(p[i].1, q[i].1)
}

/// Deep equality of two element lists, pairwise and in order.
pub open spec fn elems_veq(p: Seq<KuzuValue>, q: Seq<KuzuValue>) -> bool
    decreases p,
{
    &&& p.len() == q.len()
    &&& forall|i: int| 0 <= i < p.len() ==> veq(#[trigger] p[i], q[i])
}

impl PartialEq for Node {
    /// Nodes compare by identity, not by value.
    fn eq(&self, other: &Self) -> bool {
        self.id == other.id
    }
}

impl vstd::std_specs::cmp::PartialEqSpecImpl for Node {
    open spec fn obeys_eq_spec() -> bool {
        true
    }

    open spec fn eq_spec(&self, other: &Self) -> bool {
        self.id == other.id
    }
}

/// Copies a value, preserving it under deep equality.
pub fn clone_value(v: &KuzuValue) -> (r: KuzuValue)
    ensures
        veq(r, *v),
    decreases *v,
{
    match v {
        KuzuValue::Node(n) => KuzuValue::Node(clone_node(n)),
        KuzuValue::Rel(x) => KuzuValue::Rel(
            Relation {
                label: x.label.clone(),
                src: x.src,
                dst: x.dst,
                properties: clone_pairs(&x.properties),
            },
        ),
        KuzuValue::Bool(b) => KuzuValue::Bool(*b),
        KuzuValue::Int64(x) => KuzuValue::Int64(*x),
        KuzuValue::Int32(x) => KuzuValue::Int32(*x),
        KuzuValue::Int16(x) => KuzuValue::Int16(*x),
        KuzuValue::Double(x) => KuzuValue::Double(*x),
        KuzuValue::Float(x) => KuzuValue::Float(*x),
        KuzuValue::String(s) => KuzuValue::String(s.clone()),
        KuzuValue::InternalId(x) => KuzuValue::InternalId(*x),
        KuzuValue::FixedList(l) => KuzuValue::FixedList(
            FixedList { inner: clone_elems(&l.inner), len: l.len },
        ),
        KuzuValue::VarList(l) => KuzuValue::VarList(VarList { inner: clone_elems(&l.inner) }),
        KuzuValue::Struct(s) => KuzuValue::Struct(Struct { inner: clone_pairs(&s.inner) }),
    }
}

/// Copies a node, preserving it under deep equality.
fn clone_node(n: &Node) -> (r: Node)
    ensures
        node_veq(r, *n),
    decreases *n,
{
    Node { id: n.id, label: n.label.clone(), properties: clone_pairs(&n.properties) }
}

/// Copies a name/value pair list, preserving it under deep equality.
fn clone_pairs(p: &Vec<(String, KuzuValue)>) -> (r: Vec<(String, KuzuValue)>)
    ensures
        pairs_veq(r@, p@),
    decreases *p,
{
    let mut r: Vec<(String, KuzuValue)> = Vec::new();
    let mut i: usize = 0;
    while i < p.len()
        invariant
            i <= p.len(),
            r.len() == i,
            forall|j: int|
                0 <= j < i ==> (#[trigger] r@[j]).0@ == p@[j].0@ && veq(r@[j].1, p@[j].1),
        decreases p.len() - i,
    {
        let name = p[i].0.clone();
        let value = clone_value(&p[i].1);
        r.push((name, value));
        i = i + 1;
    }
    r
}

/// Copies an element list, preserving it under deep equality.
fn clone_elems(p: &Vec<KuzuValue>) -> (r: Vec<KuzuValue>)
    ensures
        elems_veq(r@, p@),
    decreases *p,
{
    let mut r: Vec<KuzuValue> = Vec::new();
    let mut i: usize = 0;
    while i < p.len()
        invariant
            i <= p.len(),
            r.len() == i,
            forall|j: int| 0 <= j < i ==> veq(#[trigger] r@[j], p@[j]),
        decreases p.len() - i,
    {
        let value = clone_value(&p[i]);
        r.push(value);
        i = i + 1;
    }
    r
}

impl Clone for KuzuValue {
    /// The copy equals the original under deep equality.
    fn clone(&self) -> (r: Self)
        ensures
            veq(r, *self),
    {
        clone_value(self)
    }
}

impl Clone for Node {
    /// The copy equals the original under deep equality.
    fn clone(&self) -> (r: Self)
        ensures
            node_veq(r, *self),
    {
        clone_node(self)
    }
}

impl Clone for Relation {
    /// The copy equals the original under deep equality.
    fn clone(&self) -> (r: Self)
        ensures
            rel_veq(r, *self),
    {
        Relation {
            label: self.label.clone(),
            src: self.src,
            dst: self.dst,
            properties: clone_pairs(&self.properties),
        }
    }
}

impl Clone for FixedList {
    /// The copy equals the original under deep equality.
    fn clone(&self) -> (r: Self)
        ensures
            r.len == self.len && elems_veq(r.inner@, self.inner@),
    {
        FixedList { inner: clone_elems(&self.inner), len: self.len }
    }
}

impl Clone for VarList {
    /// The copy equals the original under deep equality.
    fn clone(&self) -> (r: Self)
        ensures
            elems_veq(r.inner@, self.inner@),
    {
        VarList { inner: clone_elems(&self.inner) }
    }
}

impl Clone for Struct {
    /// The copy equals the original under deep equality.
    fn clone(&self) -> (r: Self)
        ensures
            pairs_veq(r.spec_fields(), self.spec_fields()),
    {
        Struct { inner: clone_pairs(&self.inner) }
    }
}

/// The display name of a logical type id.
pub open spec fn tag_display(t: LogicalTypeID) -> Seq<char> {
    match t {
        LogicalTypeID::Any => "Any"@,
        LogicalTypeID::Node => "Node"@,
        LogicalTypeID::Rel => "Rel"@,
        LogicalTypeID::Bool => "Bool"@,
        LogicalTypeID::Int64 => "Int64"@,
        LogicalTypeID::Int32 => "Int32"@,
        LogicalTypeID::Int16 => "Int16"@,
        LogicalTypeID::Double => "Double"@,
        LogicalTypeID::Float => "Float"@,
        LogicalTypeID::Date => "Date"@,
        LogicalTypeID::Timestamp => "Timestamp"@,
        LogicalTypeID::Interval => "Interval"@,
        LogicalTypeID::FixedList => "FixedList"@,
        LogicalTypeID::InternalId => "InternalId"@,
        LogicalTypeID::String => "String"@,
        LogicalTypeID::VarList => "VarList"@,
        LogicalTypeID::Struct => "Struct"@,
    }
}

/// The display name of a logical type id.
pub fn tag_display_str(t: LogicalTypeID) -> (r: &'static str)
    ensures
        r@ == tag_display(t),
{
    match t {
        LogicalTypeID::Any => "Any",
        LogicalTypeID::Node => "Node",
        LogicalTypeID::Rel => "Rel",
        LogicalTypeID::Bool => "Bool",
        LogicalTypeID::Int64 => "Int64",
        LogicalTypeID::Int32 => "Int32",
        LogicalTypeID::Int16 => "Int16",
        LogicalTypeID::Double => "Double",
        LogicalTypeID::Float => "Float",
        LogicalTypeID::Date => "Date",
        LogicalTypeID::Timestamp => "Timestamp",
        LogicalTypeID::Interval => "Interval",
        LogicalTypeID::FixedList => "FixedList",
        LogicalTypeID::InternalId => "InternalId",
        LogicalTypeID::String => "String",
        LogicalTypeID::VarList => "VarList",
        LogicalTypeID::Struct => "Struct",
    }
}

/// The name of an accessor payload's shape.
pub open spec fn payload_name_spec(p: RawPayload) -> Seq<char> {
    match p {
        RawPayload::Missing => "Missing"@,
        RawPayload::Bool(_) => "Bool"@,
        RawPayload::Int16(_) => "Int16"@,
        RawPayload::Int32(_) => "Int32"@,
        RawPayload::Int64(_) => "Int64"@,
        RawPayload::FloatBits(_) => "FloatBits"@,
        RawPayload::DoubleBits(_) => "DoubleBits"@,
        RawPayload::Bytes(_) => "Bytes"@,
        RawPayload::Id(_) => "Id"@,
        RawPayload::NodeVal { .. } => "NodeVal"@,
        RawPayload::RelVal { .. } => "RelVal"@,
        RawPayload::List(_) => "List"@,
        RawPayload::Fields(_) => "Fields"@,
    }
}

/// The name of an accessor payload's shape.
pub fn payload_name(p: &RawPayload) -> (r: &'static str)
    ensures
        r@ == payload_name_spec(*p),
{
    match p {
        RawPayload::Missing => "Missing",
        RawPayload::Bool(_) => "Bool",
        RawPayload::Int16(_) => "Int16",
        RawPayload::Int32(_) => "Int32",
        RawPayload::Int64(_) => "Int64",
        RawPayload::FloatBits(_) => "FloatBits",
        RawPayload::DoubleBits(_) => "DoubleBits",
        RawPayload::Bytes(_) => "Bytes",
        RawPayload::Id(_) => "Id",
        RawPayload::NodeVal { .. } => "NodeVal",
        RawPayload::RelVal { .. } => "RelVal",
        RawPayload::List(_) => "List",
        RawPayload::Fields(_) => "Fields",
    }
}

/// The error that reports accessor data whose shape does not fit the
/// reported tag: the engine and the binding disagree about the value.
pub open spec fn mismatch_err_is(p: RawPayload, t: LogicalTypeID, e: Error) -> bool {
    e matches Error::DecodeError(a, b) && a@ == payload_name_spec(p) && b@ == tag_display(t)
}

/// Builds the error for accessor data whose shape does not fit the tag.
fn mismatch_error(p: &RawPayload, t: LogicalTypeID) -> (e: Error)
    ensures
        mismatch_err_is(*p, t, e),
{
    Error::DecodeError(payload_name(p), tag_display_str(t))
}

/// The variant a raw value must decode into, fixed by its type tag alone;
/// `None` where no decode is possible (unknown or unsupported tags).
pub open spec fn raw_variant(raw: RawValue) -> Option<int> {
    match tag_of_id(raw.type_tag) {
        Option::None => None,
        Option::Some(t) => match t {
            LogicalTypeID::Node => Some(0int),
            LogicalTypeID::Rel => Some(1int),
            LogicalTypeID::Bool => Some(2int),
            LogicalTypeID::Int64 => Some(3int),
            LogicalTypeID::Int32 => Some(4int),
            LogicalTypeID::Int16 => Some(5int),
            LogicalTypeID::Double => Some(6int),
            LogicalTypeID::Float => Some(7int),
            LogicalTypeID::String => Some(8int),
            LogicalTypeID::InternalId => Some(9int),
            LogicalTypeID::FixedList => Some(10int),
            LogicalTypeID::VarList => Some(11int),
            LogicalTypeID::Struct => Some(12int),
            LogicalTypeID::Any => None,
            LogicalTypeID::Date => None,
            LogicalTypeID::Timestamp => None,
            LogicalTypeID::Interval => None,
        },
    }
}

/// All values share the variant of the first: the homogeneity invariant of
/// lists.
pub open spec fn homogeneous(vs: Seq<KuzuValue>) -> bool {
    forall|i: int| 0 <= i < vs.len() ==> variant_idx(#[trigger] vs[i]) == variant_idx(vs[0])
}

/// What one raw value decodes to. This is the whole decoder, stated: a raw
/// value relates to exactly the decoded values deep-equal to its image.
pub open spec fn value_decodes(raw: RawValue, v: KuzuValue) -> bool
    decreases raw,
{
    match tag_of_id(raw.type_tag) {
        Option::None => false,
        Option::Some(t) => match t {
            LogicalTypeID::Bool => raw.payload matches RawPayload::Bool(b) && v
                == KuzuValue::Bool(b),
            LogicalTypeID::Int64 => raw.payload matches RawPayload::Int64(x) && v
                == KuzuValue::Int64(x),
            LogicalTypeID::Int32 => raw.payload matches RawPayload::Int32(x) && v
                == KuzuValue::Int32(x),
            LogicalTypeID::Int16 => raw.payload matches RawPayload::Int16(x) && v
                == KuzuValue::Int16(x),
            LogicalTypeID::Double => raw.payload matches RawPayload::DoubleBits(x) && v
                == KuzuValue::Double(x),
            LogicalTypeID::Float => raw.payload matches RawPayload::FloatBits(x) && v
                == KuzuValue::Float(x),
            LogicalTypeID::String => raw.payload matches RawPayload::Bytes(bs) && valid_utf8(bs@)
                && (v matches KuzuValue::String(s) && s@ == decode_utf8(bs@)),
            LogicalTypeID::InternalId => raw.payload matches RawPayload::Id(id) && v
                == KuzuValue::InternalId(InternalId { offset: id.offset, table_id: id.table_id }),
            LogicalTypeID::Node => raw.payload matches RawPayload::NodeVal {
                id,
                label,
                properties,
            } && valid_utf8(label@) && (v matches KuzuValue::Node(n) && n.id == (InternalId {
                offset: id.offset,
                table_id: id.table_id,
            }) && n.label@ == decode_utf8(label@) && pairs_decode(
                properties@,
                n.properties@,
                false,
            )),
            LogicalTypeID::Rel => raw.payload matches RawPayload::RelVal {
                label,
                src,
                dst,
                properties,
            } && valid_utf8(label@) && (v matches KuzuValue::Rel(x) && x.spec_label()
                == decode_utf8(label@) && x.spec_src() == (InternalId {
                offset: src.offset,
                table_id: src.table_id,
            }) && x.spec_dst() == (InternalId {
                offset: dst.offset,
                table_id: dst.table_id,
            }) && pairs_decode(properties@, x.spec_properties(), false)),
            LogicalTypeID::FixedList => raw.payload matches RawPayload::List(elems) && (
            v matches KuzuValue::FixedList(l) && l.len == l.inner@.len() && elems_decode(
                elems@,
                l.inner@,
            ) && homogeneous(l.inner@)),
            LogicalTypeID::VarList => raw.payload matches RawPayload::List(elems) && (
            v matches KuzuValue::VarList(l) && elems_decode(elems@, l.inner@) && homogeneous(
                l.inner@,
            )),
            LogicalTypeID::Struct => raw.payload matches RawPayload::Fields(fs) && (
            v matches KuzuValue::Struct(st) && pairs_decode(fs@, st.spec_fields(), true)),
            LogicalTypeID::Any => false,
            LogicalTypeID::Date => false,
            LogicalTypeID::Timestamp => false,
            LogicalTypeID::Interval => false,
        },
    }
}

/// What a raw property or field list decodes to, pairwise and in order;
/// names are validated as UTF-8 and, when `normalize` holds, uppercased.
pub open spec fn pairs_decode(
    ps: Seq<(Vec<u8>, RawValue)>,
    qs: Seq<(String, KuzuValue)>,
    normalize: bool,
) -> bool
    decreases ps,
{
    &&& qs.len() == ps.len()
    &&& forall|i: int|
        0 <= i < ps.len() ==> {
            &&& valid_utf8((#[trigger] ps[i]).0@)
            &&& qs[i].0@ == (if normalize {
                upper_of(decode_utf8(ps[i].0@))
            } else {
                decode_utf8(ps[i].0@)
            })
            &&& value_decodes(ps[i].1, qs[i].1)
        }
}

/// What a raw element list decodes to, pairwise and in order.
pub open spec fn elems_decode(ps: Seq<RawValue>, qs: Seq<KuzuValue>) -> bool
    decreases ps,
{
    &&& qs.len() == ps.len()
    &&& forall|i: int| 0 <= i < ps.len() ==> value_decodes(#[trigger] ps[i], qs[i])
}

/// Whether decoding a raw value succeeds.
pub open spec fn decode_ok(raw: RawValue) -> bool
    decreases raw,
{
    match tag_of_id(raw.type_tag) {
        Option::None => false,
        Option::Some(t) => match t {
            LogicalTypeID::Bool => raw.payload is Bool,
            LogicalTypeID::Int64 => raw.payload is Int64,
            LogicalTypeID::Int32 => raw.payload is Int32,
            LogicalTypeID::Int16 => raw.payload is Int16,
            LogicalTypeID::Double => raw.payload is DoubleBits,
            LogicalTypeID::Float => raw.payload is FloatBits,
            LogicalTypeID::String => raw.payload matches RawPayload::Bytes(bs) && valid_utf8(bs@),
            LogicalTypeID::InternalId => raw.payload is Id,
            LogicalTypeID::Node => raw.payload matches RawPayload::NodeVal {
                id,
                label,
                properties,
            } && valid_utf8(label@) && pairs_ok(properties@),
            LogicalTypeID::Rel => raw.payload matches RawPayload::RelVal {
                label,
                src,
                dst,
                properties,
            } && valid_utf8(label@) && pairs_ok(properties@),
            LogicalTypeID::FixedList => raw.payload matches RawPayload::List(elems) && elems_ok(
                elems@,
            ) && raws_homogeneous(elems@),
            LogicalTypeID::VarList => raw.payload matches RawPayload::List(elems) && elems_ok(
                elems@,
            ) && raws_homogeneous(elems@),
            LogicalTypeID::Struct => raw.payload matches RawPayload::Fields(fs) && pairs_ok(fs@),
            LogicalTypeID::Any => false,
            LogicalTypeID::Date => false,
            LogicalTypeID::Timestamp => false,
            LogicalTypeID::Interval => false,
        },
    }
}

/// Whether every name/value pair of a raw property list decodes.
pub open spec fn pairs_ok(ps: Seq<(Vec<u8>, RawValue)>) -> bool
    decreases ps,
{
    forall|i: int|
        0 <= i < ps.len() ==> valid_utf8((#[trigger] ps[i]).0@) && decode_ok(ps[i].1)
}

/// Whether every element of a raw list decodes.
pub open spec fn elems_ok(ps: Seq<RawValue>) -> bool
    decreases ps,
{
    forall|i: int| 0 <= i < ps.len() ==> decode_ok(#[trigger] ps[i])
}

/// All raw elements carry tags that decode into one variant.
pub open spec fn raws_homogeneous(ps: Seq<RawValue>) -> bool {
    forall|i: int| 0 <= i < ps.len() ==> raw_variant(#[trigger] ps[i]) == raw_variant(ps[0])
}

/// Which error decoding a raw value reports, when it fails.
pub open spec fn decode_err_is(raw: RawValue, e: Error) -> bool
    decreases raw,
{
    match tag_of_id(raw.type_tag) {
        Option::None => e == Error::BindingMismatch(raw.type_tag),
        Option::Some(t) => match t {
            LogicalTypeID::Bool => !(raw.payload is Bool) && mismatch_err_is(raw.payload, t, e),
            LogicalTypeID::Int64 => !(raw.payload is Int64) && mismatch_err_is(raw.payload, t, e),
            LogicalTypeID::Int32 => !(raw.payload is Int32) && mismatch_err_is(raw.payload, t, e),
            LogicalTypeID::Int16 => !(raw.payload is Int16) && mismatch_err_is(raw.payload, t, e),
            LogicalTypeID::Double => !(raw.payload is DoubleBits) && mismatch_err_is(
                raw.payload,
                t,
                e,
            ),
            LogicalTypeID::Float => !(raw.payload is FloatBits) && mismatch_err_is(
                raw.payload,
                t,
                e,
            ),
            LogicalTypeID::String => match raw.payload {
                RawPayload::Bytes(bs) => !valid_utf8(bs@) && (e matches Error::CStringDecodeError(
                    b,
                ) && b@ == bs@),
                _ => mismatch_err_is(raw.payload, t, e),
            },
            LogicalTypeID::InternalId => !(raw.payload is Id) && mismatch_err_is(
                raw.payload,
                t,
                e,
            ),
            LogicalTypeID::Node => match raw.payload {
                RawPayload::NodeVal { id, label, properties } => if !valid_utf8(label@) {
                    e matches Error::CStringDecodeError(b) && b@ == label@
                } else {
                    pairs_err(properties@, e)
                },
                _ => mismatch_err_is(raw.payload, t, e),
            },
            LogicalTypeID::Rel => match raw.payload {
                RawPayload::RelVal { label, src, dst, properties } => if !valid_utf8(label@) {
                    e matches Error::CStringDecodeError(b) && b@ == label@
                } else {
                    pairs_err(properties@, e)
                },
                _ => mismatch_err_is(raw.payload, t, e),
            },
            LogicalTypeID::FixedList => match raw.payload {
                RawPayload::List(elems) => if !elems_ok(elems@) {
                    elems_err(elems@, e)
                } else {
                    !raws_homogeneous(elems@) && e == Error::ListTypeError
                },
                _ => mismatch_err_is(raw.payload, t, e),
            },
            LogicalTypeID::VarList => match raw.payload {
                RawPayload::List(elems) => if !elems_ok(elems@) {
                    elems_err(elems@, e)
                } else {
                    !raws_homogeneous(elems@) && e == Error::ListTypeError
                },
                _ => mismatch_err_is(raw.payload, t, e),
            },
            LogicalTypeID::Struct => match raw.payload {
                RawPayload::Fields(fs) => pairs_err(fs@, e),
                _ => mismatch_err_is(raw.payload, t, e),
            },
            LogicalTypeID::Any => e matches Error::DecodeError(a, b) && a@ == tag_display(t) && b@
                == "KuzuValue"@,
            LogicalTypeID::Date => e matches Error::DecodeError(a, b) && a@ == tag_display(t) && b@
                == "KuzuValue"@,
            LogicalTypeID::Timestamp => e matches Error::DecodeError(a, b) && a@ == tag_display(t)
                && b@ == "KuzuValue"@,
            LogicalTypeID::Interval => e matches Error::DecodeError(a, b) && a@ == tag_display(t)
                && b@ == "KuzuValue"@,
        },
    }
}

/// The error of the first failing name/value pair: every earlier pair
/// decodes; at the failing one, an invalid name reports its bytes and a
/// failing value reports its own error.
pub open spec fn pairs_err(ps: Seq<(Vec<u8>, RawValue)>, e: Error) -> bool
    decreases ps,
{
    exists|i: int|
        #![trigger ps[i]]
        {
            &&& 0 <= i < ps.len()
            &&& forall|j: int|
                0 <= j < i ==> valid_utf8((#[trigger] ps[j]).0@) && decode_ok(ps[j].1)
            &&& if !valid_utf8(ps[i].0@) {
                e matches Error::CStringDecodeError(b) && b@ == ps[i].0@
            } else {
                !decode_ok(ps[i].1) && decode_err_is(ps[i].1, e)
            }
        }
}

/// The error of the first failing element: every earlier element decodes,
/// and the failing one reports its own error.
pub open spec fn elems_err(ps: Seq<RawValue>, e: Error) -> bool
    decreases ps,
{
    exists|i: int|
        #![trigger ps[i]]
        {
            &&& 0 <= i < ps.len()
            &&& forall|j: int| 0 <= j < i ==> decode_ok(#[trigger] ps[j])
            &&& !decode_ok(ps[i])
            &&& decode_err_is(ps[i], e)
        }
}

/// The value a field name binds to in a case-normalized field list: the
/// value of the last field with that name, or `None` when no field has it.
pub open spec fn field_lookup(fields: Seq<(String, KuzuValue)>, key: Seq<char>) -> Option<
    KuzuValue,
>
    decreases fields.len(),
{
    if fields.len() == 0 {
        None
    } else if fields.last().0@ == key {
        Some(fields.last().1)
    } else {
        field_lookup(fields.drop_last(), key)
    }
}

impl Struct {
    /// The value of the field a name binds to, if any. The stored field
    /// names are case-normalized when the struct is built, and the queried
    /// name is normalized the same way, so lookup is case-insensitive.
    pub fn get(&self, key: &str) -> (r: Option<&KuzuValue>)
        ensures
            r is Some <==> field_lookup(self.spec_fields(), upper_of(key@)) is Some,
            r matches Some(v) ==> field_lookup(self.spec_fields(), upper_of(key@)) == Some(*v),
    {
        let upper_key = to_uppercase(key);
        let ghost fields = self.spec_fields();
        let mut i: usize = self.inner.len();
        proof {
            assert(fields.subrange(0, i as int) =~= fields);
        }
        while i > 0
            invariant
                self.spec_fields() == fields,
                i <= fields.len(),
                upper_key@ == upper_of(key@),
                field_lookup(fields, upper_of(key@)) == field_lookup(
                    fields.subrange(0, i as int),
                    upper_of(key@),
                ),
            decreases i,
        {
            i = i - 1;
            let entry = &self.inner[i];
            proof {
                assert(entry == fields[i as int]);
                assert(fields.subrange(0, i + 1).last() == fields[i as int]);
                assert(fields.subrange(0, i + 1).drop_last() =~= fields.subrange(0, i as int));
            }
            if entry.0.eq(&upper_key) {
                return Some(&self.inner[i].1);
            }
        }
        proof {
            assert(fields.subrange(0, 0) =~= Seq::<(String, KuzuValue)>::empty());
        }
        None
    }
}

/// A raw value's type tag alone fixes the variant it decodes into.
pub proof fn lemma_decoded_variant(raw: RawValue, v: KuzuValue)
    requires
        value_decodes(raw, v),
    ensures
        raw_variant(raw) == Some(variant_idx(v)),
{
}

/// Elementwise decoding carries homogeneity across the boundary: the decoded
/// values share one variant exactly when the raw elements' tags do.
pub proof fn lemma_homogeneity(ps: Seq<RawValue>, qs: Seq<KuzuValue>)
    requires
        elems_decode(ps, qs),
    ensures
        raws_homogeneous(ps) == homogeneous(qs),
{
    assert forall|i: int| 0 <= i < ps.len() implies raw_variant(#[trigger] ps[i]) == Some(
        variant_idx(qs[i]),
    ) by {
        lemma_decoded_variant(ps[i], qs[i]);
    }
    if raws_homogeneous(ps) {
        assert forall|i: int| 0 <= i < qs.len() implies variant_idx(#[trigger] qs[i])
            == variant_idx(qs[0]) by {
            assert(raw_variant(ps[i]) == raw_variant(ps[0]));
        }
    }
    if homogeneous(qs) {
        assert forall|i: int| 0 <= i < ps.len() implies raw_variant(#[trigger] ps[i])
            == raw_variant(ps[0]) by {
            assert(variant_idx(qs[i]) == variant_idx(qs[0]));
        }
    }
}

impl KuzuValue {
    /// Decodes one raw engine value into an owned, engine-independent value.
    /// The runtime tag picks the case; composites are decoded recursively.
    /// Succeeds exactly where `decode_ok` says; the result and the error are
    /// pinned by `value_decodes` and `decode_err_is`. A failure anywhere in
    /// the tree aborts the whole decode: nothing partial is returned.
    pub fn from_raw(raw: RawValue) -> (r: Result<KuzuValue, Error>)
        ensures
            r is Ok <==> decode_ok(raw),
            r matches Ok(v) ==> value_decodes(raw, v),
            r matches Err(e) ==> decode_err_is(raw, e),
        decreases raw, 0int,
    {
        let RawValue { type_tag, fixed_list_len, payload } = raw;
        let logical_type = match LogicaType::try_from_parts(type_tag, fixed_list_len) {
            Ok(t) => t,
            Err(e) => {
                return Err(e);
            },
        };
        match logical_type.tid {
            LogicalTypeID::Bool => match payload {
                RawPayload::Bool(b) => Ok(KuzuValue::Bool(b)),
                p => Err(mismatch_error(&p, LogicalTypeID::Bool)),
            },
            LogicalTypeID::Int64 => match payload {
                RawPayload::Int64(x) => Ok(KuzuValue::Int64(x)),
                p => Err(mismatch_error(&p, LogicalTypeID::Int64)),
            },
            LogicalTypeID::Int32 => match payload {
                RawPayload::Int32(x) => Ok(KuzuValue::Int32(x)),
                p => Err(mismatch_error(&p, LogicalTypeID::Int32)),
            },
            LogicalTypeID::Int16 => match payload {
                RawPayload::Int16(x) => Ok(KuzuValue::Int16(x)),
                p => Err(mismatch_error(&p, LogicalTypeID::Int16)),
            },
            LogicalTypeID::Double => match payload {
                RawPayload::DoubleBits(x) => Ok(KuzuValue::Double(x)),
                p => Err(mismatch_error(&p, LogicalTypeID::Double)),
            },
            LogicalTypeID::Float => match payload {
                RawPayload::FloatBits(x) => Ok(KuzuValue::Float(x)),
                p => Err(mismatch_error(&p, LogicalTypeID::Float)),
            },
            LogicalTypeID::String => match payload {
                RawPayload::Bytes(bs) => match convert_inner_to_owned_string(bs) {
                    Ok(s) => Ok(KuzuValue::String(s)),
                    Err(e) => Err(e),
                },
                p => Err(mismatch_error(&p, LogicalTypeID::String)),
            },
            LogicalTypeID::InternalId => match payload {
                RawPayload::Id(id) => Ok(KuzuValue::InternalId(InternalId::from(id))),
                p => Err(mismatch_error(&p, LogicalTypeID::InternalId)),
            },
            LogicalTypeID::Node => match payload {
                RawPayload::NodeVal { id, label, properties } => {
                    proof {
                        assert(decreases_to!(raw => properties));
                    }
                    match Node::try_from_raw(id, label, properties) {
                        Ok(n) => Ok(KuzuValue::Node(n)),
                        Err(e) => Err(e),
                    }
                },
                p => Err(mismatch_error(&p, LogicalTypeID::Node)),
            },
            LogicalTypeID::Rel => match payload {
                RawPayload::RelVal { label, src, dst, properties } => {
                    proof {
                        assert(decreases_to!(raw => properties));
                    }
                    match Relation::try_from_raw(label, src, dst, properties) {
                        Ok(x) => Ok(KuzuValue::Rel(x)),
                        Err(e) => Err(e),
                    }
                },
                p => Err(mismatch_error(&p, LogicalTypeID::Rel)),
            },
            LogicalTypeID::FixedList => match payload {
                RawPayload::List(elems) => {
                    proof {
                        assert(decreases_to!(raw => elems));
                    }
                    let ghost gelems = elems@;
                    match decode_elements(elems) {
                        Ok(vs) => {
                            proof {
                                lemma_homogeneity(gelems, vs@);
                            }
                            match FixedList::try_new(vs) {
                                Ok(l) => Ok(KuzuValue::FixedList(l)),
                                Err(e) => Err(e),
                            }
                        },
                        Err(e) => Err(e),
                    }
                },
                p => Err(mismatch_error(&p, LogicalTypeID::FixedList)),
            },
            LogicalTypeID::VarList => match payload {
                RawPayload::List(elems) => {
                    proof {
                        assert(decreases_to!(raw => elems));
                    }
                    let ghost gelems = elems@;
                    match decode_elements(elems) {
                        Ok(vs) => {
                            proof {
                                lemma_homogeneity(gelems, vs@);
                            }
                            match VarList::try_new(vs) {
                                Ok(l) => Ok(KuzuValue::VarList(l)),
                                Err(e) => Err(e),
                            }
                        },
                        Err(e) => Err(e),
                    }
                },
                p => Err(mismatch_error(&p, LogicalTypeID::VarList)),
            },
            LogicalTypeID::Struct => match payload {
                RawPayload::Fields(fs) => {
                    proof {
                        assert(decreases_to!(raw => fs));
                    }
                    match Struct::try_from_raw(fs) {
                        Ok(st) => Ok(KuzuValue::Struct(st)),
                        Err(e) => Err(e),
                    }
                },
                p => Err(mismatch_error(&p, LogicalTypeID::Struct)),
            },
            _ => Err(Error::DecodeError(tag_display_str(logical_type.tid), "KuzuValue")),
        }
    }
}

/// Decodes each element of a raw list in order, stopping at the first
/// failure.
fn decode_elements(elems: Vec<RawValue>) -> (r: Result<Vec<KuzuValue>, Error>)
    ensures
        r is Ok <==> elems_ok(elems@),
        r matches Ok(vs) ==> elems_decode(elems@, vs@),
        r matches Err(e) ==> elems_err(elems@, e),
    decreases elems, 0int,
{
    let ghost orig = elems@;
    let mut rest = elems;
    let mut out: Vec<KuzuValue> = Vec::new();
    let mut i: usize = 0;
    let total = rest.len();
    proof {
        assert(orig.len() == total);
        assert(rest@ =~= orig.subrange(0, orig.len() as int));
    }
    while rest.len() > 0
        invariant
            elems@ == orig,
            orig.len() <= usize::MAX,
            i + rest@.len() == orig.len(),
            rest@ == orig.subrange(i as int, orig.len() as int),
            out@.len() == i,
            forall|j: int| 0 <= j < i ==> decode_ok(#[trigger] orig[j]),
            forall|j: int| 0 <= j < i ==> value_decodes(orig[j], #[trigger] out@[j]),
        decreases rest@.len(),
    {
        let x = rest.remove(0);
        proof {
            assert(x == elems@[i as int]);
            assert(rest@ =~= orig.subrange(i + 1, orig.len() as int));
            assert(decreases_to!(elems => elems@[i as int]));
        }
        match KuzuValue::from_raw(x) {
            Ok(v) => {
                out.push(v);
                i = i + 1;
            },
            Err(e) => {
                proof {
                    let k = i as int;
                    assert({
                        &&& 0 <= k < orig.len()
                        &&& forall|j: int| 0 <= j < k ==> decode_ok(#[trigger] orig[j])
                        &&& !decode_ok(orig[k])
                        &&& decode_err_is(orig[k], e)
                    });
                    assert(elems_err(orig, e));
                    assert(!elems_ok(orig));
                }
                return Err(e);
            },
        }
    }
    proof {
        assert(elems_ok(orig));
        assert(elems_decode(orig, out@));
    }
    Ok(out)
}

/// Decodes each name/value pair of a raw property or field list in order,
/// stopping at the first failure; names are validated as UTF-8 and, when
/// `normalize` holds, case-normalized (uppercased).
fn decode_pairs(ps: Vec<(Vec<u8>, RawValue)>, normalize: bool) -> (r: Result<
    Vec<(String, KuzuValue)>,
    Error,
>)
    ensures
        r is Ok <==> pairs_ok(ps@),
        r matches Ok(qs) ==> pairs_decode(ps@, qs@, normalize),
        r matches Err(e) ==> pairs_err(ps@, e),
    decreases ps, 0int,
{
    let ghost orig = ps@;
    let mut rest = ps;
    let mut out: Vec<(String, KuzuValue)> = Vec::new();
    let mut i: usize = 0;
    let total = rest.len();
    proof {
        assert(orig.len() == total);
        assert(rest@ =~= orig.subrange(0, orig.len() as int));
    }
    while rest.len() > 0
        invariant
            ps@ == orig,
            orig.len() <= usize::MAX,
            i + rest@.len() == orig.len(),
            rest@ == orig.subrange(i as int, orig.len() as int),
            out@.len() == i,
            forall|j: int|
                0 <= j < i ==> valid_utf8((#[trigger] orig[j]).0@) && decode_ok(orig[j].1),
            forall|j: int|
                0 <= j < i ==> (#[trigger] out@[j]).0@ == (if normalize {
                    upper_of(decode_utf8(orig[j].0@))
                } else {
                    decode_utf8(orig[j].0@)
                }) && value_decodes(orig[j].1, out@[j].1),
        decreases rest@.len(),
    {
        let pair = rest.remove(0);
        proof {
            assert(pair == orig[i as int]);
            assert(rest@ =~= orig.subrange(i + 1, orig.len() as int));
        }
        let (name_bytes, raw_value) = pair;
        let ghost k = i as int;
        let name = match convert_inner_to_owned_string(name_bytes) {
            Ok(s) => s,
            Err(e) => {
                proof {
                    assert({
                        &&& 0 <= k < orig.len()
                        &&& forall|j: int|
                            0 <= j < k ==> valid_utf8((#[trigger] orig[j]).0@) && decode_ok(
                                orig[j].1,
                            )
                        &&& !valid_utf8((orig[k]).0@)
                        &&& e matches Error::CStringDecodeError(b) && b@ == orig[k].0@
                    });
                    assert(pairs_err(orig, e));
                    assert(!pairs_ok(orig));
                }
                return Err(e);
            },
        };
        proof {
            assert(raw_value == ps@[k].1);
            assert(decreases_to!(ps => ps@[k]));
            assert(decreases_to!(ps@[k] => ps@[k].1));
        }
        let value = match KuzuValue::from_raw(raw_value) {
            Ok(v) => v,
            Err(e) => {
                proof {
                    assert({
                        &&& 0 <= k < orig.len()
                        &&& forall|j: int|
                            0 <= j < k ==> valid_utf8((#[trigger] orig[j]).0@) && decode_ok(
                                orig[j].1,
                            )
                        &&& valid_utf8((orig[k]).0@)
                        &&& !decode_ok(orig[k].1)
                        &&& decode_err_is(orig[k].1, e)
                    });
                    assert(pairs_err(orig, e));
                    assert(!pairs_ok(orig));
                }
                return Err(e);
            },
        };
        let key = if normalize {
            to_uppercase(name.as_str())
        } else {
            name
        };
        out.push((key, value));
        i = i + 1;
    }
    proof {
        assert(pairs_ok(orig));
        assert(pairs_decode(orig, out@, normalize));
    }
    Ok(out)
}

impl Node {
    /// Builds a node from the engine's reports: its identity, its label
    /// bytes, and its property pairs, decoded recursively in order.
    pub fn try_from_raw(
        id: kuzu_internal_id_t,
        label: Vec<u8>,
        properties: Vec<(Vec<u8>, RawValue)>,
    ) -> (r: Result<Node, Error>)
        ensures
            r is Ok <==> valid_utf8(label@) && pairs_ok(properties@),
            r matches Ok(n) ==> n.id == (InternalId { offset: id.offset, table_id: id.table_id })
                && n.label@ == decode_utf8(label@) && pairs_decode(
                properties@,
                n.properties@,
                false,
            ),
            r matches Err(e) ==> if !valid_utf8(label@) {
                e matches Error::CStringDecodeError(b) && b@ == label@
            } else {
                pairs_err(properties@, e)
            },
        decreases properties, 1int,
    {
        let label_s = convert_inner_to_owned_string(label)?;
        let props = decode_pairs(properties, false)?;
        Ok(Node { id: InternalId::from(id), label: label_s, properties: props })
    }
}

impl Relation {
    /// Builds a relationship from the engine's reports: its label bytes, its
    /// endpoints, and its property pairs, decoded recursively in order.
    pub fn try_from_raw(
        label: Vec<u8>,
        src: kuzu_internal_id_t,
        dst: kuzu_internal_id_t,
        properties: Vec<(Vec<u8>, RawValue)>,
    ) -> (r: Result<Relation, Error>)
        ensures
            r is Ok <==> valid_utf8(label@) && pairs_ok(properties@),
            r matches Ok(x) ==> x.spec_label() == decode_utf8(label@) && x.spec_src()
                == (InternalId { offset: src.offset, table_id: src.table_id }) && x.spec_dst()
                == (InternalId { offset: dst.offset, table_id: dst.table_id }) && pairs_decode(
                properties@,
                x.spec_properties(),
                false,
            ),
            r matches Err(e) ==> if !valid_utf8(label@) {
                e matches Error::CStringDecodeError(b) && b@ == label@
            } else {
                pairs_err(properties@, e)
            },
        decreases properties, 1int,
    {
        let label_s = convert_inner_to_owned_string(label)?;
        let props = decode_pairs(properties, false)?;
        Ok(
            Relation {
                label: label_s,
                src: InternalId::from(src),
                dst: InternalId::from(dst),
                properties: props,
            },
        )
    }
}

impl Struct {
    /// Builds a struct value from the engine's field reports, decoding each
    /// field recursively and case-normalizing its name.
    pub fn try_from_raw(fields: Vec<(Vec<u8>, RawValue)>) -> (r: Result<Struct, Error>)
        ensures
            r is Ok <==> pairs_ok(fields@),
            r matches Ok(st) ==> pairs_decode(fields@, st.spec_fields(), true),
            r matches Err(e) ==> pairs_err(fields@, e),
        decreases fields, 1int,
    {
        let inner = decode_pairs(fields, true)?;
        Ok(Struct { inner })
    }
}

impl FixedList {
    /// Wraps decoded elements as a fixed list after verifying homogeneity:
    /// every element must be in the first element's variant, else the list
    /// is rejected with `Error::ListTypeError`.
    fn try_new(inner: Vec<KuzuValue>) -> (r: Result<FixedList, Error>)
        ensures
            r is Ok <==> homogeneous(inner@),
            r matches Ok(l) ==> l.inner == inner && l.len == inner@.len(),
            r matches Err(e) ==> e == Error::ListTypeError,
    {
        if check_homogeneous(&inner) {
            let len = inner.len();
            Ok(FixedList { inner, len })
        } else {
            Err(Error::ListTypeError)
        }
    }
}

impl VarList {
    /// Wraps decoded elements as a variable-length list after verifying
    /// homogeneity, as for [`FixedList`].
    fn try_new(inner: Vec<KuzuValue>) -> (r: Result<VarList, Error>)
        ensures
            r is Ok <==> homogeneous(inner@),
            r matches Ok(l) ==> l.inner == inner,
            r matches Err(e) ==> e == Error::ListTypeError,
    {
        if check_homogeneous(&inner) {
            Ok(VarList { inner })
        } else {
            Err(Error::ListTypeError)
        }
    }
}

/// Wherever some value decodes from a raw value, decoding succeeds: the
/// relation `value_decodes` is inhabited exactly on the raw values
/// `decode_ok` accepts.
pub proof fn lemma_decodes_implies_ok(raw: RawValue, v: KuzuValue)
    requires
        value_decodes(raw, v),
    ensures
        decode_ok(raw),
    decreases raw,
{
    broadcast use vstd::seq::group_seq_axioms;

    match tag_of_id(raw.type_tag) {
        Option::Some(t) => match raw.payload {
            RawPayload::NodeVal { id, label, properties } => {
                if t is Node {
                    let qs = v->Node_0.properties@;
                    assert forall|i: int| 0 <= i < properties@.len() implies valid_utf8(
                        (#[trigger] properties@[i]).0@,
                    ) && decode_ok(properties@[i].1) by {
                        assert(value_decodes(properties@[i].1, qs[i].1));
                        lemma_decodes_implies_ok(properties@[i].1, qs[i].1);
                    }
                }
            },
            RawPayload::RelVal { label, src, dst, properties } => {
                if t is Rel {
                    let qs = v->Rel_0.spec_properties();
                    assert forall|i: int| 0 <= i < properties@.len() implies valid_utf8(
                        (#[trigger] properties@[i]).0@,
                    ) && decode_ok(properties@[i].1) by {
                        assert(value_decodes(properties@[i].1, qs[i].1));
                        lemma_decodes_implies_ok(properties@[i].1, qs[i].1);
                    }
                }
            },
            RawPayload::List(elems) => {
                if t is FixedList || t is VarList {
                    let qs = if v is FixedList {
                        v->FixedList_0.inner@
                    } else {
                        v->VarList_0.inner@
                    };
                    assert forall|i: int| 0 <= i < elems@.len() implies decode_ok(
                        #[trigger] elems@[i],
                    ) by {
                        assert(value_decodes(elems@[i], qs[i]));
                        lemma_decodes_implies_ok(elems@[i], qs[i]);
                    }
                    lemma_homogeneity(elems@, qs);
                }
            },
            RawPayload::Fields(fs) => {
                if t is Struct {
                    let qs = v->Struct_0.spec_fields();
                    assert forall|i: int| 0 <= i < fs@.len() implies valid_utf8(
                        (#[trigger] fs@[i]).0@,
                    ) && decode_ok(fs@[i].1) by {
                        assert(value_decodes(fs@[i].1, qs[i].1));
                        lemma_decodes_implies_ok(fs@[i].1, qs[i].1);
                    }
                }
            },
            _ => {},
        },
        Option::None => {},
    }
}

/// The homogeneity invariant of list decoding: when every element of a raw
/// list decodes, the list itself decodes exactly when the decoded elements
/// all share one variant, it then preserves their order and count, and a
/// mixed list always fails with `Error::ListTypeError`.
pub proof fn lemma_list_homogeneity(raw: RawValue, vs: Seq<KuzuValue>)
    requires
        tag_of_id(raw.type_tag) == Some(LogicalTypeID::VarList) || tag_of_id(raw.type_tag)
            == Some(LogicalTypeID::FixedList),
        raw.payload matches RawPayload::List(elems) && elems_decode(elems@, vs),
    ensures
        homogeneous(vs) ==> decode_ok(raw),
        !homogeneous(vs) ==> !decode_ok(raw) && decode_err_is(raw, Error::ListTypeError),
    decreases raw,
{
    let elems = raw.payload->List_0;
    assert forall|i: int| 0 <= i < elems@.len() implies decode_ok(#[trigger] elems@[i]) by {
        assert(value_decodes(elems@[i], vs[i]));
        lemma_decodes_implies_ok(elems@[i], vs[i]);
    }
    lemma_homogeneity(elems@, vs);
}

/// Whether all values share the first value's variant.
fn check_homogeneous(inner: &Vec<KuzuValue>) -> (r: bool)
    ensures
        r == homogeneous(inner@),
{
    if inner.len() == 0 {
        return true;
    }
    let first = &inner[0];
    let mut i: usize = 1;
    while i < inner.len()
        invariant
            inner@.len() > 0,
            1 <= i <= inner@.len(),
            first == inner@[0],
            forall|j: int| 0 <= j < i ==> variant_idx(#[trigger] inner@[j]) == variant_idx(
                inner@[0],
            ),
        decreases inner@.len() - i,
    {
        let x = &inner[i];
        if !x.same_variant(first) {
            return false;
        }
        i = i + 1;
    }
    true
}

} // verus!
