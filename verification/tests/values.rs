use kuzu_rs::decode::Decode;
use kuzu_rs::encode::encode_value;
use kuzu_rs::engine::{kuzu_internal_id_t, RawPayload, RawValue};
use kuzu_rs::error::Error;
use kuzu_rs::logical_type::{
    LogicaType, LogicalTypeID, KUZU_BOOL, KUZU_DATE, KUZU_DOUBLE, KUZU_FLOAT, KUZU_INT16, KUZU_INT32, KUZU_INT64,
    KUZU_INTERNAL_ID, KUZU_NODE, KUZU_REL, KUZU_STRING, KUZU_STRUCT, KUZU_VAR_LIST,
};
use kuzu_rs::value::{FixedList, KuzuValue, Node, Relation, VarList};

fn raw(tag: u32, payload: RawPayload) -> RawValue {
    RawValue { type_tag: tag, fixed_list_len: 0, payload }
}

fn raw_str(s: &str) -> RawValue {
    raw(KUZU_STRING, RawPayload::Bytes(s.as_bytes().to_vec()))
}

fn raw_node() -> RawValue {
    raw(
        KUZU_NODE,
        RawPayload::NodeVal {
            id: kuzu_internal_id_t { table_id: 0, offset: 0 },
            label: b"User".to_vec(),
            properties: vec![(b"name".to_vec(), raw_str("elma"))],
        },
    )
}

fn raw_rel() -> RawValue {
    raw(
        KUZU_REL,
        RawPayload::RelVal {
            label: b"Follows".to_vec(),
            src: kuzu_internal_id_t { table_id: 0, offset: 0 },
            dst: kuzu_internal_id_t { table_id: 1, offset: 1 },
            properties: vec![],
        },
    )
}

#[test]
fn test_decode() {
    let bool_val = KuzuValue::from_raw(raw(KUZU_BOOL, RawPayload::Bool(true))).unwrap();
    assert_eq!(bool::decode_kuzuval(&bool_val).unwrap(), true);
    assert!(i16::decode_kuzuval(&bool_val).is_err());
    assert!(i32::decode_kuzuval(&bool_val).is_err());
    assert!(i64::decode_kuzuval(&bool_val).is_err());
    assert!(String::decode_kuzuval(&bool_val).is_err());
    assert!(Node::decode_kuzuval(&bool_val).is_err());
    assert!(Relation::decode_kuzuval(&bool_val).is_err());
    assert!(VarList::decode_kuzuval(&bool_val).is_err());
    assert!(FixedList::decode_kuzuval(&bool_val).is_err());

    let i16_val = KuzuValue::from_raw(raw(KUZU_INT16, RawPayload::Int16(16))).unwrap();
    assert_eq!(i16::decode_kuzuval(&i16_val).unwrap(), 16);
    assert!(bool::decode_kuzuval(&i16_val).is_err());
    assert!(i32::decode_kuzuval(&i16_val).is_err());
    assert!(i64::decode_kuzuval(&i16_val).is_err());

    let i32_val = KuzuValue::from_raw(raw(KUZU_INT32, RawPayload::Int32(32))).unwrap();
    assert_eq!(i32::decode_kuzuval(&i32_val).unwrap(), 32);
    assert!(bool::decode_kuzuval(&i32_val).is_err());
    assert!(i16::decode_kuzuval(&i32_val).is_err());
    assert!(i64::decode_kuzuval(&i32_val).is_err());

    let i64_val = KuzuValue::from_raw(raw(KUZU_INT64, RawPayload::Int64(64))).unwrap();
    assert_eq!(i64::decode_kuzuval(&i64_val).unwrap(), 64);
    assert!(bool::decode_kuzuval(&i64_val).is_err());
    assert!(i16::decode_kuzuval(&i64_val).is_err());
    assert!(i32::decode_kuzuval(&i64_val).is_err());

    let float_val =
        KuzuValue::from_raw(raw(KUZU_FLOAT, RawPayload::FloatBits(0.32f32.to_bits()))).unwrap();
    assert_eq!(float_val, KuzuValue::Float(0.32f32.to_bits()));
    assert!(i32::decode_kuzuval(&float_val).is_err());

    let double_val =
        KuzuValue::from_raw(raw(KUZU_DOUBLE, RawPayload::DoubleBits(0.64f64.to_bits()))).unwrap();
    assert_eq!(double_val, KuzuValue::Double(0.64f64.to_bits()));
    assert!(i64::decode_kuzuval(&double_val).is_err());

    let string_val = KuzuValue::from_raw(raw_str("string")).unwrap();
    assert_eq!(String::decode_kuzuval(&string_val).unwrap(), "string".to_owned());
    assert!(bool::decode_kuzuval(&string_val).is_err());
    assert!(Node::decode_kuzuval(&string_val).is_err());

    let node_val = KuzuValue::from_raw(raw_node()).unwrap();
    let node = Node::decode_kuzuval(&node_val).unwrap();
    assert_eq!(KuzuValue::Node(node.clone()), node_val);
    assert!(Relation::decode_kuzuval(&node_val).is_err());
    assert!(String::decode_kuzuval(&node_val).is_err());

    let rel_val = KuzuValue::from_raw(raw_rel()).unwrap();
    let rel = Relation::decode_kuzuval(&rel_val).unwrap();
    assert_eq!(KuzuValue::Rel(rel.clone()), rel_val);
    assert!(Node::decode_kuzuval(&rel_val).is_err());

    let list_val = KuzuValue::from_raw(
        raw(KUZU_VAR_LIST, RawPayload::List(vec![])),
    )
    .unwrap();
    let list = VarList::decode_kuzuval(&list_val).unwrap();
    assert_eq!(KuzuValue::VarList(list.clone()), list_val);
    assert!(FixedList::decode_kuzuval(&list_val).is_err());
}

#[test]
fn round_trip_scalars() {
    let samples = vec![
        KuzuValue::Bool(true),
        KuzuValue::Bool(false),
        KuzuValue::Int16(-7),
        KuzuValue::Int32(123456),
        KuzuValue::Int64(-9_223_372_036_854_775_808),
        KuzuValue::Double(900.0f64.to_bits()),
        KuzuValue::Float(0.5f32.to_bits()),
        KuzuValue::String("hello world".to_owned()),
        KuzuValue::String(String::new()),
    ];
    for v in samples {
        let raw = encode_value(&v).unwrap();
        let back = KuzuValue::from_raw(raw).unwrap();
        assert_eq!(back, v);
    }
}

#[test]
fn encode_rejects_composites() {
    let node_val = KuzuValue::from_raw(raw_node()).unwrap();
    match encode_value(&node_val) {
        Err(Error::DecodeError(from, to)) => {
            assert_eq!(from, "KuzuValue::Node");
            assert_eq!(to, "kuzu_value");
        },
        other => panic!("expected a decode error, got {:?}", other),
    }
}

#[test]
fn list_homogeneity() {
    let ok = KuzuValue::from_raw(raw(
        KUZU_VAR_LIST,
        RawPayload::List(vec![
            raw(KUZU_INT64, RawPayload::Int64(1)),
            raw(KUZU_INT64, RawPayload::Int64(2)),
            raw(KUZU_INT64, RawPayload::Int64(3)),
        ]),
    ))
    .unwrap();
    let items: Vec<i64> = Vec::<i64>::decode_kuzuval(&ok).unwrap();
    assert_eq!(items, vec![1, 2, 3]);

    let mixed = KuzuValue::from_raw(raw(
        KUZU_VAR_LIST,
        RawPayload::List(vec![
            raw(KUZU_INT64, RawPayload::Int64(1)),
            raw(KUZU_INT32, RawPayload::Int32(2)),
        ]),
    ));
    match mixed {
        Err(Error::ListTypeError) => {},
        other => panic!("expected the list-type error, got {:?}", other),
    }
}

#[test]
fn fixed_lists_keep_order_count_and_declared_length() {
    let v = KuzuValue::from_raw(RawValue {
        type_tag: kuzu_rs::logical_type::KUZU_FIXED_LIST,
        fixed_list_len: 2,
        payload: RawPayload::List(vec![
            raw(KUZU_INT16, RawPayload::Int16(3)),
            raw(KUZU_INT16, RawPayload::Int16(1)),
        ]),
    })
    .unwrap();
    match &v {
        KuzuValue::FixedList(l) => {
            assert_eq!(l.len, 2);
            assert_eq!(l.inner, vec![KuzuValue::Int16(3), KuzuValue::Int16(1)]);
        },
        other => panic!("expected a fixed list, got {:?}", other),
    }
    let items: Vec<i16> = Vec::<i16>::decode_kuzuval(&v).unwrap();
    assert_eq!(items, vec![3, 1]);
}

#[test]
fn nested_lists_decode_elementwise() {
    let inner_list = |xs: Vec<i64>| {
        raw(
            KUZU_VAR_LIST,
            RawPayload::List(xs.into_iter().map(|x| raw(KUZU_INT64, RawPayload::Int64(x))).collect()),
        )
    };
    let v = KuzuValue::from_raw(raw(
        KUZU_VAR_LIST,
        RawPayload::List(vec![inner_list(vec![1, 2]), inner_list(vec![3])]),
    ))
    .unwrap();
    let items: Vec<Vec<i64>> = Vec::<Vec<i64>>::decode_kuzuval(&v).unwrap();
    assert_eq!(items, vec![vec![1, 2], vec![3]]);
}

#[test]
fn node_properties_keep_engine_order() {
    let v = KuzuValue::from_raw(raw(
        KUZU_NODE,
        RawPayload::NodeVal {
            id: kuzu_internal_id_t { table_id: 3, offset: 9 },
            label: b"User".to_vec(),
            properties: vec![
                (b"name".to_vec(), raw_str("elma")),
                (b"age".to_vec(), raw(KUZU_INT64, RawPayload::Int64(12))),
            ],
        },
    ))
    .unwrap();
    let node = Node::decode_kuzuval(&v).unwrap();
    assert_eq!(node.id, kuzu_rs::value::InternalId { offset: 9, table_id: 3 });
    assert_eq!(node.label, "User");
    assert_eq!(
        node.properties,
        vec![
            ("name".to_owned(), KuzuValue::String("elma".to_owned())),
            ("age".to_owned(), KuzuValue::Int64(12)),
        ]
    );
}

#[test]
fn duplicate_struct_field_shadows_earlier_one() {
    let v = KuzuValue::from_raw(raw(
        KUZU_STRUCT,
        RawPayload::Fields(vec![
            (b"x".to_vec(), raw(KUZU_INT64, RawPayload::Int64(1))),
            (b"X".to_vec(), raw(KUZU_INT64, RawPayload::Int64(2))),
        ]),
    ))
    .unwrap();
    match v {
        KuzuValue::Struct(st) => {
            assert_eq!(st.get("x"), Some(&KuzuValue::Int64(2)));
        },
        other => panic!("expected a struct, got {:?}", other),
    }
}

#[test]
fn unknown_tag_is_binding_mismatch() {
    match KuzuValue::from_raw(raw(999, RawPayload::Missing)) {
        Err(Error::BindingMismatch(999)) => {},
        other => panic!("expected a binding mismatch, got {:?}", other),
    }
}

#[test]
fn unsupported_tag_is_decode_error() {
    match KuzuValue::from_raw(raw(KUZU_DATE, RawPayload::Missing)) {
        Err(Error::DecodeError(from, to)) => {
            assert_eq!(from, "Date");
            assert_eq!(to, "KuzuValue");
        },
        other => panic!("expected a decode error, got {:?}", other),
    }
}

#[test]
fn invalid_utf8_fails_decode() {
    let bad = raw(KUZU_STRING, RawPayload::Bytes(vec![0xff, 0xfe]));
    match KuzuValue::from_raw(bad) {
        Err(Error::CStringDecodeError(bytes)) => assert_eq!(bytes, vec![0xff, 0xfe]),
        other => panic!("expected a C-string decode error, got {:?}", other),
    }
}

#[test]
fn struct_lookup_is_case_normalized() {
    let v = KuzuValue::from_raw(raw(
        KUZU_STRUCT,
        RawPayload::Fields(vec![
            (b"first".to_vec(), raw_str("Xiyang")),
            (b"last".to_vec(), raw_str("Feng")),
        ]),
    ))
    .unwrap();
    let st = match v {
        KuzuValue::Struct(st) => st,
        other => panic!("expected a struct, got {:?}", other),
    };
    assert_eq!(st.get("first"), Some(&KuzuValue::String("Xiyang".to_owned())));
    assert_eq!(st.get("FIRST"), Some(&KuzuValue::String("Xiyang".to_owned())));
    assert_eq!(st.get("Last"), Some(&KuzuValue::String("Feng".to_owned())));
    assert_eq!(st.get("middle"), None);
}

#[test]
fn logical_type_descriptor() {
    match LogicaType::new_with_id(LogicalTypeID::Bool, 0, 0) {
        Err(Error::FFIGotNull(what)) => assert_eq!(what, "LogicalType"),
        other => panic!("expected a null-handle error, got {:?}", other),
    }
    assert_eq!(
        LogicaType::new_with_id(LogicalTypeID::FixedList, 5, 3).unwrap(),
        LogicaType { tid: LogicalTypeID::FixedList, fixed_num_elements_in_list: 3 },
    );
    assert_eq!(
        LogicaType::try_from_parts(KUZU_BOOL, 0).unwrap().tid,
        LogicalTypeID::Bool,
    );
    match LogicaType::try_from_parts(12345, 0) {
        Err(Error::BindingMismatch(12345)) => {},
        other => panic!("expected a binding mismatch, got {:?}", other),
    }
    let all = [
        LogicalTypeID::Any,
        LogicalTypeID::Node,
        LogicalTypeID::Rel,
        LogicalTypeID::Bool,
        LogicalTypeID::Int64,
        LogicalTypeID::Int32,
        LogicalTypeID::Int16,
        LogicalTypeID::Double,
        LogicalTypeID::Float,
        LogicalTypeID::Date,
        LogicalTypeID::Timestamp,
        LogicalTypeID::Interval,
        LogicalTypeID::FixedList,
        LogicalTypeID::InternalId,
        LogicalTypeID::String,
        LogicalTypeID::VarList,
        LogicalTypeID::Struct,
    ];
    for t in all {
        assert_eq!(LogicalTypeID::try_from_id(t.tag_id()).unwrap(), t);
    }
}

#[test]
fn value_names() {
    assert_eq!(KuzuValue::Bool(true).name(), "KuzuValue::Bool");
    assert_eq!(KuzuValue::Int64(1).name(), "KuzuValue::Int64");
    assert_eq!(KuzuValue::String(String::new()).name(), "KuzuValue::String");
}

#[test]
fn nodes_compare_by_identity() {
    let a = Node {
        id: kuzu_rs::value::InternalId { offset: 1, table_id: 2 },
        label: "User".to_owned(),
        properties: vec![("name".to_owned(), KuzuValue::String("a".to_owned()))],
    };
    let b = Node {
        id: kuzu_rs::value::InternalId { offset: 1, table_id: 2 },
        label: "Other".to_owned(),
        properties: vec![],
    };
    assert_eq!(a, b);

    let internal =
        KuzuValue::from_raw(raw(
            KUZU_INTERNAL_ID,
            RawPayload::Id(kuzu_internal_id_t { table_id: 2, offset: 1 }),
        ))
        .unwrap();
    assert_eq!(internal, KuzuValue::InternalId(kuzu_rs::value::InternalId { offset: 1, table_id: 2 }));
}
