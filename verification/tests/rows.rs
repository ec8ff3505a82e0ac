use kuzu_rs::engine::{QueryOutcome, RawPayload, RawValue};
use kuzu_rs::error::Error;
use kuzu_rs::logical_type::KUZU_INT64;
use kuzu_rs::query_result::QueryResult;
use kuzu_rs::row::{FromRow, Row};
use kuzu_rs::value::KuzuValue;

fn int_raw(x: i64) -> RawValue {
    RawValue { type_tag: KUZU_INT64, fixed_list_len: 0, payload: RawPayload::Int64(x) }
}

fn row_abc() -> Row {
    let result = QueryResult::from_outcome(QueryOutcome {
        raw: 1,
        is_success: true,
        error_message: vec![],
    })
    .unwrap();
    let mut iter = result
        .iter(vec![b"a".to_vec(), b"e".to_vec(), b"b".to_vec()], 1)
        .unwrap();
    iter.next_row(vec![int_raw(10), int_raw(20), int_raw(30)]).unwrap()
}

#[test]
fn column_binding() {
    let row = row_abc();
    let by_name: i64 = row.get_val_by_column("e").unwrap();
    let by_index: i64 = row.get_val(1).unwrap();
    assert_eq!(by_name, by_index);
    assert_eq!(by_name, 20);
    assert_eq!(row.get_ref_by_column("e").unwrap(), row.get_ref(1).unwrap());
}

#[test]
fn unknown_column_lists_known_names() {
    let row = row_abc();
    match row.get_val_by_column::<i64>("x") {
        Err(Error::ColumnNotFound(name, known)) => {
            assert_eq!(name, "x");
            assert_eq!(known, vec!["a".to_owned(), "e".to_owned(), "b".to_owned()]);
        },
        other => panic!("expected column-not-found, got {:?}", other),
    }
}

#[test]
fn out_of_range_index_lists_known_names() {
    let row = row_abc();
    match row.get_ref(3) {
        Err(Error::ColumnNotFound(name, known)) => {
            assert_eq!(name, "3");
            assert_eq!(known, vec!["a".to_owned(), "e".to_owned(), "b".to_owned()]);
        },
        other => panic!("expected column-not-found, got {:?}", other),
    }
}

#[test]
fn duplicate_column_binds_to_last() {
    let result = QueryResult::from_outcome(QueryOutcome {
        raw: 1,
        is_success: true,
        error_message: vec![],
    })
    .unwrap();
    let mut iter = result.iter(vec![b"a".to_vec(), b"a".to_vec()], 1).unwrap();
    let row = iter.next_row(vec![int_raw(1), int_raw(2)]).unwrap();
    let v: i64 = row.get_val_by_column("a").unwrap();
    assert_eq!(v, 2);
}

#[test]
fn rows_decode_as_tuples() {
    let row = row_abc();
    let (x,): (i64,) = FromRow::from_row(&row).unwrap();
    assert_eq!(x, 10);
    let (x, y): (i64, i64) = FromRow::from_row(&row).unwrap();
    assert_eq!((x, y), (10, 20));
    let (x, y, z): (i64, i64, i64) = FromRow::from_row(&row).unwrap();
    assert_eq!((x, y, z), (10, 20, 30));
    let copy: Row = FromRow::from_row(&row).unwrap();
    let v: i64 = copy.get_val_by_column("b").unwrap();
    assert_eq!(v, 30);
    match <(i64, bool)>::from_row(&row) {
        Err(Error::DecodeError(from, to)) => {
            assert_eq!(from, "KuzuValue::Int64");
            assert_eq!(to, "bool");
        },
        other => panic!("expected a decode error, got {:?}", other),
    }
}

#[test]
fn iteration_counts_down() {
    let result = QueryResult::from_outcome(QueryOutcome {
        raw: 1,
        is_success: true,
        error_message: vec![],
    })
    .unwrap();
    let mut iter = result.iter(vec![b"n".to_vec()], 2).unwrap();
    assert_eq!(iter.size_hint(), (2, Some(2)));
    iter.next_row(vec![int_raw(1)]).unwrap();
    assert_eq!(iter.size_hint(), (1, Some(1)));
    iter.next_row(vec![int_raw(2)]).unwrap();
    assert_eq!(iter.size_hint(), (0, Some(0)));
}

#[test]
fn failed_query_surfaces_engine_message() {
    match QueryResult::from_outcome(QueryOutcome {
        raw: 5,
        is_success: false,
        error_message: b"Binder exception".to_vec(),
    }) {
        Err(Error::QueryResultError(msg)) => assert_eq!(msg, "Binder exception"),
        other => panic!("expected a query-result error, got {:?}", other),
    }
    match QueryResult::from_outcome(QueryOutcome {
        raw: 0,
        is_success: true,
        error_message: vec![],
    }) {
        Err(Error::FFIGotNull(what)) => assert_eq!(what, "kuzu_query_result"),
        other => panic!("expected a null-handle error, got {:?}", other),
    }
}

#[test]
fn bad_column_name_bytes_fail_iteration() {
    let result = QueryResult::from_outcome(QueryOutcome {
        raw: 1,
        is_success: true,
        error_message: vec![],
    })
    .unwrap();
    match result.iter(vec![b"a".to_vec(), vec![0xff]], 0) {
        Err(Error::CStringDecodeError(bytes)) => assert_eq!(bytes, vec![0xff]),
        other => panic!("expected a C-string decode error, got {:?}", other),
    }
}

#[test]
fn row_decode_error_is_surfaced() {
    let result = QueryResult::from_outcome(QueryOutcome {
        raw: 1,
        is_success: true,
        error_message: vec![],
    })
    .unwrap();
    let mut iter = result.iter(vec![b"s".to_vec()], 1).unwrap();
    let bad = RawValue {
        type_tag: kuzu_rs::logical_type::KUZU_STRING,
        fixed_list_len: 0,
        payload: RawPayload::Bytes(vec![0x80]),
    };
    match iter.next_row(vec![bad]) {
        Err(Error::CStringDecodeError(bytes)) => assert_eq!(bytes, vec![0x80]),
        other => panic!("expected a C-string decode error, got {:?}", other),
    }
}
