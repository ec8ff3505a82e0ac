use kuzu_rs::engine::{EngineCall, ResourceKind};
use kuzu_rs::error::Error;
use kuzu_rs::ptrc::PtrContainer;

#[test]
fn one_destructor_call_per_guard() {
    let handles: Vec<u64> = vec![11, 22, 33, 44, 55];
    let mut guards: Vec<PtrContainer> = handles
        .iter()
        .map(|h| PtrContainer::try_new(*h, ResourceKind::Value).unwrap())
        .collect();

    let mut destroyed: Vec<u64> = Vec::new();
    // drop them out of construction order
    for idx in [2usize, 0, 4, 1, 3] {
        match guards[idx].release() {
            Some(EngineCall::Destroy { kind, raw }) => {
                assert_eq!(kind, ResourceKind::Value);
                destroyed.push(raw);
            },
            other => panic!("expected one destroy call, got {:?}", other),
        }
    }
    destroyed.sort();
    assert_eq!(destroyed, handles);

    // releasing again yields no further destructor call, in any order
    for guard in guards.iter_mut() {
        assert_eq!(guard.release(), None);
    }
}

#[test]
fn null_handle_is_rejected_with_zero_destructor_calls() {
    match PtrContainer::try_new(0, ResourceKind::Connection) {
        Err(Error::FFIGotNull(what)) => assert_eq!(what, "kuzu_connection"),
        other => panic!("expected a null-handle error, got {:?}", other),
    }
}

#[test]
fn guard_reports_validity() {
    let mut guard = PtrContainer::try_new(7, ResourceKind::NodeVal).unwrap();
    assert!(guard.is_valid());
    assert!(guard.release().is_some());
    // the handle stays known, but no second destroy call is owed
    assert!(guard.is_valid());
    assert!(guard.release().is_none());
}
