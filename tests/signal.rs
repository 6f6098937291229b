use gd_closures::signal::{connect_outcome, signal_records, SignalProperty};
use godot::builtin::VariantType;
use godot::global::Error;

#[test]
fn success_status_connects() {
    assert_eq!(connect_outcome(Error::OK), Ok(()));
}

#[test]
fn failure_status_is_returned_unchanged() {
    assert_eq!(
        connect_outcome(Error::ERR_INVALID_PARAMETER),
        Err(Error::ERR_INVALID_PARAMETER)
    );
    assert_eq!(connect_outcome(Error::ERR_DOES_NOT_EXIST), Err(Error::ERR_DOES_NOT_EXIST));
    assert_eq!(connect_outcome(Error::FAILED), Err(Error::FAILED));
}

#[test]
fn property_record_holds_name_and_kind_code() {
    let p = SignalProperty::new("amount".to_string(), VariantType::INT);
    assert_eq!(p.type_code(), 2);
    assert_eq!(p.record(), ("amount".to_string(), 2));
    let q = SignalProperty::from(("flag".to_string(), VariantType::BOOL));
    assert_eq!(q.record(), ("flag".to_string(), 1));
}

#[test]
fn declaration_records_keep_order() {
    let props = vec![
        SignalProperty::new("a".to_string(), VariantType::STRING),
        SignalProperty::new("b".to_string(), VariantType::NIL),
    ];
    assert_eq!(signal_records(&props), vec![("a".to_string(), 4), ("b".to_string(), 0)]);
}

#[test]
fn declaration_without_properties_is_empty() {
    assert!(signal_records(&Vec::new()).is_empty());
}
