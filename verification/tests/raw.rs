use snapper::book_keeper::FixedBookKeeper;
use snapper::contracts::{FieldValue, Row};
use snapper::ingredients::ingredient::Ingredient;
use snapper::ingredients::raw::Raw;

#[test]
fn raw_it_gets_deps() {
    let r = Raw::new(FieldValue::Int(123));
    let row = Row::new();

    assert_eq!(0, r.get_deps(&FieldValue::Null, &row, false).len());
}

#[test]
fn raw_it_serializes() {
    let r = Raw::new(FieldValue::Int(123));
    let b = FixedBookKeeper::new(None);
    let row = Row::new();

    assert_eq!(
        Some(FieldValue::Int(123)),
        r.snapper_serialize(&FieldValue::Null, &row, &b, false)
    );
}

#[test]
fn raw_it_deserializes() {
    let r = Raw::new(FieldValue::Int(123));
    let b = FixedBookKeeper::new(None);
    let row = Row::new();

    let o = r.snapper_deserialize(&FieldValue::Null, &row, &b);

    assert!(o.is_some());
    let d = o.unwrap();

    assert_eq!(FieldValue::Int(123), d.value());
    assert_eq!(0, d.deps().len());
}

#[test]
fn it_gets_required_extra_fields() {
    let r = Raw::new(FieldValue::Int(123));

    assert_eq!(0, r.get_required_extra_fields().len());
}
