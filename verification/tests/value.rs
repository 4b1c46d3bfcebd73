use snapper::book_keeper::FixedBookKeeper;
use snapper::contracts::{FieldValue, Row};
use snapper::ingredients::ingredient::Ingredient;
use snapper::ingredients::value::Value;

#[test]
fn value_it_gets_deps() {
    let v = Value::new();
    let row = Row::new();

    assert_eq!(0, v.get_deps(&FieldValue::Null, &row, false).len());
    assert_eq!(0, v.get_deps(&FieldValue::Int(123), &row, false).len());
    assert_eq!(0, v.get_deps(&FieldValue::String(String::from("Foo")), &row, false).len());
}

#[test]
fn value_it_serializes() {
    let v = Value::new();
    let b = FixedBookKeeper::new(None);
    let row = Row::new();

    assert_eq!(
        Some(FieldValue::Int(123)),
        v.snapper_serialize(&FieldValue::Int(123), &row, &b, false)
    );
}

#[test]
fn value_it_deserializes() {
    let v = Value::new();
    let b = FixedBookKeeper::new(None);
    let row = Row::new();

    let o = v.snapper_deserialize(&FieldValue::Int(123), &row, &b);

    assert!(o.is_some());
    let d = o.unwrap();

    assert_eq!(FieldValue::Int(123), d.value());
    assert_eq!(0, d.deps().len());
}
