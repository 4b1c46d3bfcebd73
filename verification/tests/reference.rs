use snapper::book_keeper::FixedBookKeeper;
use snapper::contracts::{FieldValue, Id, Row};
use snapper::ingredients::ingredient::Ingredient;
use snapper::ingredients::reference::Reference;

#[test]
fn reference_it_gets_deps() {
    let mut r = Reference::new(String::from("foos"), vec![]);
    let row = Row::new();

    let deps1 = r.get_deps(&FieldValue::Int(123), &row, false);

    assert_eq!(1, deps1.len());
    assert_eq!((String::from("foos"), Id::Int(123)), deps1[0]);

    let deps2 = r.get_deps(&FieldValue::Null, &row, false);

    assert_eq!(0, deps2.len());

    r.optional(vec![FieldValue::Int(123)]);

    let deps3 = r.get_deps(&FieldValue::Int(123), &row, false);

    assert_eq!(0, deps3.len());
}

#[test]
fn reference_it_serializes() {
    let mut r = Reference::new(String::from("foos"), vec![]);
    let b = FixedBookKeeper::new(Some(Id::Uuid(String::from("MOCK"))));
    let row = Row::new();

    let o1 = r.snapper_serialize(&FieldValue::Int(123), &row, &b, false);

    assert!(o1.is_some());
    let serialized1 = o1.unwrap();

    assert_eq!(FieldValue::String(String::from("MOCK")), serialized1);

    let o2 = r.snapper_serialize(&FieldValue::Null, &row, &b, false);

    assert!(o2.is_none());

    r.optional(vec![FieldValue::Null]);

    let o3 = r.snapper_serialize(&FieldValue::Null, &row, &b, false);

    assert!(o3.is_some());
    let serialized3 = o3.unwrap();

    assert_eq!(FieldValue::Null, serialized3);
}

#[test]
fn reference_it_deserializes() {
    let r = Reference::new(String::from("foos"), vec![]);
    let b = FixedBookKeeper::new(Some(Id::Uuid(String::from("MOCK"))));
    let row = Row::new();

    let o1 = r.snapper_deserialize(&FieldValue::Int(123), &row, &b);

    assert!(o1.is_some());
    let deserialized1 = o1.unwrap();

    assert_eq!(1, deserialized1.deps().len());
    assert_eq!((String::from("foos"), Id::Int(123)), deserialized1.deps()[0]);
    assert_eq!(FieldValue::String(String::from("MOCK")), deserialized1.value());
}
