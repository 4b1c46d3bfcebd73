use snapper::book_keeper::FixedBookKeeper;
use snapper::contracts::{EntityType, FieldValue, Id, Row};
use snapper::ingredients::ingredient::Ingredient;
use snapper::ingredients::morph::Morph;

fn example_morph_map() -> Vec<(FieldValue, EntityType)> {
    vec![
        (FieldValue::String(String::from("BAR")), String::from("bars")),
        (FieldValue::String(String::from("BAZ")), String::from("bazes")),
    ]
}

#[test]
fn morph_it_gets_deps() {
    let m = Morph::new(String::from("fooable_type"), example_morph_map(), vec![]);

    let mut row = Row::new();
    row.insert("fooable_type".to_string(), FieldValue::String(String::from("BAR")));

    let deps1 = m.get_deps(&FieldValue::Int(123), &row, false);

    assert_eq!(1, deps1.len());

    let deps2 = m.get_deps(&FieldValue::Null, &row, false);

    assert_eq!(0, deps2.len());

    let deps3 = m.get_deps(&FieldValue::Int(123), &Row::new(), false);

    assert_eq!(0, deps3.len());
}

#[test]
fn morph_it_serializes() {
    let b = FixedBookKeeper::new(Some(Id::Uuid(String::from("MOCK"))));

    let mut m = Morph::new(String::from("fooable_type"), example_morph_map(), vec![]);

    let mut row = Row::new();
    row.insert("fooable_type".to_string(), FieldValue::String(String::from("BAR")));

    let o1 = m.snapper_serialize(&FieldValue::Int(123), &row, &b, false);

    assert!(o1.is_some());
    let serialized1 = o1.unwrap();

    assert_eq!(FieldValue::String(String::from("MOCK")), serialized1);

    let o2 = m.snapper_serialize(&FieldValue::Null, &row, &b, false);

    assert!(o2.is_none());

    m.optional(vec![FieldValue::Int(123)]);

    let o2 = m.snapper_serialize(&FieldValue::Int(123), &row, &b, false);

    assert!(o2.is_none());
}

#[test]
fn morph_it_deserializes() {
    let b = FixedBookKeeper::new(Some(Id::Uuid(String::from("MOCK"))));

    let m = Morph::new(String::from("fooable_type"), example_morph_map(), vec![]);

    let mut row = Row::new();
    row.insert("fooable_type".to_string(), FieldValue::String(String::from("BAR")));

    let o1 = m.snapper_deserialize(&FieldValue::Int(123), &row, &b);

    assert!(o1.is_some());
    let deserialized1 = o1.unwrap();

    assert_eq!(1, deserialized1.deps().len());
    assert_eq!(
        (String::from("bars"), Id::Uuid(String::from("MOCK"))),
        deserialized1.deps()[0]
    );
    assert_eq!(FieldValue::Int(123), deserialized1.value());
}
