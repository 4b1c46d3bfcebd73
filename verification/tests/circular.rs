use snapper::book_keeper::FixedBookKeeper;
use snapper::contracts::{FieldValue, Id, Row};
use snapper::ingredients::circular::{Circular, CircularIngredient};
use snapper::ingredients::ingredient::Ingredient;
use snapper::ingredients::raw::Raw;
use snapper::ingredients::reference::Reference;

fn example_circular() -> Circular {
    Circular::new(
        CircularIngredient::Ref(Reference::new(String::from("foos"), vec![])),
        CircularIngredient::Raw(Raw::new(FieldValue::Null)),
    )
}

#[test]
fn circular_uses_the_primary_when_the_flag_is_set() {
    let c = example_circular();
    let row = Row::new();

    let deps = c.get_deps(&FieldValue::Int(5), &row, true);

    assert_eq!(1, deps.len());
    assert_eq!((String::from("foos"), Id::Int(5)), deps[0]);
}

#[test]
fn circular_uses_the_fallback_when_the_flag_is_clear() {
    let c = example_circular();
    let b = FixedBookKeeper::new(Some(Id::Uuid(String::from("MOCK"))));
    let row = Row::new();

    assert_eq!(0, c.get_deps(&FieldValue::Int(5), &row, false).len());
    assert_eq!(
        Some(FieldValue::Null),
        c.snapper_serialize(&FieldValue::Int(5), &row, &b, false)
    );
}

#[test]
fn circular_always_deserializes_with_the_primary() {
    let c = example_circular();
    let b = FixedBookKeeper::new(Some(Id::Uuid(String::from("MOCK"))));
    let row = Row::new();

    let o = c.snapper_deserialize(&FieldValue::Int(5), &row, &b);

    assert!(o.is_some());
    let d = o.unwrap();

    assert_eq!(1, d.deps().len());
    assert_eq!((String::from("foos"), Id::Int(5)), d.deps()[0]);
    assert_eq!(FieldValue::String(String::from("MOCK")), d.value());
}

#[test]
fn circular_reports_the_primary_extra_fields() {
    let c = example_circular();

    assert_eq!(0, c.get_required_extra_fields().len());
}

#[test]
fn row_lookup_finds_the_latest_binding() {
    let mut row = Row::new();
    row.insert("k".to_string(), FieldValue::Int(1));
    row.insert("k".to_string(), FieldValue::Int(2));

    assert_eq!(Some(&FieldValue::Int(2)), row.get(&"k".to_string()));
    assert_eq!(None, row.get(&"missing".to_string()));
}
