use snapper::book_keeper::FixedBookKeeper;
use snapper::contracts::{FieldValue, Id, Row};
use snapper::ingredients::ingredient::Ingredient;
use snapper::ingredients::matcher::{MatchIngredient, Matcher};
use snapper::ingredients::raw::Raw;

fn raw_of(i: i64) -> MatchIngredient {
    MatchIngredient::Raw(Raw::new(FieldValue::Int(i)))
}

fn row_with_kind(v: FieldValue) -> Row {
    let mut row = Row::new();
    row.insert("kind".to_string(), v);
    row
}

#[test]
fn matcher_exact_match_takes_priority_over_patterns() {
    let m = Matcher::new(
        "kind".to_string(),
        vec![("A".to_string(), raw_of(1))],
        vec![("^A".to_string(), raw_of(2))],
        Some(raw_of(3)),
    );
    let b = FixedBookKeeper::new(Some(Id::Uuid(String::from("MOCK"))));
    let row = row_with_kind(FieldValue::String("A".to_string()));

    assert_eq!(
        Some(FieldValue::Int(1)),
        m.snapper_serialize(&FieldValue::Null, &row, &b, false)
    );
}

#[test]
fn matcher_patterns_take_priority_over_default() {
    let m = Matcher::new(
        "kind".to_string(),
        vec![("A".to_string(), raw_of(1))],
        vec![("^A".to_string(), raw_of(2))],
        Some(raw_of(3)),
    );
    let b = FixedBookKeeper::new(Some(Id::Uuid(String::from("MOCK"))));
    let row = row_with_kind(FieldValue::String("AB".to_string()));

    assert_eq!(
        Some(FieldValue::Int(2)),
        m.snapper_serialize(&FieldValue::Null, &row, &b, false)
    );
}

#[test]
fn matcher_falls_back_to_its_default() {
    let m = Matcher::new(
        "kind".to_string(),
        vec![("A".to_string(), raw_of(1))],
        vec![("^A".to_string(), raw_of(2))],
        Some(raw_of(3)),
    );
    let b = FixedBookKeeper::new(Some(Id::Uuid(String::from("MOCK"))));
    let row = row_with_kind(FieldValue::String("ZB".to_string()));

    assert_eq!(
        Some(FieldValue::Int(3)),
        m.snapper_serialize(&FieldValue::Null, &row, &b, false)
    );
}

#[test]
fn matcher_without_any_match_yields_nothing() {
    let m = Matcher::new("kind".to_string(), vec![], vec![], None);
    let b = FixedBookKeeper::new(Some(Id::Uuid(String::from("MOCK"))));
    let row = row_with_kind(FieldValue::String("A".to_string()));

    assert_eq!(0, m.get_deps(&FieldValue::Int(123), &row, false).len());
    assert!(m.snapper_serialize(&FieldValue::Int(123), &row, &b, false).is_none());
    assert!(m.snapper_deserialize(&FieldValue::Int(123), &row, &b).is_none());
}

#[test]
fn matcher_skips_a_pattern_that_does_not_compile() {
    let m = Matcher::new(
        "kind".to_string(),
        vec![],
        vec![("foo(".to_string(), raw_of(2))],
        Some(raw_of(3)),
    );
    let b = FixedBookKeeper::new(Some(Id::Uuid(String::from("MOCK"))));
    let row = row_with_kind(FieldValue::String("foo(x".to_string()));

    assert_eq!(
        Some(FieldValue::Int(3)),
        m.snapper_serialize(&FieldValue::Null, &row, &b, false)
    );
}

#[test]
fn matcher_matches_the_digits_of_an_integer_column() {
    let m = Matcher::new(
        "kind".to_string(),
        vec![("123".to_string(), raw_of(1))],
        vec![],
        None,
    );
    let b = FixedBookKeeper::new(Some(Id::Uuid(String::from("MOCK"))));
    let row = row_with_kind(FieldValue::Int(123));

    assert_eq!(
        Some(FieldValue::Int(1)),
        m.snapper_serialize(&FieldValue::Null, &row, &b, false)
    );
}

#[test]
fn matcher_reports_its_own_column() {
    let m = Matcher::new("kind".to_string(), vec![], vec![], None);

    assert_eq!(vec!["kind".to_string()], m.get_required_extra_fields());
}
