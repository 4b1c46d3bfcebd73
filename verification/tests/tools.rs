use snapper::contracts::{FieldValue, Id};
use snapper::tools::{field_value_to_id, field_value_to_string, id_to_field_value};

#[test]
fn field_value_to_id_converts_null_to_none() {
    assert_eq!(None, field_value_to_id(FieldValue::Null));
}

#[test]
fn field_value_to_id_converts_int_to_int() {
    assert_eq!(Some(Id::Int(123)), field_value_to_id(FieldValue::Int(123)));
}

#[test]
fn field_value_to_id_converts_string_to_uuid() {
    assert_eq!(
        Some(Id::Uuid(String::from("Foo"))),
        field_value_to_id(FieldValue::String(String::from("Foo")))
    )
}

#[test]
fn id_to_field_value_converts_int_to_int() {
    assert_eq!(FieldValue::Int(123), id_to_field_value(Id::Int(123)));
}

#[test]
fn id_to_field_value_converts_uuid_to_string() {
    assert_eq!(
        FieldValue::String(String::from("Foo")),
        id_to_field_value(Id::Uuid(String::from("Foo")))
    );
}

#[test]
fn field_value_to_string_writes_decimal_digits() {
    assert_eq!("123", field_value_to_string(&FieldValue::Int(123)));
    assert_eq!("-45", field_value_to_string(&FieldValue::Int(-45)));
    assert_eq!("0", field_value_to_string(&FieldValue::Int(0)));
}

#[test]
fn field_value_to_string_passes_text_through() {
    assert_eq!("Foo", field_value_to_string(&FieldValue::String(String::from("Foo"))));
    assert_eq!("", field_value_to_string(&FieldValue::Null));
}

#[test]
fn field_value_to_string_handles_the_extreme_integers() {
    assert_eq!(
        "-9223372036854775808",
        field_value_to_string(&FieldValue::Int(i64::MIN))
    );
    assert_eq!(
        "9223372036854775807",
        field_value_to_string(&FieldValue::Int(i64::MAX))
    );
}

#[test]
fn field_value_to_id_wraps_a_negative_integer() {
    assert_eq!(Some(Id::Int(u64::MAX)), field_value_to_id(FieldValue::Int(-1)));
}

#[test]
fn id_round_trip_preserves_both_shapes() {
    assert_eq!(
        Some(Id::Int(7)),
        field_value_to_id(id_to_field_value(Id::Int(7)))
    );
    assert_eq!(
        Some(Id::Uuid(String::from("u-1"))),
        field_value_to_id(id_to_field_value(Id::Uuid(String::from("u-1"))))
    );
}
