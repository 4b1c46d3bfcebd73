use snapper::config::ConfigValue;
use snapper::recipe::{PrimaryKey, Recipe, RecipeIngredient};

fn obj(entries: Vec<(&str, ConfigValue)>) -> ConfigValue {
    ConfigValue::Obj(entries.into_iter().map(|(k, v)| (k.to_string(), v)).collect())
}

fn tagged(tag: &str, config: ConfigValue) -> ConfigValue {
    obj(vec![("type", ConfigValue::Str(tag.to_string())), ("config", config)])
}

fn example_document() -> ConfigValue {
    obj(vec![
        ("primary_key", ConfigValue::Str("id".to_string())),
        (
            "ingredients",
            obj(vec![
                ("name", tagged("VALUE", obj(vec![]))),
                ("foo", tagged("RAW", obj(vec![("value", ConfigValue::Int(123))]))),
                (
                    "foo_id",
                    tagged(
                        "REF",
                        obj(vec![
                            ("type", ConfigValue::Str("foos".to_string())),
                            ("optional_values", ConfigValue::Arr(vec![])),
                        ]),
                    ),
                ),
                (
                    "bar_id",
                    tagged(
                        "CIRCULAR",
                        obj(vec![
                            (
                                "ingredient",
                                tagged(
                                    "REF",
                                    obj(vec![
                                        ("type", ConfigValue::Str("bars".to_string())),
                                        (
                                            "optional_values",
                                            ConfigValue::Arr(vec![ConfigValue::Null]),
                                        ),
                                    ]),
                                ),
                            ),
                            (
                                "fallback",
                                tagged("RAW", obj(vec![("value", ConfigValue::Null)])),
                            ),
                        ]),
                    ),
                ),
                ("bazable_type", tagged("VALUE", obj(vec![]))),
                (
                    "bazable_id",
                    tagged(
                        "MORPH",
                        obj(vec![
                            ("field", ConfigValue::Str("bazable_type".to_string())),
                            (
                                "morph_map",
                                obj(vec![
                                    ("FOO", ConfigValue::Str("foos".to_string())),
                                    ("BAR", ConfigValue::Str("bars".to_string())),
                                ]),
                            ),
                            ("optional_values", ConfigValue::Arr(vec![])),
                        ]),
                    ),
                ),
            ]),
        ),
    ])
}

#[test]
fn it_should_reserialize() {
    let r: Recipe = Recipe::from_config(&example_document()).unwrap();

    let _back = r.to_config();
}

#[test]
fn recipe_round_trip_preserves_every_ingredient() {
    let r1 = Recipe::from_config(&example_document()).unwrap();
    let d1 = r1.to_config();
    let r2 = Recipe::from_config(&d1).unwrap();

    assert_eq!(r1, r2);
    let d2 = r2.to_config();
    assert_eq!(d1, d2);
}

#[test]
fn recipe_exposes_its_primary_key_and_ingredients() {
    let r = Recipe::from_config(&example_document()).unwrap();

    assert_eq!(&PrimaryKey::String("id".to_string()), r.primary_key());
    assert!(matches!(r.ingredient(&"name".to_string()), Some(RecipeIngredient::Value(_))));
    assert!(matches!(r.ingredient(&"foo".to_string()), Some(RecipeIngredient::Raw(_))));
    assert!(matches!(r.ingredient(&"foo_id".to_string()), Some(RecipeIngredient::Ref(_))));
    assert!(matches!(r.ingredient(&"bar_id".to_string()), Some(RecipeIngredient::Circular(_))));
    assert!(matches!(r.ingredient(&"bazable_id".to_string()), Some(RecipeIngredient::Morph(_))));
    assert!(r.ingredient(&"missing".to_string()).is_none());
}

#[test]
fn recipe_with_null_primary_key_parses_and_round_trips() {
    let doc = obj(vec![
        ("primary_key", ConfigValue::Null),
        ("ingredients", obj(vec![])),
    ]);
    let r1 = Recipe::from_config(&doc).unwrap();

    assert_eq!(&PrimaryKey::Null, r1.primary_key());
    let r2 = Recipe::from_config(&r1.to_config()).unwrap();
    assert_eq!(r1, r2);
}

#[test]
fn recipe_refuses_a_document_that_is_not_an_object() {
    assert!(Recipe::from_config(&ConfigValue::Int(1)).is_none());
}

#[test]
fn recipe_refuses_a_missing_primary_key() {
    let doc = obj(vec![("ingredients", obj(vec![]))]);
    assert!(Recipe::from_config(&doc).is_none());
}

#[test]
fn recipe_refuses_an_unknown_tag() {
    let doc = obj(vec![
        ("primary_key", ConfigValue::Null),
        ("ingredients", obj(vec![("c", tagged("NOPE", obj(vec![])))])),
    ]);
    assert!(Recipe::from_config(&doc).is_none());
}

#[test]
fn recipe_refuses_a_raw_whose_value_is_a_list() {
    let doc = obj(vec![
        ("primary_key", ConfigValue::Null),
        (
            "ingredients",
            obj(vec![(
                "c",
                tagged("RAW", obj(vec![("value", ConfigValue::Arr(vec![]))])),
            )]),
        ),
    ]);
    assert!(Recipe::from_config(&doc).is_none());
}

#[test]
fn recipe_refuses_a_reference_without_a_type() {
    let doc = obj(vec![
        ("primary_key", ConfigValue::Null),
        (
            "ingredients",
            obj(vec![(
                "c",
                tagged("REF", obj(vec![("optional_values", ConfigValue::Arr(vec![]))])),
            )]),
        ),
    ]);
    assert!(Recipe::from_config(&doc).is_none());
}

#[test]
fn recipe_refuses_a_morph_whose_map_value_is_not_a_string() {
    let doc = obj(vec![
        ("primary_key", ConfigValue::Null),
        (
            "ingredients",
            obj(vec![(
                "c",
                tagged(
                    "MORPH",
                    obj(vec![
                        ("field", ConfigValue::Str("t".to_string())),
                        ("morph_map", obj(vec![("FOO", ConfigValue::Int(1))])),
                        ("optional_values", ConfigValue::Arr(vec![])),
                    ]),
                ),
            )]),
        ),
    ]);
    assert!(Recipe::from_config(&doc).is_none());
}

#[test]
fn recipe_parses_a_matcher_with_and_without_a_default() {
    let with_default = obj(vec![
        ("primary_key", ConfigValue::Null),
        (
            "ingredients",
            obj(vec![(
                "c",
                tagged(
                    "MATCH",
                    obj(vec![
                        ("field", ConfigValue::Str("kind".to_string())),
                        ("on", obj(vec![("A", tagged("VALUE", obj(vec![])))])),
                        ("patterns", obj(vec![("^B", tagged("VALUE", obj(vec![])))])),
                        ("default", tagged("RAW", obj(vec![("value", ConfigValue::Int(7))]))),
                    ]),
                ),
            )]),
        ),
    ]);
    let r1 = Recipe::from_config(&with_default).unwrap();
    let r2 = Recipe::from_config(&r1.to_config()).unwrap();
    assert_eq!(r1, r2);

    let without_default = obj(vec![
        ("primary_key", ConfigValue::Null),
        (
            "ingredients",
            obj(vec![(
                "c",
                tagged(
                    "MATCH",
                    obj(vec![
                        ("field", ConfigValue::Str("kind".to_string())),
                        ("on", obj(vec![])),
                        ("patterns", obj(vec![])),
                    ]),
                ),
            )]),
        ),
    ]);
    let r3 = Recipe::from_config(&without_default).unwrap();
    let r4 = Recipe::from_config(&r3.to_config()).unwrap();
    assert_eq!(r3, r4);
}
