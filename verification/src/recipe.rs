//! The recipe: a frozen mapping from column name to one ingredient, plus the
//! declared primary key; constructible from, and re-emittable as, a
//! self-describing configuration document without semantic loss.

use vstd::prelude::*;

use crate::book_keeper::{BookKeeper, ResolveFn};
use crate::config::{
    ConfigValue, ConfigValueV, centries_view, config_to_field_value, cv_view, cvs_view,
    field_value_to_config, lemma_centries_view_index, lemma_cvs_view_index,
    lemma_field_value_config_round_trip, obj_get, spec_obj_get, spec_emit_field_value,
    spec_parse_field_value,
};
use crate::contracts::{
    Dep, DepV, DeserializedValue, EntityType, FieldValue, FieldValueV, Row, RowV, fvs_view,
};
use crate::ingredients::circular::{Circular, CircularIngredient, CircularIngredientV, CircularV};
use crate::ingredients::ingredient::Ingredient;
use crate::ingredients::matcher::{MatchIngredient, MatchIngredientV, Matcher, MatcherV};
use crate::ingredients::morph::{Morph, MorphMapV, MorphMapper, MorphV};
use crate::ingredients::raw::Raw;
use crate::ingredients::reference::{RefConfig, Reference, ReferenceV};
use crate::ingredients::value::Value;
use crate::tools::{field_value_to_string, spec_field_value_string};

verus! {

/// The declared primary key of a recipe: absent, or a named single column.
#[derive(Debug, PartialEq)]
pub enum PrimaryKey {
    Null,
    String(String),
}

/// The mathematical shape of a primary-key declaration.
pub enum PrimaryKeyV {
    Null,
    Str(Seq<char>),
}

impl View for PrimaryKey {
    type V = PrimaryKeyV;

    open spec fn view(&self) -> PrimaryKeyV {
        match self {
            PrimaryKey::Null => PrimaryKeyV::Null,
            PrimaryKey::String(s) => PrimaryKeyV::Str(s@),
        }
    }
}

/// One ingredient of a recipe, of any variant.
#[derive(Debug, PartialEq)]
pub enum RecipeIngredient {
    Value(Value),
    Raw(Raw),
    Ref(Reference),
    Morph(Morph),
    Match(Matcher),
    Circular(Circular),
}

/// The mathematical shape of a recipe ingredient.
pub enum RecipeIngredientV {
    Value,
    Raw(FieldValueV),
    Ref(ReferenceV),
    Morph(MorphV),
    Match(MatcherV),
    Circular(CircularV),
}

impl View for RecipeIngredient {
    type V = RecipeIngredientV;

    open spec fn view(&self) -> RecipeIngredientV {
        match self {
            RecipeIngredient::Value(_) => RecipeIngredientV::Value,
            RecipeIngredient::Raw(r) => RecipeIngredientV::Raw(r.value@),
            RecipeIngredient::Ref(r) => RecipeIngredientV::Ref(r@),
            RecipeIngredient::Morph(m) => RecipeIngredientV::Morph(m@),
            RecipeIngredient::Match(m) => RecipeIngredientV::Match(m@),
            RecipeIngredient::Circular(c) => RecipeIngredientV::Circular(c@),
        }
    }
}

impl Ingredient for RecipeIngredient {
    open spec fn spec_deps(&self, value: FieldValueV, row: RowV, circular: bool) -> Seq<DepV> {
        match self {
            RecipeIngredient::Value(v) => v.spec_deps(value, row, circular),
            RecipeIngredient::Raw(r) => r.spec_deps(value, row, circular),
            RecipeIngredient::Ref(r) => r.spec_deps(value, row, circular),
            RecipeIngredient::Morph(m) => m.spec_deps(value, row, circular),
            RecipeIngredient::Match(m) => m.spec_deps(value, row, circular),
            RecipeIngredient::Circular(c) => c.spec_deps(value, row, circular),
        }
    }

    open spec fn spec_serialize(
        &self,
        value: FieldValueV,
        row: RowV,
        res: ResolveFn,
        circular: bool,
    ) -> Option<FieldValueV> {
        match self {
            RecipeIngredient::Value(v) => v.spec_serialize(value, row, res, circular),
            RecipeIngredient::Raw(r) => r.spec_serialize(value, row, res, circular),
            RecipeIngredient::Ref(r) => r.spec_serialize(value, row, res, circular),
            RecipeIngredient::Morph(m) => m.spec_serialize(value, row, res, circular),
            RecipeIngredient::Match(m) => m.spec_serialize(value, row, res, circular),
            RecipeIngredient::Circular(c) => c.spec_serialize(value, row, res, circular),
        }
    }

    open spec fn spec_deserialize(&self, value: FieldValueV, row: RowV, res: ResolveFn) -> Option<
        (Seq<DepV>, FieldValueV),
    > {
        match self {
            RecipeIngredient::Value(v) => v.spec_deserialize(value, row, res),
            RecipeIngredient::Raw(r) => r.spec_deserialize(value, row, res),
            RecipeIngredient::Ref(r) => r.spec_deserialize(value, row, res),
            RecipeIngredient::Morph(m) => m.spec_deserialize(value, row, res),
            RecipeIngredient::Match(m) => m.spec_deserialize(value, row, res),
            RecipeIngredient::Circular(c) => c.spec_deserialize(value, row, res),
        }
    }

    open spec fn spec_extra_fields(&self) -> Seq<Seq<char>> {
        match self {
            RecipeIngredient::Value(v) => v.spec_extra_fields(),
            RecipeIngredient::Raw(r) => r.spec_extra_fields(),
            RecipeIngredient::Ref(r) => r.spec_extra_fields(),
            RecipeIngredient::Morph(m) => m.spec_extra_fields(),
            RecipeIngredient::Match(m) => m.spec_extra_fields(),
            RecipeIngredient::Circular(c) => c.spec_extra_fields(),
        }
    }

    fn get_deps(&self, value: &FieldValue, row: &Row, circular: bool) -> (r: Vec<Dep>) {
        match self {
            RecipeIngredient::Value(v) => v.get_deps(value, row, circular),
            RecipeIngredient::Raw(r) => r.get_deps(value, row, circular),
            RecipeIngredient::Ref(r) => r.get_deps(value, row, circular),
            RecipeIngredient::Morph(m) => m.get_deps(value, row, circular),
            RecipeIngredient::Match(m) => m.get_deps(value, row, circular),
            RecipeIngredient::Circular(c) => c.get_deps(value, row, circular),
        }
    }

    fn snapper_serialize<B: BookKeeper>(
        &self,
        value: &FieldValue,
        row: &Row,
        books: &B,
        circular: bool,
    ) -> (r: Option<FieldValue>) {
        match self {
            RecipeIngredient::Value(v) => v.snapper_serialize(value, row, books, circular),
            RecipeIngredient::Raw(r) => r.snapper_serialize(value, row, books, circular),
            RecipeIngredient::Ref(r) => r.snapper_serialize(value, row, books, circular),
            RecipeIngredient::Morph(m) => m.snapper_serialize(value, row, books, circular),
            RecipeIngredient::Match(m) => m.snapper_serialize(value, row, books, circular),
            RecipeIngredient::Circular(c) => c.snapper_serialize(value, row, books, circular),
        }
    }

    fn snapper_deserialize<B: BookKeeper>(
        &self,
        value: &FieldValue,
        row: &Row,
        books: &B,
    ) -> (r: Option<DeserializedValue>) {
        match self {
            RecipeIngredient::Value(v) => v.snapper_deserialize(value, row, books),
            RecipeIngredient::Raw(r) => r.snapper_deserialize(value, row, books),
            RecipeIngredient::Ref(r) => r.snapper_deserialize(value, row, books),
            RecipeIngredient::Morph(m) => m.snapper_deserialize(value, row, books),
            RecipeIngredient::Match(m) => m.snapper_deserialize(value, row, books),
            RecipeIngredient::Circular(c) => c.snapper_deserialize(value, row, books),
        }
    }

    fn get_required_extra_fields(&self) -> (r: Vec<String>) {
        match self {
            RecipeIngredient::Value(v) => v.get_required_extra_fields(),
            RecipeIngredient::Raw(r) => r.get_required_extra_fields(),
            RecipeIngredient::Ref(r) => r.get_required_extra_fields(),
            RecipeIngredient::Morph(m) => m.get_required_extra_fields(),
            RecipeIngredient::Match(m) => m.get_required_extra_fields(),
            RecipeIngredient::Circular(c) => c.get_required_extra_fields(),
        }
    }
}

/// The mathematical shape of a recipe.
pub struct RecipeV {
    pub primary_key: PrimaryKeyV,
    pub ingredients: Seq<(Seq<char>, RecipeIngredientV)>,
}

/// A frozen mapping from column name to one ingredient instance, plus the
/// declared primary key.
#[derive(Debug, PartialEq)]
pub struct Recipe {
    pub primary_key: PrimaryKey,
    pub ingredients: Vec<(String, RecipeIngredient)>,
}

impl View for Recipe {
    type V = RecipeV;

    open spec fn view(&self) -> RecipeV {
        RecipeV {
            primary_key: self.primary_key@,
            ingredients: self.ingredients@.map_values(
                |e: (String, RecipeIngredient)| (e.0@, e.1@),
            ),
        }
    }
}

// ---------------------------------------------------------------------------
// What a recipe looks like as a configuration document.
// ---------------------------------------------------------------------------

/// An ingredient document: its tag and its tag-specific configuration.
pub open spec fn spec_tagged(tag: Seq<char>, config: ConfigValueV) -> ConfigValueV {
    ConfigValueV::Obj(seq![("type"@, ConfigValueV::Str(tag)), ("config"@, config)])
}

/// A list of field-value literals, as document nodes.
pub open spec fn spec_emit_field_values(l: Seq<FieldValueV>) -> Seq<ConfigValueV> {
    l.map_values(|v: FieldValueV| spec_emit_field_value(v))
}

/// The configuration of a reference: its entity type and its sentinels.
pub open spec fn spec_emit_ref_config(r: ReferenceV) -> ConfigValueV {
    ConfigValueV::Obj(
        seq![
            ("type"@, ConfigValueV::Str(r.etype)),
            ("optional_values"@, ConfigValueV::Arr(spec_emit_field_values(r.optional_values))),
        ],
    )
}

/// A morph map's entries: each discriminator value in its text form, bound
/// to its entity type.
pub open spec fn spec_emit_morph_entries(m: MorphMapV) -> Seq<(Seq<char>, ConfigValueV)> {
    m.map_values(
        |e: (FieldValueV, Seq<char>)| (spec_field_value_string(e.0), ConfigValueV::Str(e.1)),
    )
}

/// The configuration of a morph.
pub open spec fn spec_emit_morph_config(m: MorphV) -> ConfigValueV {
    ConfigValueV::Obj(
        seq![
            ("field"@, ConfigValueV::Str(m.field)),
            ("morph_map"@, ConfigValueV::Obj(spec_emit_morph_entries(m.morph_map))),
            ("optional_values"@, ConfigValueV::Arr(spec_emit_field_values(m.optional_values))),
        ],
    )
}

/// A nested ingredient of a matcher, as a tagged document.
pub open spec fn spec_emit_match_ingredient(i: MatchIngredientV) -> ConfigValueV {
    match i {
        MatchIngredientV::Value => spec_tagged("VALUE"@, ConfigValueV::Obj(Seq::empty())),
        MatchIngredientV::Raw(v) => spec_tagged(
            "RAW"@,
            ConfigValueV::Obj(seq![("value"@, spec_emit_field_value(v))]),
        ),
        MatchIngredientV::Ref(r) => spec_tagged("REF"@, spec_emit_ref_config(r)),
        MatchIngredientV::Morph(m) => spec_tagged("MORPH"@, spec_emit_morph_config(m)),
    }
}

/// A matcher routing table, as document entries in configured order.
pub open spec fn spec_emit_match_table(t: Seq<(Seq<char>, MatchIngredientV)>) -> Seq<
    (Seq<char>, ConfigValueV),
> {
    t.map_values(|e: (Seq<char>, MatchIngredientV)| (e.0, spec_emit_match_ingredient(e.1)))
}

/// The configuration of a matcher; the default entry appears only when a
/// default ingredient is configured.
pub open spec fn spec_emit_matcher_config(m: MatcherV) -> ConfigValueV {
    let base = seq![
        ("field"@, ConfigValueV::Str(m.field)),
        ("on"@, ConfigValueV::Obj(spec_emit_match_table(m.on))),
        ("patterns"@, ConfigValueV::Obj(spec_emit_match_table(m.patterns))),
    ];
    match m.default {
        Option::None => ConfigValueV::Obj(base),
        Option::Some(d) => ConfigValueV::Obj(base.push(("default"@, spec_emit_match_ingredient(d)))),
    }
}

/// A nested ingredient of a circular, as a tagged document.
pub open spec fn spec_emit_circular_ingredient(i: CircularIngredientV) -> ConfigValueV {
    match i {
        CircularIngredientV::Value => spec_tagged("VALUE"@, ConfigValueV::Obj(Seq::empty())),
        CircularIngredientV::Raw(v) => spec_tagged(
            "RAW"@,
            ConfigValueV::Obj(seq![("value"@, spec_emit_field_value(v))]),
        ),
        CircularIngredientV::Ref(r) => spec_tagged("REF"@, spec_emit_ref_config(r)),
    }
}

/// The configuration of a circular.
pub open spec fn spec_emit_circular_config(c: CircularV) -> ConfigValueV {
    ConfigValueV::Obj(
        seq![
            ("ingredient"@, spec_emit_circular_ingredient(c.ingredient)),
            ("fallback"@, spec_emit_circular_ingredient(c.fallback)),
        ],
    )
}

/// A recipe ingredient, as a tagged document.
pub open spec fn spec_emit_ingredient(i: RecipeIngredientV) -> ConfigValueV {
    match i {
        RecipeIngredientV::Value => spec_tagged("VALUE"@, ConfigValueV::Obj(Seq::empty())),
        RecipeIngredientV::Raw(v) => spec_tagged(
            "RAW"@,
            ConfigValueV::Obj(seq![("value"@, spec_emit_field_value(v))]),
        ),
        RecipeIngredientV::Ref(r) => spec_tagged("REF"@, spec_emit_ref_config(r)),
        RecipeIngredientV::Morph(m) => spec_tagged("MORPH"@, spec_emit_morph_config(m)),
        RecipeIngredientV::Match(m) => spec_tagged("MATCH"@, spec_emit_matcher_config(m)),
        RecipeIngredientV::Circular(c) => spec_tagged("CIRCULAR"@, spec_emit_circular_config(c)),
    }
}

/// The named ingredients of a recipe, as document entries in order.
pub open spec fn spec_emit_ingredients(entries: Seq<(Seq<char>, RecipeIngredientV)>) -> Seq<
    (Seq<char>, ConfigValueV),
> {
    entries.map_values(|e: (Seq<char>, RecipeIngredientV)| (e.0, spec_emit_ingredient(e.1)))
}

/// The whole recipe, as a configuration document.
pub open spec fn spec_to_config(r: RecipeV) -> ConfigValueV {
    ConfigValueV::Obj(
        seq![
            (
                "primary_key"@,
                match r.primary_key {
                    PrimaryKeyV::Null => ConfigValueV::Null,
                    PrimaryKeyV::Str(s) => ConfigValueV::Str(s),
                },
            ),
            ("ingredients"@, ConfigValueV::Obj(spec_emit_ingredients(r.ingredients))),
        ],
    )
}

// ---------------------------------------------------------------------------
// How a configuration document is read back.
// ---------------------------------------------------------------------------

/// The tag and configuration of an ingredient document, if it has the
/// required shape.
pub open spec fn spec_tag_of(c: ConfigValueV) -> Option<(Seq<char>, ConfigValueV)> {
    match c {
        ConfigValueV::Obj(entries) => match spec_obj_get(entries, "type"@) {
            Option::Some(ConfigValueV::Str(tag)) => match spec_obj_get(entries, "config"@) {
                Option::Some(config) => Option::Some((tag, config)),
                Option::None => Option::None,
            },
            _ => Option::None,
        },
        _ => Option::None,
    }
}

/// A list of field-value literals read back; any ill-shaped element fails
/// the whole list.
pub open spec fn spec_parse_field_values(c: Seq<ConfigValueV>) -> Option<Seq<FieldValueV>>
    decreases c.len(),
{
    if c.len() == 0 {
        Option::Some(Seq::empty())
    } else {
        match spec_parse_field_value(c[0]) {
            Option::None => Option::None,
            Option::Some(v) => match spec_parse_field_values(c.drop_first()) {
                Option::None => Option::None,
                Option::Some(rest) => Option::Some(seq![v] + rest),
            },
        }
    }
}

/// A value configuration: any object will do, nothing is read from it.
pub open spec fn spec_parse_value_config(c: ConfigValueV) -> bool {
    c is Obj
}

/// A raw configuration: the literal under its `value` key.
pub open spec fn spec_parse_raw_config(c: ConfigValueV) -> Option<FieldValueV> {
    match c {
        ConfigValueV::Obj(entries) => match spec_obj_get(entries, "value"@) {
            Option::Some(v) => spec_parse_field_value(v),
            Option::None => Option::None,
        },
        _ => Option::None,
    }
}

/// A reference configuration read back.
pub open spec fn spec_parse_ref_config(c: ConfigValueV) -> Option<ReferenceV> {
    match c {
        ConfigValueV::Obj(entries) => match spec_obj_get(entries, "type"@) {
            Option::Some(ConfigValueV::Str(t)) => match spec_obj_get(
                entries,
                "optional_values"@,
            ) {
                Option::Some(ConfigValueV::Arr(items)) => match spec_parse_field_values(items) {
                    Option::Some(l) => Option::Some(ReferenceV { etype: t, optional_values: l }),
                    Option::None => Option::None,
                },
                _ => Option::None,
            },
            _ => Option::None,
        },
        _ => Option::None,
    }
}

/// A morph map's entries read back: each key becomes a string-valued
/// discriminator, each value must be an entity-type string.
pub open spec fn spec_parse_morph_entries(entries: Seq<(Seq<char>, ConfigValueV)>) -> Option<
    MorphMapV,
>
    decreases entries.len(),
{
    if entries.len() == 0 {
        Option::Some(Seq::empty())
    } else {
        match entries[0].1 {
            ConfigValueV::Str(etype) => match spec_parse_morph_entries(entries.drop_first()) {
                Option::None => Option::None,
                Option::Some(rest) => Option::Some(
                    seq![(FieldValueV::Str(entries[0].0), etype)] + rest,
                ),
            },
            _ => Option::None,
        }
    }
}

/// A morph configuration read back.
pub open spec fn spec_parse_morph_config(c: ConfigValueV) -> Option<MorphV> {
    match c {
        ConfigValueV::Obj(entries) => match spec_obj_get(entries, "field"@) {
            Option::Some(ConfigValueV::Str(field)) => match spec_obj_get(entries, "morph_map"@) {
                Option::Some(ConfigValueV::Obj(map_entries)) => match spec_parse_morph_entries(
                    map_entries,
                ) {
                    Option::Some(m) => match spec_obj_get(entries, "optional_values"@) {
                        Option::Some(ConfigValueV::Arr(items)) => match spec_parse_field_values(
                            items,
                        ) {
                            Option::Some(l) => Option::Some(
                                MorphV { field, morph_map: m, optional_values: l },
                            ),
                            Option::None => Option::None,
                        },
                        _ => Option::None,
                    },
                    Option::None => Option::None,
                },
                _ => Option::None,
            },
            _ => Option::None,
        },
        _ => Option::None,
    }
}

/// A nested ingredient of a matcher read back.
pub open spec fn spec_parse_match_ingredient(c: ConfigValueV) -> Option<MatchIngredientV> {
    match spec_tag_of(c) {
        Option::None => Option::None,
        Option::Some((tag, config)) => if tag == "VALUE"@ {
            if spec_parse_value_config(config) {
                Option::Some(MatchIngredientV::Value)
            } else {
                Option::None
            }
        } else if tag == "RAW"@ {
            match spec_parse_raw_config(config) {
                Option::Some(v) => Option::Some(MatchIngredientV::Raw(v)),
                Option::None => Option::None,
            }
        } else if tag == "REF"@ {
            match spec_parse_ref_config(config) {
                Option::Some(r) => Option::Some(MatchIngredientV::Ref(r)),
                Option::None => Option::None,
            }
        } else if tag == "MORPH"@ {
            match spec_parse_morph_config(config) {
                Option::Some(m) => Option::Some(MatchIngredientV::Morph(m)),
                Option::None => Option::None,
            }
        } else {
            Option::None
        },
    }
}

/// A matcher routing table read back, in document order.
pub open spec fn spec_parse_match_table(entries: Seq<(Seq<char>, ConfigValueV)>) -> Option<
    Seq<(Seq<char>, MatchIngredientV)>,
>
    decreases entries.len(),
{
    if entries.len() == 0 {
        Option::Some(Seq::empty())
    } else {
        match spec_parse_match_ingredient(entries[0].1) {
            Option::None => Option::None,
            Option::Some(i) => match spec_parse_match_table(entries.drop_first()) {
                Option::None => Option::None,
                Option::Some(rest) => Option::Some(seq![(entries[0].0, i)] + rest),
            },
        }
    }
}

/// A matcher configuration read back; a missing `default` key means no
/// default ingredient.
pub open spec fn spec_parse_matcher_config(c: ConfigValueV) -> Option<MatcherV> {
    match c {
        ConfigValueV::Obj(entries) => match spec_obj_get(entries, "field"@) {
            Option::Some(ConfigValueV::Str(field)) => match spec_obj_get(entries, "on"@) {
                Option::Some(ConfigValueV::Obj(on_entries)) => match spec_parse_match_table(
                    on_entries,
                ) {
                    Option::Some(on) => match spec_obj_get(entries, "patterns"@) {
                        Option::Some(ConfigValueV::Obj(pat_entries)) => match
                            spec_parse_match_table(pat_entries) {
                            Option::Some(patterns) => match spec_obj_get(entries, "default"@) {
                                Option::None => Option::Some(
                                    MatcherV { field, on, patterns, default: Option::None },
                                ),
                                Option::Some(d) => match spec_parse_match_ingredient(d) {
                                    Option::Some(i) => Option::Some(
                                        MatcherV {
                                            field,
                                            on,
                                            patterns,
                                            default: Option::Some(i),
                                        },
                                    ),
                                    Option::None => Option::None,
                                },
                            },
                            Option::None => Option::None,
                        },
                        _ => Option::None,
                    },
                    Option::None => Option::None,
                },
                _ => Option::None,
            },
            _ => Option::None,
        },
        _ => Option::None,
    }
}

/// A nested ingredient of a circular read back.
pub open spec fn spec_parse_circular_ingredient(c: ConfigValueV) -> Option<CircularIngredientV> {
    match spec_tag_of(c) {
        Option::None => Option::None,
        Option::Some((tag, config)) => if tag == "VALUE"@ {
            if spec_parse_value_config(config) {
                Option::Some(CircularIngredientV::Value)
            } else {
                Option::None
            }
        } else if tag == "RAW"@ {
            match spec_parse_raw_config(config) {
                Option::Some(v) => Option::Some(CircularIngredientV::Raw(v)),
                Option::None => Option::None,
            }
        } else if tag == "REF"@ {
            match spec_parse_ref_config(config) {
                Option::Some(r) => Option::Some(CircularIngredientV::Ref(r)),
                Option::None => Option::None,
            }
        } else {
            Option::None
        },
    }
}

/// A circular configuration read back.
pub open spec fn spec_parse_circular_config(c: ConfigValueV) -> Option<CircularV> {
    match c {
        ConfigValueV::Obj(entries) => match spec_obj_get(entries, "ingredient"@) {
            Option::Some(ic) => match spec_parse_circular_ingredient(ic) {
                Option::Some(ingredient) => match spec_obj_get(entries, "fallback"@) {
                    Option::Some(fc) => match spec_parse_circular_ingredient(fc) {
                        Option::Some(fallback) => Option::Some(CircularV { ingredient, fallback }),
                        Option::None => Option::None,
                    },
                    Option::None => Option::None,
                },
                Option::None => Option::None,
            },
            Option::None => Option::None,
        },
        _ => Option::None,
    }
}

/// A recipe ingredient read back, whatever its tag.
pub open spec fn spec_parse_ingredient(c: ConfigValueV) -> Option<RecipeIngredientV> {
    match spec_tag_of(c) {
        Option::None => Option::None,
        Option::Some((tag, config)) => if tag == "VALUE"@ {
            if spec_parse_value_config(config) {
                Option::Some(RecipeIngredientV::Value)
            } else {
                Option::None
            }
        } else if tag == "RAW"@ {
            match spec_parse_raw_config(config) {
                Option::Some(v) => Option::Some(RecipeIngredientV::Raw(v)),
                Option::None => Option::None,
            }
        } else if tag == "REF"@ {
            match spec_parse_ref_config(config) {
                Option::Some(r) => Option::Some(RecipeIngredientV::Ref(r)),
                Option::None => Option::None,
            }
        } else if tag == "MORPH"@ {
            match spec_parse_morph_config(config) {
                Option::Some(m) => Option::Some(RecipeIngredientV::Morph(m)),
                Option::None => Option::None,
            }
        } else if tag == "MATCH"@ {
            match spec_parse_matcher_config(config) {
                Option::Some(m) => Option::Some(RecipeIngredientV::Match(m)),
                Option::None => Option::None,
            }
        } else if tag == "CIRCULAR"@ {
            match spec_parse_circular_config(config) {
                Option::Some(c2) => Option::Some(RecipeIngredientV::Circular(c2)),
                Option::None => Option::None,
            }
        } else {
            Option::None
        },
    }
}

/// The named ingredients of a recipe document read back, in document order.
pub open spec fn spec_parse_ingredient_map(entries: Seq<(Seq<char>, ConfigValueV)>) -> Option<
    Seq<(Seq<char>, RecipeIngredientV)>,
>
    decreases entries.len(),
{
    if entries.len() == 0 {
        Option::Some(Seq::empty())
    } else {
        match spec_parse_ingredient(entries[0].1) {
            Option::None => Option::None,
            Option::Some(i) => match spec_parse_ingredient_map(entries.drop_first()) {
                Option::None => Option::None,
                Option::Some(rest) => Option::Some(seq![(entries[0].0, i)] + rest),
            },
        }
    }
}

/// A whole recipe document read back; any shape error fails the whole
/// recipe.
pub open spec fn spec_from_config(c: ConfigValueV) -> Option<RecipeV> {
    match c {
        ConfigValueV::Obj(entries) => match spec_obj_get(entries, "primary_key"@) {
            Option::Some(pk) => match pk {
                ConfigValueV::Null => spec_from_config_with(entries, PrimaryKeyV::Null),
                ConfigValueV::Str(s) => spec_from_config_with(entries, PrimaryKeyV::Str(s)),
                _ => Option::None,
            },
            Option::None => Option::None,
        },
        _ => Option::None,
    }
}

/// The rest of a recipe document, once the primary key is known.
pub open spec fn spec_from_config_with(
    entries: Seq<(Seq<char>, ConfigValueV)>,
    pk: PrimaryKeyV,
) -> Option<RecipeV> {
    match spec_obj_get(entries, "ingredients"@) {
        Option::Some(ConfigValueV::Obj(ing_entries)) => match spec_parse_ingredient_map(
            ing_entries,
        ) {
            Option::Some(ingredients) => Option::Some(RecipeV { primary_key: pk, ingredients }),
            Option::None => Option::None,
        },
        _ => Option::None,
    }
}

// ---------------------------------------------------------------------------
// Writing a recipe out as a configuration document.
// ---------------------------------------------------------------------------

/// Wrap a tag-specific configuration into an ingredient document.
fn emit_tagged(tag: String, config: ConfigValue) -> (r: ConfigValue)
    ensures
        r@ == spec_tagged(tag@, config@),
{
    let ghost tgv = tag@;
    let ghost cfv = config@;
    let mut entries: Vec<(String, ConfigValue)> = Vec::new();
    entries.push(("type".to_owned(), ConfigValue::Str(tag)));
    entries.push(("config".to_owned(), config));
    let ghost ev = entries@;
    let r = ConfigValue::Obj(entries);
    proof {
        lemma_centries_view_index(ev);
        assert(centries_view(ev) =~= seq![
            ("type"@, ConfigValueV::Str(tgv)),
            ("config"@, cfv),
        ]);
    }
    r
}

/// Write a list of field-value literals as a document list.
fn emit_field_values(vals: &Vec<FieldValue>) -> (r: ConfigValue)
    ensures
        r@ == ConfigValueV::Arr(spec_emit_field_values(fvs_view(vals@))),
{
    let mut items: Vec<ConfigValue> = Vec::new();
    let mut i: usize = 0;
    while i < vals.len()
        invariant
            i <= vals.len(),
            items@.len() == i,
            forall|j: int|
                0 <= j < i ==> cv_view(#[trigger] items@[j]) == spec_emit_field_value(
                vals@[j]@,
                ),
        decreases vals.len() - i,
    {
        items.push(field_value_to_config(&vals[i]));
        i = i + 1;
    }
    let ghost iv = items@;
    let r = ConfigValue::Arr(items);
    proof {
        lemma_cvs_view_index(iv);
        assert(cvs_view(iv) =~= spec_emit_field_values(fvs_view(vals@)));
    }
    r
}

/// Write a reference's configuration.
fn emit_ref_config(r: &Reference) -> (c: ConfigValue)
    ensures
        c@ == spec_emit_ref_config(r@),
{
    let mut entries: Vec<(String, ConfigValue)> = Vec::new();
    entries.push(("type".to_owned(), ConfigValue::Str(r.config.type_.clone())));
    entries.push(("optional_values".to_owned(), emit_field_values(&r.config.optional_values)));
    let ghost ev = entries@;
    let c = ConfigValue::Obj(entries);
    proof {
        lemma_centries_view_index(ev);
        assert(centries_view(ev) =~= seq![
            ("type"@, ConfigValueV::Str(r.config.type_@)),
            (
                "optional_values"@,
                ConfigValueV::Arr(spec_emit_field_values(fvs_view(r.config.optional_values@))),
            ),
        ]);
    }
    c
}

/// Write a morph map's entries, each discriminator in its text form.
fn emit_morph_entries(mapper: &MorphMapper) -> (r: Vec<(String, ConfigValue)>)
    ensures
        centries_view(r@) == spec_emit_morph_entries(mapper@),
{
    let mut entries: Vec<(String, ConfigValue)> = Vec::new();
    let mut i: usize = 0;
    while i < mapper.morph_map.len()
        invariant
            i <= mapper.morph_map.len(),
            entries@.len() == i,
            forall|j: int|
                0 <= j < i ==> ((#[trigger] entries@[j]).0@, cv_view(entries@[j].1)) == (
                spec_field_value_string(mapper.morph_map@[j].0@),
                ConfigValueV::Str(mapper.morph_map@[j].1@),
                ),
        decreases mapper.morph_map.len() - i,
    {
        let key = field_value_to_string(&mapper.morph_map[i].0);
        entries.push((key, ConfigValue::Str(mapper.morph_map[i].1.clone())));
        i = i + 1;
    }
    proof {
        lemma_centries_view_index(entries@);
        assert(centries_view(entries@) =~= spec_emit_morph_entries(mapper@));
    }
    entries
}

/// Write a morph's configuration.
fn emit_morph_config(m: &Morph) -> (c: ConfigValue)
    ensures
        c@ == spec_emit_morph_config(m@),
{
    let mut entries: Vec<(String, ConfigValue)> = Vec::new();
    entries.push(("field".to_owned(), ConfigValue::Str(m.field.clone())));
    entries.push(("morph_map".to_owned(), ConfigValue::Obj(emit_morph_entries(&m.morph_mapper))));
    entries.push(("optional_values".to_owned(), emit_field_values(&m.optional_values)));
    let ghost ev = entries@;
    let c = ConfigValue::Obj(entries);
    proof {
        lemma_centries_view_index(ev);
        assert(centries_view(ev) =~= seq![
            ("field"@, ConfigValueV::Str(m.field@)),
            ("morph_map"@, ConfigValueV::Obj(spec_emit_morph_entries(m.morph_mapper@))),
            ("optional_values"@, ConfigValueV::Arr(spec_emit_field_values(fvs_view(m.optional_values@)))),
        ]);
    }
    c
}

/// Write a raw's configuration.
fn emit_raw_config(value: &FieldValue) -> (c: ConfigValue)
    ensures
        c@ == ConfigValueV::Obj(seq![("value"@, spec_emit_field_value(value@))]),
{
    let mut entries: Vec<(String, ConfigValue)> = Vec::new();
    entries.push(("value".to_owned(), field_value_to_config(value)));
    let ghost ev = entries@;
    let c = ConfigValue::Obj(entries);
    proof {
        lemma_centries_view_index(ev);
        assert(centries_view(ev) =~= seq![("value"@, spec_emit_field_value(value@))]);
    }
    c
}

/// Write an empty configuration object.
fn emit_empty_config() -> (c: ConfigValue)
    ensures
        c@ == ConfigValueV::Obj(Seq::<(Seq<char>, ConfigValueV)>::empty()),
{
    let entries: Vec<(String, ConfigValue)> = Vec::new();
    let ghost ev = entries@;
    let c = ConfigValue::Obj(entries);
    proof {
        lemma_centries_view_index(ev);
        assert(centries_view(ev) =~= Seq::<(Seq<char>, ConfigValueV)>::empty());
    }
    c
}

/// Write a nested ingredient of a matcher as a tagged document.
fn emit_match_ingredient(i: &MatchIngredient) -> (c: ConfigValue)
    ensures
        c@ == spec_emit_match_ingredient(i@),
{
    match i {
        MatchIngredient::Value(_) => emit_tagged("VALUE".to_owned(), emit_empty_config()),
        MatchIngredient::Raw(r) => emit_tagged("RAW".to_owned(), emit_raw_config(&r.value)),
        MatchIngredient::Ref(r) => emit_tagged("REF".to_owned(), emit_ref_config(r)),
        MatchIngredient::Morph(m) => emit_tagged("MORPH".to_owned(), emit_morph_config(m)),
    }
}

/// Write a matcher routing table as document entries, in configured order.
fn emit_match_table(t: &Vec<(String, MatchIngredient)>) -> (r: Vec<(String, ConfigValue)>)
    ensures
        centries_view(r@) == spec_emit_match_table(
            t@.map_values(|e: (String, MatchIngredient)| (e.0@, e.1@)),
        ),
{
    let mut entries: Vec<(String, ConfigValue)> = Vec::new();
    let mut i: usize = 0;
    while i < t.len()
        invariant
            i <= t.len(),
            entries@.len() == i,
            forall|j: int|
                0 <= j < i ==> ((#[trigger] entries@[j]).0@, cv_view(entries@[j].1)) == (
                t@[j].0@,
                spec_emit_match_ingredient(t@[j].1@),
                ),
        decreases t.len() - i,
    {
        entries.push((t[i].0.clone(), emit_match_ingredient(&t[i].1)));
        i = i + 1;
    }
    proof {
        lemma_centries_view_index(entries@);
        assert(centries_view(entries@) =~= spec_emit_match_table(
            t@.map_values(|e: (String, MatchIngredient)| (e.0@, e.1@)),
        ));
    }
    entries
}

/// Write a matcher's configuration; the default entry appears only when a
/// default ingredient is configured.
fn emit_matcher_config(m: &Matcher) -> (c: ConfigValue)
    ensures
        c@ == spec_emit_matcher_config(m@),
{
    let mut entries: Vec<(String, ConfigValue)> = Vec::new();
    entries.push(("field".to_owned(), ConfigValue::Str(m.field.clone())));
    entries.push(("on".to_owned(), ConfigValue::Obj(emit_match_table(&m.on))));
    entries.push(("patterns".to_owned(), ConfigValue::Obj(emit_match_table(&m.patterns))));
    match &m.default {
        None => {},
        Some(d) => {
            entries.push(("default".to_owned(), emit_match_ingredient(d)));
        },
    }
    let ghost ev = entries@;
    let c = ConfigValue::Obj(entries);
    proof {
        lemma_centries_view_index(ev);
        let base = seq![
            ("field"@, ConfigValueV::Str(m@.field)),
            ("on"@, ConfigValueV::Obj(spec_emit_match_table(m@.on))),
            ("patterns"@, ConfigValueV::Obj(spec_emit_match_table(m@.patterns))),
        ];
        match &m.default {
            Option::None => {
                assert(centries_view(ev) =~= base);
            },
            Option::Some(d) => {
                assert(centries_view(ev) =~= base.push(
                    ("default"@, spec_emit_match_ingredient(d@)),
                ));
            },
        }
    }
    c
}

/// Write a nested ingredient of a circular as a tagged document.
fn emit_circular_ingredient(i: &CircularIngredient) -> (c: ConfigValue)
    ensures
        c@ == spec_emit_circular_ingredient(i@),
{
    match i {
        CircularIngredient::Value(_) => emit_tagged("VALUE".to_owned(), emit_empty_config()),
        CircularIngredient::Raw(r) => emit_tagged("RAW".to_owned(), emit_raw_config(&r.value)),
        CircularIngredient::Ref(r) => emit_tagged("REF".to_owned(), emit_ref_config(r)),
    }
}

/// Write a circular's configuration.
fn emit_circular_config(c: &Circular) -> (r: ConfigValue)
    ensures
        r@ == spec_emit_circular_config(c@),
{
    let mut entries: Vec<(String, ConfigValue)> = Vec::new();
    entries.push(("ingredient".to_owned(), emit_circular_ingredient(&c.ingredient)));
    entries.push(("fallback".to_owned(), emit_circular_ingredient(&c.fallback)));
    let ghost ev = entries@;
    let r = ConfigValue::Obj(entries);
    proof {
        lemma_centries_view_index(ev);
        assert(centries_view(ev) =~= seq![
            ("ingredient"@, spec_emit_circular_ingredient(c.ingredient@)),
            ("fallback"@, spec_emit_circular_ingredient(c.fallback@)),
        ]);
    }
    r
}

/// Write one recipe ingredient as a tagged document.
fn emit_ingredient(i: &RecipeIngredient) -> (c: ConfigValue)
    ensures
        c@ == spec_emit_ingredient(i@),
{
    match i {
        RecipeIngredient::Value(_) => emit_tagged("VALUE".to_owned(), emit_empty_config()),
        RecipeIngredient::Raw(r) => emit_tagged("RAW".to_owned(), emit_raw_config(&r.value)),
        RecipeIngredient::Ref(r) => emit_tagged("REF".to_owned(), emit_ref_config(r)),
        RecipeIngredient::Morph(m) => emit_tagged("MORPH".to_owned(), emit_morph_config(m)),
        RecipeIngredient::Match(m) => emit_tagged("MATCH".to_owned(), emit_matcher_config(m)),
        RecipeIngredient::Circular(c) => emit_tagged(
            "CIRCULAR".to_owned(),
            emit_circular_config(c),
        ),
    }
}

// ---------------------------------------------------------------------------
// Reading a recipe back from a configuration document.
// ---------------------------------------------------------------------------

/// The tag and configuration of an ingredient document.
fn tag_of<'a>(c: &'a ConfigValue) -> (r: Option<(&'a String, &'a ConfigValue)>)
    ensures
        match r {
            Option::Some(tc) => spec_tag_of(c@) == Option::Some((tc.0@, tc.1@)),
            Option::None => spec_tag_of(c@) == Option::None::<(Seq<char>, ConfigValueV)>,
        },
{
    let entries = match c {
        ConfigValue::Obj(entries) => entries,
        _ => {
            return None;
        },
    };
    let tag = match obj_get(entries, &"type".to_owned()) {
        Some(ConfigValue::Str(t)) => t,
        Some(_) => {
            return None;
        },
        None => {
            return None;
        },
    };
    match obj_get(entries, &"config".to_owned()) {
        Some(cfg) => Some((tag, cfg)),
        None => None,
    }
}

/// Read a list of field-value literals back.
fn parse_field_values(items: &Vec<ConfigValue>) -> (r: Option<Vec<FieldValue>>)
    ensures
        match r {
            Option::Some(vs) => spec_parse_field_values(cvs_view(items@)) == Option::Some(
                fvs_view(vs@),
            ),
            Option::None => spec_parse_field_values(cvs_view(items@)) == Option::None::<
                Seq<FieldValueV>,
            >,
        },
{
    let ghost cvseq = cvs_view(items@);
    let mut out: Vec<FieldValue> = Vec::new();
    let mut i: usize = 0;
    proof {
        lemma_cvs_view_index(items@);
        assert(cvseq.skip(0) =~= cvseq);
        match spec_parse_field_values(cvseq) {
            Option::None => {},
            Option::Some(rest) => {
                assert(fvs_view(out@) + rest =~= rest);
            },
        }
    }
    while i < items.len()
        invariant
            i <= items.len(),
            cvseq == cvs_view(items@),
            cvseq.len() == items@.len(),
            out@.len() == i,
            forall|j: int| 0 <= j < items@.len() ==> #[trigger] cvseq[j] == cv_view(items@[j]),
            spec_parse_field_values(cvseq) == (match spec_parse_field_values(
                cvseq.skip(i as int),
            ) {
                Option::None => Option::None::<Seq<FieldValueV>>,
                Option::Some(rest) => Option::Some(fvs_view(out@) + rest),
            }),
        decreases items.len() - i,
    {
        proof {
            assert(cvseq.skip(i as int)[0] == cvseq[i as int]);
            assert(cvseq.skip(i as int).drop_first() =~= cvseq.skip(i + 1));
        }
        match config_to_field_value(&items[i]) {
            None => {
                return None;
            },
            Some(v) => {
                let ghost prev = out@;
                let ghost vv = v@;
                out.push(v);
                proof {
                    assert(fvs_view(out@) =~= fvs_view(prev).push(vv));
                    match spec_parse_field_values(cvseq.skip(i + 1)) {
                        Option::None => {},
                        Option::Some(rest) => {
                            assert(fvs_view(prev) + (seq![vv] + rest) =~= fvs_view(out@) + rest);
                        },
                    }
                }
            },
        }
        i = i + 1;
    }
    proof {
        assert(cvseq.skip(items@.len() as int).len() == 0);
        assert(fvs_view(out@) + Seq::<FieldValueV>::empty() =~= fvs_view(out@));
    }
    Some(out)
}

/// Read a value configuration back: any object will do.
fn parse_value_config(c: &ConfigValue) -> (r: bool)
    ensures
        r == spec_parse_value_config(c@),
{
    match c {
        ConfigValue::Obj(_) => true,
        _ => false,
    }
}

/// Read a raw configuration back.
fn parse_raw_config(c: &ConfigValue) -> (r: Option<FieldValue>)
    ensures
        match r {
            Option::Some(v) => spec_parse_raw_config(c@) == Option::Some(v@),
            Option::None => spec_parse_raw_config(c@) == Option::None::<FieldValueV>,
        },
{
    let entries = match c {
        ConfigValue::Obj(entries) => entries,
        _ => {
            return None;
        },
    };
    match obj_get(entries, &"value".to_owned()) {
        Some(v) => config_to_field_value(v),
        None => None,
    }
}

/// Read a reference configuration back.
fn parse_ref_config(c: &ConfigValue) -> (r: Option<Reference>)
    ensures
        match r {
            Option::Some(rf) => spec_parse_ref_config(c@) == Option::Some(rf@),
            Option::None => spec_parse_ref_config(c@) == Option::None::<ReferenceV>,
        },
{
    let entries = match c {
        ConfigValue::Obj(entries) => entries,
        _ => {
            return None;
        },
    };
    let t = match obj_get(entries, &"type".to_owned()) {
        Some(ConfigValue::Str(t)) => t,
        Some(_) => {
            return None;
        },
        None => {
            return None;
        },
    };
    let items = match obj_get(entries, &"optional_values".to_owned()) {
        Some(ConfigValue::Arr(items)) => items,
        Some(_) => {
            return None;
        },
        None => {
            return None;
        },
    };
    match parse_field_values(items) {
        Some(vals) => Some(
            Reference { config: RefConfig { type_: t.clone(), optional_values: vals } },
        ),
        None => None,
    }
}

/// Read a morph map's entries back.
fn parse_morph_entries(entries: &Vec<(String, ConfigValue)>) -> (r: Option<
    Vec<(FieldValue, EntityType)>,
>)
    ensures
        match r {
            Option::Some(m) => spec_parse_morph_entries(centries_view(entries@))
                == Option::Some(
                m@.map_values(|e: (FieldValue, EntityType)| (e.0@, e.1@)),
            ),
            Option::None => spec_parse_morph_entries(centries_view(entries@)) == Option::None::<
                MorphMapV,
            >,
        },
{
    let ghost ev = centries_view(entries@);
    let ghost mv = |s: Seq<(FieldValue, EntityType)>|
        s.map_values(|e: (FieldValue, EntityType)| (e.0@, e.1@));
    let mut out: Vec<(FieldValue, EntityType)> = Vec::new();
    let mut i: usize = 0;
    proof {
        lemma_centries_view_index(entries@);
        assert(ev.skip(0) =~= ev);
        match spec_parse_morph_entries(ev) {
            Option::None => {},
            Option::Some(rest) => {
                assert(mv(out@) + rest =~= rest);
            },
        }
    }
    while i < entries.len()
        invariant
            i <= entries.len(),
            ev == centries_view(entries@),
            ev.len() == entries@.len(),
            out@.len() == i,
            mv == (|s: Seq<(FieldValue, EntityType)>|
                s.map_values(|e: (FieldValue, EntityType)| (e.0@, e.1@))),
            forall|j: int|
                0 <= j < entries@.len() ==> #[trigger] ev[j] == (entries@[j].0@, cv_view(
                entries@[j].1,
                )),
            spec_parse_morph_entries(ev) == (match spec_parse_morph_entries(ev.skip(i as int)) {
                Option::None => Option::None::<MorphMapV>,
                Option::Some(rest) => Option::Some(mv(out@) + rest),
            }),
        decreases entries.len() - i,
    {
        proof {
            assert(ev.skip(i as int)[0] == ev[i as int]);
            assert(ev.skip(i as int).drop_first() =~= ev.skip(i + 1));
        }
        let etype = match &entries[i].1 {
            ConfigValue::Str(s) => s.clone(),
            _ => {
                return None;
            },
        };
        let ghost prev = out@;
        let ghost kv = (FieldValueV::Str(entries@[i as int].0@), etype@);
        out.push((FieldValue::String(entries[i].0.clone()), etype));
        proof {
            assert(mv(out@) =~= mv(prev).push(kv));
            match spec_parse_morph_entries(ev.skip(i + 1)) {
                Option::None => {},
                Option::Some(rest) => {
                    assert(mv(prev) + (seq![kv] + rest) =~= mv(out@) + rest);
                },
            }
        }
        i = i + 1;
    }
    proof {
        assert(ev.skip(entries@.len() as int).len() == 0);
        assert(mv(out@) + Seq::<(FieldValueV, Seq<char>)>::empty() =~= mv(out@));
    }
    Some(out)
}

/// Read a morph configuration back.
fn parse_morph_config(c: &ConfigValue) -> (r: Option<Morph>)
    ensures
        match r {
            Option::Some(m) => spec_parse_morph_config(c@) == Option::Some(m@),
            Option::None => spec_parse_morph_config(c@) == Option::None::<MorphV>,
        },
{
    let entries = match c {
        ConfigValue::Obj(entries) => entries,
        _ => {
            return None;
        },
    };
    let field = match obj_get(entries, &"field".to_owned()) {
        Some(ConfigValue::Str(f)) => f,
        Some(_) => {
            return None;
        },
        None => {
            return None;
        },
    };
    let map_entries = match obj_get(entries, &"morph_map".to_owned()) {
        Some(ConfigValue::Obj(me)) => me,
        Some(_) => {
            return None;
        },
        None => {
            return None;
        },
    };
    let morph_map = match parse_morph_entries(map_entries) {
        Some(m) => m,
        None => {
            return None;
        },
    };
    let items = match obj_get(entries, &"optional_values".to_owned()) {
        Some(ConfigValue::Arr(items)) => items,
        Some(_) => {
            return None;
        },
        None => {
            return None;
        },
    };
    match parse_field_values(items) {
        Some(vals) => Some(
            Morph {
                field: field.clone(),
                morph_mapper: MorphMapper { morph_map },
                optional_values: vals,
            },
        ),
        None => None,
    }
}

/// Read a nested ingredient of a matcher back.
fn parse_match_ingredient(c: &ConfigValue) -> (r: Option<MatchIngredient>)
    ensures
        match r {
            Option::Some(i) => spec_parse_match_ingredient(c@) == Option::Some(i@),
            Option::None => spec_parse_match_ingredient(c@) == Option::None::<MatchIngredientV>,
        },
{
    let (tag, config) = match tag_of(c) {
        None => {
            return None;
        },
        Some(tc) => tc,
    };
    if tag.eq(&"VALUE".to_owned()) {
        if parse_value_config(config) {
            Some(MatchIngredient::Value(Value::new()))
        } else {
            None
        }
    } else if tag.eq(&"RAW".to_owned()) {
        match parse_raw_config(config) {
            Some(v) => Some(MatchIngredient::Raw(Raw::new(v))),
            None => None,
        }
    } else if tag.eq(&"REF".to_owned()) {
        match parse_ref_config(config) {
            Some(rf) => Some(MatchIngredient::Ref(rf)),
            None => None,
        }
    } else if tag.eq(&"MORPH".to_owned()) {
        match parse_morph_config(config) {
            Some(m) => Some(MatchIngredient::Morph(m)),
            None => None,
        }
    } else {
        None
    }
}

/// Read a matcher routing table back, in document order.
fn parse_match_table(entries: &Vec<(String, ConfigValue)>) -> (r: Option<
    Vec<(String, MatchIngredient)>,
>)
    ensures
        match r {
            Option::Some(t) => spec_parse_match_table(centries_view(entries@)) == Option::Some(
                t@.map_values(|e: (String, MatchIngredient)| (e.0@, e.1@)),
            ),
            Option::None => spec_parse_match_table(centries_view(entries@)) == Option::None::<
                Seq<(Seq<char>, MatchIngredientV)>,
            >,
        },
{
    let ghost ev = centries_view(entries@);
    let ghost mv = |s: Seq<(String, MatchIngredient)>|
        s.map_values(|e: (String, MatchIngredient)| (e.0@, e.1@));
    let mut out: Vec<(String, MatchIngredient)> = Vec::new();
    let mut i: usize = 0;
    proof {
        lemma_centries_view_index(entries@);
        assert(ev.skip(0) =~= ev);
        match spec_parse_match_table(ev) {
            Option::None => {},
            Option::Some(rest) => {
                assert(mv(out@) + rest =~= rest);
            },
        }
    }
    while i < entries.len()
        invariant
            i <= entries.len(),
            ev == centries_view(entries@),
            ev.len() == entries@.len(),
            out@.len() == i,
            mv == (|s: Seq<(String, MatchIngredient)>|
                s.map_values(|e: (String, MatchIngredient)| (e.0@, e.1@))),
            forall|j: int|
                0 <= j < entries@.len() ==> #[trigger] ev[j] == (entries@[j].0@, cv_view(
                entries@[j].1,
                )),
            spec_parse_match_table(ev) == (match spec_parse_match_table(ev.skip(i as int)) {
                Option::None => Option::None::<Seq<(Seq<char>, MatchIngredientV)>>,
                Option::Some(rest) => Option::Some(mv(out@) + rest),
            }),
        decreases entries.len() - i,
    {
        proof {
            assert(ev.skip(i as int)[0] == ev[i as int]);
            assert(ev.skip(i as int).drop_first() =~= ev.skip(i + 1));
        }
        let ing = match parse_match_ingredient(&entries[i].1) {
            Some(ing) => ing,
            None => {
                return None;
            },
        };
        let ghost prev = out@;
        let ghost kv = (entries@[i as int].0@, ing@);
        out.push((entries[i].0.clone(), ing));
        proof {
            assert(mv(out@) =~= mv(prev).push(kv));
            match spec_parse_match_table(ev.skip(i + 1)) {
                Option::None => {},
                Option::Some(rest) => {
                    assert(mv(prev) + (seq![kv] + rest) =~= mv(out@) + rest);
                },
            }
        }
        i = i + 1;
    }
    proof {
        assert(ev.skip(entries@.len() as int).len() == 0);
        assert(mv(out@) + Seq::<(Seq<char>, MatchIngredientV)>::empty() =~= mv(out@));
    }
    Some(out)
}

/// Read a matcher configuration back.
fn parse_matcher_config(c: &ConfigValue) -> (r: Option<Matcher>)
    ensures
        match r {
            Option::Some(m) => spec_parse_matcher_config(c@) == Option::Some(m@),
            Option::None => spec_parse_matcher_config(c@) == Option::None::<MatcherV>,
        },
{
    let entries = match c {
        ConfigValue::Obj(entries) => entries,
        _ => {
            return None;
        },
    };
    let field = match obj_get(entries, &"field".to_owned()) {
        Some(ConfigValue::Str(f)) => f,
        Some(_) => {
            return None;
        },
        None => {
            return None;
        },
    };
    let on_entries = match obj_get(entries, &"on".to_owned()) {
        Some(ConfigValue::Obj(oe)) => oe,
        Some(_) => {
            return None;
        },
        None => {
            return None;
        },
    };
    let on = match parse_match_table(on_entries) {
        Some(t) => t,
        None => {
            return None;
        },
    };
    let pat_entries = match obj_get(entries, &"patterns".to_owned()) {
        Some(ConfigValue::Obj(pe)) => pe,
        Some(_) => {
            return None;
        },
        None => {
            return None;
        },
    };
    let patterns = match parse_match_table(pat_entries) {
        Some(t) => t,
        None => {
            return None;
        },
    };
    let default = match obj_get(entries, &"default".to_owned()) {
        None => None,
        Some(d) => match parse_match_ingredient(d) {
            Some(i) => Some(i),
            None => {
                return None;
            },
        },
    };
    Some(Matcher { field: field.clone(), on, patterns, default })
}

/// Read a nested ingredient of a circular back.
fn parse_circular_ingredient(c: &ConfigValue) -> (r: Option<CircularIngredient>)
    ensures
        match r {
            Option::Some(i) => spec_parse_circular_ingredient(c@) == Option::Some(i@),
            Option::None => spec_parse_circular_ingredient(c@) == Option::None::<
                CircularIngredientV,
            >,
        },
{
    let (tag, config) = match tag_of(c) {
        None => {
            return None;
        },
        Some(tc) => tc,
    };
    if tag.eq(&"VALUE".to_owned()) {
        if parse_value_config(config) {
            Some(CircularIngredient::Value(Value::new()))
        } else {
            None
        }
    } else if tag.eq(&"RAW".to_owned()) {
        match parse_raw_config(config) {
            Some(v) => Some(CircularIngredient::Raw(Raw::new(v))),
            None => None,
        }
    } else if tag.eq(&"REF".to_owned()) {
        match parse_ref_config(config) {
            Some(rf) => Some(CircularIngredient::Ref(rf)),
            None => None,
        }
    } else {
        None
    }
}

/// Read a circular configuration back.
fn parse_circular_config(c: &ConfigValue) -> (r: Option<Circular>)
    ensures
        match r {
            Option::Some(ci) => spec_parse_circular_config(c@) == Option::Some(ci@),
            Option::None => spec_parse_circular_config(c@) == Option::None::<CircularV>,
        },
{
    let entries = match c {
        ConfigValue::Obj(entries) => entries,
        _ => {
            return None;
        },
    };
    let ic = match obj_get(entries, &"ingredient".to_owned()) {
        Some(ic) => ic,
        None => {
            return None;
        },
    };
    let ingredient = match parse_circular_ingredient(ic) {
        Some(i) => i,
        None => {
            return None;
        },
    };
    let fc = match obj_get(entries, &"fallback".to_owned()) {
        Some(fc) => fc,
        None => {
            return None;
        },
    };
    match parse_circular_ingredient(fc) {
        Some(fallback) => Some(Circular { ingredient, fallback }),
        None => None,
    }
}

/// Read one recipe ingredient back, whatever its tag.
fn parse_ingredient(c: &ConfigValue) -> (r: Option<RecipeIngredient>)
    ensures
        match r {
            Option::Some(i) => spec_parse_ingredient(c@) == Option::Some(i@),
            Option::None => spec_parse_ingredient(c@) == Option::None::<RecipeIngredientV>,
        },
{
    let (tag, config) = match tag_of(c) {
        None => {
            return None;
        },
        Some(tc) => tc,
    };
    if tag.eq(&"VALUE".to_owned()) {
        if parse_value_config(config) {
            Some(RecipeIngredient::Value(Value::new()))
        } else {
            None
        }
    } else if tag.eq(&"RAW".to_owned()) {
        match parse_raw_config(config) {
            Some(v) => Some(RecipeIngredient::Raw(Raw::new(v))),
            None => None,
        }
    } else if tag.eq(&"REF".to_owned()) {
        match parse_ref_config(config) {
            Some(rf) => Some(RecipeIngredient::Ref(rf)),
            None => None,
        }
    } else if tag.eq(&"MORPH".to_owned()) {
        match parse_morph_config(config) {
            Some(m) => Some(RecipeIngredient::Morph(m)),
            None => None,
        }
    } else if tag.eq(&"MATCH".to_owned()) {
        match parse_matcher_config(config) {
            Some(m) => Some(RecipeIngredient::Match(m)),
            None => None,
        }
    } else if tag.eq(&"CIRCULAR".to_owned()) {
        match parse_circular_config(config) {
            Some(ci) => Some(RecipeIngredient::Circular(ci)),
            None => None,
        }
    } else {
        None
    }
}

/// Read the named ingredients of a recipe document back, in document order.
fn parse_ingredient_map(entries: &Vec<(String, ConfigValue)>) -> (r: Option<
    Vec<(String, RecipeIngredient)>,
>)
    ensures
        match r {
            Option::Some(m) => spec_parse_ingredient_map(centries_view(entries@))
                == Option::Some(
                m@.map_values(|e: (String, RecipeIngredient)| (e.0@, e.1@)),
            ),
            Option::None => spec_parse_ingredient_map(centries_view(entries@)) == Option::None::<
                Seq<(Seq<char>, RecipeIngredientV)>,
            >,
        },
{
    let ghost ev = centries_view(entries@);
    let ghost mv = |s: Seq<(String, RecipeIngredient)>|
        s.map_values(|e: (String, RecipeIngredient)| (e.0@, e.1@));
    let mut out: Vec<(String, RecipeIngredient)> = Vec::new();
    let mut i: usize = 0;
    proof {
        lemma_centries_view_index(entries@);
        assert(ev.skip(0) =~= ev);
        match spec_parse_ingredient_map(ev) {
            Option::None => {},
            Option::Some(rest) => {
                assert(mv(out@) + rest =~= rest);
            },
        }
    }
    while i < entries.len()
        invariant
            i <= entries.len(),
            ev == centries_view(entries@),
            ev.len() == entries@.len(),
            out@.len() == i,
            mv == (|s: Seq<(String, RecipeIngredient)>|
                s.map_values(|e: (String, RecipeIngredient)| (e.0@, e.1@))),
            forall|j: int|
                0 <= j < entries@.len() ==> #[trigger] ev[j] == (entries@[j].0@, cv_view(
                entries@[j].1,
                )),
            spec_parse_ingredient_map(ev) == (match spec_parse_ingredient_map(
                ev.skip(i as int),
            ) {
                Option::None => Option::None::<Seq<(Seq<char>, RecipeIngredientV)>>,
                Option::Some(rest) => Option::Some(mv(out@) + rest),
            }),
        decreases entries.len() - i,
    {
        proof {
            assert(ev.skip(i as int)[0] == ev[i as int]);
            assert(ev.skip(i as int).drop_first() =~= ev.skip(i + 1));
        }
        let ing = match parse_ingredient(&entries[i].1) {
            Some(ing) => ing,
            None => {
                return None;
            },
        };
        let ghost prev = out@;
        let ghost kv = (entries@[i as int].0@, ing@);
        out.push((entries[i].0.clone(), ing));
        proof {
            assert(mv(out@) =~= mv(prev).push(kv));
            match spec_parse_ingredient_map(ev.skip(i + 1)) {
                Option::None => {},
                Option::Some(rest) => {
                    assert(mv(prev) + (seq![kv] + rest) =~= mv(out@) + rest);
                },
            }
        }
        i = i + 1;
    }
    proof {
        assert(ev.skip(entries@.len() as int).len() == 0);
        assert(mv(out@) + Seq::<(Seq<char>, RecipeIngredientV)>::empty() =~= mv(out@));
    }
    Some(out)
}

/// The ingredient a recipe binds to a column name, if any; the first binding
/// wins.
pub open spec fn spec_ingredient_lookup(
    entries: Seq<(Seq<char>, RecipeIngredientV)>,
    name: Seq<char>,
) -> Option<RecipeIngredientV>
    decreases entries.len(),
{
    if entries.len() == 0 {
        Option::None
    } else if entries[0].0 == name {
        Option::Some(entries[0].1)
    } else {
        spec_ingredient_lookup(entries.drop_first(), name)
    }
}

impl Recipe {
    /// The declared primary key.
    pub fn primary_key(&self) -> (r: &PrimaryKey)
        ensures
            r@ == self@.primary_key,
    {
        &self.primary_key
    }

    /// Look the ingredient for a column up by name.
    pub fn ingredient<'a>(&'a self, table: &String) -> (r: Option<&'a RecipeIngredient>)
        ensures
            match r {
                Option::Some(i) => spec_ingredient_lookup(self@.ingredients, table@)
                    == Option::Some(i@),
                Option::None => spec_ingredient_lookup(self@.ingredients, table@) == Option::None::<
                    RecipeIngredientV,
                >,
            },
    {
        let ghost ev = self@.ingredients;
        let mut i: usize = 0;
        proof {
            assert(ev.skip(0) =~= ev);
        }
        while i < self.ingredients.len()
            invariant
                i <= self.ingredients.len(),
                ev == self@.ingredients,
                ev.len() == self.ingredients@.len(),
                spec_ingredient_lookup(ev, table@) == spec_ingredient_lookup(
                    ev.skip(i as int),
                    table@,
                ),
            decreases self.ingredients.len() - i,
        {
            proof {
                assert(ev.skip(i as int)[0] == ev[i as int]);
                assert(ev.skip(i as int).drop_first() =~= ev.skip(i + 1));
            }
            if self.ingredients[i].0.eq(table) {
                return Some(&self.ingredients[i].1);
            }
            i = i + 1;
        }
        proof {
            assert(ev.skip(self.ingredients@.len() as int).len() == 0);
        }
        None
    }

    /// Write this recipe out as a configuration document.
    pub fn to_config(&self) -> (c: ConfigValue)
        ensures
            c@ == spec_to_config(self@),
    {
        let pk = match &self.primary_key {
            PrimaryKey::Null => ConfigValue::Null,
            PrimaryKey::String(s) => ConfigValue::Str(s.clone()),
        };
        let ghost pkv = pk@;
        let mut ing_entries: Vec<(String, ConfigValue)> = Vec::new();
        let mut i: usize = 0;
        while i < self.ingredients.len()
            invariant
                i <= self.ingredients.len(),
                ing_entries@.len() == i,
                forall|j: int|
                    0 <= j < i ==> ((#[trigger] ing_entries@[j]).0@, cv_view(ing_entries@[j].1))
                        == (self.ingredients@[j].0@, spec_emit_ingredient(
                        self.ingredients@[j].1@,
                    )),
            decreases self.ingredients.len() - i,
        {
            ing_entries.push((self.ingredients[i].0.clone(), emit_ingredient(
                &self.ingredients[i].1,
            )));
            i = i + 1;
        }
        proof {
            lemma_centries_view_index(ing_entries@);
            assert(centries_view(ing_entries@) =~= spec_emit_ingredients(self@.ingredients));
        }
        let ghost iev = centries_view(ing_entries@);
        let mut entries: Vec<(String, ConfigValue)> = Vec::new();
        entries.push(("primary_key".to_owned(), pk));
        entries.push(("ingredients".to_owned(), ConfigValue::Obj(ing_entries)));
        let ghost ev = entries@;
        let c = ConfigValue::Obj(entries);
        proof {
            lemma_centries_view_index(ev);
            assert(centries_view(ev) =~= seq![
                ("primary_key"@, pkv),
                ("ingredients"@, ConfigValueV::Obj(iev)),
            ]);
            assert(c@ == ConfigValueV::Obj(centries_view(ev)));
            let ghost sp = spec_to_config(self@);
            assert(sp matches ConfigValueV::Obj(e) && centries_view(ev) =~= e);
        }
        c
    }

    /// Build a recipe from a configuration document; a malformed document
    /// yields no recipe at all.
    pub fn from_config(doc: &ConfigValue) -> (r: Option<Recipe>)
        ensures
            match r {
                Option::Some(rec) => spec_from_config(doc@) == Option::Some(rec@),
                Option::None => spec_from_config(doc@) == Option::None::<RecipeV>,
            },
    {
        let entries = match doc {
            ConfigValue::Obj(entries) => entries,
            _ => {
                return None;
            },
        };
        let pk = match obj_get(entries, &"primary_key".to_owned()) {
            Some(ConfigValue::Null) => PrimaryKey::Null,
            Some(ConfigValue::Str(s)) => PrimaryKey::String(s.clone()),
            Some(_) => {
                return None;
            },
            None => {
                return None;
            },
        };
        let ing_entries = match obj_get(entries, &"ingredients".to_owned()) {
            Some(ConfigValue::Obj(ie)) => ie,
            Some(_) => {
                return None;
            },
            None => {
                return None;
            },
        };
        match parse_ingredient_map(ing_entries) {
            Some(ingredients) => Some(Recipe { primary_key: pk, ingredients }),
            None => None,
        }
    }
}

// ---------------------------------------------------------------------------
// The round-trip law: writing a recipe out and reading it back is lossless.
// ---------------------------------------------------------------------------

/// Whether a morph is representable in a document: every discriminator in
/// its morph map is a string, the only value a document key can carry.
pub open spec fn spec_morph_wf(m: MorphV) -> bool {
    forall|i: int| 0 <= i < m.morph_map.len() ==> (#[trigger] m.morph_map[i]).0 is Str
}

/// Whether a matcher's nested ingredient is representable in a document.
pub open spec fn spec_match_ingredient_wf(i: MatchIngredientV) -> bool {
    match i {
        MatchIngredientV::Morph(m) => spec_morph_wf(m),
        _ => true,
    }
}

/// Whether a matcher is representable in a document.
pub open spec fn spec_matcher_wf(m: MatcherV) -> bool {
    &&& forall|i: int|
        0 <= i < m.on.len() ==> spec_match_ingredient_wf((#[trigger] m.on[i]).1)
    &&& forall|i: int|
        0 <= i < m.patterns.len() ==> spec_match_ingredient_wf((#[trigger] m.patterns[i]).1)
    &&& match m.default {
        Option::Some(d) => spec_match_ingredient_wf(d),
        Option::None => true,
    }
}

/// Whether a recipe ingredient is representable in a document.
pub open spec fn spec_ingredient_wf(i: RecipeIngredientV) -> bool {
    match i {
        RecipeIngredientV::Morph(m) => spec_morph_wf(m),
        RecipeIngredientV::Match(m) => spec_matcher_wf(m),
        _ => true,
    }
}

/// Whether a recipe is representable in a document.
pub open spec fn spec_recipe_wf(r: RecipeV) -> bool {
    forall|i: int|
        0 <= i < r.ingredients.len() ==> spec_ingredient_wf((#[trigger] r.ingredients[i]).1)
}

/// The document keys and tags this format uses are pairwise distinct
/// wherever one is looked up past another.
proof fn lemma_doc_literals()
    ensures
        "config"@ != "type"@,
        "optional_values"@ != "type"@,
        "morph_map"@ != "field"@,
        "optional_values"@ != "field"@,
        "optional_values"@ != "morph_map"@,
        "on"@ != "field"@,
        "patterns"@ != "field"@,
        "patterns"@ != "on"@,
        "default"@ != "field"@,
        "default"@ != "on"@,
        "default"@ != "patterns"@,
        "fallback"@ != "ingredient"@,
        "ingredients"@ != "primary_key"@,
        "RAW"@ != "VALUE"@,
        "REF"@ != "VALUE"@,
        "REF"@ != "RAW"@,
        "MORPH"@ != "VALUE"@,
        "MORPH"@ != "RAW"@,
        "MORPH"@ != "REF"@,
        "MATCH"@ != "VALUE"@,
        "MATCH"@ != "RAW"@,
        "MATCH"@ != "REF"@,
        "MATCH"@ != "MORPH"@,
        "CIRCULAR"@ != "VALUE"@,
        "CIRCULAR"@ != "RAW"@,
        "CIRCULAR"@ != "REF"@,
        "CIRCULAR"@ != "MORPH"@,
        "CIRCULAR"@ != "MATCH"@,
{
    reveal_strlit("type");
    reveal_strlit("config");
    reveal_strlit("optional_values");
    reveal_strlit("field");
    reveal_strlit("morph_map");
    reveal_strlit("on");
    reveal_strlit("patterns");
    reveal_strlit("default");
    reveal_strlit("ingredient");
    reveal_strlit("fallback");
    reveal_strlit("primary_key");
    reveal_strlit("ingredients");
    reveal_strlit("VALUE");
    reveal_strlit("RAW");
    reveal_strlit("REF");
    reveal_strlit("MORPH");
    reveal_strlit("MATCH");
    reveal_strlit("CIRCULAR");
    assert("type"@.len() == 4);
    assert("config"@.len() == 6);
    assert("optional_values"@.len() == 15);
    assert("field"@.len() == 5);
    assert("morph_map"@.len() == 9);
    assert("on"@.len() == 2);
    assert("patterns"@.len() == 8);
    assert("default"@.len() == 7);
    assert("ingredient"@.len() == 10);
    assert("fallback"@.len() == 8);
    assert("primary_key"@.len() == 11);
    assert("ingredients"@.len() == 11);
    assert("VALUE"@.len() == 5);
    assert("RAW"@.len() == 3);
    assert("REF"@.len() == 3);
    assert("MORPH"@.len() == 5);
    assert("MATCH"@.len() == 5);
    assert("CIRCULAR"@.len() == 8);
    assert("ingredients"@[0] != "primary_key"@[0]);
    assert("REF"@[1] != "RAW"@[1]);
    assert("VALUE"@[0] != "MORPH"@[0]);
    assert("VALUE"@[0] != "MATCH"@[0]);
    assert("MORPH"@[1] != "MATCH"@[1]);
}

/// A list of field-value literals written out reads back as itself.
proof fn lemma_field_values_round(l: Seq<FieldValueV>)
    ensures
        spec_parse_field_values(spec_emit_field_values(l)) == Option::Some(l),
    decreases l.len(),
{
    let e = spec_emit_field_values(l);
    if l.len() == 0 {
        assert(l =~= Seq::<FieldValueV>::empty());
    } else {
        lemma_field_values_round(l.drop_first());
        lemma_field_value_config_round_trip(l[0]);
        assert(e[0] == spec_emit_field_value(l[0]));
        assert(e.drop_first() =~= spec_emit_field_values(l.drop_first()));
        assert(seq![l[0]] + l.drop_first() =~= l);
    }
}

/// A tagged ingredient document yields its tag and configuration back.
proof fn lemma_tagged_round(tag: Seq<char>, config: ConfigValueV)
    ensures
        spec_tag_of(spec_tagged(tag, config)) == Option::Some((tag, config)),
{
    reveal_with_fuel(spec_obj_get, 6);
    lemma_doc_literals();
    let entries = seq![("type"@, ConfigValueV::Str(tag)), ("config"@, config)];
    assert(spec_obj_get(entries, "type"@) == Option::Some(ConfigValueV::Str(tag)));
    assert(entries.drop_first() =~= seq![("config"@, config)]);
    assert(spec_obj_get(entries, "config"@) == Option::Some(config));
}

/// A raw configuration written out reads back as its literal.
proof fn lemma_raw_config_round(v: FieldValueV)
    ensures
        spec_parse_raw_config(
            ConfigValueV::Obj(seq![("value"@, spec_emit_field_value(v))]),
        ) == Option::Some(v),
{
    lemma_field_value_config_round_trip(v);
}

/// A reference configuration written out reads back as itself.
proof fn lemma_ref_config_round(r: ReferenceV)
    ensures
        spec_parse_ref_config(spec_emit_ref_config(r)) == Option::Some(r),
{
    reveal_with_fuel(spec_obj_get, 6);
    lemma_doc_literals();
    let entries = seq![
        ("type"@, ConfigValueV::Str(r.etype)),
        ("optional_values"@, ConfigValueV::Arr(spec_emit_field_values(r.optional_values))),
    ];
    assert(spec_obj_get(entries, "type"@) == Option::Some(ConfigValueV::Str(r.etype)));
    assert(entries.drop_first() =~= seq![
        ("optional_values"@, ConfigValueV::Arr(spec_emit_field_values(r.optional_values))),
    ]);
    assert(spec_obj_get(entries, "optional_values"@) == Option::Some(
        ConfigValueV::Arr(spec_emit_field_values(r.optional_values)),
    ));
    lemma_field_values_round(r.optional_values);
}

/// A morph map written out reads back as itself, when every discriminator
/// is a string.
proof fn lemma_morph_entries_round(m: MorphMapV)
    requires
        forall|i: int| 0 <= i < m.len() ==> (#[trigger] m[i]).0 is Str,
    ensures
        spec_parse_morph_entries(spec_emit_morph_entries(m)) == Option::Some(m),
    decreases m.len(),
{
    let e = spec_emit_morph_entries(m);
    if m.len() == 0 {
        assert(m =~= Seq::<(FieldValueV, Seq<char>)>::empty());
    } else {
        lemma_morph_entries_round(m.drop_first());
        assert(e[0] == (spec_field_value_string(m[0].0), ConfigValueV::Str(m[0].1)));
        assert(e.drop_first() =~= spec_emit_morph_entries(m.drop_first()));
        assert(m[0].0 is Str);
        assert((FieldValueV::Str(e[0].0), m[0].1) == m[0]);
        assert(seq![m[0]] + m.drop_first() =~= m);
    }
}

/// A morph configuration written out reads back as itself, when the morph
/// is representable.
proof fn lemma_morph_config_round(m: MorphV)
    requires
        spec_morph_wf(m),
    ensures
        spec_parse_morph_config(spec_emit_morph_config(m)) == Option::Some(m),
{
    reveal_with_fuel(spec_obj_get, 6);
    lemma_doc_literals();
    let fe = ("field"@, ConfigValueV::Str(m.field));
    let me = ("morph_map"@, ConfigValueV::Obj(spec_emit_morph_entries(m.morph_map)));
    let oe = ("optional_values"@, ConfigValueV::Arr(spec_emit_field_values(m.optional_values)));
    let entries = seq![fe, me, oe];
    assert(entries.drop_first() =~= seq![me, oe]);
    assert(seq![me, oe].drop_first() =~= seq![oe]);
    assert(spec_obj_get(entries, "field"@) == Option::Some(ConfigValueV::Str(m.field)));
    assert(spec_obj_get(entries, "morph_map"@) == Option::Some(me.1));
    assert(spec_obj_get(entries, "optional_values"@) == Option::Some(oe.1));
    lemma_morph_entries_round(m.morph_map);
    lemma_field_values_round(m.optional_values);
}

/// A matcher's nested ingredient written out reads back as itself, when
/// representable.
proof fn lemma_match_ingredient_round(i: MatchIngredientV)
    requires
        spec_match_ingredient_wf(i),
    ensures
        spec_parse_match_ingredient(spec_emit_match_ingredient(i)) == Option::Some(i),
{
    lemma_doc_literals();
    match i {
        MatchIngredientV::Value => {
            lemma_tagged_round("VALUE"@, ConfigValueV::Obj(Seq::empty()));
        },
        MatchIngredientV::Raw(v) => {
            lemma_tagged_round("RAW"@, ConfigValueV::Obj(seq![("value"@, spec_emit_field_value(v))]));
            lemma_raw_config_round(v);
        },
        MatchIngredientV::Ref(r) => {
            lemma_tagged_round("REF"@, spec_emit_ref_config(r));
            lemma_ref_config_round(r);
        },
        MatchIngredientV::Morph(m) => {
            lemma_tagged_round("MORPH"@, spec_emit_morph_config(m));
            lemma_morph_config_round(m);
        },
    }
}

/// A matcher routing table written out reads back as itself, when every
/// nested ingredient is representable.
proof fn lemma_match_table_round(t: Seq<(Seq<char>, MatchIngredientV)>)
    requires
        forall|i: int| 0 <= i < t.len() ==> spec_match_ingredient_wf((#[trigger] t[i]).1),
    ensures
        spec_parse_match_table(spec_emit_match_table(t)) == Option::Some(t),
    decreases t.len(),
{
    let e = spec_emit_match_table(t);
    if t.len() == 0 {
        assert(t =~= Seq::<(Seq<char>, MatchIngredientV)>::empty());
    } else {
        lemma_match_table_round(t.drop_first());
        lemma_match_ingredient_round(t[0].1);
        assert(e[0] == (t[0].0, spec_emit_match_ingredient(t[0].1)));
        assert(e.drop_first() =~= spec_emit_match_table(t.drop_first()));
        assert((e[0].0, t[0].1) == t[0]);
        assert(seq![t[0]] + t.drop_first() =~= t);
    }
}

/// A matcher configuration written out reads back as itself, when the
/// matcher is representable.
proof fn lemma_matcher_config_round(m: MatcherV)
    requires
        spec_matcher_wf(m),
    ensures
        spec_parse_matcher_config(spec_emit_matcher_config(m)) == Option::Some(m),
{
    reveal_with_fuel(spec_obj_get, 6);
    lemma_doc_literals();
    let fe = ("field"@, ConfigValueV::Str(m.field));
    let oe = ("on"@, ConfigValueV::Obj(spec_emit_match_table(m.on)));
    let pe = ("patterns"@, ConfigValueV::Obj(spec_emit_match_table(m.patterns)));
    lemma_match_table_round(m.on);
    lemma_match_table_round(m.patterns);
    match m.default {
        Option::None => {
            let entries = seq![fe, oe, pe];
            assert(entries.drop_first() =~= seq![oe, pe]);
            assert(seq![oe, pe].drop_first() =~= seq![pe]);
            assert(seq![pe].drop_first() =~= Seq::<(Seq<char>, ConfigValueV)>::empty());
            assert(spec_obj_get(entries, "field"@) == Option::Some(fe.1));
            assert(spec_obj_get(entries, "on"@) == Option::Some(oe.1));
            assert(spec_obj_get(entries, "patterns"@) == Option::Some(pe.1));
            assert(spec_obj_get(entries, "default"@) == Option::None::<ConfigValueV>);
            assert(spec_emit_matcher_config(m) == ConfigValueV::Obj(entries));
        },
        Option::Some(d) => {
            let de = ("default"@, spec_emit_match_ingredient(d));
            let entries = seq![fe, oe, pe].push(de);
            assert(entries =~= seq![fe, oe, pe, de]);
            assert(seq![fe, oe, pe, de].drop_first() =~= seq![oe, pe, de]);
            assert(seq![oe, pe, de].drop_first() =~= seq![pe, de]);
            assert(seq![pe, de].drop_first() =~= seq![de]);
            assert(spec_obj_get(entries, "field"@) == Option::Some(fe.1));
            assert(spec_obj_get(entries, "on"@) == Option::Some(oe.1));
            assert(spec_obj_get(entries, "patterns"@) == Option::Some(pe.1));
            assert(spec_obj_get(entries, "default"@) == Option::Some(de.1));
            lemma_match_ingredient_round(d);
            assert(spec_emit_matcher_config(m) == ConfigValueV::Obj(entries));
        },
    }
}

/// A circular's nested ingredient written out reads back as itself.
proof fn lemma_circular_ingredient_round(i: CircularIngredientV)
    ensures
        spec_parse_circular_ingredient(spec_emit_circular_ingredient(i)) == Option::Some(i),
{
    lemma_doc_literals();
    match i {
        CircularIngredientV::Value => {
            lemma_tagged_round("VALUE"@, ConfigValueV::Obj(Seq::empty()));
        },
        CircularIngredientV::Raw(v) => {
            lemma_tagged_round("RAW"@, ConfigValueV::Obj(seq![("value"@, spec_emit_field_value(v))]));
            lemma_raw_config_round(v);
        },
        CircularIngredientV::Ref(r) => {
            lemma_tagged_round("REF"@, spec_emit_ref_config(r));
            lemma_ref_config_round(r);
        },
    }
}

/// A circular configuration written out reads back as itself.
proof fn lemma_circular_config_round(c: CircularV)
    ensures
        spec_parse_circular_config(spec_emit_circular_config(c)) == Option::Some(c),
{
    reveal_with_fuel(spec_obj_get, 6);
    lemma_doc_literals();
    let ie = ("ingredient"@, spec_emit_circular_ingredient(c.ingredient));
    let fe = ("fallback"@, spec_emit_circular_ingredient(c.fallback));
    let entries = seq![ie, fe];
    assert(entries.drop_first() =~= seq![fe]);
    assert(spec_obj_get(entries, "ingredient"@) == Option::Some(ie.1));
    assert(spec_obj_get(entries, "fallback"@) == Option::Some(fe.1));
    lemma_circular_ingredient_round(c.ingredient);
    lemma_circular_ingredient_round(c.fallback);
}

/// A recipe ingredient written out reads back as itself, when
/// representable.
proof fn lemma_ingredient_round(i: RecipeIngredientV)
    requires
        spec_ingredient_wf(i),
    ensures
        spec_parse_ingredient(spec_emit_ingredient(i)) == Option::Some(i),
{
    lemma_doc_literals();
    match i {
        RecipeIngredientV::Value => {
            lemma_tagged_round("VALUE"@, ConfigValueV::Obj(Seq::empty()));
        },
        RecipeIngredientV::Raw(v) => {
            lemma_tagged_round("RAW"@, ConfigValueV::Obj(seq![("value"@, spec_emit_field_value(v))]));
            lemma_raw_config_round(v);
        },
        RecipeIngredientV::Ref(r) => {
            lemma_tagged_round("REF"@, spec_emit_ref_config(r));
            lemma_ref_config_round(r);
        },
        RecipeIngredientV::Morph(m) => {
            lemma_tagged_round("MORPH"@, spec_emit_morph_config(m));
            lemma_morph_config_round(m);
        },
        RecipeIngredientV::Match(m) => {
            lemma_tagged_round("MATCH"@, spec_emit_matcher_config(m));
            lemma_matcher_config_round(m);
        },
        RecipeIngredientV::Circular(c) => {
            lemma_tagged_round("CIRCULAR"@, spec_emit_circular_config(c));
            lemma_circular_config_round(c);
        },
    }
}

/// The named ingredients written out read back as themselves, when each is
/// representable.
proof fn lemma_ingredients_round(entries: Seq<(Seq<char>, RecipeIngredientV)>)
    requires
        forall|i: int| 0 <= i < entries.len() ==> spec_ingredient_wf((#[trigger] entries[i]).1),
    ensures
        spec_parse_ingredient_map(spec_emit_ingredients(entries)) == Option::Some(entries),
    decreases entries.len(),
{
    let e = spec_emit_ingredients(entries);
    if entries.len() == 0 {
        assert(entries =~= Seq::<(Seq<char>, RecipeIngredientV)>::empty());
    } else {
        lemma_ingredients_round(entries.drop_first());
        lemma_ingredient_round(entries[0].1);
        assert(e[0] == (entries[0].0, spec_emit_ingredient(entries[0].1)));
        assert(e.drop_first() =~= spec_emit_ingredients(entries.drop_first()));
        assert((e[0].0, entries[0].1) == entries[0]);
        assert(seq![entries[0]] + entries.drop_first() =~= entries);
    }
}

/// Law: writing a recipe out as a configuration document and reading it
/// back yields exactly the same recipe, whenever the recipe is
/// representable in a document — that is, whenever every morph
/// discriminator it maps is a string, the only value a document key can
/// carry.
pub proof fn lemma_recipe_round_trip(r: RecipeV)
    requires
        spec_recipe_wf(r),
    ensures
        spec_from_config(spec_to_config(r)) == Option::Some(r),
{
    reveal_with_fuel(spec_obj_get, 6);
    lemma_doc_literals();
    let pk = (
        "primary_key"@,
        match r.primary_key {
            PrimaryKeyV::Null => ConfigValueV::Null,
            PrimaryKeyV::Str(s) => ConfigValueV::Str(s),
        },
    );
    let ie = ("ingredients"@, ConfigValueV::Obj(spec_emit_ingredients(r.ingredients)));
    let entries = seq![pk, ie];
    assert(entries.drop_first() =~= seq![ie]);
    assert(spec_obj_get(entries, "primary_key"@) == Option::Some(pk.1));
    assert(spec_obj_get(entries, "ingredients"@) == Option::Some(ie.1));
    lemma_ingredients_round(r.ingredients);
    assert(spec_from_config_with(entries, r.primary_key) == Option::Some(
        RecipeV { primary_key: r.primary_key, ingredients: r.ingredients },
    ));
    assert(RecipeV { primary_key: r.primary_key, ingredients: r.ingredients } == r);
}

} // verus!
