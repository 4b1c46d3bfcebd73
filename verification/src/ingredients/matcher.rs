//! The value-based ingredient router: pick a nested ingredient by inspecting
//! one column of the row.

use vstd::prelude::*;

use crate::book_keeper::{BookKeeper, ResolveFn};
use crate::contracts::{
    Dep, DepV, DeserializedValue, FieldValue, FieldValueV, Row, RowV, deps_view, row_get,
    strs_view,
};
use crate::ingredients::ingredient::Ingredient;
use crate::ingredients::morph::Morph;
use crate::ingredients::raw::Raw;
use crate::ingredients::reference::Reference;
use crate::ingredients::value::Value;
use crate::tools::{field_value_to_string, spec_field_value_string};

verus! {

/// Whether the regex written as `pattern` matches anywhere in `text`; a
/// pattern that does not compile matches nothing.
pub uninterp spec fn regex_match(pattern: Seq<char>, text: Seq<char>) -> bool;

/// Relies on `regex::Regex::new` and `regex::Regex::is_match`: whether the
/// pattern, compiled as a regex, matches anywhere in the text, where a
/// pattern that does not compile is treated as matching nothing. Both calls
/// depend on their arguments alone.
#[verifier::external_body]
fn regex_is_match(pattern: &String, text: &String) -> (r: bool)
    ensures
        r == regex_match(pattern@, text@),
{
    match regex::Regex::new(pattern.as_str()) {
        Ok(re) => re.is_match(text.as_str()),
        Err(_) => false,
    }
}

/// An ingredient a `Matcher` can route to.
#[derive(Debug, PartialEq)]
pub enum MatchIngredient {
    Value(Value),
    Raw(Raw),
    Ref(Reference),
    Morph(Morph),
}

impl Ingredient for MatchIngredient {
    open spec fn spec_deps(&self, value: FieldValueV, row: RowV, circular: bool) -> Seq<DepV> {
        match self {
            MatchIngredient::Value(v) => v.spec_deps(value, row, circular),
            MatchIngredient::Raw(r) => r.spec_deps(value, row, circular),
            MatchIngredient::Ref(r) => r.spec_deps(value, row, circular),
            MatchIngredient::Morph(m) => m.spec_deps(value, row, circular),
        }
    }

    open spec fn spec_serialize(
        &self,
        value: FieldValueV,
        row: RowV,
        res: ResolveFn,
        circular: bool,
    ) -> Option<FieldValueV> {
        match self {
            MatchIngredient::Value(v) => v.spec_serialize(value, row, res, circular),
            MatchIngredient::Raw(r) => r.spec_serialize(value, row, res, circular),
            MatchIngredient::Ref(r) => r.spec_serialize(value, row, res, circular),
            MatchIngredient::Morph(m) => m.spec_serialize(value, row, res, circular),
        }
    }

    open spec fn spec_deserialize(&self, value: FieldValueV, row: RowV, res: ResolveFn) -> Option<
        (Seq<DepV>, FieldValueV),
    > {
        match self {
            MatchIngredient::Value(v) => v.spec_deserialize(value, row, res),
            MatchIngredient::Raw(r) => r.spec_deserialize(value, row, res),
            MatchIngredient::Ref(r) => r.spec_deserialize(value, row, res),
            MatchIngredient::Morph(m) => m.spec_deserialize(value, row, res),
        }
    }

    open spec fn spec_extra_fields(&self) -> Seq<Seq<char>> {
        match self {
            MatchIngredient::Value(v) => v.spec_extra_fields(),
            MatchIngredient::Raw(r) => r.spec_extra_fields(),
            MatchIngredient::Ref(r) => r.spec_extra_fields(),
            MatchIngredient::Morph(m) => m.spec_extra_fields(),
        }
    }

    fn get_deps(&self, value: &FieldValue, row: &Row, circular: bool) -> (r: Vec<Dep>) {
        match self {
            MatchIngredient::Value(v) => v.get_deps(value, row, circular),
            MatchIngredient::Raw(r) => r.get_deps(value, row, circular),
            MatchIngredient::Ref(r) => r.get_deps(value, row, circular),
            MatchIngredient::Morph(m) => m.get_deps(value, row, circular),
        }
    }

    fn snapper_serialize<B: BookKeeper>(
        &self,
        value: &FieldValue,
        row: &Row,
        books: &B,
        circular: bool,
    ) -> (r: Option<FieldValue>) {
        match self {
            MatchIngredient::Value(v) => v.snapper_serialize(value, row, books, circular),
            MatchIngredient::Raw(r) => r.snapper_serialize(value, row, books, circular),
            MatchIngredient::Ref(r) => r.snapper_serialize(value, row, books, circular),
            MatchIngredient::Morph(m) => m.snapper_serialize(value, row, books, circular),
        }
    }

    fn snapper_deserialize<B: BookKeeper>(
        &self,
        value: &FieldValue,
        row: &Row,
        books: &B,
    ) -> (r: Option<DeserializedValue>) {
        match self {
            MatchIngredient::Value(v) => v.snapper_deserialize(value, row, books),
            MatchIngredient::Raw(r) => r.snapper_deserialize(value, row, books),
            MatchIngredient::Ref(r) => r.snapper_deserialize(value, row, books),
            MatchIngredient::Morph(m) => m.snapper_deserialize(value, row, books),
        }
    }

    fn get_required_extra_fields(&self) -> (r: Vec<String>) {
        match self {
            MatchIngredient::Value(v) => v.get_required_extra_fields(),
            MatchIngredient::Raw(r) => r.get_required_extra_fields(),
            MatchIngredient::Ref(r) => r.get_required_extra_fields(),
            MatchIngredient::Morph(m) => m.get_required_extra_fields(),
        }
    }
}

/// The mathematical shape of a `MatchIngredient`.
pub enum MatchIngredientV {
    Value,
    Raw(FieldValueV),
    Ref(crate::ingredients::reference::ReferenceV),
    Morph(crate::ingredients::morph::MorphV),
}

impl View for MatchIngredient {
    type V = MatchIngredientV;

    open spec fn view(&self) -> MatchIngredientV {
        match self {
            MatchIngredient::Value(_) => MatchIngredientV::Value,
            MatchIngredient::Raw(r) => MatchIngredientV::Raw(r.value@),
            MatchIngredient::Ref(r) => MatchIngredientV::Ref(r@),
            MatchIngredient::Morph(m) => MatchIngredientV::Morph(m@),
        }
    }
}

/// The view of a routing table: its text keys as character sequences, its
/// ingredients as they are.
pub open spec fn table_view(entries: Seq<(String, MatchIngredient)>) -> Seq<
    (Seq<char>, MatchIngredient),
> {
    entries.map_values(|e: (String, MatchIngredient)| (e.0@, e.1))
}

/// The ingredient an exact-match table binds to a text, if any; the first
/// binding wins.
pub open spec fn spec_on_lookup(entries: Seq<(Seq<char>, MatchIngredient)>, text: Seq<char>) -> Option<
    MatchIngredient,
>
    decreases entries.len(),
{
    if entries.len() == 0 {
        Option::None
    } else if entries[0].0 == text {
        Option::Some(entries[0].1)
    } else {
        spec_on_lookup(entries.drop_first(), text)
    }
}

/// The ingredient of the first pattern rule, in configured order, whose
/// regex matches the text, if any.
pub open spec fn spec_pattern_lookup(
    entries: Seq<(Seq<char>, MatchIngredient)>,
    text: Seq<char>,
) -> Option<MatchIngredient>
    decreases entries.len(),
{
    if entries.len() == 0 {
        Option::None
    } else if regex_match(entries[0].0, text) {
        Option::Some(entries[0].1)
    } else {
        spec_pattern_lookup(entries.drop_first(), text)
    }
}

/// A value-based router: stringify the designated column's value, then try
/// the exact-match table first, the pattern rules in configured order next,
/// and the default ingredient last; all four operations delegate to the
/// matched ingredient, and to no one when nothing matches.
#[derive(Debug, PartialEq)]
pub struct Matcher {
    pub field: String,
    pub on: Vec<(String, MatchIngredient)>,
    pub patterns: Vec<(String, MatchIngredient)>,
    pub default: Option<MatchIngredient>,
}

/// The mathematical shape of a `Matcher`: its column, its two tables in
/// configured order, and its default.
pub struct MatcherV {
    pub field: Seq<char>,
    pub on: Seq<(Seq<char>, MatchIngredientV)>,
    pub patterns: Seq<(Seq<char>, MatchIngredientV)>,
    pub default: Option<MatchIngredientV>,
}

impl View for Matcher {
    type V = MatcherV;

    open spec fn view(&self) -> MatcherV {
        MatcherV {
            field: self.field@,
            on: self.on@.map_values(|e: (String, MatchIngredient)| (e.0@, e.1@)),
            patterns: self.patterns@.map_values(|e: (String, MatchIngredient)| (e.0@, e.1@)),
            default: match self.default {
                Option::None => Option::None,
                Option::Some(d) => Option::Some(d@),
            },
        }
    }
}

impl Matcher {
    pub fn new(
        field: String,
        on: Vec<(String, MatchIngredient)>,
        patterns: Vec<(String, MatchIngredient)>,
        default: Option<MatchIngredient>,
    ) -> (r: Matcher)
        ensures
            r.field@ == field@,
            r.on == on,
            r.patterns == patterns,
            r.default == default,
    {
        Matcher { field, on, patterns, default }
    }

    /// The nested ingredient this row routes to, if any: the exact-match
    /// table takes priority over the pattern rules, the pattern rules over
    /// the default.
    pub open spec fn spec_matched(&self, row: RowV) -> Option<MatchIngredient> {
        match row_get(row, self.field@) {
            Option::None => Option::None,
            Option::Some(val) => match spec_on_lookup(
                table_view(self.on@),
                spec_field_value_string(val),
            ) {
                Option::Some(ing) => Option::Some(ing),
                Option::None => match spec_pattern_lookup(
                    table_view(self.patterns@),
                    spec_field_value_string(val),
                ) {
                    Option::Some(ing) => Option::Some(ing),
                    Option::None => self.default,
                },
            },
        }
    }

    /// Perform a match and find the correct ingredient.
    fn get_matched_ingredient<'a>(&'a self, row: &Row) -> (r: Option<&'a MatchIngredient>)
        ensures
            match r {
                Option::Some(ing) => self.spec_matched(row@) == Option::Some(*ing),
                Option::None => self.spec_matched(row@) == Option::None::<MatchIngredient>,
            },
    {
        let val = match row.get(&self.field) {
            None => {
                return None;
            },
            Some(val) => val,
        };
        let text = field_value_to_string(val);
        let ghost tv = table_view(self.on@);
        let mut i: usize = 0;
        proof {
            assert(tv.skip(0) =~= tv);
        }
        while i < self.on.len()
            invariant
                i <= self.on.len(),
                tv == table_view(self.on@),
                tv.len() == self.on@.len(),
                row_get(row@, self.field@) == Option::Some(val@),
                text@ == spec_field_value_string(val@),
                spec_on_lookup(tv, text@) == spec_on_lookup(tv.skip(i as int), text@),
            decreases self.on.len() - i,
        {
            proof {
                assert(tv.skip(i as int)[0] == tv[i as int]);
                assert(tv.skip(i as int).drop_first() =~= tv.skip(i + 1));
            }
            if self.on[i].0.eq(&text) {
                proof {
                    assert(spec_on_lookup(tv, text@) == Option::Some(self.on@[i as int].1));
                }
                return Some(&self.on[i].1);
            }
            i = i + 1;
        }
        proof {
            assert(tv.skip(self.on@.len() as int).len() == 0);
        }
        let ghost pv = table_view(self.patterns@);
        let mut j: usize = 0;
        proof {
            assert(pv.skip(0) =~= pv);
        }
        while j < self.patterns.len()
            invariant
                j <= self.patterns.len(),
                pv == table_view(self.patterns@),
                pv.len() == self.patterns@.len(),
                row_get(row@, self.field@) == Option::Some(val@),
                text@ == spec_field_value_string(val@),
                spec_on_lookup(table_view(self.on@), text@) == Option::None::<MatchIngredient>,
                spec_pattern_lookup(pv, text@) == spec_pattern_lookup(pv.skip(j as int), text@),
            decreases self.patterns.len() - j,
        {
            proof {
                assert(pv.skip(j as int)[0] == pv[j as int]);
                assert(pv.skip(j as int).drop_first() =~= pv.skip(j + 1));
            }
            if regex_is_match(&self.patterns[j].0, &text) {
                proof {
                    assert(spec_pattern_lookup(pv, text@) == Option::Some(
                        self.patterns@[j as int].1,
                    ));
                }
                return Some(&self.patterns[j].1);
            }
            j = j + 1;
        }
        proof {
            assert(pv.skip(self.patterns@.len() as int).len() == 0);
        }
        match &self.default {
            Some(d) => Some(d),
            None => None,
        }
    }
}

impl Ingredient for Matcher {
    open spec fn spec_deps(&self, value: FieldValueV, row: RowV, circular: bool) -> Seq<DepV> {
        match self.spec_matched(row) {
            Option::None => Seq::empty(),
            Option::Some(ing) => ing.spec_deps(value, row, circular),
        }
    }

    open spec fn spec_serialize(
        &self,
        value: FieldValueV,
        row: RowV,
        res: ResolveFn,
        circular: bool,
    ) -> Option<FieldValueV> {
        match self.spec_matched(row) {
            Option::None => Option::None,
            Option::Some(ing) => ing.spec_serialize(value, row, res, circular),
        }
    }

    open spec fn spec_deserialize(&self, value: FieldValueV, row: RowV, res: ResolveFn) -> Option<
        (Seq<DepV>, FieldValueV),
    > {
        match self.spec_matched(row) {
            Option::None => Option::None,
            Option::Some(ing) => ing.spec_deserialize(value, row, res),
        }
    }

    open spec fn spec_extra_fields(&self) -> Seq<Seq<char>> {
        seq![self.field@]
    }

    fn get_deps(&self, value: &FieldValue, row: &Row, circular: bool) -> (r: Vec<Dep>) {
        match self.get_matched_ingredient(row) {
            None => {
                let r: Vec<Dep> = Vec::new();
                proof {
                    assert(deps_view(r@) =~= Seq::<DepV>::empty());
                }
                r
            },
            Some(ing) => ing.get_deps(value, row, circular),
        }
    }

    fn snapper_serialize<B: BookKeeper>(
        &self,
        value: &FieldValue,
        row: &Row,
        books: &B,
        circular: bool,
    ) -> (r: Option<FieldValue>) {
        match self.get_matched_ingredient(row) {
            None => None,
            Some(ing) => ing.snapper_serialize(value, row, books, circular),
        }
    }

    fn snapper_deserialize<B: BookKeeper>(
        &self,
        value: &FieldValue,
        row: &Row,
        books: &B,
    ) -> (r: Option<DeserializedValue>) {
        match self.get_matched_ingredient(row) {
            None => None,
            Some(ing) => ing.snapper_deserialize(value, row, books),
        }
    }

    fn get_required_extra_fields(&self) -> (r: Vec<String>) {
        let mut r: Vec<String> = Vec::new();
        r.push(self.field.clone());
        proof {
            assert(strs_view(r@) =~= seq![self.field@]);
        }
        r
    }
}

/// Law: the exact-match table takes priority over the pattern rules, and the
/// pattern rules over the default ingredient.
pub proof fn lemma_matcher_priority(m: &Matcher, row: RowV, val: FieldValueV)
    requires
        row_get(row, m.field@) == Option::Some(val),
    ensures
        spec_on_lookup(table_view(m.on@), spec_field_value_string(val)) is Some ==> m.spec_matched(
            row,
        ) == spec_on_lookup(table_view(m.on@), spec_field_value_string(val)),
        spec_on_lookup(table_view(m.on@), spec_field_value_string(val)) is None
            && spec_pattern_lookup(table_view(m.patterns@), spec_field_value_string(val)) is Some
            ==> m.spec_matched(row) == spec_pattern_lookup(
            table_view(m.patterns@),
            spec_field_value_string(val),
        ),
        spec_on_lookup(table_view(m.on@), spec_field_value_string(val)) is None
            && spec_pattern_lookup(table_view(m.patterns@), spec_field_value_string(val)) is None
            ==> m.spec_matched(row) == m.default,
{
}

/// Law: when no exact match, no pattern, and no default apply, a matcher
/// yields no dependencies and no serialized or deserialized result.
pub proof fn lemma_matcher_no_match(
    m: &Matcher,
    value: FieldValueV,
    row: RowV,
    res: ResolveFn,
    circular: bool,
)
    requires
        m.spec_matched(row) is None,
    ensures
        m.spec_deps(value, row, circular) == Seq::<DepV>::empty(),
        m.spec_serialize(value, row, res, circular) is None,
        m.spec_deserialize(value, row, res) is None,
{
}

} // verus!
