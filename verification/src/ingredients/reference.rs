//! The single-foreign-key ingredient: one column referencing one entity type.

use vstd::prelude::*;

use crate::book_keeper::{BookKeeper, ResolveFn, resolution};
use crate::contracts::{
    Dep, DepV, DeserializedValue, EntityType, FieldValue, FieldValueV, Id, IdV, Row, RowV,
    deps_view, fvs_view, strs_view,
};
use crate::ingredients::ingredient::Ingredient;
use crate::tools::{field_value_eq, field_value_to_id, id_to_field_value, spec_field_value_to_id,
    spec_id_to_field_value};

verus! {

/// The configuration of a `Reference`: the referenced entity type and the
/// sentinel values that mean "no reference".
#[derive(Debug, PartialEq)]
pub struct RefConfig {
    pub type_: EntityType,
    pub optional_values: Vec<FieldValue>,
}

/// A single foreign key: the value names an entity of one fixed type, unless
/// it equals one of the configured sentinel values.
#[derive(Debug, PartialEq)]
pub struct Reference {
    pub config: RefConfig,
}

/// The mathematical shape of a `Reference`: the entity type's name and the
/// sentinel values.
pub struct ReferenceV {
    pub etype: Seq<char>,
    pub optional_values: Seq<FieldValueV>,
}

impl View for Reference {
    type V = ReferenceV;

    open spec fn view(&self) -> ReferenceV {
        ReferenceV {
            etype: self.config.type_@,
            optional_values: fvs_view(self.config.optional_values@),
        }
    }
}

/// Whether a value is one of the configured sentinels.
pub open spec fn spec_is_optional(opts: Seq<FieldValueV>, v: FieldValueV) -> bool {
    opts.contains(v)
}

/// Whether an executable sentinel list contains the value.
pub fn contains_value(opts: &Vec<FieldValue>, v: &FieldValue) -> (r: bool)
    ensures
        r == spec_is_optional(fvs_view(opts@), v@),
{
    let mut i: usize = 0;
    while i < opts.len()
        invariant
            i <= opts.len(),
            forall|j: int| 0 <= j < i ==> #[trigger] opts@[j]@ != v@,
        decreases opts.len() - i,
    {
        if field_value_eq(&opts[i], v) {
            proof {
                assert(fvs_view(opts@)[i as int] == v@);
            }
            return true;
        }
        i = i + 1;
    }
    proof {
        assert forall|j: int| 0 <= j < fvs_view(opts@).len() implies #[trigger] fvs_view(opts@)[j]
            != v@ by {
            assert(fvs_view(opts@)[j] == opts@[j]@);
        }
    }
    false
}

impl Reference {
    pub fn new(type_: EntityType, optional_values: Vec<FieldValue>) -> (r: Reference)
        ensures
            r.config.type_@ == type_@,
            fvs_view(r.config.optional_values@) == fvs_view(optional_values@),
    {
        Reference { config: RefConfig { type_, optional_values } }
    }

    /// Specify which values should be treated as optional.
    pub fn optional(&mut self, optional_values: Vec<FieldValue>)
        ensures
            final(self).config.type_@ == old(self).config.type_@,
            fvs_view(final(self).config.optional_values@) == fvs_view(optional_values@),
    {
        self.config.optional_values = optional_values;
    }
}

impl Ingredient for Reference {
    open spec fn spec_deps(&self, value: FieldValueV, row: RowV, circular: bool) -> Seq<DepV> {
        if spec_is_optional(fvs_view(self.config.optional_values@), value) {
            Seq::empty()
        } else {
            match spec_field_value_to_id(value) {
                Option::None => Seq::empty(),
                Option::Some(id) => seq![(self.config.type_@, id)],
            }
        }
    }

    open spec fn spec_serialize(
        &self,
        value: FieldValueV,
        row: RowV,
        res: ResolveFn,
        circular: bool,
    ) -> Option<FieldValueV> {
        if spec_is_optional(fvs_view(self.config.optional_values@), value) {
            Option::Some(value)
        } else {
            match spec_field_value_to_id(value) {
                Option::None => Option::None,
                Option::Some(id) => match res(self.config.type_@, id) {
                    Option::None => Option::None,
                    Option::Some(resolved) => Option::Some(spec_id_to_field_value(resolved)),
                },
            }
        }
    }

    open spec fn spec_deserialize(&self, value: FieldValueV, row: RowV, res: ResolveFn) -> Option<
        (Seq<DepV>, FieldValueV),
    > {
        if spec_is_optional(fvs_view(self.config.optional_values@), value) {
            Option::Some((Seq::empty(), value))
        } else {
            match spec_field_value_to_id(value) {
                Option::None => Option::None,
                Option::Some(id) => match res(self.config.type_@, id) {
                    Option::None => Option::None,
                    Option::Some(resolved) => Option::Some(
                        (seq![(self.config.type_@, id)], spec_id_to_field_value(resolved)),
                    ),
                },
            }
        }
    }

    open spec fn spec_extra_fields(&self) -> Seq<Seq<char>> {
        Seq::empty()
    }

    fn get_deps(&self, value: &FieldValue, row: &Row, circular: bool) -> (r: Vec<Dep>) {
        let mut r: Vec<Dep> = Vec::new();
        proof {
            assert(deps_view(r@) =~= Seq::<DepV>::empty());
        }
        if contains_value(&self.config.optional_values, value) {
            return r;
        }
        match field_value_to_id(value.clone()) {
            None => r,
            Some(id) => {
                let ghost idv = id@;
                r.push((self.config.type_.clone(), id));
                proof {
                    assert(deps_view(r@) =~= seq![(self.config.type_@, idv)]);
                }
                r
            },
        }
    }

    fn snapper_serialize<B: BookKeeper>(
        &self,
        value: &FieldValue,
        row: &Row,
        books: &B,
        circular: bool,
    ) -> (r: Option<FieldValue>) {
        if contains_value(&self.config.optional_values, value) {
            return Some(value.clone());
        }
        match field_value_to_id(value.clone()) {
            None => None,
            Some(id) => match books.resolve_id(self.config.type_.clone(), id, false) {
                None => None,
                Some(resolved) => Some(id_to_field_value(resolved)),
            },
        }
    }

    fn snapper_deserialize<B: BookKeeper>(
        &self,
        value: &FieldValue,
        row: &Row,
        books: &B,
    ) -> (r: Option<DeserializedValue>) {
        if contains_value(&self.config.optional_values, value) {
            let deps: Vec<Dep> = Vec::new();
            proof {
                assert(deps_view(deps@) =~= Seq::<DepV>::empty());
            }
            return Some(DeserializedValue::new(deps, value.clone()));
        }
        match field_value_to_id(value.clone()) {
            None => None,
            Some(id) => {
                let ghost idv = id@;
                match books.resolve_id(self.config.type_.clone(), id.clone(), false) {
                    None => None,
                    Some(resolved) => {
                        let mut deps: Vec<Dep> = Vec::new();
                        deps.push((self.config.type_.clone(), id));
                        proof {
                            assert(deps_view(deps@) =~= seq![(self.config.type_@, idv)]);
                        }
                        Some(DeserializedValue::new(deps, id_to_field_value(resolved)))
                    },
                }
            },
        }
    }

    fn get_required_extra_fields(&self) -> (r: Vec<String>) {
        let r: Vec<String> = Vec::new();
        proof {
            assert(strs_view(r@) =~= Seq::<Seq<char>>::empty());
        }
        r
    }
}

} // verus!
