//! The polymorphic-association ingredient: the referenced entity type varies
//! per row, determined by a companion type column.

use vstd::prelude::*;

use crate::book_keeper::{BookKeeper, ResolveFn, resolution};
use crate::contracts::{
    Dep, DepV, DeserializedValue, EntityType, FieldValue, FieldValueV, Id, IdV, Row, RowV,
    deps_view, fvs_view, row_get, strs_view,
};
use crate::ingredients::ingredient::Ingredient;
use crate::ingredients::reference::{contains_value, spec_is_optional};
use crate::tools::{field_value_eq, field_value_to_id, id_to_field_value, spec_field_value_to_id,
    spec_id_to_field_value};

verus! {

/// The mapping from a type-discriminator value to the entity type it names.
#[derive(Debug, PartialEq)]
pub struct MorphMapper {
    pub morph_map: Vec<(FieldValue, EntityType)>,
}

/// The view of a morph map: discriminator values bound to entity-type names.
pub type MorphMapV = Seq<(FieldValueV, Seq<char>)>;

impl View for MorphMapper {
    type V = MorphMapV;

    open spec fn view(&self) -> MorphMapV {
        self.morph_map@.map_values(|e: (FieldValue, EntityType)| (e.0@, e.1@))
    }
}

/// The entity type a morph map binds to a discriminator value, if any; the
/// first binding wins.
pub open spec fn spec_map_lookup(m: MorphMapV, key: FieldValueV) -> Option<Seq<char>>
    decreases m.len(),
{
    if m.len() == 0 {
        Option::None
    } else if m[0].0 == key {
        Option::Some(m[0].1)
    } else {
        spec_map_lookup(m.drop_first(), key)
    }
}

/// The dependency a morph map derives from a discriminator and a value.
pub open spec fn spec_mapper_deps(m: MorphMapV, morph_type: FieldValueV, value: FieldValueV) -> Seq<
    DepV,
> {
    match spec_map_lookup(m, morph_type) {
        Option::None => Seq::empty(),
        Option::Some(etype) => match spec_field_value_to_id(value) {
            Option::None => Seq::empty(),
            Option::Some(id) => seq![(etype, id)],
        },
    }
}

/// The identifier a morph map resolves a value to, through the keeper.
pub open spec fn spec_mapper_resolve(
    m: MorphMapV,
    morph_type: FieldValueV,
    value: FieldValueV,
    res: ResolveFn,
) -> Option<IdV> {
    match spec_map_lookup(m, morph_type) {
        Option::None => Option::None,
        Option::Some(etype) => match spec_field_value_to_id(value) {
            Option::None => Option::None,
            Option::Some(id) => res(etype, id),
        },
    }
}

impl MorphMapper {
    /// Resolve a morph type into a dependency type.
    pub fn resolve_type(&self, morph_type: &FieldValue) -> (r: Option<EntityType>)
        ensures
            match r {
                Option::Some(etype) => spec_map_lookup(self@, morph_type@) == Option::Some(etype@),
                Option::None => spec_map_lookup(self@, morph_type@) == Option::None::<Seq<char>>,
            },
    {
        let mut i: usize = 0;
        proof {
            assert(self@.skip(0) =~= self@);
        }
        while i < self.morph_map.len()
            invariant
                i <= self.morph_map.len(),
                spec_map_lookup(self@, morph_type@) == spec_map_lookup(
                    self@.skip(i as int),
                    morph_type@,
                ),
                forall|j: int| 0 <= j < i ==> #[trigger] self@[j].0 != morph_type@,
            decreases self.morph_map.len() - i,
        {
            proof {
                assert(self@.skip(i as int).len() == self@.len() - i);
                assert(self@.skip(i as int)[0] == self@[i as int]);
                assert(self@.skip(i as int).drop_first() =~= self@.skip(i + 1));
            }
            if field_value_eq(&self.morph_map[i].0, morph_type) {
                return Some(self.morph_map[i].1.clone());
            }
            i = i + 1;
        }
        proof {
            assert(self@.skip(self.morph_map@.len() as int).len() == 0);
        }
        None
    }

    /// Help a morph find its dependency.
    pub fn get_deps(&self, morph_type: &FieldValue, value: &FieldValue) -> (r: Vec<Dep>)
        ensures
            deps_view(r@) == spec_mapper_deps(self@, morph_type@, value@),
    {
        let mut r: Vec<Dep> = Vec::new();
        proof {
            assert(deps_view(r@) =~= Seq::<DepV>::empty());
        }
        match self.resolve_type(morph_type) {
            None => r,
            Some(etype) => match field_value_to_id(value.clone()) {
                None => r,
                Some(id) => {
                    let ghost idv = id@;
                    let ghost etv = etype@;
                    r.push((etype, id));
                    proof {
                        assert(deps_view(r@) =~= seq![(etv, idv)]);
                    }
                    r
                },
            },
        }
    }

    /// Help a morph resolve its value through the keeper.
    pub fn resolve<B: BookKeeper>(
        &self,
        morph_type: &FieldValue,
        value: &FieldValue,
        books: &B,
    ) -> (r: Option<Id>)
        ensures
            crate::contracts::opt_id_view(r) == spec_mapper_resolve(
                self@,
                morph_type@,
                value@,
                resolution(books),
            ),
    {
        match self.resolve_type(morph_type) {
            None => None,
            Some(etype) => match field_value_to_id(value.clone()) {
                None => None,
                Some(id) => books.resolve_id(etype, id, false),
            },
        }
    }
}

/// A polymorphic association: the entity type the value references is chosen
/// by the discriminator column named `field`, through the morph map; sentinel
/// values of either the value or the discriminator mean the association is
/// absent.
#[derive(Debug, PartialEq)]
pub struct Morph {
    pub field: String,
    pub morph_mapper: MorphMapper,
    pub optional_values: Vec<FieldValue>,
}

/// The mathematical shape of a `Morph`: its discriminator column, its morph
/// map, and its sentinel values.
pub struct MorphV {
    pub field: Seq<char>,
    pub morph_map: MorphMapV,
    pub optional_values: Seq<FieldValueV>,
}

impl View for Morph {
    type V = MorphV;

    open spec fn view(&self) -> MorphV {
        MorphV {
            field: self.field@,
            morph_map: self.morph_mapper@,
            optional_values: fvs_view(self.optional_values@),
        }
    }
}

impl Morph {
    pub fn new(
        field: String,
        morph_map: Vec<(FieldValue, EntityType)>,
        optional_values: Vec<FieldValue>,
    ) -> (r: Morph)
        ensures
            r.field@ == field@,
            r.morph_mapper@ == (MorphMapper { morph_map })@,
            fvs_view(r.optional_values@) == fvs_view(optional_values@),
    {
        Morph { field, morph_mapper: MorphMapper { morph_map }, optional_values }
    }

    /// Specify which values should be treated as optional.
    pub fn optional(&mut self, optional_values: Vec<FieldValue>)
        ensures
            final(self).field@ == old(self).field@,
            final(self).morph_mapper@ == old(self).morph_mapper@,
            fvs_view(final(self).optional_values@) == fvs_view(optional_values@),
    {
        self.optional_values = optional_values;
    }

    /// The discriminator value governing this row, unless the association is
    /// marked absent by a sentinel.
    pub open spec fn spec_morph_type(&self, value: FieldValueV, row: RowV) -> Option<FieldValueV> {
        match row_get(row, self.field@) {
            Option::None => Option::None,
            Option::Some(morph_type) => if spec_is_optional(fvs_view(self.optional_values@), value)
                || spec_is_optional(fvs_view(self.optional_values@), morph_type) {
                Option::None
            } else {
                Option::Some(morph_type)
            },
        }
    }

    /// Get the morph type for the ingredient.
    fn get_morph_type(&self, value: &FieldValue, row: &Row) -> (r: Option<FieldValue>)
        ensures
            crate::contracts::opt_fv_view(r) == self.spec_morph_type(value@, row@),
    {
        match row.get(&self.field) {
            None => None,
            Some(morph_type) => {
                if contains_value(&self.optional_values, value) || contains_value(
                    &self.optional_values,
                    morph_type,
                ) {
                    None
                } else {
                    Some(morph_type.clone())
                }
            },
        }
    }
}

impl Ingredient for Morph {
    open spec fn spec_deps(&self, value: FieldValueV, row: RowV, circular: bool) -> Seq<DepV> {
        match self.spec_morph_type(value, row) {
            Option::None => Seq::empty(),
            Option::Some(morph_type) => spec_mapper_deps(self.morph_mapper@, morph_type, value),
        }
    }

    open spec fn spec_serialize(
        &self,
        value: FieldValueV,
        row: RowV,
        res: ResolveFn,
        circular: bool,
    ) -> Option<FieldValueV> {
        match self.spec_morph_type(value, row) {
            Option::None => Option::None,
            Option::Some(morph_type) => match spec_mapper_resolve(
                self.morph_mapper@,
                morph_type,
                value,
                res,
            ) {
                Option::None => Option::None,
                Option::Some(id) => Option::Some(spec_id_to_field_value(id)),
            },
        }
    }

    open spec fn spec_deserialize(&self, value: FieldValueV, row: RowV, res: ResolveFn) -> Option<
        (Seq<DepV>, FieldValueV),
    > {
        match self.spec_morph_type(value, row) {
            Option::None => Option::None,
            Option::Some(morph_type) => match (
                spec_map_lookup(self.morph_mapper@, morph_type),
                spec_mapper_resolve(self.morph_mapper@, morph_type, value, res),
            ) {
                (Option::Some(etype), Option::Some(id)) => Option::Some(
                    (seq![(etype, id)], value),
                ),
                _ => Option::None,
            },
        }
    }

    open spec fn spec_extra_fields(&self) -> Seq<Seq<char>> {
        seq![self.field@]
    }

    fn get_deps(&self, value: &FieldValue, row: &Row, circular: bool) -> (r: Vec<Dep>) {
        match self.get_morph_type(value, row) {
            None => {
                let r: Vec<Dep> = Vec::new();
                proof {
                    assert(deps_view(r@) =~= Seq::<DepV>::empty());
                }
                r
            },
            Some(morph_type) => self.morph_mapper.get_deps(&morph_type, value),
        }
    }

    fn snapper_serialize<B: BookKeeper>(
        &self,
        value: &FieldValue,
        row: &Row,
        books: &B,
        circular: bool,
    ) -> (r: Option<FieldValue>) {
        match self.get_morph_type(value, row) {
            None => None,
            Some(morph_type) => match self.morph_mapper.resolve(&morph_type, value, books) {
                None => None,
                Some(id) => Some(id_to_field_value(id)),
            },
        }
    }

    fn snapper_deserialize<B: BookKeeper>(
        &self,
        value: &FieldValue,
        row: &Row,
        books: &B,
    ) -> (r: Option<DeserializedValue>) {
        match self.get_morph_type(value, row) {
            None => None,
            Some(morph_type) => {
                let ref_type = self.morph_mapper.resolve_type(&morph_type);
                let id = self.morph_mapper.resolve(&morph_type, value, books);
                match (ref_type, id) {
                    (Some(etype), Some(id)) => {
                        let ghost etv = etype@;
                        let ghost idv = id@;
                        let mut deps: Vec<Dep> = Vec::new();
                        deps.push((etype, id));
                        proof {
                            assert(deps_view(deps@) =~= seq![(etv, idv)]);
                        }
                        Some(DeserializedValue::new(deps, value.clone()))
                    },
                    _ => None,
                }
            },
        }
    }

    fn get_required_extra_fields(&self) -> (r: Vec<String>) {
        let mut r: Vec<String> = Vec::new();
        r.push(self.field.clone());
        proof {
            assert(strs_view(r@) =~= seq![self.field@]);
        }
        r
    }
}

} // verus!
