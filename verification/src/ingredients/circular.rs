//! The recursion-breaking ingredient for self-referential schemas.

use vstd::prelude::*;

use crate::book_keeper::{BookKeeper, ResolveFn};
use crate::contracts::{
    Dep, DepV, DeserializedValue, FieldValue, FieldValueV, Row, RowV,
};
use crate::ingredients::ingredient::Ingredient;
use crate::ingredients::raw::Raw;
use crate::ingredients::reference::Reference;
use crate::ingredients::value::Value;

verus! {

/// An ingredient a `Circular` can wrap.
#[derive(Debug, PartialEq)]
pub enum CircularIngredient {
    Value(Value),
    Raw(Raw),
    Ref(Reference),
}

impl Ingredient for CircularIngredient {
    open spec fn spec_deps(&self, value: FieldValueV, row: RowV, circular: bool) -> Seq<DepV> {
        match self {
            CircularIngredient::Value(v) => v.spec_deps(value, row, circular),
            CircularIngredient::Raw(r) => r.spec_deps(value, row, circular),
            CircularIngredient::Ref(r) => r.spec_deps(value, row, circular),
        }
    }

    open spec fn spec_serialize(
        &self,
        value: FieldValueV,
        row: RowV,
        res: ResolveFn,
        circular: bool,
    ) -> Option<FieldValueV> {
        match self {
            CircularIngredient::Value(v) => v.spec_serialize(value, row, res, circular),
            CircularIngredient::Raw(r) => r.spec_serialize(value, row, res, circular),
            CircularIngredient::Ref(r) => r.spec_serialize(value, row, res, circular),
        }
    }

    open spec fn spec_deserialize(&self, value: FieldValueV, row: RowV, res: ResolveFn) -> Option<
        (Seq<DepV>, FieldValueV),
    > {
        match self {
            CircularIngredient::Value(v) => v.spec_deserialize(value, row, res),
            CircularIngredient::Raw(r) => r.spec_deserialize(value, row, res),
            CircularIngredient::Ref(r) => r.spec_deserialize(value, row, res),
        }
    }

    open spec fn spec_extra_fields(&self) -> Seq<Seq<char>> {
        match self {
            CircularIngredient::Value(v) => v.spec_extra_fields(),
            CircularIngredient::Raw(r) => r.spec_extra_fields(),
            CircularIngredient::Ref(r) => r.spec_extra_fields(),
        }
    }

    fn get_deps(&self, value: &FieldValue, row: &Row, circular: bool) -> (r: Vec<Dep>) {
        match self {
            CircularIngredient::Value(v) => v.get_deps(value, row, circular),
            CircularIngredient::Raw(r) => r.get_deps(value, row, circular),
            CircularIngredient::Ref(r) => r.get_deps(value, row, circular),
        }
    }

    fn snapper_serialize<B: BookKeeper>(
        &self,
        value: &FieldValue,
        row: &Row,
        books: &B,
        circular: bool,
    ) -> (r: Option<FieldValue>) {
        match self {
            CircularIngredient::Value(v) => v.snapper_serialize(value, row, books, circular),
            CircularIngredient::Raw(r) => r.snapper_serialize(value, row, books, circular),
            CircularIngredient::Ref(r) => r.snapper_serialize(value, row, books, circular),
        }
    }

    fn snapper_deserialize<B: BookKeeper>(
        &self,
        value: &FieldValue,
        row: &Row,
        books: &B,
    ) -> (r: Option<DeserializedValue>) {
        match self {
            CircularIngredient::Value(v) => v.snapper_deserialize(value, row, books),
            CircularIngredient::Raw(r) => r.snapper_deserialize(value, row, books),
            CircularIngredient::Ref(r) => r.snapper_deserialize(value, row, books),
        }
    }

    fn get_required_extra_fields(&self) -> (r: Vec<String>) {
        match self {
            CircularIngredient::Value(v) => v.get_required_extra_fields(),
            CircularIngredient::Raw(r) => r.get_required_extra_fields(),
            CircularIngredient::Ref(r) => r.get_required_extra_fields(),
        }
    }
}

/// The mathematical shape of a `CircularIngredient`.
pub enum CircularIngredientV {
    Value,
    Raw(FieldValueV),
    Ref(crate::ingredients::reference::ReferenceV),
}

impl View for CircularIngredient {
    type V = CircularIngredientV;

    open spec fn view(&self) -> CircularIngredientV {
        match self {
            CircularIngredient::Value(_) => CircularIngredientV::Value,
            CircularIngredient::Raw(r) => CircularIngredientV::Raw(r.value@),
            CircularIngredient::Ref(r) => CircularIngredientV::Ref(r@),
        }
    }
}

/// Breaks unbounded recursion in cyclic entity graphs: with the caller's
/// `circular` flag set, the primary ingredient answers; without it, the
/// fallback answers. Either way the nested call sees the flag cleared, so at
/// most one level of indirection can occur.
#[derive(Debug, PartialEq)]
pub struct Circular {
    pub ingredient: CircularIngredient,
    pub fallback: CircularIngredient,
}

/// The mathematical shape of a `Circular`: its primary and its fallback.
pub struct CircularV {
    pub ingredient: CircularIngredientV,
    pub fallback: CircularIngredientV,
}

impl View for Circular {
    type V = CircularV;

    open spec fn view(&self) -> CircularV {
        CircularV { ingredient: self.ingredient@, fallback: self.fallback@ }
    }
}

impl Circular {
    pub fn new(ingredient: CircularIngredient, fallback: CircularIngredient) -> (r: Circular)
        ensures
            r.ingredient == ingredient,
            r.fallback == fallback,
    {
        Circular { ingredient, fallback }
    }
}

impl Ingredient for Circular {
    open spec fn spec_deps(&self, value: FieldValueV, row: RowV, circular: bool) -> Seq<DepV> {
        if circular {
            self.ingredient.spec_deps(value, row, false)
        } else {
            self.fallback.spec_deps(value, row, false)
        }
    }

    open spec fn spec_serialize(
        &self,
        value: FieldValueV,
        row: RowV,
        res: ResolveFn,
        circular: bool,
    ) -> Option<FieldValueV> {
        if circular {
            self.ingredient.spec_serialize(value, row, res, false)
        } else {
            self.fallback.spec_serialize(value, row, res, false)
        }
    }

    open spec fn spec_deserialize(&self, value: FieldValueV, row: RowV, res: ResolveFn) -> Option<
        (Seq<DepV>, FieldValueV),
    > {
        self.ingredient.spec_deserialize(value, row, res)
    }

    open spec fn spec_extra_fields(&self) -> Seq<Seq<char>> {
        self.ingredient.spec_extra_fields()
    }

    fn get_deps(&self, value: &FieldValue, row: &Row, circular: bool) -> (r: Vec<Dep>) {
        if circular {
            self.ingredient.get_deps(value, row, false)
        } else {
            self.fallback.get_deps(value, row, false)
        }
    }

    fn snapper_serialize<B: BookKeeper>(
        &self,
        value: &FieldValue,
        row: &Row,
        books: &B,
        circular: bool,
    ) -> (r: Option<FieldValue>) {
        if circular {
            self.ingredient.snapper_serialize(value, row, books, false)
        } else {
            self.fallback.snapper_serialize(value, row, books, false)
        }
    }

    fn snapper_deserialize<B: BookKeeper>(
        &self,
        value: &FieldValue,
        row: &Row,
        books: &B,
    ) -> (r: Option<DeserializedValue>) {
        self.ingredient.snapper_deserialize(value, row, books)
    }

    fn get_required_extra_fields(&self) -> (r: Vec<String>) {
        self.ingredient.get_required_extra_fields()
    }
}

/// Law: with the circular flag set, a `Circular` computes exactly what its
/// primary ingredient computes with the flag cleared; with the flag cleared,
/// exactly what its fallback computes with the flag cleared. So a nested call
/// never sees the flag set again, whatever the caller passed.
pub proof fn lemma_circular_delegation(
    c: &Circular,
    value: FieldValueV,
    row: RowV,
    res: ResolveFn,
)
    ensures
        c.spec_deps(value, row, true) == c.ingredient.spec_deps(value, row, false),
        c.spec_deps(value, row, false) == c.fallback.spec_deps(value, row, false),
        c.spec_serialize(value, row, res, true) == c.ingredient.spec_serialize(
            value,
            row,
            res,
            false,
        ),
        c.spec_serialize(value, row, res, false) == c.fallback.spec_serialize(
            value,
            row,
            res,
            false,
        ),
{
}

/// Law: deserialization always delegates to the primary ingredient; the
/// fallback is never consulted on import.
pub proof fn lemma_circular_deserialize_primary(
    c: &Circular,
    value: FieldValueV,
    row: RowV,
    res: ResolveFn,
)
    ensures
        c.spec_deserialize(value, row, res) == c.ingredient.spec_deserialize(value, row, res),
{
}

} // verus!
