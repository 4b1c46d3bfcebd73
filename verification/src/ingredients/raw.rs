//! The constant ingredient: the stored value is replaced by a configured
//! literal.

use vstd::prelude::*;

use crate::book_keeper::{BookKeeper, ResolveFn};
use crate::contracts::{
    Dep, DepV, DeserializedValue, FieldValue, FieldValueV, Row, RowV, deps_view, strs_view,
};
use crate::ingredients::ingredient::Ingredient;

verus! {

/// A constant: ignores the input value entirely and always yields the
/// configured literal, in both directions; no dependencies, no extra fields.
#[derive(Debug, PartialEq)]
pub struct Raw {
    pub value: FieldValue,
}

impl Raw {
    pub fn new(value: FieldValue) -> (r: Raw)
        ensures
            r.value@ == value@,
    {
        Raw { value }
    }
}

impl Ingredient for Raw {
    open spec fn spec_deps(&self, value: FieldValueV, row: RowV, circular: bool) -> Seq<DepV> {
        Seq::empty()
    }

    open spec fn spec_serialize(
        &self,
        value: FieldValueV,
        row: RowV,
        res: ResolveFn,
        circular: bool,
    ) -> Option<FieldValueV> {
        Option::Some(self.value@)
    }

    open spec fn spec_deserialize(&self, value: FieldValueV, row: RowV, res: ResolveFn) -> Option<
        (Seq<DepV>, FieldValueV),
    > {
        Option::Some((Seq::empty(), self.value@))
    }

    open spec fn spec_extra_fields(&self) -> Seq<Seq<char>> {
        Seq::empty()
    }

    fn get_deps(&self, value: &FieldValue, row: &Row, circular: bool) -> (r: Vec<Dep>) {
        let r: Vec<Dep> = Vec::new();
        proof {
            assert(deps_view(r@) =~= Seq::<DepV>::empty());
        }
        r
    }

    fn snapper_serialize<B: BookKeeper>(
        &self,
        value: &FieldValue,
        row: &Row,
        books: &B,
        circular: bool,
    ) -> (r: Option<FieldValue>) {
        Some(self.value.clone())
    }

    fn snapper_deserialize<B: BookKeeper>(
        &self,
        value: &FieldValue,
        row: &Row,
        books: &B,
    ) -> (r: Option<DeserializedValue>) {
        let deps: Vec<Dep> = Vec::new();
        proof {
            assert(deps_view(deps@) =~= Seq::<DepV>::empty());
        }
        Some(DeserializedValue::new(deps, self.value.clone()))
    }

    fn get_required_extra_fields(&self) -> (r: Vec<String>) {
        let r: Vec<String> = Vec::new();
        proof {
            assert(strs_view(r@) =~= Seq::<Seq<char>>::empty());
        }
        r
    }
}

} // verus!
