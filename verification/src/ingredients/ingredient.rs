//! The four-operation contract every ingredient variant implements.

use vstd::prelude::*;

use crate::book_keeper::{BookKeeper, ResolveFn, resolution};
use crate::contracts::{
    Dep, DepV, DeserializedValue, FieldValue, FieldValueV, Row, RowV, deps_view, opt_dv_view,
    opt_fv_view, strs_view,
};

verus! {

/// A rule, attached to one row column, for computing the dependencies a field
/// value implies and for converting it between the two identifier spaces.
///
/// The four spec functions are the variant's semantics; the four executable
/// operations are proved to follow them exactly.
pub trait Ingredient {
    /// The dependencies the value declares.
    spec fn spec_deps(&self, value: FieldValueV, row: RowV, circular: bool) -> Seq<DepV>;

    /// The value to emit when exporting, given the keeper's resolution.
    spec fn spec_serialize(
        &self,
        value: FieldValueV,
        row: RowV,
        res: ResolveFn,
        circular: bool,
    ) -> Option<FieldValueV>;

    /// The value to store on import, with the dependencies it introduces.
    spec fn spec_deserialize(&self, value: FieldValueV, row: RowV, res: ResolveFn) -> Option<
        (Seq<DepV>, FieldValueV),
    >;

    /// The extra columns the ingredient needs present in the row.
    spec fn spec_extra_fields(&self) -> Seq<Seq<char>>;

    /// Get all dependencies of this ingredient, without touching the resolver.
    fn get_deps(&self, value: &FieldValue, row: &Row, circular: bool) -> (r: Vec<Dep>)
        ensures
            deps_view(r@) == self.spec_deps(value@, row@, circular),
    ;

    /// Determine the value of the field to store in a serialization; `None`
    /// means the field cannot be serialized under the resolver's current
    /// state.
    fn snapper_serialize<B: BookKeeper>(
        &self,
        value: &FieldValue,
        row: &Row,
        books: &B,
        circular: bool,
    ) -> (r: Option<FieldValue>)
        ensures
            opt_fv_view(r) == self.spec_serialize(value@, row@, resolution(books), circular),
    ;

    /// Determine the value of the field to insert when deserializing, along
    /// with the dependencies to record; `None` signals the same unresolvable
    /// condition.
    fn snapper_deserialize<B: BookKeeper>(
        &self,
        value: &FieldValue,
        row: &Row,
        books: &B,
    ) -> (r: Option<DeserializedValue>)
        ensures
            opt_dv_view(r) == self.spec_deserialize(value@, row@, resolution(books)),
    ;

    /// The columns, beyond the one this ingredient is attached to, required
    /// to be present in the row for the ingredient to operate.
    fn get_required_extra_fields(&self) -> (r: Vec<String>)
        ensures
            strs_view(r@) == self.spec_extra_fields(),
    ;
}

} // verus!
