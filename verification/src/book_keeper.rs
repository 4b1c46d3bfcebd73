//! The identifier-resolution contract the ingredients depend on but do not
//! implement.

use vstd::prelude::*;

use crate::contracts::{EntityType, Id, IdV, opt_id_view};

verus! {

/// How a book keeper answers resolution queries, as a mathematical function
/// of its current state.
pub type ResolveFn = spec_fn(Seq<char>, IdV) -> Option<IdV>;

/// The external identity-resolution oracle: maps a source-space identifier of
/// an entity type to the corresponding target-space identifier.
pub trait BookKeeper {
    /// The mapping this keeper currently implements.
    spec fn spec_resolve(&self, etype: Seq<char>, id: IdV, authoritative: bool) -> Option<IdV>;

    /// Find (or, when `authoritative`, create) the identifier associated with
    /// the given type and source-space identifier; `None` when no mapping is
    /// known.
    fn resolve_id(&self, etype: EntityType, id: Id, authoritative: bool) -> (r: Option<Id>)
        ensures
            opt_id_view(r) == self.spec_resolve(etype@, id@, authoritative),
    ;

    /// Clear the keeper's internal resolution state, to start a fresh run.
    fn reset(&mut self);
}

/// The non-authoritative resolution the ingredients consult, as a function of
/// the keeper's current state.
pub open spec fn resolution<B: BookKeeper>(books: &B) -> ResolveFn {
    |etype: Seq<char>, id: IdV| books.spec_resolve(etype, id, false)
}

/// A deterministic stub keeper: answers every resolution query, whatever the
/// entity type and identifier, with one fixed, configured result. Meant for
/// tests and examples that need a keeper with predictable behaviour.
pub struct FixedBookKeeper {
    pub answer: Option<Id>,
}

impl FixedBookKeeper {
    pub fn new(answer: Option<Id>) -> (r: FixedBookKeeper)
        ensures
            r.answer == answer,
    {
        FixedBookKeeper { answer }
    }
}

impl BookKeeper for FixedBookKeeper {
    open spec fn spec_resolve(&self, etype: Seq<char>, id: IdV, authoritative: bool) -> Option<
        IdV,
    > {
        opt_id_view(self.answer)
    }

    fn resolve_id(&self, etype: EntityType, id: Id, authoritative: bool) -> (r: Option<Id>) {
        match &self.answer {
            None => None,
            Some(fixed) => Some(fixed.clone()),
        }
    }

    fn reset(&mut self) {
    }
}

} // verus!
