//! The value model: field values, identifiers, dependencies, rows, and the
//! result of deserializing one field.

use vstd::prelude::*;

verus! {

/// A stored field value: the closed union of scalars a row column can hold.
#[derive(Debug, PartialEq)]
pub enum FieldValue {
    Null,
    Int(i64),
    String(String),
}

/// The mathematical shape of a `FieldValue`: a string is its character sequence.
pub enum FieldValueV {
    Null,
    Int(i64),
    Str(Seq<char>),
}

impl View for FieldValue {
    type V = FieldValueV;

    open spec fn view(&self) -> FieldValueV {
        match self {
            FieldValue::Null => FieldValueV::Null,
            FieldValue::Int(i) => FieldValueV::Int(*i),
            FieldValue::String(s) => FieldValueV::Str(s@),
        }
    }
}

impl Clone for FieldValue {
    fn clone(&self) -> (r: Self)
        ensures
            r@ == self@,
    {
        match self {
            FieldValue::Null => FieldValue::Null,
            FieldValue::Int(i) => FieldValue::Int(*i),
            FieldValue::String(s) => FieldValue::String(s.clone()),
        }
    }
}

/// An identifier in either identifier space; the tag says which shape it has.
#[derive(Debug, PartialEq)]
pub enum Id {
    Int(u64),
    Uuid(String),
}

/// The mathematical shape of an `Id`.
pub enum IdV {
    Int(u64),
    Uuid(Seq<char>),
}

impl View for Id {
    type V = IdV;

    open spec fn view(&self) -> IdV {
        match self {
            Id::Int(i) => IdV::Int(*i),
            Id::Uuid(s) => IdV::Uuid(s@),
        }
    }
}

impl Clone for Id {
    fn clone(&self) -> (r: Self)
        ensures
            r@ == self@,
    {
        match self {
            Id::Int(i) => Id::Int(*i),
            Id::Uuid(s) => Id::Uuid(s.clone()),
        }
    }
}

/// The name of a collection or table, stable across both systems.
pub type EntityType = String;

/// A declared dependency of a field value on another entity.
pub type Dep = (EntityType, Id);

/// The mathematical shape of a `Dep`.
pub type DepV = (Seq<char>, IdV);

/// The view of a sequence of dependencies.
pub open spec fn deps_view(deps: Seq<Dep>) -> Seq<DepV> {
    deps.map_values(|d: Dep| (d.0@, d.1@))
}

/// The view of a sequence of field values.
pub open spec fn fvs_view(vs: Seq<FieldValue>) -> Seq<FieldValueV> {
    vs.map_values(|v: FieldValue| v@)
}

/// The view of a sequence of column names.
pub open spec fn strs_view(ss: Seq<String>) -> Seq<Seq<char>> {
    ss.map_values(|s: String| s@)
}

/// The view of an optional field value.
pub open spec fn opt_fv_view(o: Option<FieldValue>) -> Option<FieldValueV> {
    match o {
        Option::None => Option::None,
        Option::Some(v) => Option::Some(v@),
    }
}

/// The view of an optional identifier.
pub open spec fn opt_id_view(o: Option<Id>) -> Option<IdV> {
    match o {
        Option::None => Option::None,
        Option::Some(v) => Option::Some(v@),
    }
}

/// The value to persist on import, together with the dependencies it
/// introduces. Immutable once constructed.
#[derive(Debug)]
pub struct DeserializedValue {
    deps: Vec<Dep>,
    value: FieldValue,
}

impl View for DeserializedValue {
    type V = (Seq<DepV>, FieldValueV);

    closed spec fn view(&self) -> (Seq<DepV>, FieldValueV) {
        (deps_view(self.deps@), self.value@)
    }
}

/// The view of an optional deserialized value.
pub open spec fn opt_dv_view(o: Option<DeserializedValue>) -> Option<(Seq<DepV>, FieldValueV)> {
    match o {
        Option::None => Option::None,
        Option::Some(v) => Option::Some(v@),
    }
}

impl DeserializedValue {
    pub fn new(deps: Vec<Dep>, value: FieldValue) -> (r: DeserializedValue)
        ensures
            r@ == (deps_view(deps@), value@),
    {
        DeserializedValue { deps, value }
    }

    /// The dependencies this value introduces.
    pub fn deps(&self) -> (r: Vec<Dep>)
        ensures
            deps_view(r@) == self@.0,
    {
        let mut out: Vec<Dep> = Vec::new();
        let mut i: usize = 0;
        while i < self.deps.len()
            invariant
                i <= self.deps.len(),
                out@.len() == i,
                forall|j: int|
                    0 <= j < i ==> (#[trigger] out@[j].0@, out@[j].1@) == (
                    self.deps@[j].0@,
                    self.deps@[j].1@,
                    ),
            decreases self.deps.len() - i,
        {
            let d = &self.deps[i];
            out.push((d.0.clone(), d.1.clone()));
            i = i + 1;
        }
        proof {
            assert(deps_view(out@) =~= deps_view(self.deps@));
        }
        out
    }

    /// The field value to persist.
    pub fn value(&self) -> (r: FieldValue)
        ensures
            r@ == self@.1,
    {
        self.value.clone()
    }
}

/// A row as the engine sees it: column names bound to field values. A later
/// binding for the same column shadows an earlier one.
pub struct Row {
    cols: Vec<(String, FieldValue)>,
}

/// The view of a row: the column bindings in insertion order.
pub type RowV = Seq<(Seq<char>, FieldValueV)>;

impl View for Row {
    type V = RowV;

    closed spec fn view(&self) -> RowV {
        self.cols@.map_values(|c: (String, FieldValue)| (c.0@, c.1@))
    }
}

/// The value bound to a column name: the most recent binding wins.
pub open spec fn row_get(r: RowV, key: Seq<char>) -> Option<FieldValueV>
    decreases r.len(),
{
    if r.len() == 0 {
        Option::None
    } else if r.last().0 == key {
        Option::Some(r.last().1)
    } else {
        row_get(r.drop_last(), key)
    }
}

impl Row {
    pub fn new() -> (r: Row)
        ensures
            r@ == Seq::<(Seq<char>, FieldValueV)>::empty(),
    {
        let r = Row { cols: Vec::new() };
        proof {
            assert(r@ =~= Seq::<(Seq<char>, FieldValueV)>::empty());
        }
        r
    }

    /// Bind a column name to a value; the new binding shadows any older one.
    pub fn insert(&mut self, key: String, value: FieldValue)
        ensures
            final(self)@ == old(self)@.push((key@, value@)),
            forall|k: Seq<char>| #[trigger]
                row_get(final(self)@, k) == (if k == key@ {
                    Option::Some(value@)
                } else {
                    row_get(old(self)@, k)
                }),
    {
        let ghost prev = self@;
        let ghost kv = (key@, value@);
        self.cols.push((key, value));
        proof {
            assert(self@ =~= prev.push(kv));
            assert(self@.drop_last() =~= prev);
            assert forall|k: Seq<char>| #[trigger]
                row_get(self@, k) == (if k == kv.0 {
                    Option::Some(kv.1)
                } else {
                    row_get(prev, k)
                }) by {
                assert(self@.last() == kv);
            }
        }
    }

    /// Look a column up by name.
    pub fn get(&self, key: &String) -> (r: Option<&FieldValue>)
        ensures
            match r {
                Option::Some(v) => row_get(self@, key@) == Option::Some(v@),
                Option::None => row_get(self@, key@) == Option::None::<FieldValueV>,
            },
    {
        let mut found: Option<usize> = None;
        let mut i: usize = 0;
        while i < self.cols.len()
            invariant
                i <= self.cols.len(),
                self@.len() == self.cols@.len(),
                forall|j: int|
                    0 <= j < self.cols@.len() ==> #[trigger] self@[j] == (
                    self.cols@[j].0@,
                    self.cols@[j].1@,
                    ),
                match found {
                    Option::Some(f) => f < i && row_get(self@.take(i as int), key@)
                        == Option::Some(self@[f as int].1),
                    Option::None => row_get(self@.take(i as int), key@)
                        == Option::None::<FieldValueV>,
                },
            decreases self.cols.len() - i,
        {
            proof {
                assert(self@.take(i + 1).drop_last() =~= self@.take(i as int));
                assert(self@.take(i + 1).last() == self@[i as int]);
            }
            if self.cols[i].0 == *key {
                found = Some(i);
            }
            i = i + 1;
        }
        proof {
            assert(self@.take(self.cols@.len() as int) =~= self@);
        }
        match found {
            Some(f) => Some(&self.cols[f].1),
            None => None,
        }
    }
}

} // verus!
