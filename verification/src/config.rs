//! The self-describing configuration tree a recipe is persisted as. The
//! surrounding application turns a text document into this tree and back;
//! the library parses and emits recipes on it, fully verified.

use vstd::prelude::*;

use crate::contracts::{FieldValue, FieldValueV, opt_fv_view};

verus! {

/// A node of a configuration document: null, a number, a string, an ordered
/// list, or an object whose entries keep their configured order.
#[derive(Debug, PartialEq)]
pub enum ConfigValue {
    Null,
    Int(i64),
    Str(String),
    Arr(Vec<ConfigValue>),
    Obj(Vec<(String, ConfigValue)>),
}

/// The mathematical shape of a configuration node.
pub enum ConfigValueV {
    Null,
    Int(i64),
    Str(Seq<char>),
    Arr(Seq<ConfigValueV>),
    Obj(Seq<(Seq<char>, ConfigValueV)>),
}

/// The view of one configuration node.
pub open spec fn cv_view(c: ConfigValue) -> ConfigValueV
    decreases c,
{
    match c {
        ConfigValue::Null => ConfigValueV::Null,
        ConfigValue::Int(i) => ConfigValueV::Int(i),
        ConfigValue::Str(s) => ConfigValueV::Str(s@),
        ConfigValue::Arr(items) => ConfigValueV::Arr(cvs_view(items@)),
        ConfigValue::Obj(entries) => ConfigValueV::Obj(centries_view(entries@)),
    }
}

/// The view of a list of configuration nodes.
pub open spec fn cvs_view(s: Seq<ConfigValue>) -> Seq<ConfigValueV>
    decreases s,
{
    if s.len() == 0 {
        Seq::empty()
    } else {
        seq![cv_view(s[0])] + cvs_view(s.drop_first())
    }
}

/// The view of the entries of a configuration object.
pub open spec fn centries_view(s: Seq<(String, ConfigValue)>) -> Seq<(Seq<char>, ConfigValueV)>
    decreases s,
{
    if s.len() == 0 {
        Seq::empty()
    } else {
        seq![(s[0].0@, cv_view(s[0].1))] + centries_view(s.drop_first())
    }
}

impl View for ConfigValue {
    type V = ConfigValueV;

    open spec fn view(&self) -> ConfigValueV {
        cv_view(*self)
    }
}

/// The view of a node list has one view per node, in order.
pub proof fn lemma_cvs_view_index(s: Seq<ConfigValue>)
    ensures
        cvs_view(s).len() == s.len(),
        forall|i: int| 0 <= i < s.len() ==> #[trigger] cvs_view(s)[i] == cv_view(s[i]),
    decreases s.len(),
{
    if s.len() > 0 {
        lemma_cvs_view_index(s.drop_first());
        assert forall|i: int| 0 <= i < s.len() implies #[trigger] cvs_view(s)[i] == cv_view(
            s[i],
        ) by {
            if i > 0 {
                assert(s.drop_first()[i - 1] == s[i]);
                assert(cvs_view(s)[i] == cvs_view(s.drop_first())[i - 1]);
            }
        }
    }
}

/// The view of an entry list has one viewed entry per entry, in order.
pub proof fn lemma_centries_view_index(s: Seq<(String, ConfigValue)>)
    ensures
        centries_view(s).len() == s.len(),
        forall|i: int|
            0 <= i < s.len() ==> #[trigger] centries_view(s)[i] == (s[i].0@, cv_view(s[i].1)),
    decreases s.len(),
{
    if s.len() > 0 {
        lemma_centries_view_index(s.drop_first());
        assert forall|i: int| 0 <= i < s.len() implies #[trigger] centries_view(s)[i] == (
        s[i].0@,
        cv_view(s[i].1),
        ) by {
            if i > 0 {
                assert(s.drop_first()[i - 1] == s[i]);
                assert(centries_view(s)[i] == centries_view(s.drop_first())[i - 1]);
            }
        }
    }
}

/// The node an object binds to a key, if any; the first binding wins.
pub open spec fn spec_obj_get(entries: Seq<(Seq<char>, ConfigValueV)>, key: Seq<char>) -> Option<
    ConfigValueV,
>
    decreases entries.len(),
{
    if entries.len() == 0 {
        Option::None
    } else if entries[0].0 == key {
        Option::Some(entries[0].1)
    } else {
        spec_obj_get(entries.drop_first(), key)
    }
}

/// Look a key up in the entries of a configuration object.
pub fn obj_get<'a>(entries: &'a Vec<(String, ConfigValue)>, key: &String) -> (r: Option<
    &'a ConfigValue,
>)
    ensures
        match r {
            Option::Some(c) => spec_obj_get(centries_view(entries@), key@) == Option::Some(c@),
            Option::None => spec_obj_get(centries_view(entries@), key@) == Option::None::<
                ConfigValueV,
            >,
        },
{
    let ghost ev = centries_view(entries@);
    proof {
        lemma_centries_view_index(entries@);
        assert(ev.skip(0) =~= ev);
    }
    let mut i: usize = 0;
    while i < entries.len()
        invariant
            i <= entries.len(),
            ev == centries_view(entries@),
            ev.len() == entries@.len(),
            forall|j: int|
                0 <= j < entries@.len() ==> ev[j] == ((#[trigger] entries@[j]).0@, cv_view(
                entries@[j].1,
                )),
            spec_obj_get(ev, key@) == spec_obj_get(ev.skip(i as int), key@),
        decreases entries.len() - i,
    {
        proof {
            assert(ev.skip(i as int)[0] == ev[i as int]);
            assert(ev.skip(i as int).drop_first() =~= ev.skip(i + 1));
        }
        if entries[i].0.eq(key) {
            proof {
                assert(spec_obj_get(ev, key@) == Option::Some(cv_view(entries@[i as int].1)));
            }
            return Some(&entries[i].1);
        }
        i = i + 1;
    }
    proof {
        assert(ev.skip(entries@.len() as int).len() == 0);
    }
    None
}

/// What a field value looks like in a configuration document: null, a
/// number, or a string.
pub open spec fn spec_emit_field_value(v: FieldValueV) -> ConfigValueV {
    match v {
        FieldValueV::Null => ConfigValueV::Null,
        FieldValueV::Int(i) => ConfigValueV::Int(i),
        FieldValueV::Str(s) => ConfigValueV::Str(s),
    }
}

/// The field value a configuration node denotes; a list or an object
/// denotes none.
pub open spec fn spec_parse_field_value(c: ConfigValueV) -> Option<FieldValueV> {
    match c {
        ConfigValueV::Null => Option::Some(FieldValueV::Null),
        ConfigValueV::Int(i) => Option::Some(FieldValueV::Int(i)),
        ConfigValueV::Str(s) => Option::Some(FieldValueV::Str(s)),
        ConfigValueV::Arr(_) => Option::None,
        ConfigValueV::Obj(_) => Option::None,
    }
}

/// Write a field value as a configuration node.
pub fn field_value_to_config(val: &FieldValue) -> (r: ConfigValue)
    ensures
        r@ == spec_emit_field_value(val@),
{
    match val {
        FieldValue::Null => ConfigValue::Null,
        FieldValue::Int(i) => ConfigValue::Int(*i),
        FieldValue::String(s) => ConfigValue::Str(s.clone()),
    }
}

/// Read a field value back from a configuration node.
pub fn config_to_field_value(c: &ConfigValue) -> (r: Option<FieldValue>)
    ensures
        opt_fv_view(r) == spec_parse_field_value(c@),
{
    match c {
        ConfigValue::Null => Some(FieldValue::Null),
        ConfigValue::Int(i) => Some(FieldValue::Int(*i)),
        ConfigValue::Str(s) => Some(FieldValue::String(s.clone())),
        ConfigValue::Arr(_) => None,
        ConfigValue::Obj(_) => None,
    }
}

/// Law: a field value written as a configuration node reads back as itself.
pub proof fn lemma_field_value_config_round_trip(v: FieldValueV)
    ensures
        spec_parse_field_value(spec_emit_field_value(v)) == Option::Some(v),
{
}

} // verus!
