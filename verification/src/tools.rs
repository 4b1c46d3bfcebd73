//! Conversions between field values, identifiers, and their text form.

use vstd::prelude::*;
use vstd::string::{StrSliceExecFns, StringExecFns};

use crate::contracts::{FieldValue, FieldValueV, Id, IdV, opt_id_view};

verus! {

/// What `field_value_to_id` returns: a null value carries no identifier, an
/// integer is an integer identifier, a string is a UUID identifier.
pub open spec fn spec_field_value_to_id(v: FieldValueV) -> Option<IdV> {
    match v {
        FieldValueV::Null => Option::None,
        FieldValueV::Int(i) => Option::Some(IdV::Int(i as u64)),
        FieldValueV::Str(s) => Option::Some(IdV::Uuid(s)),
    }
}

/// What `id_to_field_value` returns: the inverse of `spec_field_value_to_id`,
/// total on identifiers.
pub open spec fn spec_id_to_field_value(id: IdV) -> FieldValueV {
    match id {
        IdV::Int(u) => FieldValueV::Int(u as i64),
        IdV::Uuid(s) => FieldValueV::Str(s),
    }
}

/// The single coercion point between a value as stored and a value as an
/// identifier.
pub fn field_value_to_id(val: FieldValue) -> (r: Option<Id>)
    ensures
        opt_id_view(r) == spec_field_value_to_id(val@),
{
    match val {
        FieldValue::Null => None,
        FieldValue::Int(v) => Some(Id::Int(v as u64)),
        FieldValue::String(s) => Some(Id::Uuid(s)),
    }
}

/// Turn an identifier back into the field value that stores it.
pub fn id_to_field_value(id: Id) -> (r: FieldValue)
    ensures
        r@ == spec_id_to_field_value(id@),
{
    match id {
        Id::Int(v) => FieldValue::Int(v as i64),
        Id::Uuid(s) => FieldValue::String(s),
    }
}

/// Law: converting an identifier to a field value and back yields the same
/// identifier, for both identifier shapes; and a null field value carries no
/// identifier at all.
pub proof fn lemma_id_field_value_round_trip(id: IdV)
    ensures
        spec_field_value_to_id(spec_id_to_field_value(id)) == Option::Some(id),
        spec_field_value_to_id(FieldValueV::Null) == Option::None::<IdV>,
{
    match id {
        IdV::Int(u) => {
            assert(((u as i64) as u64) == u) by (bit_vector);
        },
        IdV::Uuid(_) => {},
    }
}

/// Whether two field values are structurally equal.
pub fn field_value_eq(a: &FieldValue, b: &FieldValue) -> (r: bool)
    ensures
        r == (a@ == b@),
{
    match (a, b) {
        (FieldValue::Null, FieldValue::Null) => true,
        (FieldValue::Int(x), FieldValue::Int(y)) => *x == *y,
        (FieldValue::String(x), FieldValue::String(y)) => x.eq(y),
        (FieldValue::Null, _) => false,
        (FieldValue::Int(_), _) => false,
        (FieldValue::String(_), _) => false,
    }
}

/// The decimal digits of a natural number, most significant first.
pub open spec fn spec_dec_digits(n: nat) -> Seq<char>
    decreases n,
{
    if n < 10 {
        seq![spec_digit_char(n)]
    } else {
        spec_dec_digits(n / 10).push(spec_digit_char(n % 10))
    }
}

/// The character for one decimal digit.
pub open spec fn spec_digit_char(d: nat) -> char {
    if d == 0 {
        '0'
    } else if d == 1 {
        '1'
    } else if d == 2 {
        '2'
    } else if d == 3 {
        '3'
    } else if d == 4 {
        '4'
    } else if d == 5 {
        '5'
    } else if d == 6 {
        '6'
    } else if d == 7 {
        '7'
    } else if d == 8 {
        '8'
    } else {
        '9'
    }
}

/// The decimal representation of an integer: a minus sign and the digits of
/// the magnitude for a negative number, the digits alone otherwise.
pub open spec fn spec_int_to_dec(v: int) -> Seq<char> {
    if v >= 0 {
        spec_dec_digits(v as nat)
    } else {
        seq!['-'] + spec_dec_digits((-v) as nat)
    }
}

/// The one-character text of a decimal digit.
fn digit_str(d: usize) -> (r: &'static str)
    requires
        d < 10,
    ensures
        r@ == seq![spec_digit_char(d as nat)],
{
    let digits = "0123456789";
    proof {
        reveal_strlit("0123456789");
        assert(vstd::string::is_ascii(digits)) by {
            assert forall|i: int| 0 <= i < digits@.len() implies '\0' <= #[trigger] digits@[i]
                <= '\u{7f}' by {}
        }
    }
    let r = digits.substring_ascii(d, d + 1);
    proof {
        assert(r@ =~= seq![spec_digit_char(d as nat)]);
    }
    r
}

/// The decimal digits of an unsigned number, most significant first.
fn nat_to_string(n: u64) -> (r: String)
    ensures
        r@ == spec_dec_digits(n as nat),
    decreases n,
{
    if n < 10 {
        let r = digit_str(n as usize).to_owned();
        proof {
            assert(r@ =~= spec_dec_digits(n as nat));
        }
        r
    } else {
        let mut r = nat_to_string(n / 10);
        let d = digit_str((n % 10) as usize);
        r.append(d);
        proof {
            assert(r@ =~= spec_dec_digits(n as nat));
        }
        r
    }
}

/// The decimal representation of an integer: the digits of its magnitude,
/// with a leading minus sign for a negative number.
fn int_to_string(v: i64) -> (r: String)
    ensures
        r@ == spec_int_to_dec(v as int),
{
    if v >= 0 {
        nat_to_string(v as u64)
    } else {
        let magnitude: u64 = ((-(v + 1)) as u64) + 1;
        proof {
            assert(magnitude as int == -(v as int));
        }
        let mut r = "-".to_owned();
        let digits = nat_to_string(magnitude);
        r.append(digits.as_str());
        proof {
            reveal_strlit("-");
            assert(r@ =~= spec_int_to_dec(v as int));
        }
        r
    }
}

/// The text form of a field value: nothing for null, the decimal digits for
/// an integer, the string itself otherwise.
pub open spec fn spec_field_value_string(v: FieldValueV) -> Seq<char> {
    match v {
        FieldValueV::Null => Seq::empty(),
        FieldValueV::Int(i) => spec_int_to_dec(i as int),
        FieldValueV::Str(s) => s,
    }
}

/// Turn a field value into the text form a matcher inspects.
pub fn field_value_to_string(val: &FieldValue) -> (r: String)
    ensures
        r@ == spec_field_value_string(val@),
{
    match val {
        FieldValue::Null => String::new(),
        FieldValue::Int(v) => int_to_string(*v),
        FieldValue::String(s) => s.clone(),
    }
}

} // verus!
