//! The typed values a settings entry can hold, and the coercion of one value
//! into its canonical string form.
//!
//! The coercion table is closed: the six integer widths render in decimal,
//! booleans as lowercase `true`/`false`, text as-is, and every other kind —
//! arrays, timestamps, identifiers, composites — is not representable and
//! yields nothing. The platform boundary decodes raw text (lossily where the
//! stored encoding is malformed) before it builds a `TypedValue`.

use vstd::prelude::*;

use crate::decimal::{i64_to_decimal, spec_decimal_int, spec_decimal_nat, u64_to_decimal};

verus! {

/// A settings entry's value, tagged with its primitive kind. `Other` stands
/// for every unsupported representation.
pub enum TypedValue {
    Int16(i16),
    Int32(i32),
    Int64(i64),
    UInt16(u16),
    UInt32(u32),
    UInt64(u64),
    Boolean(bool),
    Text(String),
    Other,
}

/// The coercion table: the string a value coerces to, or nothing for an
/// unsupported kind.
pub open spec fn spec_coerce(v: TypedValue) -> Option<Seq<char>> {
    match v {
        TypedValue::Int16(x) => Some(spec_decimal_int(x as int)),
        TypedValue::Int32(x) => Some(spec_decimal_int(x as int)),
        TypedValue::Int64(x) => Some(spec_decimal_int(x as int)),
        TypedValue::UInt16(x) => Some(spec_decimal_nat(x as nat)),
        TypedValue::UInt32(x) => Some(spec_decimal_nat(x as nat)),
        TypedValue::UInt64(x) => Some(spec_decimal_nat(x as nat)),
        TypedValue::Boolean(b) => Some(if b { seq!['t', 'r', 'u', 'e'] } else { seq!['f', 'a', 'l', 's', 'e'] }),
        TypedValue::Text(s) => Some(s@),
        TypedValue::Other => None,
    }
}

fn bool_str(b: bool) -> (r: &'static str)
    ensures
        r@ == (if b { seq!['t', 'r', 'u', 'e'] } else { seq!['f', 'a', 'l', 's', 'e'] }),
{
    if b {
        proof {
            reveal_strlit("true");
            assert("true"@ =~= seq!['t', 'r', 'u', 'e']);
        }
        "true"
    } else {
        proof {
            reveal_strlit("false");
            assert("false"@ =~= seq!['f', 'a', 'l', 's', 'e']);
        }
        "false"
    }
}

/// Coerces one typed value: exactly the table's string for a supported kind,
/// nothing — no placeholder, no error — for an unsupported one.
pub fn coerce_one(v: &TypedValue) -> (r: Option<String>)
    ensures
        match r {
            Some(s) => spec_coerce(*v) == Some(s@),
            None => spec_coerce(*v) is None,
        },
{
    match v {
        TypedValue::Int16(x) => Some(i64_to_decimal(*x as i64)),
        TypedValue::Int32(x) => Some(i64_to_decimal(*x as i64)),
        TypedValue::Int64(x) => Some(i64_to_decimal(*x)),
        TypedValue::UInt16(x) => Some(u64_to_decimal(*x as u64)),
        TypedValue::UInt32(x) => Some(u64_to_decimal(*x as u64)),
        TypedValue::UInt64(x) => Some(u64_to_decimal(*x)),
        TypedValue::Boolean(b) => Some(bool_str(*b).to_owned()),
        TypedValue::Text(s) => Some(s.clone()),
        TypedValue::Other => None,
    }
}

} // verus!
