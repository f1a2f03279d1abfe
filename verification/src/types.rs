//! The closed type taxonomy of contract parameters, and the marshalling of a
//! string-encoded argument into a typed value under its declared type tag.
//!
//! One marshalling rule per tag: decimal parse with a range check for the
//! integer tags, the literals `true` / `false` for booleans, and passthrough
//! for the text-carrying tags, which the engine interprets itself.

use vstd::prelude::*;

use crate::numparse::{
    digits_val, format_i128, format_u128, is_canonical_signed, is_canonical_unsigned,
    lemma_digits_round_trip, lemma_signed_round_trip, parse_i128, parse_u128, spec_digits,
    spec_parse_signed, spec_parse_unsigned, spec_signed_digits,
};

verus! {

/// The declared type of one contract function parameter.
#[derive(Clone, Copy, PartialEq, Eq, Structural, Debug)]
pub enum TypeTag {
    U32,
    I32,
    U64,
    I64,
    U128,
    I128,
    Bool,
    Symbol,
    Text,
    Bytes,
    Address,
}

/// A marshalled argument: a value conforming to one type tag.
#[derive(PartialEq, Eq, Debug)]
pub enum TypedValue {
    U32(u32),
    I32(i32),
    U64(u64),
    I64(i64),
    U128(u128),
    I128(i128),
    Bool(bool),
    Symbol(String),
    Text(String),
    Bytes(String),
    Address(String),
}

/// The display name of a type tag, as it appears in user-facing messages.
pub open spec fn spec_tag_name(t: TypeTag) -> Seq<char> {
    match t {
        TypeTag::U32 => "U32"@,
        TypeTag::I32 => "I32"@,
        TypeTag::U64 => "U64"@,
        TypeTag::I64 => "I64"@,
        TypeTag::U128 => "U128"@,
        TypeTag::I128 => "I128"@,
        TypeTag::Bool => "Bool"@,
        TypeTag::Symbol => "Symbol"@,
        TypeTag::Text => "String"@,
        TypeTag::Bytes => "Bytes"@,
        TypeTag::Address => "Address"@,
    }
}

pub fn tag_name(t: TypeTag) -> (r: &'static str)
    ensures
        r@ == spec_tag_name(t),
{
    match t {
        TypeTag::U32 => "U32",
        TypeTag::I32 => "I32",
        TypeTag::U64 => "U64",
        TypeTag::I64 => "I64",
        TypeTag::U128 => "U128",
        TypeTag::I128 => "I128",
        TypeTag::Bool => "Bool",
        TypeTag::Symbol => "Symbol",
        TypeTag::Text => "String",
        TypeTag::Bytes => "Bytes",
        TypeTag::Address => "Address",
    }
}

/// The raw string `s` marshals under tag `t` exactly to the value `v`.
pub open spec fn marshals_to(t: TypeTag, s: Seq<char>, v: TypedValue) -> bool {
    match t {
        TypeTag::U32 => spec_parse_unsigned(s) matches Some(n) && n <= u32::MAX && v
            == TypedValue::U32(n as u32),
        TypeTag::U64 => spec_parse_unsigned(s) matches Some(n) && n <= u64::MAX && v
            == TypedValue::U64(n as u64),
        TypeTag::U128 => spec_parse_unsigned(s) matches Some(n) && n <= u128::MAX && v
            == TypedValue::U128(n as u128),
        TypeTag::I32 => spec_parse_signed(s) matches Some(n) && i32::MIN <= n <= i32::MAX && v
            == TypedValue::I32(n as i32),
        TypeTag::I64 => spec_parse_signed(s) matches Some(n) && i64::MIN <= n <= i64::MAX && v
            == TypedValue::I64(n as i64),
        TypeTag::I128 => spec_parse_signed(s) matches Some(n) && i128::MIN <= n <= i128::MAX && v
            == TypedValue::I128(n as i128),
        TypeTag::Bool => (s == "true"@ && v == TypedValue::Bool(true)) || (s == "false"@ && v
            == TypedValue::Bool(false)),
        TypeTag::Symbol => v matches TypedValue::Symbol(x) && x@ == s,
        TypeTag::Text => v matches TypedValue::Text(x) && x@ == s,
        TypeTag::Bytes => v matches TypedValue::Bytes(x) && x@ == s,
        TypeTag::Address => v matches TypedValue::Address(x) && x@ == s,
    }
}

/// The raw string `s` is rejected under tag `t`: no value of that tag can be
/// marshalled from it.
pub open spec fn marshal_fails(t: TypeTag, s: Seq<char>) -> bool {
    match t {
        TypeTag::U32 => !(spec_parse_unsigned(s) matches Some(n) && n <= u32::MAX),
        TypeTag::U64 => !(spec_parse_unsigned(s) matches Some(n) && n <= u64::MAX),
        TypeTag::U128 => !(spec_parse_unsigned(s) matches Some(n) && n <= u128::MAX),
        TypeTag::I32 => !(spec_parse_signed(s) matches Some(n) && i32::MIN <= n <= i32::MAX),
        TypeTag::I64 => !(spec_parse_signed(s) matches Some(n) && i64::MIN <= n <= i64::MAX),
        TypeTag::I128 => !(spec_parse_signed(s) matches Some(n) && i128::MIN <= n <= i128::MAX),
        TypeTag::Bool => s != "true"@ && s != "false"@,
        TypeTag::Symbol => false,
        TypeTag::Text => false,
        TypeTag::Bytes => false,
        TypeTag::Address => false,
    }
}

/// Convert one raw string into the typed value its tag dictates; `None`
/// exactly when the string is rejected under that tag.
pub fn marshal_value(t: TypeTag, raw: &String) -> (r: Option<TypedValue>)
    ensures
        match r {
            Some(v) => marshals_to(t, raw@, v),
            None => true,
        },
        (r is None) == marshal_fails(t, raw@),
{
    match t {
        TypeTag::U32 => {
            match parse_u128(raw.as_str()) {
                Some(v) => {
                    if v <= u32::MAX as u128 {
                        Some(TypedValue::U32(v as u32))
                    } else {
                        None
                    }
                },
                None => None,
            }
        },
        TypeTag::U64 => {
            match parse_u128(raw.as_str()) {
                Some(v) => {
                    if v <= u64::MAX as u128 {
                        Some(TypedValue::U64(v as u64))
                    } else {
                        None
                    }
                },
                None => None,
            }
        },
        TypeTag::U128 => {
            match parse_u128(raw.as_str()) {
                Some(v) => Some(TypedValue::U128(v)),
                None => None,
            }
        },
        TypeTag::I32 => {
            match parse_i128(raw.as_str()) {
                Some(v) => {
                    if i32::MIN as i128 <= v && v <= i32::MAX as i128 {
                        Some(TypedValue::I32(v as i32))
                    } else {
                        None
                    }
                },
                None => None,
            }
        },
        TypeTag::I64 => {
            match parse_i128(raw.as_str()) {
                Some(v) => {
                    if i64::MIN as i128 <= v && v <= i64::MAX as i128 {
                        Some(TypedValue::I64(v as i64))
                    } else {
                        None
                    }
                },
                None => None,
            }
        },
        TypeTag::I128 => {
            match parse_i128(raw.as_str()) {
                Some(v) => Some(TypedValue::I128(v)),
                None => None,
            }
        },
        TypeTag::Bool => {
            let t_lit = String::from_str("true");
            let f_lit = String::from_str("false");
            if *raw == t_lit {
                Some(TypedValue::Bool(true))
            } else if *raw == f_lit {
                Some(TypedValue::Bool(false))
            } else {
                None
            }
        },
        TypeTag::Symbol => Some(TypedValue::Symbol(raw.clone())),
        TypeTag::Text => Some(TypedValue::Text(raw.clone())),
        TypeTag::Bytes => Some(TypedValue::Bytes(raw.clone())),
        TypeTag::Address => Some(TypedValue::Address(raw.clone())),
    }
}

/// The display string of a typed value, where one is defined: the canonical
/// decimal form for integers, `true` / `false` for booleans, and the carried
/// text itself for the text-carrying tags.
pub open spec fn spec_format_value(v: TypedValue) -> Seq<char> {
    match v {
        TypedValue::U32(n) => spec_digits(n as nat),
        TypedValue::U64(n) => spec_digits(n as nat),
        TypedValue::U128(n) => spec_digits(n as nat),
        TypedValue::I32(n) => spec_signed_digits(n as int),
        TypedValue::I64(n) => spec_signed_digits(n as int),
        TypedValue::I128(n) => spec_signed_digits(n as int),
        TypedValue::Bool(b) => if b {
            "true"@
        } else {
            "false"@
        },
        TypedValue::Symbol(x) => x@,
        TypedValue::Text(x) => x@,
        TypedValue::Bytes(x) => x@,
        TypedValue::Address(x) => x@,
    }
}

pub fn format_value(v: &TypedValue) -> (r: String)
    ensures
        r@ == spec_format_value(*v),
{
    match v {
        TypedValue::U32(n) => format_u128(*n as u128),
        TypedValue::U64(n) => format_u128(*n as u128),
        TypedValue::U128(n) => format_u128(*n),
        TypedValue::I32(n) => format_i128(*n as i128),
        TypedValue::I64(n) => format_i128(*n as i128),
        TypedValue::I128(n) => format_i128(*n),
        TypedValue::Bool(b) => {
            if *b {
                String::from_str("true")
            } else {
                String::from_str("false")
            }
        },
        TypedValue::Symbol(x) => x.clone(),
        TypedValue::Text(x) => x.clone(),
        TypedValue::Bytes(x) => x.clone(),
        TypedValue::Address(x) => x.clone(),
    }
}

/// The canonical string form of some value of tag `t`: the strings on which
/// the round-trip law is stated.
pub open spec fn canonical_for(t: TypeTag, s: Seq<char>) -> bool {
    match t {
        TypeTag::U32 => is_canonical_unsigned(s) && digits_val(s) <= u32::MAX,
        TypeTag::U64 => is_canonical_unsigned(s) && digits_val(s) <= u64::MAX,
        TypeTag::U128 => is_canonical_unsigned(s) && digits_val(s) <= u128::MAX,
        TypeTag::I32 => is_canonical_signed(s) && (spec_parse_signed(s) matches Some(n) && i32::MIN
            <= n <= i32::MAX),
        TypeTag::I64 => is_canonical_signed(s) && (spec_parse_signed(s) matches Some(n) && i64::MIN
            <= n <= i64::MAX),
        TypeTag::I128 => is_canonical_signed(s) && (spec_parse_signed(s) matches Some(n)
            && i128::MIN <= n <= i128::MAX),
        TypeTag::Bool => s == "true"@ || s == "false"@,
        TypeTag::Symbol => true,
        TypeTag::Text => true,
        TypeTag::Bytes => true,
        TypeTag::Address => true,
    }
}

/// A canonical string is never rejected by marshalling: success is owed on
/// every canonical input.
pub proof fn lemma_canonical_accepted(t: TypeTag, s: Seq<char>)
    requires
        canonical_for(t, s),
    ensures
        !marshal_fails(t, s),
{
    match t {
        TypeTag::I32 | TypeTag::I64 | TypeTag::I128 => {
            lemma_signed_round_trip(s);
        },
        _ => {},
    }
}

/// Round-trip law: marshalling a value of any supported tag from its
/// canonical string form and formatting the resulting typed value back
/// yields the original string.
pub proof fn lemma_marshal_format_round_trip(t: TypeTag, s: Seq<char>, v: TypedValue)
    requires
        canonical_for(t, s),
        marshals_to(t, s, v),
    ensures
        spec_format_value(v) == s,
{
    match t {
        TypeTag::U32 | TypeTag::U64 | TypeTag::U128 => {
            lemma_digits_round_trip(s);
        },
        TypeTag::I32 | TypeTag::I64 | TypeTag::I128 => {
            lemma_signed_round_trip(s);
        },
        _ => {},
    }
}

} // verus!
