//! The kernel's "max-or-integer" convention: a limit is either the
//! literal token `max` or a decimal number of the width the control
//! file calls for.

use vstd::prelude::*;
use crate::strutil::{
    all_digits, dec_digits, dec_value, is_digit_char, is_space_char, format_u32, format_u64,
    lemma_dec_digits_ok, lemma_trim_of_trimmed, parse_u32, parse_u64, str_eq, trim, trim_spec,
};

verus! {

/// A "max-or-number" value, the scalar shape shared by most cgroup v2
/// control files.
#[derive(Debug, Clone, Copy, PartialEq, Eq)]
pub enum CGroupLimitValue<T> {
    Max,
    Value(T),
}

/// The error of the limit-value parser: the text is neither the token
/// `max` nor a decimal number of the expected width.
#[derive(Debug, PartialEq, Eq, Structural)]
pub struct ParseCGroupLimitValueError;

/// The text a 64-bit limit value renders to.
pub open spec fn limit_u64_to_spec(v: CGroupLimitValue<u64>) -> Seq<char> {
    match v {
        CGroupLimitValue::Max => "max"@,
        CGroupLimitValue::Value(n) => dec_digits(n as int),
    }
}

/// The 64-bit limit value some text reads as, if any: `max` modulo
/// surrounding whitespace, or an in-range decimal numeral (taken
/// exactly, without trimming).
pub open spec fn limit_u64_from_spec(s: Seq<char>) -> Option<CGroupLimitValue<u64>> {
    if trim_spec(s) == "max"@ {
        Some(CGroupLimitValue::Max)
    } else if s.len() > 0 && all_digits(s) && dec_value(s) <= u64::MAX {
        Some(CGroupLimitValue::Value(dec_value(s) as u64))
    } else {
        None
    }
}

/// The text a 32-bit limit value renders to.
pub open spec fn limit_u32_to_spec(v: CGroupLimitValue<u32>) -> Seq<char> {
    match v {
        CGroupLimitValue::Max => "max"@,
        CGroupLimitValue::Value(n) => dec_digits(n as int),
    }
}

/// The 32-bit limit value some text reads as, if any.
pub open spec fn limit_u32_from_spec(s: Seq<char>) -> Option<CGroupLimitValue<u32>> {
    if trim_spec(s) == "max"@ {
        Some(CGroupLimitValue::Max)
    } else if s.len() > 0 && all_digits(s) && dec_value(s) <= u32::MAX {
        Some(CGroupLimitValue::Value(dec_value(s) as u32))
    } else {
        None
    }
}

impl CGroupLimitValue<u64> {
    /// Parse a 64-bit limit value; the token `max` always succeeds,
    /// anything else must be an in-range decimal numeral.
    pub fn from_str(s: &str) -> (r: Result<Self, ParseCGroupLimitValueError>)
        ensures
            (match r {
                Ok(v) => limit_u64_from_spec(s@) == Some(v),
                Err(_) => limit_u64_from_spec(s@) is None,
            }),
    {
        let t = trim(s);
        if str_eq(t, "max") {
            Ok(CGroupLimitValue::Max)
        } else {
            match parse_u64(s) {
                Some(v) => Ok(CGroupLimitValue::Value(v)),
                None => Err(ParseCGroupLimitValueError),
            }
        }
    }

    /// Render this limit value; the exact syntactic inverse of parsing.
    pub fn to_string(&self) -> (r: String)
        ensures
            r@ == limit_u64_to_spec(*self),
    {
        match self {
            CGroupLimitValue::Max => String::from_str("max"),
            CGroupLimitValue::Value(n) => format_u64(*n),
        }
    }
}

impl CGroupLimitValue<u32> {
    /// Parse a 32-bit limit value; the token `max` always succeeds,
    /// anything else must be an in-range decimal numeral.
    pub fn from_str(s: &str) -> (r: Result<Self, ParseCGroupLimitValueError>)
        ensures
            (match r {
                Ok(v) => limit_u32_from_spec(s@) == Some(v),
                Err(_) => limit_u32_from_spec(s@) is None,
            }),
    {
        let t = trim(s);
        if str_eq(t, "max") {
            Ok(CGroupLimitValue::Max)
        } else {
            match parse_u32(s) {
                Some(v) => Ok(CGroupLimitValue::Value(v)),
                None => Err(ParseCGroupLimitValueError),
            }
        }
    }

    /// Render this limit value; the exact syntactic inverse of parsing.
    pub fn to_string(&self) -> (r: String)
        ensures
            r@ == limit_u32_to_spec(*self),
    {
        match self {
            CGroupLimitValue::Max => String::from_str("max"),
            CGroupLimitValue::Value(n) => format_u32(*n),
        }
    }
}

/// A rendered numeral is not the token `max` and carries no whitespace,
/// so it survives the parser's `max` test untouched.
proof fn lemma_numeral_is_not_max(n: int)
    requires
        n >= 0,
    ensures
        trim_spec(dec_digits(n)) == dec_digits(n),
        dec_digits(n) != "max"@,
{
    lemma_dec_digits_ok(n);
    let s = dec_digits(n);
    assert(!is_space_char(s[0]));
    assert(!is_space_char(s.last()));
    lemma_trim_of_trimmed(s);
    reveal_strlit("max");
    if s == "max"@ {
        assert(is_digit_char(s[0]));
    }
}

/// Round trip: every representable 64-bit limit value parses back from
/// its own rendering.
pub proof fn lemma_limit_u64_round_trip(v: CGroupLimitValue<u64>)
    ensures
        limit_u64_from_spec(limit_u64_to_spec(v)) == Some(v),
{
    match v {
        CGroupLimitValue::Max => {
            reveal_strlit("max");
            lemma_trim_of_trimmed("max"@);
        },
        CGroupLimitValue::Value(n) => {
            lemma_numeral_is_not_max(n as int);
            lemma_dec_digits_ok(n as int);
        },
    }
}

/// Round trip: every representable 32-bit limit value parses back from
/// its own rendering.
pub proof fn lemma_limit_u32_round_trip(v: CGroupLimitValue<u32>)
    ensures
        limit_u32_from_spec(limit_u32_to_spec(v)) == Some(v),
{
    match v {
        CGroupLimitValue::Max => {
            reveal_strlit("max");
            lemma_trim_of_trimmed("max"@);
        },
        CGroupLimitValue::Value(n) => {
            lemma_numeral_is_not_max(n as int);
            lemma_dec_digits_ok(n as int);
        },
    }
}

} // verus!
