//! The two-token grammar of the CPU bandwidth control file: a
//! "max-or-number" quota followed by a period, separated by a space.

use vstd::prelude::*;
use crate::cgroup::limit_value::{
    lemma_limit_u64_round_trip, limit_u64_from_spec, limit_u64_to_spec, CGroupLimitValue,
    ParseCGroupLimitValueError,
};
use crate::strutil::{
    all_digits, dec_digits, dec_value, format_u64, is_digit_char, is_space_char,
    lemma_dec_digits_ok, lemma_split_two_tokens, lemma_trim_of_trimmed, parse_u64, split_char,
    split_spec, trim, trim_spec,
};

verus! {

/// The CPU bandwidth limit: quota per period, the quota possibly
/// unlimited.
#[derive(Debug, Clone, Copy, PartialEq, Eq)]
pub struct CpuLimit {
    pub max: CGroupLimitValue<u64>,
    pub period: u64,
}

/// The error of the CPU limit parser: a missing or malformed quota or
/// period token.
#[derive(Debug, PartialEq, Eq, Structural)]
pub struct ParseCpuLimitError;

/// The text a CPU limit renders to: quota, one space, period.
pub open spec fn cpu_limit_to_spec(l: CpuLimit) -> Seq<char> {
    limit_u64_to_spec(l.max) + seq![' '] + dec_digits(l.period as int)
}

/// The CPU limit some text reads as, if any: after trimming, the first
/// space-separated token must be a 64-bit limit value and the second an
/// in-range decimal period; further tokens are ignored.
pub open spec fn cpu_limit_from_spec(s: Seq<char>) -> Option<CpuLimit> {
    let toks = split_spec(trim_spec(s), ' ');
    match limit_u64_from_spec(toks[0]) {
        Some(m) => if toks.len() >= 2 && toks[1].len() > 0 && all_digits(toks[1]) && dec_value(
            toks[1],
        ) <= u64::MAX {
            Some(CpuLimit { max: m, period: dec_value(toks[1]) as u64 })
        } else {
            None
        },
        None => None,
    }
}

impl CpuLimit {
    /// Parse the two-token CPU bandwidth grammar.
    pub fn from_str(s: &str) -> (r: Result<Self, ParseCpuLimitError>)
        ensures
            (match r {
                Ok(l) => cpu_limit_from_spec(s@) == Some(l),
                Err(_) => cpu_limit_from_spec(s@) is None,
            }),
    {
        let t = trim(s);
        let toks = split_char(t, ' ');
        let m = match CGroupLimitValue::<u64>::from_str(toks[0]) {
            Ok(m) => m,
            Err(_) => {
                return Err(ParseCpuLimitError);
            },
        };
        if toks.len() < 2 {
            return Err(ParseCpuLimitError);
        }
        match parse_u64(toks[1]) {
            Some(p) => Ok(CpuLimit { max: m, period: p }),
            None => Err(ParseCpuLimitError),
        }
    }

    /// Render this CPU limit; the exact syntactic inverse of parsing.
    pub fn to_string(&self) -> (r: String)
        ensures
            r@ == cpu_limit_to_spec(*self),
    {
        let mut r = self.max.to_string();
        r.append(" ");
        let p = format_u64(self.period);
        r.append(p.as_str());
        proof {
            reveal_strlit(" ");
            assert(" "@ =~= seq![' ']);
        }
        r
    }
}

/// Round trip: every representable CPU limit parses back from its own
/// rendering — formatting is the exact syntactic inverse of parsing.
pub proof fn lemma_cpu_limit_round_trip(l: CpuLimit)
    ensures
        cpu_limit_from_spec(cpu_limit_to_spec(l)) == Some(l),
{
    let a = limit_u64_to_spec(l.max);
    let p = dec_digits(l.period as int);
    let s = a + seq![' '] + p;
    lemma_dec_digits_ok(l.period as int);
    assert(forall|i: int| 0 <= i < p.len() ==> p[i] != ' ');
    reveal_strlit("max");
    match l.max {
        CGroupLimitValue::Max => {
            assert(forall|i: int| 0 <= i < a.len() ==> a[i] != ' ') by {
                assert(a[0] == 'm' && a[1] == 'a' && a[2] == 'x');
            }
        },
        CGroupLimitValue::Value(n) => {
            lemma_dec_digits_ok(n as int);
            assert(forall|i: int| 0 <= i < a.len() ==> a[i] != ' ');
        },
    }
    lemma_split_two_tokens(a, p, ' ');
    assert(s[0] == a[0]);
    assert(s.last() == p.last());
    assert(!is_space_char(s[0])) by {
        match l.max {
            CGroupLimitValue::Max => {
                assert(a[0] == 'm');
            },
            CGroupLimitValue::Value(n) => {
                assert(is_digit_char(a[0]));
            },
        }
    }
    assert(!is_space_char(s.last())) by {
        assert(is_digit_char(p.last()));
    }
    lemma_trim_of_trimmed(s);
    let toks = split_spec(trim_spec(s), ' ');
    assert(toks == seq![a, p]);
    assert(toks[0] == a && toks[1] == p && toks.len() == 2);
    lemma_limit_u64_round_trip(l.max);
}

} // verus!
