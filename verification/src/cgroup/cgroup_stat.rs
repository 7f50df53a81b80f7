//! The descendant counters of `cgroup.stat`: newline-separated
//! `key value` pairs, unrecognized keys ignored.

use vstd::prelude::*;
use crate::strutil::{
    all_digits, dec_value, lines_spec, parse_u64, split_char, split_lines, split_spec, str_eq,
    trim, trim_spec,
};

verus! {

/// The parsed descendant counters of one cgroup node.
#[derive(Debug, Clone, Copy, PartialEq, Eq, Structural)]
pub struct CGroupStat {
    pub nr_descendants: u64,
    pub nr_dying_descendants: u64,
}

/// The error of the counter parser: a recognized key whose value is
/// missing or not an in-range decimal number.
#[derive(Debug, Clone, Copy, PartialEq, Eq, Structural)]
pub struct ParseCGroupStatError;

/// One line folded into the counters so far: a recognized key replaces
/// its counter (a malformed value is an error), any other line is
/// ignored.
pub open spec fn stat_line_update(acc: CGroupStat, line: Seq<char>) -> Option<CGroupStat> {
    let toks = split_spec(trim_spec(line), ' ');
    if toks[0] == "nr_descendants"@ {
        if toks.len() >= 2 && toks[1].len() > 0 && all_digits(toks[1]) && dec_value(toks[1])
            <= u64::MAX {
            Some(
                CGroupStat {
                    nr_descendants: dec_value(toks[1]) as u64,
                    nr_dying_descendants: acc.nr_dying_descendants,
                },
            )
        } else {
            None
        }
    } else if toks[0] == "nr_dying_descendants"@ {
        if toks.len() >= 2 && toks[1].len() > 0 && all_digits(toks[1]) && dec_value(toks[1])
            <= u64::MAX {
            Some(
                CGroupStat {
                    nr_descendants: acc.nr_descendants,
                    nr_dying_descendants: dec_value(toks[1]) as u64,
                },
            )
        } else {
            None
        }
    } else {
        Some(acc)
    }
}

/// The lines folded left to right, starting from `acc`; later lines
/// overwrite earlier ones, the first malformed recognized line fails
/// the whole parse.
pub open spec fn stat_fold(ls: Seq<Seq<char>>, acc: CGroupStat) -> Option<CGroupStat>
    decreases ls.len(),
{
    if ls.len() == 0 {
        Some(acc)
    } else {
        match stat_line_update(acc, ls[0]) {
            Some(a2) => stat_fold(ls.drop_first(), a2),
            None => None,
        }
    }
}

/// The counters some text reads as, if any; both counters default to
/// zero.
pub open spec fn stat_from_spec(s: Seq<char>) -> Option<CGroupStat> {
    stat_fold(lines_spec(s), CGroupStat { nr_descendants: 0, nr_dying_descendants: 0 })
}

impl CGroupStat {
    /// Parse the `key value` lines of `cgroup.stat`.
    pub fn from_str(s: &str) -> (r: Result<CGroupStat, ParseCGroupStatError>)
        ensures
            (match r {
                Ok(st) => stat_from_spec(s@) == Some(st),
                Err(_) => stat_from_spec(s@) is None,
            }),
    {
        let lines = split_lines(s);
        let mut st = CGroupStat { nr_descendants: 0, nr_dying_descendants: 0 };
        let ghost init = st;
        let mut i: usize = 0;
        proof {
            assert(lines_spec(s@).skip(0) =~= lines_spec(s@));
        }
        while i < lines.len()
            invariant
                lines.deep_view() == lines_spec(s@),
                forall|k: int| 0 <= k < lines@.len() ==> lines@[k]@ == lines.deep_view()[k],
                i <= lines@.len(),
                stat_from_spec(s@) == stat_fold(lines_spec(s@).skip(i as int), st),
                stat_from_spec(s@) == stat_fold(lines_spec(s@), init),
            decreases lines@.len() - i,
        {
            let line = lines[i];
            let t = trim(line);
            let toks = split_char(t, ' ');
            proof {
                assert(lines_spec(s@).skip(i as int)[0] == lines_spec(s@)[i as int]);
                assert(lines_spec(s@).skip(i as int).drop_first() =~= lines_spec(s@).skip(
                    i + 1,
                ));
            }
            if str_eq(toks[0], "nr_descendants") {
                if toks.len() < 2 {
                    return Err(ParseCGroupStatError);
                }
                match parse_u64(toks[1]) {
                    Some(v) => {
                        st =
                        CGroupStat {
                            nr_descendants: v,
                            nr_dying_descendants: st.nr_dying_descendants,
                        };
                    },
                    None => {
                        return Err(ParseCGroupStatError);
                    },
                }
            } else if str_eq(toks[0], "nr_dying_descendants") {
                if toks.len() < 2 {
                    return Err(ParseCGroupStatError);
                }
                match parse_u64(toks[1]) {
                    Some(v) => {
                        st =
                        CGroupStat {
                            nr_descendants: st.nr_descendants,
                            nr_dying_descendants: v,
                        };
                    },
                    None => {
                        return Err(ParseCGroupStatError);
                    },
                }
            }
            i += 1;
        }
        proof {
            assert(lines_spec(s@).skip(lines@.len() as int) =~= Seq::<Seq<char>>::empty());
        }
        Ok(st)
    }
}

} // verus!
