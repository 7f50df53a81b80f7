//! Verified text utilities for the whitespace-and-newline-delimited
//! grammars of cgroup v2 control files: character classification,
//! string equality, trimming, splitting, joining, and decimal numerals.

use vstd::prelude::*;
use vstd::string::*;

verus! {

/// The whitespace characters that occur in kernel control-file text.
pub open spec fn is_space_char(c: char) -> bool {
    c == ' ' || c == '\t' || c == '\n' || c == '\r'
}

/// Runtime test for `is_space_char`.
pub fn is_space(c: char) -> (r: bool)
    ensures
        r == is_space_char(c),
{
    c == ' ' || c == '\t' || c == '\n' || c == '\r'
}

/// Character-wise string equality, decided without assuming anything
/// about either argument.
pub fn str_eq(a: &str, b: &str) -> (r: bool)
    ensures
        r == (a@ == b@),
{
    let alen = a.unicode_len();
    let blen = b.unicode_len();
    if alen != blen {
        proof {
            if a@ == b@ {
                assert(a@.len() == b@.len());
            }
        }
        return false;
    }
    let mut i: usize = 0;
    while i < alen
        invariant
            alen == a@.len(),
            blen == b@.len(),
            alen == blen,
            i <= alen,
            forall|j: int| 0 <= j < i ==> a@[j] == b@[j],
        decreases alen - i,
    {
        if a.get_char(i) != b.get_char(i) {
            return false;
        }
        i += 1;
    }
    proof {
        assert(a@ =~= b@);
    }
    true
}

/// The string with its leading whitespace removed.
pub open spec fn trim_start_spec(s: Seq<char>) -> Seq<char>
    decreases s.len(),
{
    if s.len() > 0 && is_space_char(s[0]) {
        trim_start_spec(s.drop_first())
    } else {
        s
    }
}

/// The string with its trailing whitespace removed.
pub open spec fn trim_end_spec(s: Seq<char>) -> Seq<char>
    decreases s.len(),
{
    if s.len() > 0 && is_space_char(s.last()) {
        trim_end_spec(s.drop_last())
    } else {
        s
    }
}

/// The string with whitespace removed from both ends.
pub open spec fn trim_spec(s: Seq<char>) -> Seq<char> {
    trim_end_spec(trim_start_spec(s))
}

/// A string that neither starts nor ends with whitespace trims to itself.
pub proof fn lemma_trim_of_trimmed(s: Seq<char>)
    requires
        s.len() > 0 ==> !is_space_char(s[0]),
        s.len() > 0 ==> !is_space_char(s.last()),
    ensures
        trim_spec(s) == s,
{
}

/// Whitespace trimming, against `trim_spec`.
pub fn trim<'a>(s: &'a str) -> (r: &'a str)
    ensures
        r@ == trim_spec(s@),
{
    let len = s.unicode_len();
    let mut i: usize = 0;
    proof {
        assert(s@.skip(0) =~= s@);
    }
    while i < len && is_space(s.get_char(i))
        invariant
            len == s@.len(),
            i <= len,
            trim_start_spec(s@) == trim_start_spec(s@.skip(i as int)),
        decreases len - i,
    {
        proof {
            assert(s@.skip(i as int).drop_first() =~= s@.skip(i + 1));
        }
        i += 1;
    }
    proof {
        if i == len {
            assert(s@.skip(i as int) =~= Seq::<char>::empty());
        }
        assert(trim_start_spec(s@) == s@.skip(i as int));
        assert(s@.subrange(i as int, len as int) =~= s@.skip(i as int));
    }
    let mut j: usize = len;
    while j > i && is_space(s.get_char(j - 1))
        invariant
            len == s@.len(),
            i <= j <= len,
            trim_start_spec(s@) == s@.skip(i as int),
            trim_spec(s@) == trim_end_spec(s@.subrange(i as int, j as int)),
        decreases j,
    {
        proof {
            assert(s@.subrange(i as int, j as int).drop_last() =~= s@.subrange(
                i as int,
                j - 1,
            ));
        }
        j -= 1;
    }
    proof {
        assert(trim_spec(s@) == s@.subrange(i as int, j as int));
    }
    s.substring_char(i, j)
}

/// The pieces of `s` between occurrences of the separator `sep`, with
/// `cur` the token collected so far. Splitting never fails and always
/// yields at least one (possibly empty) token.
pub open spec fn split_rec(s: Seq<char>, sep: char, cur: Seq<char>) -> Seq<Seq<char>>
    decreases s.len(),
{
    if s.len() == 0 {
        seq![cur]
    } else if s[0] == sep {
        seq![cur] + split_rec(s.drop_first(), sep, Seq::empty())
    } else {
        split_rec(s.drop_first(), sep, cur.push(s[0]))
    }
}

/// The pieces of `s` between occurrences of the separator `sep`.
pub open spec fn split_spec(s: Seq<char>, sep: char) -> Seq<Seq<char>> {
    split_rec(s, sep, Seq::empty())
}

/// Split `s` at every occurrence of `sep`, against `split_spec`.
pub fn split_char<'a>(s: &'a str, sep: char) -> (r: Vec<&'a str>)
    ensures
        r.deep_view() == split_spec(s@, sep),
        r@.len() >= 1,
        forall|k: int| 0 <= k < r@.len() ==> r@[k]@ == r.deep_view()[k],
{
    let len = s.unicode_len();
    let mut r: Vec<&'a str> = Vec::new();
    let mut ts: usize = 0;
    let mut i: usize = 0;
    proof {
        assert(s@.skip(0) =~= s@);
        assert(r.deep_view() =~= Seq::<Seq<char>>::empty());
        assert(s@.subrange(0, 0) =~= Seq::<char>::empty());
        assert(Seq::<Seq<char>>::empty() + split_rec(s@, sep, Seq::empty()) =~= split_rec(
            s@,
            sep,
            Seq::empty(),
        ));
    }
    while i < len
        invariant
            len == s@.len(),
            ts <= i <= len,
            split_spec(s@, sep) == r.deep_view() + split_rec(
                s@.skip(i as int),
                sep,
                s@.subrange(ts as int, i as int),
            ),
        decreases len - i,
    {
        if s.get_char(i) == sep {
            let tok = s.substring_char(ts, i);
            let ghost old_r = r.deep_view();
            r.push(tok);
            proof {
                assert(r.deep_view() =~= old_r.push(tok@));
                assert(s@.skip(i as int)[0] == s@[i as int]);
                assert(s@.skip(i as int).drop_first() =~= s@.skip(i + 1));
                assert(s@.subrange(i + 1, i + 1) =~= Seq::<char>::empty());
                assert(old_r + (seq![tok@] + split_rec(s@.skip(i + 1), sep, Seq::empty()))
                    =~= old_r.push(tok@) + split_rec(s@.skip(i + 1), sep, Seq::empty()));
            }
            ts = i + 1;
        } else {
            proof {
                assert(s@.skip(i as int)[0] == s@[i as int]);
                assert(s@.skip(i as int).drop_first() =~= s@.skip(i + 1));
                assert(s@.subrange(ts as int, i as int).push(s@[i as int]) =~= s@.subrange(
                    ts as int,
                    i + 1,
                ));
            }
        }
        i += 1;
    }
    let tok = s.substring_char(ts, len);
    let ghost old_r = r.deep_view();
    r.push(tok);
    proof {
        assert(s@.skip(len as int) =~= Seq::<char>::empty());
        assert(r.deep_view() =~= old_r.push(tok@));
        assert(old_r + seq![tok@] =~= old_r.push(tok@));
    }
    r
}

/// Splitting walks over a separator-free prefix in one piece: the
/// prefix is absorbed into the token being collected.
pub proof fn lemma_split_rec_over_clean(a: Seq<char>, rest: Seq<char>, sep: char, cur: Seq<char>)
    requires
        forall|i: int| 0 <= i < a.len() ==> a[i] != sep,
    ensures
        split_rec(a + rest, sep, cur) == split_rec(rest, sep, cur + a),
    decreases a.len(),
{
    if a.len() == 0 {
        assert(a + rest =~= rest);
        assert(cur + a =~= cur);
    } else {
        assert((a + rest)[0] == a[0]);
        assert((a + rest).drop_first() =~= a.drop_first() + rest);
        assert(cur.push(a[0]) + a.drop_first() =~= cur + a);
        assert(forall|i: int|
            0 <= i < a.drop_first().len() ==> a.drop_first()[i] != sep);
        lemma_split_rec_over_clean(a.drop_first(), rest, sep, cur.push(a[0]));
    }
}

/// Splitting a separator-free token, one separator, and a second
/// separator-free token yields exactly those two tokens.
pub proof fn lemma_split_two_tokens(a: Seq<char>, b: Seq<char>, sep: char)
    requires
        forall|i: int| 0 <= i < a.len() ==> a[i] != sep,
        forall|i: int| 0 <= i < b.len() ==> b[i] != sep,
    ensures
        split_spec(a + seq![sep] + b, sep) == seq![a, b],
{
    let s = a + seq![sep] + b;
    let mid = seq![sep] + b;
    assert(s =~= a + mid);
    lemma_split_rec_over_clean(a, mid, sep, Seq::empty());
    assert(Seq::<char>::empty() + a =~= a);
    assert(mid[0] == sep);
    assert(mid.drop_first() =~= b);
    assert(b + Seq::<char>::empty() =~= b);
    lemma_split_rec_over_clean(b, Seq::empty(), sep, Seq::empty());
    assert(Seq::<char>::empty() + b =~= b);
    assert(split_rec(Seq::<char>::empty(), sep, b) == seq![b]);
    assert(seq![a] + seq![b] =~= seq![a, b]);
}

/// The lines of `s`: pieces between newline characters, with one
/// trailing empty piece (from a final newline) dropped, so that text
/// ending in a newline yields no phantom empty line.
pub open spec fn lines_spec(s: Seq<char>) -> Seq<Seq<char>> {
    let t = split_spec(s, '\n');
    if t.len() > 0 && t.last().len() == 0 {
        t.drop_last()
    } else {
        t
    }
}

/// Split `s` into lines, against `lines_spec`.
pub fn split_lines<'a>(s: &'a str) -> (r: Vec<&'a str>)
    ensures
        r.deep_view() == lines_spec(s@),
        forall|k: int| 0 <= k < r@.len() ==> r@[k]@ == r.deep_view()[k],
{
    let mut r = split_char(s, '\n');
    let last = r[r.len() - 1];
    if last.unicode_len() == 0 {
        let ghost old_r = r.deep_view();
        r.pop();
        proof {
            assert(r.deep_view() =~= old_r.drop_last());
        }
    }
    r
}

/// The parts joined with `sep` between consecutive parts.
pub open spec fn join_spec(parts: Seq<Seq<char>>, sep: Seq<char>) -> Seq<char>
    decreases parts.len(),
{
    if parts.len() == 0 {
        Seq::empty()
    } else if parts.len() == 1 {
        parts[0]
    } else {
        join_spec(parts.drop_last(), sep) + sep + parts.last()
    }
}

/// Join `parts` with the separator `sep`, against `join_spec`.
pub fn join(parts: &Vec<String>, sep: &str) -> (r: String)
    ensures
        r@ == join_spec(parts.deep_view(), sep@),
{
    let mut r = String::new();
    let mut i: usize = 0;
    proof {
        assert(parts.deep_view().take(0) =~= Seq::<Seq<char>>::empty());
    }
    while i < parts.len()
        invariant
            i <= parts@.len(),
            r@ == join_spec(parts.deep_view().take(i as int), sep@),
        decreases parts@.len() - i,
    {
        if i > 0 {
            r.append(sep);
        }
        r.append(parts[i].as_str());
        proof {
            let d = parts.deep_view();
            assert(d.take(i + 1).drop_last() =~= d.take(i as int));
            assert(d.take(i + 1).last() == d[i as int]);
            if i == 0 {
                assert(d.take(1)[0] == d[0]);
            }
        }
        i += 1;
    }
    proof {
        assert(parts.deep_view().take(parts@.len() as int) =~= parts.deep_view());
    }
    r
}

/// An ASCII decimal digit.
pub open spec fn is_digit_char(c: char) -> bool {
    48 <= c as u32 && c as u32 <= 57
}

/// The numeric value of a digit character.
pub open spec fn digit_val(c: char) -> int {
    c as u32 - 48
}

/// Every character of `s` is a decimal digit.
pub open spec fn all_digits(s: Seq<char>) -> bool {
    forall|i: int| 0 <= i < s.len() ==> is_digit_char(s[i])
}

/// The value of a digit string read in base ten; the empty string reads
/// as zero.
pub open spec fn dec_value(s: Seq<char>) -> int
    decreases s.len(),
{
    if s.len() == 0 {
        0
    } else {
        dec_value(s.drop_last()) * 10 + digit_val(s.last())
    }
}

/// The digit character for a value below ten.
pub open spec fn digit_char(d: int) -> char {
    if d == 0 {
        '0'
    } else if d == 1 {
        '1'
    } else if d == 2 {
        '2'
    } else if d == 3 {
        '3'
    } else if d == 4 {
        '4'
    } else if d == 5 {
        '5'
    } else if d == 6 {
        '6'
    } else if d == 7 {
        '7'
    } else if d == 8 {
        '8'
    } else {
        '9'
    }
}

/// The canonical decimal numeral of a nonnegative number: no sign, no
/// leading zeros (a lone zero for zero itself).
pub open spec fn dec_digits(n: int) -> Seq<char>
    decreases n,
{
    if n < 10 {
        seq![digit_char(n)]
    } else {
        dec_digits(n / 10).push(digit_char(n % 10))
    }
}

pub proof fn lemma_dec_value_nonneg(s: Seq<char>)
    requires
        all_digits(s),
    ensures
        dec_value(s) >= 0,
    decreases s.len(),
{
    if s.len() > 0 {
        assert(all_digits(s.drop_last()));
        lemma_dec_value_nonneg(s.drop_last());
    }
}

/// The value of a digit string is at least the value of any of its
/// prefixes.
pub proof fn lemma_dec_value_take_le(s: Seq<char>, j: int)
    requires
        all_digits(s),
        0 <= j <= s.len(),
    ensures
        dec_value(s.take(j)) <= dec_value(s),
    decreases s.len() - j,
{
    if j == s.len() {
        assert(s.take(j) =~= s);
    } else {
        assert(s.take(j + 1).drop_last() =~= s.take(j));
        assert(s.take(j + 1).last() == s[j]);
        assert(all_digits(s.take(j)));
        lemma_dec_value_nonneg(s.take(j));
        lemma_dec_value_take_le(s, j + 1);
    }
}

/// The numeral of `n` is a nonempty digit string whose value is `n`.
pub proof fn lemma_dec_digits_ok(n: int)
    requires
        n >= 0,
    ensures
        dec_digits(n).len() >= 1,
        all_digits(dec_digits(n)),
        dec_value(dec_digits(n)) == n,
    decreases n,
{
    if n < 10 {
        assert(dec_value(seq![digit_char(n)]) == digit_val(digit_char(n))) by {
            assert(seq![digit_char(n)].drop_last() =~= Seq::<char>::empty());
            assert(seq![digit_char(n)].last() == digit_char(n));
            assert(dec_value(Seq::<char>::empty()) == 0);
        }
    } else {
        lemma_dec_digits_ok(n / 10);
        vstd::arithmetic::div_mod::lemma_fundamental_div_mod(n, 10);
        let w = dec_digits(n / 10).push(digit_char(n % 10));
        assert(w.drop_last() =~= dec_digits(n / 10));
        assert(forall|i: int| 0 <= i < w.len() ==> is_digit_char(w[i])) by {
            assert(forall|i: int|
                0 <= i < w.len() - 1 ==> w[i] == dec_digits(n / 10)[i]);
        }
    }
}

/// Render `d` (below ten) as its one-character numeral.
fn digit_str(d: u64) -> (r: &'static str)
    requires
        d < 10,
    ensures
        r@ == seq![digit_char(d as int)],
{
    proof {
        reveal_strlit("0");
        reveal_strlit("1");
        reveal_strlit("2");
        reveal_strlit("3");
        reveal_strlit("4");
        reveal_strlit("5");
        reveal_strlit("6");
        reveal_strlit("7");
        reveal_strlit("8");
        reveal_strlit("9");
    }
    if d == 0 {
        proof {
            assert("0"@ =~= seq![digit_char(0)]);
        }
        "0"
    } else if d == 1 {
        proof {
            assert("1"@ =~= seq![digit_char(1)]);
        }
        "1"
    } else if d == 2 {
        proof {
            assert("2"@ =~= seq![digit_char(2)]);
        }
        "2"
    } else if d == 3 {
        proof {
            assert("3"@ =~= seq![digit_char(3)]);
        }
        "3"
    } else if d == 4 {
        proof {
            assert("4"@ =~= seq![digit_char(4)]);
        }
        "4"
    } else if d == 5 {
        proof {
            assert("5"@ =~= seq![digit_char(5)]);
        }
        "5"
    } else if d == 6 {
        proof {
            assert("6"@ =~= seq![digit_char(6)]);
        }
        "6"
    } else if d == 7 {
        proof {
            assert("7"@ =~= seq![digit_char(7)]);
        }
        "7"
    } else if d == 8 {
        proof {
            assert("8"@ =~= seq![digit_char(8)]);
        }
        "8"
    } else {
        proof {
            assert("9"@ =~= seq![digit_char(9)]);
        }
        "9"
    }
}

/// Render `n` as its canonical decimal numeral.
pub fn format_u64(n: u64) -> (r: String)
    ensures
        r@ == dec_digits(n as int),
    decreases n,
{
    if n < 10 {
        String::from_str(digit_str(n))
    } else {
        let mut r = format_u64(n / 10);
        r.append(digit_str(n % 10));
        proof {
            assert(dec_digits(n as int / 10) + seq![digit_char(n as int % 10)] =~= dec_digits(
                n as int / 10,
            ).push(digit_char(n as int % 10)));
        }
        r
    }
}

/// Render `n` as its canonical decimal numeral.
pub fn format_u32(n: u32) -> (r: String)
    ensures
        r@ == dec_digits(n as int),
{
    format_u64(n as u64)
}

/// Read `s` as an unsigned 64-bit decimal number. Succeeds exactly on
/// nonempty all-digit strings whose value fits.
pub fn parse_u64(s: &str) -> (r: Option<u64>)
    ensures
        (match r {
            Some(v) => s@.len() > 0 && all_digits(s@) && v as int == dec_value(s@),
            None => s@.len() == 0 || !all_digits(s@) || dec_value(s@) > u64::MAX,
        }),
{
    let len = s.unicode_len();
    if len == 0 {
        return None;
    }
    let mut acc: u64 = 0;
    let mut i: usize = 0;
    proof {
        assert(s@.take(0) =~= Seq::<char>::empty());
    }
    while i < len
        invariant
            len == s@.len(),
            i <= len,
            all_digits(s@.take(i as int)),
            acc as int == dec_value(s@.take(i as int)),
        decreases len - i,
    {
        let c = s.get_char(i);
        let cv = c as u32;
        if cv < 48 || cv > 57 {
            proof {
                assert(!is_digit_char(s@[i as int]));
            }
            return None;
        }
        let d = (cv - 48) as u64;
        proof {
            assert(s@.take(i + 1).drop_last() =~= s@.take(i as int));
            assert(s@.take(i + 1).last() == s@[i as int]);
            assert(all_digits(s@.take(i + 1)));
        }
        if acc > u64::MAX / 10 || (acc == u64::MAX / 10 && d > u64::MAX % 10) {
            proof {
                assert(dec_value(s@.take(i + 1)) > u64::MAX);
                if all_digits(s@) {
                    lemma_dec_value_take_le(s@, i + 1);
                }
            }
            return None;
        }
        acc = acc * 10 + d;
        i += 1;
    }
    proof {
        assert(s@.take(len as int) =~= s@);
    }
    Some(acc)
}

/// Read `s` as an unsigned 32-bit decimal number. Succeeds exactly on
/// nonempty all-digit strings whose value fits.
pub fn parse_u32(s: &str) -> (r: Option<u32>)
    ensures
        (match r {
            Some(v) => s@.len() > 0 && all_digits(s@) && v as int == dec_value(s@),
            None => s@.len() == 0 || !all_digits(s@) || dec_value(s@) > u32::MAX,
        }),
{
    match parse_u64(s) {
        Some(v) => if v <= 0xffff_ffff {
            Some(v as u32)
        } else {
            None
        },
        None => None,
    }
}

} // verus!
