//! Verified text helpers: placeholder substitution for status templates and
//! decimal parsing for rate-limit headers.

use vstd::prelude::*;
use vstd::string::{StrSliceExecFns, StringExecFns};

verus! {

/// `s` with every occurrence of `pat` replaced by `rep`; occurrences are
/// found left to right and do not overlap.
pub open spec fn spec_replace(s: Seq<char>, pat: Seq<char>, rep: Seq<char>) -> Seq<char>
    decreases s.len(),
{
    if pat.len() > 0 && s.len() >= pat.len() && s.subrange(0, pat.len() as int) == pat {
        rep + spec_replace(s.skip(pat.len() as int), pat, rep)
    } else if s.len() == 0 {
        Seq::empty()
    } else {
        seq![s[0]] + spec_replace(s.skip(1), pat, rep)
    }
}

/// Whether `pat` occurs in `s` at character position `i`.
pub open spec fn spec_matches_at(s: Seq<char>, pat: Seq<char>, i: int) -> bool {
    0 <= i && i + pat.len() <= s.len() && s.subrange(i, i + pat.len() as int) == pat
}

/// Compare the characters of `s` starting at `i` with `pat`.
fn matches_at(s: &str, n: usize, pat: &str, m: usize, i: usize) -> (r: bool)
    requires
        n == s@.len(),
        m == pat@.len(),
        i <= n,
    ensures
        r == spec_matches_at(s@, pat@, i as int),
{
    if m > n - i {
        assert(i + pat@.len() > s@.len());
        return false;
    }
    let mut j: usize = 0;
    while j < m
        invariant
            n == s@.len(),
            m == pat@.len(),
            i <= n,
            m <= n - i,
            j <= m,
            forall|k: int| 0 <= k < j ==> s@[i + k] == pat@[k],
        decreases m - j,
    {
        if s.get_char(i + j) != pat.get_char(j) {
            assert(!spec_matches_at(s@, pat@, i as int)) by {
                if s@.subrange(i as int, i + m) == pat@ {
                    assert(s@.subrange(i as int, i + m)[j as int] == s@[i + j]);
                }
            }
            return false;
        }
        j = j + 1;
    }
    assert(s@.subrange(i as int, i + m) =~= pat@);
    true
}

/// Replace every occurrence of `pat` in `s` by `rep`, left to right,
/// without rescanning replaced text.
pub fn replace_all(s: &str, pat: &str, rep: &str) -> (out: String)
    requires
        pat@.len() > 0,
    ensures
        out@ == spec_replace(s@, pat@, rep@),
{
    let n = s.unicode_len();
    let m = pat.unicode_len();
    let mut out = String::new();
    let mut i: usize = 0;
    proof {
        assert(s@.skip(0) =~= s@);
    }
    while i < n
        invariant
            n == s@.len(),
            m == pat@.len(),
            m > 0,
            i <= n,
            spec_replace(s@, pat@, rep@) == out@ + spec_replace(
                s@.skip(i as int),
                pat@,
                rep@,
            ),
        decreases n - i,
    {
        let ghost t = s@.skip(i as int);
        if matches_at(s, n, pat, m, i) {
            out.append(rep);
            proof {
                assert(t.subrange(0, m as int) =~= s@.subrange(i as int, i + m));
                assert(t.skip(m as int) =~= s@.skip(i + m));
                assert(spec_replace(t, pat@, rep@) == rep@ + spec_replace(
                    s@.skip(i + m),
                    pat@,
                    rep@,
                ));
                assert(spec_replace(s@, pat@, rep@) == out@ + spec_replace(
                    s@.skip(i + m),
                    pat@,
                    rep@,
                ));
            }
            i = i + m;
        } else {
            let piece = s.substring_char(i, i + 1);
            out.append(piece);
            proof {
                assert(t.len() > 0);
                assert(!(t.len() >= m && t.subrange(0, m as int) == pat@)) by {
                    if t.len() >= m && t.subrange(0, m as int) == pat@ {
                        assert(t.subrange(0, m as int) =~= s@.subrange(i as int, i + m));
                    }
                }
                assert(spec_replace(t, pat@, rep@) == seq![t[0]] + spec_replace(
                    t.skip(1),
                    pat@,
                    rep@,
                ));
                assert(piece@ =~= seq![t[0]]);
                assert(t.skip(1) =~= s@.skip(i + 1));
                assert(spec_replace(s@, pat@, rep@) == out@ + spec_replace(
                    s@.skip(i + 1),
                    pat@,
                    rep@,
                ));
            }
            i = i + 1;
        }
    }
    proof {
        assert(s@.skip(n as int) =~= Seq::<char>::empty());
        assert(spec_replace(Seq::empty(), pat@, rep@) == Seq::<char>::empty());
        assert(out@ =~= out@ + Seq::<char>::empty());
    }
    out
}

/// The characters of an optional string.
pub open spec fn str_opt_view(s: Option<String>) -> Option<Seq<char>> {
    match s {
        Some(x) => Some(x@),
        None => None,
    }
}

/// Copy an optional string.
pub fn clone_opt_string(s: &Option<String>) -> (r: Option<String>)
    ensures
        str_opt_view(r) == str_opt_view(*s),
{
    match s {
        Some(x) => Some(x.clone()),
        None => None,
    }
}

/// The status text for a playing track: the template with `%ARTIST%`
/// replaced by the artist and then `%NAME%` replaced by the track name.
pub open spec fn spec_rendered(template: Seq<char>, artist: Seq<char>, name: Seq<char>) -> Seq<
    char,
> {
    spec_replace(spec_replace(template, "%ARTIST%"@, artist), "%NAME%"@, name)
}

/// Render the status text for a track from the template.
pub fn render_status_text(template: &str, artist: &str, name: &str) -> (r: String)
    ensures
        r@ == spec_rendered(template@, artist@, name@),
{
    proof {
        reveal_strlit("%ARTIST%");
        reveal_strlit("%NAME%");
    }
    let first = replace_all(template, "%ARTIST%", artist);
    replace_all(first.as_str(), "%NAME%", name)
}

/// Whether `c` is a decimal digit.
pub open spec fn spec_is_digit(c: char) -> bool {
    '0' as u32 <= c as u32 && c as u32 <= '9' as u32
}

/// Whether every character of `s` is a decimal digit.
pub open spec fn spec_all_digits(s: Seq<char>) -> bool {
    forall|i: int| 0 <= i < s.len() ==> spec_is_digit(#[trigger] s[i])
}

/// The numeric value of a sequence of decimal digits, most significant first.
pub open spec fn spec_digits_value(s: Seq<char>) -> int
    decreases s.len(),
{
    if s.len() == 0 {
        0
    } else {
        spec_digits_value(s.drop_last()) * 10 + (s.last() as u32 - '0' as u32)
    }
}

/// A digit string denotes a non-negative number.
proof fn lemma_digits_value_nonneg(s: Seq<char>)
    requires
        spec_all_digits(s),
    ensures
        spec_digits_value(s) >= 0,
    decreases s.len(),
{
    if s.len() > 0 {
        assert(spec_all_digits(s.drop_last()));
        lemma_digits_value_nonneg(s.drop_last());
    }
}

/// Dropping trailing digits never increases the value.
proof fn lemma_digits_prefix_le(s: Seq<char>, k: int)
    requires
        spec_all_digits(s),
        0 <= k <= s.len(),
    ensures
        spec_digits_value(s.take(k)) <= spec_digits_value(s),
    decreases s.len() - k,
{
    if k < s.len() {
        lemma_digits_prefix_le(s, k + 1);
        let t = s.take(k + 1);
        assert(t.drop_last() =~= s.take(k));
        assert(spec_all_digits(s.take(k)));
        lemma_digits_value_nonneg(s.take(k));
        assert(spec_digits_value(t) == spec_digits_value(s.take(k)) * 10 + (t.last() as u32
            - '0' as u32));
    } else {
        assert(s.take(k) =~= s);
    }
}

/// Parse a decimal number.  Returns the value exactly when the string is a
/// non-empty, all-digit string whose value fits in a `u64`.
pub fn parse_u64_decimal(s: &str) -> (r: Option<u64>)
    ensures
        match r {
            Some(v) => s@.len() > 0 && spec_all_digits(s@) && v as int == spec_digits_value(s@),
            None => s@.len() == 0 || !spec_all_digits(s@) || spec_digits_value(s@) > u64::MAX,
        },
{
    let n = s.unicode_len();
    if n == 0 {
        return None;
    }
    let mut acc: u64 = 0;
    let mut i: usize = 0;
    proof {
        assert(s@.take(0) =~= Seq::<char>::empty());
    }
    while i < n
        invariant
            n == s@.len(),
            i <= n,
            forall|k: int| 0 <= k < i ==> spec_is_digit(#[trigger] s@[k]),
            acc as int == spec_digits_value(s@.take(i as int)),
        decreases n - i,
    {
        let c = s.get_char(i);
        let cv = c as u32;
        if cv < '0' as u32 || cv > '9' as u32 {
            assert(!spec_is_digit(s@[i as int]));
            return None;
        }
        let d: u64 = (cv - '0' as u32) as u64;
        let ghost t = s@.take(i + 1);
        proof {
            assert(t.drop_last() =~= s@.take(i as int));
            assert(t.last() == s@[i as int]);
            assert(spec_digits_value(t) == acc as int * 10 + d);
        }
        if acc > (u64::MAX - d) / 10 {
            // The value of the digits read so far no longer fits; with more
            // digits appended it can only grow.
            proof {
                assert(spec_all_digits(t));
                assert(((u64::MAX - d) / 10) * 10 + d <= u64::MAX) by (nonlinear_arith);
                assert(acc as int * 10 >= (((u64::MAX - d) / 10) + 1) * 10) by (nonlinear_arith)
                    requires
                        acc > (u64::MAX - d) / 10,
                ;
                assert((((u64::MAX - d) / 10) + 1) * 10 == ((u64::MAX - d) / 10) * 10 + 10);
                assert(spec_digits_value(t) > u64::MAX);
                if spec_all_digits(s@) {
                    lemma_digits_prefix_le(s@, i + 1);
                    assert(spec_digits_value(s@) > u64::MAX);
                }
            }
            return None;
        }
        proof {
            assert(acc <= (u64::MAX - d) / 10);
            assert(acc as int * 10 <= ((u64::MAX - d) / 10) * 10) by (nonlinear_arith)
                requires
                    acc <= (u64::MAX - d) / 10,
            ;
            assert(((u64::MAX - d) / 10) * 10 <= u64::MAX - d);
        }
        acc = acc * 10 + d;
        i = i + 1;
    }
    proof {
        assert(s@.take(n as int) =~= s@);
    }
    Some(acc)
}

} // verus!
