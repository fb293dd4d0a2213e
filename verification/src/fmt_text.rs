//! Verified text formatting: decimal rendering of numbers and placeholder
//! substitution, used to build the pagination indicator label.

use crate::text::matches_at;
use vstd::prelude::*;

verus! {

/// The character for one decimal digit.
pub open spec fn digit_char(d: nat) -> char {
    if d == 0 {
        '0'
    } else if d == 1 {
        '1'
    } else if d == 2 {
        '2'
    } else if d == 3 {
        '3'
    } else if d == 4 {
        '4'
    } else if d == 5 {
        '5'
    } else if d == 6 {
        '6'
    } else if d == 7 {
        '7'
    } else if d == 8 {
        '8'
    } else {
        '9'
    }
}

/// The decimal rendering of a natural number, most significant digit first.
pub open spec fn decimal_of(n: nat) -> Seq<char>
    decreases n,
{
    if n < 10 {
        seq![digit_char(n)]
    } else {
        decimal_of(n / 10).push(digit_char(n % 10))
    }
}

/// The one-character string slice for a decimal digit.
fn digit_str(d: usize) -> (r: &'static str)
    requires
        d < 10,
    ensures
        r@ =~= seq![digit_char(d as nat)],
{
    proof {
        reveal_strlit("0");
        reveal_strlit("1");
        reveal_strlit("2");
        reveal_strlit("3");
        reveal_strlit("4");
        reveal_strlit("5");
        reveal_strlit("6");
        reveal_strlit("7");
        reveal_strlit("8");
        reveal_strlit("9");
    }
    if d == 0 {
        "0"
    } else if d == 1 {
        "1"
    } else if d == 2 {
        "2"
    } else if d == 3 {
        "3"
    } else if d == 4 {
        "4"
    } else if d == 5 {
        "5"
    } else if d == 6 {
        "6"
    } else if d == 7 {
        "7"
    } else if d == 8 {
        "8"
    } else {
        "9"
    }
}

/// Renders a number in decimal.
pub fn decimal_string(n: usize) -> (r: String)
    ensures
        r@ == decimal_of(n as nat),
    decreases n,
{
    if n < 10 {
        let mut s = String::new();
        s.append(digit_str(n));
        proof {
            assert(s@ =~= decimal_of(n as nat));
        }
        s
    } else {
        let mut s = decimal_string(n / 10);
        s.append(digit_str(n % 10));
        proof {
            assert(s@ =~= decimal_of(n as nat));
        }
        s
    }
}

/// The result of replacing every occurrence of `pat` in `t` by `sub`,
/// scanning left to right without overlap; `t` itself if `pat` is empty.
pub open spec fn replace_of(t: Seq<char>, pat: Seq<char>, sub: Seq<char>) -> Seq<char>
    decreases t.len(),
{
    if pat.len() == 0 || t.len() < pat.len() {
        t
    } else if t.subrange(0, pat.len() as int) == pat {
        sub + replace_of(t.skip(pat.len() as int), pat, sub)
    } else {
        seq![t[0]] + replace_of(t.skip(1), pat, sub)
    }
}

/// Replaces every occurrence of `pat` in `t` by `sub`, scanning left to
/// right without overlap.
pub fn replace_all(t: &str, pat: &str, sub: &str) -> (r: String)
    requires
        pat@.len() > 0,
    ensures
        r@ == replace_of(t@, pat@, sub@),
{
    let nt = t.unicode_len();
    let np = pat.unicode_len();
    let mut out = String::new();
    let mut i: usize = 0;
    proof {
        assert(t@.skip(0) =~= t@);
    }
    while i < nt
        invariant
            nt == t@.len(),
            np == pat@.len(),
            np > 0,
            i <= nt,
            replace_of(t@, pat@, sub@) == out@ + replace_of(t@.skip(i as int), pat@, sub@),
        decreases nt - i,
    {
        let ghost out_before: Seq<char> = out@;
        let ghost rest: Seq<char> = t@.skip(i as int);
        if np <= nt - i && matches_at(t, pat, i, nt, np) {
            out.append(sub);
            proof {
                assert(rest.subrange(0, np as int) =~= t@.subrange(i as int, i + np));
                assert(rest.skip(np as int) =~= t@.skip(i + np));
                assert(replace_of(rest, pat@, sub@) == sub@ + replace_of(
                    t@.skip(i + np),
                    pat@,
                    sub@,
                ));
                assert(out_before + (sub@ + replace_of(t@.skip(i + np), pat@, sub@)) =~= (out_before
                    + sub@) + replace_of(t@.skip(i + np), pat@, sub@));
            }
            i += np;
        } else {
            let c = t.substring_char(i, i + 1);
            out.append(c);
            proof {
                assert(c@ =~= seq![t@[i as int]]);
                if rest.len() >= np {
                    assert(rest.subrange(0, np as int) =~= t@.subrange(i as int, i + np));
                    assert(rest.subrange(0, np as int) != pat@);
                    assert(rest[0] == t@[i as int]);
                    assert(rest.skip(1) =~= t@.skip(i + 1));
                    assert(replace_of(rest, pat@, sub@) == seq![t@[i as int]] + replace_of(
                        t@.skip(i + 1),
                        pat@,
                        sub@,
                    ));
                } else {
                    assert(replace_of(rest, pat@, sub@) == rest);
                    assert(t@.skip(i + 1).len() < np);
                    assert(replace_of(t@.skip(i + 1), pat@, sub@) == t@.skip(i + 1));
                    assert(rest =~= seq![t@[i as int]] + t@.skip(i + 1));
                }
                assert(out_before + (seq![t@[i as int]] + replace_of(t@.skip(i + 1), pat@, sub@))
                    =~= (out_before + seq![t@[i as int]]) + replace_of(t@.skip(i + 1), pat@, sub@));
            }
            i += 1;
        }
    }
    proof {
        assert(t@.skip(nt as int).len() == 0);
        assert(out@ + replace_of(t@.skip(nt as int), pat@, sub@) =~= out@);
    }
    out
}

} // verus!
