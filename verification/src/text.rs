//! Verified text primitives: code-point string equality and lexicographic
//! comparison, used for column-id lookup and sorting.

use vstd::prelude::*;

verus! {

/// Lexicographic (code-point) order on character sequences: `a` comes at or
/// before `b`.
pub open spec fn lex_leq(a: Seq<char>, b: Seq<char>) -> bool
    decreases a.len(),
{
    if a.len() == 0 {
        true
    } else if b.len() == 0 {
        false
    } else if a[0] == b[0] {
        lex_leq(a.skip(1), b.skip(1))
    } else {
        (a[0] as u32) < (b[0] as u32)
    }
}

/// The order is total: of any two sequences, one comes at or before the other.
pub proof fn lemma_lex_leq_total(a: Seq<char>, b: Seq<char>)
    ensures
        lex_leq(a, b) || lex_leq(b, a),
    decreases a.len(),
{
    if a.len() > 0 && b.len() > 0 {
        if a[0] == b[0] {
            lemma_lex_leq_total(a.skip(1), b.skip(1));
        } else {
            vstd::utf8::char_u32_cast(a[0], a[0] as u32);
            vstd::utf8::char_u32_cast(b[0], b[0] as u32);
            assert(a[0] as u32 != b[0] as u32);
        }
    }
}

/// The order is reflexive.
pub proof fn lemma_lex_leq_refl(a: Seq<char>)
    ensures
        lex_leq(a, a),
    decreases a.len(),
{
    if a.len() > 0 {
        lemma_lex_leq_refl(a.skip(1));
    }
}

/// The order is transitive.
pub proof fn lemma_lex_leq_trans(a: Seq<char>, b: Seq<char>, c: Seq<char>)
    requires
        lex_leq(a, b),
        lex_leq(b, c),
    ensures
        lex_leq(a, c),
    decreases a.len(),
{
    if a.len() == 0 || b.len() == 0 || c.len() == 0 {
    } else if a[0] == b[0] && b[0] == c[0] {
        lemma_lex_leq_trans(a.skip(1), b.skip(1), c.skip(1));
    }
}

/// Character-sequence equality of two string slices, decided character by
/// character.
pub fn str_eq(a: &str, b: &str) -> (r: bool)
    ensures
        r == (a@ == b@),
{
    let na = a.unicode_len();
    let nb = b.unicode_len();
    if na != nb {
        assert(a@ != b@);
        return false;
    }
    let mut i: usize = 0;
    while i < na
        invariant
            na == a@.len(),
            na == b@.len(),
            i <= na,
            forall|k: int| 0 <= k < i ==> a@[k] == b@[k],
        decreases na - i,
    {
        if a.get_char(i) != b.get_char(i) {
            return false;
        }
        i += 1;
    }
    proof {
        assert(a@ =~= b@);
    }
    true
}

/// Lexicographic comparison of two string slices, decided character by
/// character on code points.
pub fn lex_leq_exec(a: &str, b: &str) -> (r: bool)
    ensures
        r == lex_leq(a@, b@),
{
    let na = a.unicode_len();
    let nb = b.unicode_len();
    let n = if na < nb { na } else { nb };
    proof {
        assert(a@.skip(0) =~= a@);
        assert(b@.skip(0) =~= b@);
    }
    let mut i: usize = 0;
    while i < n
        invariant
            na == a@.len(),
            nb == b@.len(),
            n == if na < nb { na } else { nb },
            i <= n,
            lex_leq(a@, b@) == lex_leq(a@.skip(i as int), b@.skip(i as int)),
        decreases n - i,
    {
        let ca = a.get_char(i);
        let cb = b.get_char(i);
        if ca != cb {
            proof {
                assert(a@.skip(i as int)[0] == ca);
                assert(b@.skip(i as int)[0] == cb);
            }
            return (ca as u32) < (cb as u32);
        }
        proof {
            assert(a@.skip(i as int)[0] == b@.skip(i as int)[0]);
            assert(a@.skip(i as int).skip(1) =~= a@.skip(i + 1));
            assert(b@.skip(i as int).skip(1) =~= b@.skip(i + 1));
        }
        i += 1;
    }
    proof {
        if na <= nb {
            assert(a@.skip(i as int).len() == 0);
        } else {
            assert(b@.skip(i as int).len() == 0);
            assert(a@.skip(i as int).len() > 0);
        }
    }
    na <= nb
}

/// `p` occurs in `t` as a contiguous run of characters (the empty sequence
/// occurs in every sequence).
pub open spec fn has_substring(t: Seq<char>, p: Seq<char>) -> bool {
    exists|k: int| 0 <= k && k + p.len() <= t.len() && #[trigger] t.subrange(k, k + p.len() as int)
        == p
}

/// Whether `p` occurs in `t` starting at position `k`.
pub(crate) fn matches_at(t: &str, p: &str, k: usize, nt: usize, np: usize) -> (r: bool)
    requires
        nt == t@.len(),
        np == p@.len(),
        k + np <= nt,
    ensures
        r == (t@.subrange(k as int, k + np) == p@),
{
    let mut j: usize = 0;
    while j < np
        invariant
            nt == t@.len(),
            np == p@.len(),
            k + np <= nt,
            j <= np,
            forall|m: int| 0 <= m < j ==> t@[k + m] == p@[m],
        decreases np - j,
    {
        if t.get_char(k + j) != p.get_char(j) {
            proof {
                assert(t@.subrange(k as int, k + np)[j as int] != p@[j as int]);
            }
            return false;
        }
        j += 1;
    }
    proof {
        assert(t@.subrange(k as int, k + np) =~= p@);
    }
    true
}

/// Substring search: whether `p` occurs anywhere in `t`.
pub fn has_substring_exec(t: &str, p: &str) -> (r: bool)
    ensures
        r == has_substring(t@, p@),
{
    let nt = t.unicode_len();
    let np = p.unicode_len();
    if np > nt {
        return false;
    }
    if np == 0 {
        proof {
            assert(t@.subrange(0, 0 + p@.len() as int) =~= p@);
        }
        assert(has_substring(t@, p@));
        return true;
    }
    let mut k: usize = 0;
    while k <= nt - np
        invariant
            nt == t@.len(),
            np == p@.len(),
            1 <= np <= nt,
            k <= nt - np + 1,
            forall|m: int| 0 <= m < k ==> #[trigger] t@.subrange(m, m + np) != p@,
        decreases nt - k,
    {
        if matches_at(t, p, k, nt, np) {
            assert(has_substring(t@, p@));
            return true;
        }
        k += 1;
    }
    false
}

/// Names the result of Unicode-lowercasing a character sequence; it depends
/// on the characters alone.
pub uninterp spec fn lower_of(s: Seq<char>) -> Seq<char>;

/// Relies on str::to_lowercase: the Unicode lowercase equivalent of the
/// slice, a function of its characters alone; an empty slice stays empty.
#[verifier::external_body]
pub(crate) fn lowercase(s: &str) -> (r: String)
    ensures
        r@ == lower_of(s@),
        s@.len() == 0 ==> r@.len() == 0,
{
    s.to_lowercase()
}

} // verus!
