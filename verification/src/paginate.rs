//! Pagination: the page count of a row set and the window of rows one page
//! shows.

use crate::rows::{Row, RowModel};
use vstd::arithmetic::div_mod::{
    lemma_div_multiples_vanish_fancy, lemma_div_pos_is_pos, lemma_fundamental_div_mod,
    lemma_mod_division_less_than_divisor,
};
use vstd::arithmetic::mul::lemma_mul_inequality;
use vstd::math::min;
use vstd::prelude::*;

verus! {

/// The number of pages `count` rows fill at `page_size` rows per page: the
/// count divided by the size, rounded up. Zero rows give zero pages.
pub open spec fn total_pages_of(count: nat, page_size: nat) -> int
    recommends
        page_size >= 1,
{
    (count + page_size - 1) / (page_size as int)
}

/// The window of a sequence one page shows: empty when the page starts at
/// or past the end, else the rows from `page * page_size` up to the end of
/// the page or of the sequence, whichever comes first.
pub open spec fn page_slice(s: Seq<RowModel>, page: nat, page_size: nat) -> Seq<RowModel> {
    if page * page_size >= s.len() {
        Seq::empty()
    } else {
        s.subrange((page * page_size) as int, min(((page + 1) * page_size) as int, s.len() as int))
    }
}

/// A page index lies before the page count exactly when its window starts
/// before the end of the sequence.
pub proof fn lemma_page_window(count: nat, page_size: nat, page: nat)
    requires
        page_size >= 1,
    ensures
        (page < total_pages_of(count, page_size)) <==> (page * page_size < count),
{
    let ps = page_size as int;
    let t = total_pages_of(count, page_size);
    lemma_fundamental_div_mod(count + ps - 1, ps);
    lemma_mod_division_less_than_divisor(count + ps - 1, ps);
    let rr = (count + ps - 1) % ps;
    if page < t {
        lemma_mul_inequality(page as int, t - 1, ps);
        assert((t - 1) * ps == t * ps - ps) by (nonlinear_arith);
        assert(t * ps == ps * t) by (nonlinear_arith);
    } else {
        lemma_mul_inequality(t, page as int, ps);
        assert(t * ps == ps * t) by (nonlinear_arith);
    }
}

/// The page count, computed without overflow.
pub fn total_pages_exec(count: usize, page_size: usize) -> (t: usize)
    requires
        page_size >= 1,
    ensures
        t == total_pages_of(count as nat, page_size as nat),
{
    let q = count / page_size;
    let r = count % page_size;
    let ghost ps = page_size as int;
    proof {
        lemma_fundamental_div_mod(count as int, ps);
        lemma_mod_division_less_than_divisor(count as int, ps);
    }
    if r == 0 {
        proof {
            assert(count + ps - 1 == ps * (q as int) + (ps - 1));
            lemma_div_multiples_vanish_fancy(q as int, ps - 1, ps);
        }
        q
    } else {
        proof {
            assert(ps * (q as int + 1) == ps * (q as int) + ps) by (nonlinear_arith);
            assert(count + ps - 1 == ps * (q as int + 1) + (r - 1));
            lemma_div_multiples_vanish_fancy(q as int + 1, r as int - 1, ps);
            assert(q + q <= count) by (nonlinear_arith)
                requires
                    count == ps * (q as int) + r,
                    ps >= 2,
                    q >= 0,
                    r >= 1,
            ;
        }
        q + 1
    }
}

/// The pagination step: the window of rows the page shows, and the page
/// count. An out-of-range page yields an empty window, not an error.
pub fn paginate_rows(rows: &Vec<Row>, page: usize, page_size: usize) -> (out: (Vec<Row>, usize))
    requires
        page_size >= 1,
    ensures
        out.0.deep_view() == page_slice(rows.deep_view(), page as nat, page_size as nat),
        out.1 == total_pages_of(rows@.len() as nat, page_size as nat),
{
    let count = rows.len();
    let total = total_pages_exec(count, page_size);
    let mut visible: Vec<Row> = Vec::new();
    proof {
        lemma_page_window(count as nat, page_size as nat, page as nat);
    }
    if page < total {
        let start = page * page_size;
        let avail = count - start;
        let len = if page_size < avail {
            page_size
        } else {
            avail
        };
        proof {
            assert((page + 1) * page_size == page * page_size + page_size) by (nonlinear_arith);
        }
        let mut m: usize = 0;
        while m < len
            invariant
                count == rows.len(),
                start + len <= count,
                m <= len,
                visible.len() == m,
                forall|k: int|
                    0 <= k < m ==> #[trigger] visible.deep_view()[k] == rows.deep_view()[start + k],
            decreases len - m,
        {
            let ghost visible_before = visible.deep_view();
            visible.push(rows[start + m].clone());
            proof {
                assert(visible.deep_view() =~= visible_before.push(
                    rows.deep_view()[start + m as int],
                ));
            }
            m += 1;
        }
        proof {
            assert(visible.deep_view() =~= page_slice(
                rows.deep_view(),
                page as nat,
                page_size as nat,
            ));
        }
    } else {
        proof {
            assert(visible.deep_view() =~= page_slice(
                rows.deep_view(),
                page as nat,
                page_size as nat,
            ));
        }
    }
    (visible, total)
}

/// The concatenation of the first `k` page windows, in page order.
pub open spec fn pages_concat(s: Seq<RowModel>, page_size: nat, k: nat) -> Seq<RowModel>
    decreases k,
{
    if k == 0 {
        Seq::empty()
    } else {
        pages_concat(s, page_size, (k - 1) as nat) + page_slice(s, (k - 1) as nat, page_size)
    }
}

/// The first `k` page windows, concatenated, are exactly the rows up to
/// where page `k` would start.
proof fn lemma_pages_concat_prefix(s: Seq<RowModel>, page_size: nat, k: nat)
    requires
        page_size >= 1,
        k <= total_pages_of(s.len(), page_size),
    ensures
        pages_concat(s, page_size, k) == s.take(min((k * page_size) as int, s.len() as int)),
    decreases k,
{
    if k == 0 {
        assert(pages_concat(s, page_size, 0) =~= s.take(0));
        assert(k * page_size == 0) by (nonlinear_arith)
            requires
                k == 0,
        ;
        assert(min((k * page_size) as int, s.len() as int) == 0);
    } else {
        let km = (k - 1) as nat;
        lemma_pages_concat_prefix(s, page_size, km);
        lemma_page_window(s.len(), page_size, km);
        lemma_mul_inequality(km as int, k as int, page_size as int);
        assert((km + 1) * page_size == k * page_size);
        assert(pages_concat(s, page_size, k) == pages_concat(s, page_size, km) + page_slice(
            s,
            km,
            page_size,
        ));
        assert(pages_concat(s, page_size, km) == s.take((km * page_size) as int));
        assert(page_slice(s, km, page_size) == s.subrange(
            (km * page_size) as int,
            min((k * page_size) as int, s.len() as int),
        ));
        assert(s.take((km * page_size) as int) + s.subrange(
            (km * page_size) as int,
            min((k * page_size) as int, s.len() as int),
        ) =~= s.take(min((k * page_size) as int, s.len() as int)));
        assert(pages_concat(s, page_size, k) == s.take(
            min((k * page_size) as int, s.len() as int),
        ));
    }
}

/// Pagination coverage: the page windows, concatenated in order across the
/// whole page count, reproduce the row sequence exactly, with no gaps and
/// no overlaps.
pub proof fn lemma_pagination_coverage(s: Seq<RowModel>, page_size: nat)
    requires
        page_size >= 1,
    ensures
        pages_concat(s, page_size, total_pages_of(s.len(), page_size) as nat) == s,
{
    lemma_div_pos_is_pos(s.len() + page_size - 1, page_size as int);
    let t = total_pages_of(s.len(), page_size) as nat;
    lemma_pages_concat_prefix(s, page_size, t);
    lemma_page_window(s.len(), page_size, t);
    assert(s.take(s.len() as int) =~= s);
}

} // verus!
