//! Stable sorting of rows by a column's values under lexicographic
//! (code-point) order, ascending or descending.

use crate::rows::{row_get, row_key, Row, RowModel};
use crate::text::{lemma_lex_leq_refl, lemma_lex_leq_total, lemma_lex_leq_trans, lex_leq,
    lex_leq_exec};
use crate::types::SortOrder;
use vstd::prelude::*;

verus! {

/// The comparator of the sort step: row `a` comes at or before row `b`
/// under the column's values in the given direction.
pub open spec fn row_leq(a: RowModel, b: RowModel, id: Seq<char>, ord: SortOrder) -> bool {
    match ord {
        SortOrder::Asc => lex_leq(row_key(a, id), row_key(b, id)),
        SortOrder::Desc => lex_leq(row_key(b, id), row_key(a, id)),
    }
}

/// The comparator is total.
proof fn lemma_row_leq_total(a: RowModel, b: RowModel, id: Seq<char>, ord: SortOrder)
    ensures
        row_leq(a, b, id, ord) || row_leq(b, a, id, ord),
{
    lemma_lex_leq_total(row_key(a, id), row_key(b, id));
}

/// The comparator is transitive.
proof fn lemma_row_leq_trans(a: RowModel, b: RowModel, c: RowModel, id: Seq<char>, ord: SortOrder)
    requires
        row_leq(a, b, id, ord),
        row_leq(b, c, id, ord),
    ensures
        row_leq(a, c, id, ord),
{
    match ord {
        SortOrder::Asc => lemma_lex_leq_trans(row_key(a, id), row_key(b, id), row_key(c, id)),
        SortOrder::Desc => lemma_lex_leq_trans(row_key(c, id), row_key(b, id), row_key(a, id)),
    }
}

/// Rows the comparator declines to order at-or-before have different keys.
proof fn lemma_not_leq_keys_differ(a: RowModel, b: RowModel, id: Seq<char>, ord: SortOrder)
    requires
        !row_leq(a, b, id, ord),
    ensures
        row_key(a, id) != row_key(b, id),
{
    if row_key(a, id) == row_key(b, id) {
        lemma_lex_leq_refl(row_key(a, id));
    }
}

/// Sortedness of a row sequence under the comparator.
pub open spec fn row_sorted(s: Seq<RowModel>, id: Seq<char>, ord: SortOrder) -> bool {
    forall|i: int, j: int| 0 <= i < j < s.len() ==> #[trigger] row_leq(s[i], s[j], id, ord)
}

/// Inserts a row into a sequence from the right: it lands after every row
/// that compares at-or-before it, in particular after every row it ties
/// with.
pub open spec fn insert_sorted(s: Seq<RowModel>, r: RowModel, id: Seq<char>, ord: SortOrder) -> Seq<
    RowModel,
>
    decreases s.len(),
{
    if s.len() == 0 {
        seq![r]
    } else if row_leq(s.last(), r, id, ord) {
        s.push(r)
    } else {
        insert_sorted(s.drop_last(), r, id, ord).push(s.last())
    }
}

/// The stable insertion sort of a row sequence by a column's values.
pub open spec fn sort_rows_spec(s: Seq<RowModel>, id: Seq<char>, ord: SortOrder) -> Seq<RowModel>
    decreases s.len(),
{
    if s.len() == 0 {
        Seq::empty()
    } else {
        insert_sorted(sort_rows_spec(s.drop_last(), id, ord), s.last(), id, ord)
    }
}

/// Inserting into a sorted sequence keeps it sorted, grows it by one, and
/// adds no row but the inserted one.
proof fn lemma_insert_sorted_props(s: Seq<RowModel>, r: RowModel, id: Seq<char>, ord: SortOrder)
    requires
        row_sorted(s, id, ord),
    ensures
        insert_sorted(s, r, id, ord).len() == s.len() + 1,
        row_sorted(insert_sorted(s, r, id, ord), id, ord),
        forall|k: int|
            0 <= k < s.len() + 1 ==> (s.contains(#[trigger] insert_sorted(s, r, id, ord)[k])
                || insert_sorted(s, r, id, ord)[k] == r),
    decreases s.len(),
{
    let t = insert_sorted(s, r, id, ord);
    if s.len() == 0 {
        assert(t =~= seq![r]);
    } else if row_leq(s.last(), r, id, ord) {
        assert forall|i: int, j: int| 0 <= i < j < t.len() implies row_leq(
            t[i],
            t[j],
            id,
            ord,
        ) by {
            if j == s.len() {
                if i < s.len() - 1 {
                    assert(row_leq(s[i], s[s.len() - 1], id, ord));
                    lemma_row_leq_trans(s[i], s[s.len() - 1], r, id, ord);
                }
            } else {
                assert(row_leq(s[i], s[j], id, ord));
            }
        }
        assert forall|k: int| 0 <= k < t.len() implies (s.contains(t[k]) || t[k] == r) by {
            if k < s.len() {
                assert(s[k] == t[k]);
            }
        }
    } else {
        lemma_row_leq_total(s.last(), r, id, ord);
        let d = s.drop_last();
        assert(row_sorted(d, id, ord)) by {
            assert forall|i: int, j: int| 0 <= i < j < d.len() implies row_leq(
                d[i],
                d[j],
                id,
                ord,
            ) by {
                assert(row_leq(s[i], s[j], id, ord));
            }
        }
        lemma_insert_sorted_props(d, r, id, ord);
        let u = insert_sorted(d, r, id, ord);
        assert forall|i: int, j: int| 0 <= i < j < t.len() implies row_leq(
            t[i],
            t[j],
            id,
            ord,
        ) by {
            if j < u.len() {
                assert(row_leq(u[i], u[j], id, ord));
            } else {
                assert(t[j] == s.last());
                assert(t[i] == u[i]);
                assert(d.contains(u[i]) || u[i] == r);
                if u[i] == r {
                } else {
                    let m = choose|m: int| 0 <= m < d.len() && d[m] == u[i];
                    assert(row_leq(s[m], s[s.len() - 1], id, ord));
                }
            }
        }
        assert forall|k: int| 0 <= k < t.len() implies (s.contains(t[k]) || t[k] == r) by {
            if k < u.len() {
                assert(t[k] == u[k]);
                if d.contains(u[k]) {
                    let m = choose|m: int| 0 <= m < d.len() && d[m] == u[k];
                    assert(s[m] == t[k]);
                }
            } else {
                assert(t[k] == s[s.len() - 1]);
            }
        }
    }
}

/// Sort correctness: the sorted sequence keeps the length of the input and
/// is monotonic under the comparator, that is, non-decreasing in the
/// column's values for ascending order and non-increasing for descending.
pub proof fn lemma_sort_rows_sorted(s: Seq<RowModel>, id: Seq<char>, ord: SortOrder)
    ensures
        sort_rows_spec(s, id, ord).len() == s.len(),
        row_sorted(sort_rows_spec(s, id, ord), id, ord),
    decreases s.len(),
{
    if s.len() > 0 {
        lemma_sort_rows_sorted(s.drop_last(), id, ord);
        lemma_insert_sorted_props(sort_rows_spec(s.drop_last(), id, ord), s.last(), id, ord);
    }
}

/// The predicate "the row's sort key equals `k`", as one named closure.
pub open spec fn key_is(id: Seq<char>, k: Seq<char>) -> spec_fn(RowModel) -> bool {
    |r: RowModel| row_key(r, id) == k
}

/// Inserting from the right puts the new row after every row it ties
/// with: restricted to any one key value, insertion appends at the end or
/// changes nothing.
proof fn lemma_insert_sorted_filter(
    s: Seq<RowModel>,
    r: RowModel,
    id: Seq<char>,
    ord: SortOrder,
    k: Seq<char>,
)
    ensures
        insert_sorted(s, r, id, ord).filter(key_is(id, k)) == if row_key(r, id) == k {
            s.filter(key_is(id, k)).push(r)
        } else {
            s.filter(key_is(id, k))
        },
    decreases s.len(),
{
    reveal(Seq::filter);
    let p = key_is(id, k);
    let t = insert_sorted(s, r, id, ord);
    if s.len() == 0 {
        assert(t =~= seq![r]);
        assert(t.drop_last() =~= s);
        assert(t.last() == r);
    } else if row_leq(s.last(), r, id, ord) {
        assert(t.drop_last() =~= s);
        assert(t.last() == r);
    } else {
        lemma_not_leq_keys_differ(s.last(), r, id, ord);
        let u = insert_sorted(s.drop_last(), r, id, ord);
        lemma_insert_sorted_filter(s.drop_last(), r, id, ord, k);
        assert(t == u.push(s.last()));
        assert(t.drop_last() =~= u);
        assert(t.last() == s.last());
    }
}

/// Sort stability: restricted to the rows whose sort key equals any one
/// value, the sorted sequence is exactly the input sequence; rows with
/// equal keys keep their original relative order.
pub proof fn lemma_sort_rows_stable(s: Seq<RowModel>, id: Seq<char>, ord: SortOrder, k: Seq<char>)
    ensures
        sort_rows_spec(s, id, ord).filter(key_is(id, k)) == s.filter(key_is(id, k)),
    decreases s.len(),
{
    reveal(Seq::filter);
    if s.len() == 0 {
        assert(sort_rows_spec(s, id, ord) =~= s);
    } else {
        lemma_sort_rows_stable(s.drop_last(), id, ord, k);
        lemma_insert_sorted_filter(sort_rows_spec(s.drop_last(), id, ord), s.last(), id, ord, k);
    }
}

/// Where a row lands when inserted from the right: before the rows it
/// strictly precedes, after the row at-or-before it next to them.
proof fn lemma_insert_sorted_position(
    s: Seq<RowModel>,
    r: RowModel,
    id: Seq<char>,
    ord: SortOrder,
    j: int,
)
    requires
        0 <= j <= s.len(),
        forall|m: int| j <= m < s.len() ==> !row_leq(#[trigger] s[m], r, id, ord),
        j > 0 ==> row_leq(s[j - 1], r, id, ord),
    ensures
        insert_sorted(s, r, id, ord) == s.take(j) + seq![r] + s.skip(j),
    decreases s.len(),
{
    if j == s.len() {
        if s.len() == 0 {
            assert(insert_sorted(s, r, id, ord) =~= s.take(j) + seq![r] + s.skip(j));
        } else {
            assert(row_leq(s.last(), r, id, ord));
            assert(s.push(r) =~= s.take(j) + seq![r] + s.skip(j));
        }
    } else {
        assert(!row_leq(s[s.len() - 1], r, id, ord));
        let d = s.drop_last();
        assert forall|m: int| j <= m < d.len() implies !row_leq(#[trigger] d[m], r, id, ord) by {
            assert(d[m] == s[m]);
        }
        lemma_insert_sorted_position(d, r, id, ord, j);
        assert(d.take(j) =~= s.take(j));
        assert(insert_sorted(d, r, id, ord).push(s.last()) =~= s.take(j) + seq![r] + s.skip(j));
    }
}

/// Whether row `a` comes at or before row `b` under the column and
/// direction, decided on the rows' values.
fn row_leq_exec(a: &Row, b: &Row, id: &str, ord: SortOrder) -> (r: bool)
    ensures
        r == row_leq(a@, b@, id@, ord),
{
    proof {
        reveal_strlit("");
        assert(""@ =~= Seq::<char>::empty());
    }
    let ka = match row_get(a, id) {
        Some(v) => v.as_str(),
        None => "",
    };
    let kb = match row_get(b, id) {
        Some(v) => v.as_str(),
        None => "",
    };
    proof {
        assert(ka@ == row_key(a@, id@));
        assert(kb@ == row_key(b@, id@));
    }
    match ord {
        SortOrder::Asc => lex_leq_exec(ka, kb),
        SortOrder::Desc => lex_leq_exec(kb, ka),
    }
}

/// The sort step: a stable insertion sort of the rows by the column's
/// values in the given direction.
pub fn sort_rows(rows: Vec<Row>, id: &str, ord: SortOrder) -> (out: Vec<Row>)
    ensures
        out.deep_view() == sort_rows_spec(rows.deep_view(), id@, ord),
{
    let n = rows.len();
    let mut out: Vec<Row> = Vec::new();
    let mut i: usize = 0;
    proof {
        assert(rows.deep_view().take(0) =~= Seq::<RowModel>::empty());
    }
    while i < n
        invariant
            n == rows.len(),
            i <= n,
            out.len() == i,
            out.deep_view() == sort_rows_spec(rows.deep_view().take(i as int), id@, ord),
        decreases n - i,
    {
        let r = rows[i].clone();
        let ghost inserted = r@;
        let mut j: usize = out.len();
        while j > 0 && !row_leq_exec(&out[j - 1], &r, id, ord)
            invariant
                j <= out.len(),
                r@ == inserted,
                forall|m: int|
                    j <= m < out.len() ==> !row_leq(
                        #[trigger] out.deep_view()[m],
                        inserted,
                        id@,
                        ord,
                    ),
            decreases j,
        {
            j -= 1;
        }
        proof {
            assert(j > 0 ==> row_leq(out.deep_view()[j - 1], inserted, id@, ord));
            lemma_insert_sorted_position(out.deep_view(), inserted, id@, ord, j as int);
        }
        let ghost out_before = out.deep_view();
        out.insert(j, r);
        proof {
            assert(out.deep_view() =~= out_before.take(j as int) + seq![inserted]
                + out_before.skip(j as int));
            assert(rows.deep_view().take(i + 1).drop_last() =~= rows.deep_view().take(i as int));
            assert(rows.deep_view().take(i + 1).last() == rows.deep_view()[i as int]);
        }
        i += 1;
    }
    proof {
        assert(rows.deep_view().take(n as int) =~= rows.deep_view());
    }
    out
}

} // verus!
