//! Search filtering: a row is kept when some column's value contains the
//! query, compared case-insensitively; an empty query keeps every row.

use crate::rows::{row_get, row_value, Row, RowModel};
use crate::text::{has_substring, has_substring_exec, lower_of, lowercase};
use crate::types::{Column, ColumnModel};
use vstd::prelude::*;

verus! {

/// Whether one column contributes a match: the row holds a value under the
/// column's id whose lowercase form contains the (already lowercased)
/// query. A missing field contributes no match.
pub open spec fn col_match(r: RowModel, id: Seq<char>, lowered_query: Seq<char>) -> bool {
    match row_value(r, id) {
        Some(v) => has_substring(lower_of(v), lowered_query),
        None => false,
    }
}

/// Whether a row matches the (already lowercased) query: at least one
/// column contributes a match.
pub open spec fn row_matches(r: RowModel, cols: Seq<ColumnModel>, lowered_query: Seq<char>) -> bool {
    exists|j: int| 0 <= j < cols.len() && col_match(r, (#[trigger] cols[j]).id, lowered_query)
}

/// The row predicate the filter step applies, as one named closure.
pub open spec fn match_pred(cols: Seq<ColumnModel>, lowered_query: Seq<char>) -> spec_fn(
    RowModel,
) -> bool {
    |r: RowModel| row_matches(r, cols, lowered_query)
}

/// The filtered row sequence: every row when the query is empty, else the
/// rows that match it, in their original order.
pub open spec fn filtered(rows: Seq<RowModel>, cols: Seq<ColumnModel>, query: Seq<char>) -> Seq<
    RowModel,
> {
    if query.len() == 0 {
        rows
    } else {
        rows.filter(match_pred(cols, lower_of(query)))
    }
}

/// Filtering a prefix one element further keeps the shorter prefix's
/// result and appends the new element exactly when the predicate holds.
pub proof fn lemma_filter_take_step<A>(s: Seq<A>, pred: spec_fn(A) -> bool, i: int)
    requires
        0 <= i < s.len(),
    ensures
        s.take(i + 1).filter(pred) == if pred(s[i]) {
            s.take(i).filter(pred).push(s[i])
        } else {
            s.take(i).filter(pred)
        },
{
    reveal(Seq::filter);
    assert(s.take(i + 1).drop_last() =~= s.take(i));
    assert(s.take(i + 1).last() == s[i]);
}

/// Everything the filter keeps comes from the sequence and satisfies the
/// predicate.
pub proof fn lemma_filter_subset<A>(s: Seq<A>, pred: spec_fn(A) -> bool, x: A)
    requires
        s.filter(pred).contains(x),
    ensures
        s.contains(x),
        pred(x),
    decreases s.len(),
{
    reveal(Seq::filter);
    if s.len() > 0 {
        if s.drop_last().filter(pred).contains(x) {
            lemma_filter_subset(s.drop_last(), pred, x);
            let k = choose|k: int| 0 <= k < s.drop_last().len() && s.drop_last()[k] == x;
            assert(s[k] == x);
        } else {
            assert(x == s.last());
            assert(s[s.len() - 1] == x);
        }
    }
}

/// Filter correctness: a row appears in the filtered sequence exactly when
/// it appears among the input rows and either the query is empty or some
/// column's value contains the query, both sides lowercased.
pub proof fn lemma_filter_membership(
    rows: Seq<RowModel>,
    cols: Seq<ColumnModel>,
    query: Seq<char>,
    r: RowModel,
)
    ensures
        filtered(rows, cols, query).contains(r) <==> (rows.contains(r) && (query.len() == 0
            || row_matches(r, cols, lower_of(query)))),
{
    if query.len() > 0 {
        let pred = match_pred(cols, lower_of(query));
        if filtered(rows, cols, query).contains(r) {
            lemma_filter_subset(rows, pred, r);
        }
        if rows.contains(r) && row_matches(r, cols, lower_of(query)) {
            let k = choose|k: int| 0 <= k < rows.len() && rows[k] == r;
            assert(pred(rows[k]));
            rows.lemma_filter_contains(pred, k);
        }
    }
}

/// Whether a row matches the query, decided column by column.
fn row_matches_exec(row: &Row, columns: &Vec<Column>, lowered_query: &String) -> (b: bool)
    ensures
        b == row_matches(row@, columns.deep_view(), lowered_query@),
{
    let n = columns.len();
    let mut j: usize = 0;
    while j < n
        invariant
            n == columns.len(),
            j <= n,
            forall|m: int|
                0 <= m < j ==> !col_match(
                    row@,
                    (#[trigger] columns.deep_view()[m]).id,
                    lowered_query@,
                ),
        decreases n - j,
    {
        proof {
            assert(columns.deep_view()[j as int] == columns@[j as int]@);
        }
        match row_get(row, columns[j].id) {
            Some(v) => {
                let lowered_value = lowercase(v.as_str());
                if has_substring_exec(lowered_value.as_str(), lowered_query.as_str()) {
                    proof {
                        assert(col_match(row@, columns.deep_view()[j as int].id, lowered_query@));
                    }
                    return true;
                }
            },
            None => {},
        }
        j += 1;
    }
    false
}

/// A copy of a row vector, element by element.
pub fn clone_rows(rows: &Vec<Row>) -> (out: Vec<Row>)
    ensures
        out.deep_view() == rows.deep_view(),
{
    let n = rows.len();
    let mut out: Vec<Row> = Vec::new();
    let mut i: usize = 0;
    while i < n
        invariant
            n == rows.len(),
            i <= n,
            out.len() == i,
            forall|k: int| 0 <= k < i ==> #[trigger] out.deep_view()[k] == rows.deep_view()[k],
        decreases n - i,
    {
        let ghost out_before = out.deep_view();
        out.push(rows[i].clone());
        proof {
            assert(out.deep_view() =~= out_before.push(rows.deep_view()[i as int]));
        }
        i += 1;
    }
    proof {
        assert(out.deep_view() =~= rows.deep_view());
    }
    out
}

/// The filter step: keeps, in order, the rows that match the query; all of
/// them when the query is empty. The inputs are left unchanged.
pub fn filter_rows(rows: &Vec<Row>, columns: &Vec<Column>, query: &String) -> (out: Vec<Row>)
    ensures
        out.deep_view() == filtered(rows.deep_view(), columns.deep_view(), query@),
{
    if query.as_str().is_empty() {
        return clone_rows(rows);
    }
    let lowered_query = lowercase(query.as_str());
    let ghost pred = match_pred(columns.deep_view(), lower_of(query@));
    let n = rows.len();
    let mut out: Vec<Row> = Vec::new();
    let mut i: usize = 0;
    proof {
        assert(rows.deep_view().take(0) =~= Seq::<RowModel>::empty());
        assert(Seq::<RowModel>::empty().filter(pred) =~= Seq::<RowModel>::empty());
    }
    while i < n
        invariant
            n == rows.len(),
            i <= n,
            pred == match_pred(columns.deep_view(), lowered_query@),
            lowered_query@ == lower_of(query@),
            out.deep_view() == rows.deep_view().take(i as int).filter(pred),
        decreases n - i,
    {
        let ghost out_before = out.deep_view();
        let keep = row_matches_exec(&rows[i], columns, &lowered_query);
        proof {
            assert(rows.deep_view()[i as int] == rows@[i as int]@);
            assert(keep == pred(rows.deep_view()[i as int]));
            lemma_filter_take_step(rows.deep_view(), pred, i as int);
        }
        if keep {
            out.push(rows[i].clone());
            proof {
                assert(out.deep_view() =~= out_before.push(rows.deep_view()[i as int]));
            }
        }
        i += 1;
    }
    proof {
        assert(rows.deep_view().take(n as int) =~= rows.deep_view());
    }
    out
}

} // verus!
