//! The derivation pipeline: search filter, stable sort, pagination window,
//! computed as one pure step from rows, columns and view state.

use crate::filter::{filter_rows, filtered};
use crate::paginate::{page_slice, paginate_rows, total_pages_of};
use crate::rows::{Row, RowModel};
use crate::sort::{sort_rows, sort_rows_spec};
use crate::state::{ViewState, ViewStateModel};
use crate::text::str_eq;
use crate::types::{Column, ColumnModel, TableError};
use vstd::prelude::*;

verus! {

/// Whether a column list knows a column id.
pub open spec fn known_column(cols: Seq<ColumnModel>, id: Seq<char>) -> bool {
    exists|j: int| 0 <= j < cols.len() && (#[trigger] cols[j]).id == id
}

/// The filtered rows, sorted when the view state names a known column;
/// naming an unknown column skips sorting, it is not an error.
pub open spec fn arranged(rows: Seq<RowModel>, cols: Seq<ColumnModel>, st: ViewStateModel) -> Seq<
    RowModel,
> {
    let f = filtered(rows, cols, st.search_query);
    match st.sort_column {
        Some(id) => if known_column(cols, id) {
            sort_rows_spec(f, id, st.sort_order)
        } else {
            f
        },
        None => f,
    }
}

/// What one derivation yields: the rows of the current page, and the
/// number of pages the whole filtered row set fills.
#[derive(Debug)]
pub struct Derived {
    /// The rows the current page shows, in display order.
    pub visible_rows: Vec<Row>,
    /// The page count; zero when no rows match.
    pub total_pages: usize,
}

/// Whether the id names a known column, decided id by id.
fn known_column_exec(columns: &Vec<Column>, id: &str) -> (b: bool)
    ensures
        b == known_column(columns.deep_view(), id@),
{
    let n = columns.len();
    let mut j: usize = 0;
    while j < n
        invariant
            n == columns.len(),
            j <= n,
            forall|m: int| 0 <= m < j ==> (#[trigger] columns.deep_view()[m]).id != id@,
        decreases n - j,
    {
        proof {
            assert(columns.deep_view()[j as int] == columns@[j as int]@);
        }
        if str_eq(columns[j].id, id) {
            return true;
        }
        j += 1;
    }
    false
}

/// One derivation: filter by the search query, sort by the sort column,
/// window to the current page. Pure: the inputs are left unchanged and
/// equal inputs yield equal results. Fails exactly when the page size is
/// zero; an out-of-range page yields an empty window, not an error.
pub fn derive(rows: &Vec<Row>, columns: &Vec<Column>, state: &ViewState) -> (result: Result<
    Derived,
    TableError,
>)
    ensures
        result is Err <==> state@.page_size == 0,
        result is Err ==> result->Err_0 == TableError::InvalidConfiguration,
        result is Ok ==> ({
            let arranged_rows = arranged(rows.deep_view(), columns.deep_view(), state@);
            &&& result->Ok_0.visible_rows.deep_view() == page_slice(
                arranged_rows,
                state@.page,
                state@.page_size,
            )
            &&& result->Ok_0.total_pages == total_pages_of(arranged_rows.len(), state@.page_size)
        }),
{
    if state.page_size == 0 {
        return Err(TableError::InvalidConfiguration);
    }
    let f = filter_rows(rows, columns, &state.search_query);
    let arranged_rows = match state.sort_column {
        Some(id) => {
            if known_column_exec(columns, id) {
                sort_rows(f, id, state.sort_order)
            } else {
                f
            }
        },
        None => f,
    };
    proof {
        assert(arranged_rows.deep_view() == arranged(
            rows.deep_view(),
            columns.deep_view(),
            state@,
        ));
        assert(arranged_rows@.len() == arranged_rows.deep_view().len());
    }
    let (visible_rows, total_pages) = paginate_rows(&arranged_rows, state.page, state.page_size);
    Ok(Derived { visible_rows, total_pages })
}

/// Determinism: two results that satisfy the derivation's contract for the
/// same inputs are the same result, so deriving twice from equal inputs
/// yields identical output.
pub proof fn lemma_derive_deterministic(
    rows: Seq<RowModel>,
    cols: Seq<ColumnModel>,
    st: ViewStateModel,
    first: (Seq<RowModel>, int),
    second: (Seq<RowModel>, int),
)
    requires
        first.0 == page_slice(arranged(rows, cols, st), st.page, st.page_size),
        first.1 == total_pages_of(arranged(rows, cols, st).len(), st.page_size),
        second.0 == page_slice(arranged(rows, cols, st), st.page, st.page_size),
        second.1 == total_pages_of(arranged(rows, cols, st).len(), st.page_size),
    ensures
        first == second,
{
}

} // verus!
