//! The table header: one cell per column, carrying the accessibility sort
//! marker for the active sort column.

use crate::text::str_eq;
use crate::types::{Column, ColumnModel, SortOrder, TableClasses};
use vstd::prelude::*;

verus! {

/// The accessibility sort marker of one column: "ascending" or
/// "descending" on the active sort column, "none" elsewhere.
pub open spec fn aria_sort_of(
    col_id: Seq<char>,
    sort_column: Option<Seq<char>>,
    sort_order: SortOrder,
) -> Seq<char> {
    if sort_column == Some(col_id) {
        match sort_order {
            SortOrder::Asc => "ascending"@,
            SortOrder::Desc => "descending"@,
        }
    } else {
        "none"@
    }
}

/// One rendered header cell: what a host needs to draw a column head.
#[derive(Debug)]
pub struct HeaderCell {
    /// The column's id, the payload of a sort click.
    pub id: &'static str,
    /// The header text.
    pub header: &'static str,
    /// Whether clicking the cell triggers a sort transition.
    pub sortable: bool,
    /// The accessibility sort marker: "ascending", "descending" or "none".
    pub aria_sort: &'static str,
    /// The column's style hint, passed through unchanged.
    pub style: Option<&'static str>,
    /// The column's class hint, passed through unchanged.
    pub class: Option<&'static str>,
}

/// Whether one rendered header cell is the faithful rendering of a column
/// under the given sort state.
pub open spec fn header_cell_of(
    cell: HeaderCell,
    col: ColumnModel,
    sort_column: Option<Seq<char>>,
    sort_order: SortOrder,
) -> bool {
    &&& cell.id@ == col.id
    &&& cell.header@ == col.header
    &&& cell.sortable == col.sortable
    &&& cell.style.deep_view() == col.style
    &&& cell.class.deep_view() == col.class
    &&& cell.aria_sort@ == aria_sort_of(col.id, sort_column, sort_order)
}

/// The header row: one cell per column, in column order, each carrying its
/// sort marker.
pub fn header(columns: &Vec<Column>, sort_column: Option<&str>, sort_order: SortOrder) -> (cells:
    Vec<HeaderCell>)
    ensures
        cells@.len() == columns@.len(),
        forall|j: int|
            0 <= j < cells@.len() ==> header_cell_of(
                #[trigger] cells@[j],
                columns.deep_view()[j],
                sort_column.deep_view(),
                sort_order,
            ),
{
    let n = columns.len();
    let mut cells: Vec<HeaderCell> = Vec::new();
    let mut j: usize = 0;
    while j < n
        invariant
            n == columns.len(),
            j <= n,
            cells@.len() == j,
            forall|m: int|
                0 <= m < j ==> header_cell_of(
                    #[trigger] cells@[m],
                    columns.deep_view()[m],
                    sort_column.deep_view(),
                    sort_order,
                ),
        decreases n - j,
    {
        proof {
            assert(columns.deep_view()[j as int] == columns@[j as int]@);
        }
        let col = &columns[j];
        let is_sorted = match sort_column {
            Some(active) => str_eq(col.id, active),
            None => false,
        };
        let aria_sort = if is_sorted {
            match sort_order {
                SortOrder::Asc => "ascending",
                SortOrder::Desc => "descending",
            }
        } else {
            "none"
        };
        cells.push(
            HeaderCell {
                id: col.id,
                header: col.header,
                sortable: col.sortable,
                aria_sort: aria_sort,
                style: col.style,
                class: col.class,
            },
        );
        j += 1;
    }
    cells
}

/// Props for the table header without a row-end column.
pub struct HeaderProps {
    /// Column definitions for the header.
    pub columns: Vec<Column>,
    /// The id of the active sort column, if any.
    pub sort_column: Option<&'static str>,
    /// The sort direction.
    pub sort_order: SortOrder,
    /// Class names used to style the header.
    pub classes: TableClasses,
}

/// Props for the table header.
pub struct TableHeaderProps {
    /// Column definitions for the header.
    pub columns: Vec<Column>,
    /// The id of the active sort column, if any.
    pub sort_column: Option<&'static str>,
    /// The sort direction.
    pub sort_order: SortOrder,
    /// Class names used to style the header.
    pub classes: TableClasses,
    /// Whether a blank header cell follows for a row-end column.
    pub has_row_end: bool,
}

/// The rendered header: the cells, and whether a blank cell follows.
#[derive(Debug)]
pub struct HeaderView {
    /// One cell per column, in column order.
    pub cells: Vec<HeaderCell>,
    /// Whether a blank header cell follows the column cells.
    pub extra_cell: bool,
}

/// The table header: one cell per column with its sort marker, and a
/// blank trailing cell when a row-end column is rendered.
#[allow(non_snake_case)]
pub fn TableHeader(props: &TableHeaderProps) -> (head: HeaderView)
    ensures
        head.extra_cell == props.has_row_end,
        head.cells@.len() == props.columns@.len(),
        forall|j: int|
            0 <= j < head.cells@.len() ==> header_cell_of(
                #[trigger] head.cells@[j],
                props.columns.deep_view()[j],
                props.sort_column.deep_view(),
                props.sort_order,
            ),
{
    HeaderView {
        cells: header(&props.columns, props.sort_column, props.sort_order),
        extra_cell: props.has_row_end,
    }
}

} // verus!
