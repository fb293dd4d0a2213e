//! The table body: the grid of cell texts for the visible rows, or the
//! loading or empty placeholder row.

use crate::rows::{row_get, row_key, Row, RowModel};
use crate::types::{Column, ColumnModel, TableClasses, TableTexts};
use vstd::prelude::*;

verus! {

/// The grid of cell texts: one text per visible row and column, the empty
/// sequence where a row has no field for a column.
pub open spec fn cell_grid(rows: Seq<RowModel>, cols: Seq<ColumnModel>) -> Seq<Seq<Seq<char>>> {
    Seq::new(rows.len(), |i: int| Seq::new(cols.len(), |j: int| row_key(rows[i], cols[j].id)))
}

/// The cell texts of one row, one per column.
fn row_cells(columns: &Vec<Column>, row: &Row) -> (cells: Vec<String>)
    ensures
        cells.deep_view() == Seq::new(
            columns.deep_view().len(),
            |j: int| row_key(row@, columns.deep_view()[j].id),
        ),
{
    let n = columns.len();
    let mut cells: Vec<String> = Vec::new();
    let mut j: usize = 0;
    proof {
        reveal_strlit("");
        assert(""@ =~= Seq::<char>::empty());
    }
    while j < n
        invariant
            n == columns.len(),
            j <= n,
            cells.len() == j,
            forall|m: int|
                0 <= m < j ==> #[trigger] cells.deep_view()[m] == row_key(
                    row@,
                    columns.deep_view()[m].id,
                ),
        decreases n - j,
    {
        let ghost cells_before = cells.deep_view();
        proof {
            assert(columns.deep_view()[j as int] == columns@[j as int]@);
        }
        let text = match row_get(row, columns[j].id) {
            Some(v) => v.clone(),
            None => String::new(),
        };
        proof {
            assert(text@ == row_key(row@, columns.deep_view()[j as int].id));
        }
        cells.push(text);
        proof {
            assert(cells.deep_view() =~= cells_before.push(
                row_key(row@, columns.deep_view()[j as int].id),
            ));
        }
        j += 1;
    }
    proof {
        assert(cells.deep_view() =~= Seq::new(
            columns.deep_view().len(),
            |j: int| row_key(row@, columns.deep_view()[j].id),
        ));
    }
    cells
}

/// The grid of cell texts for the visible rows: one list of texts per row,
/// one text per column, looked up by the column's id.
pub fn body(columns: &Vec<Column>, rows: &Vec<Row>) -> (grid: Vec<Vec<String>>)
    ensures
        grid.deep_view() == cell_grid(rows.deep_view(), columns.deep_view()),
{
    let n = rows.len();
    let mut grid: Vec<Vec<String>> = Vec::new();
    let mut i: usize = 0;
    while i < n
        invariant
            n == rows.len(),
            i <= n,
            grid.len() == i,
            forall|m: int|
                0 <= m < i ==> #[trigger] grid.deep_view()[m] == cell_grid(
                    rows.deep_view(),
                    columns.deep_view(),
                )[m],
        decreases n - i,
    {
        let ghost grid_before = grid.deep_view();
        let cells = row_cells(columns, &rows[i]);
        grid.push(cells);
        proof {
            assert(rows.deep_view()[i as int] == rows@[i as int]@);
            assert(grid.deep_view() =~= grid_before.push(
                cell_grid(rows.deep_view(), columns.deep_view())[i as int],
            ));
        }
        i += 1;
    }
    proof {
        assert(grid.deep_view() =~= cell_grid(rows.deep_view(), columns.deep_view()));
    }
    grid
}

/// What the body of the table shows.
#[derive(Debug)]
pub enum BodyContent {
    /// A single loading row spanning the columns.
    Loading,
    /// A single empty-state row spanning the columns.
    Empty,
    /// The cell texts of the visible rows.
    Cells(Vec<Vec<String>>),
}

/// Props for rendering the body of the table.
pub struct TableBodyProps {
    /// Column definitions; each column yields one cell per row.
    pub columns: Vec<Column>,
    /// The visible rows to render.
    pub rows: Vec<Row>,
    /// Whether the table is in a loading state.
    pub loading: bool,
    /// Class names used to style the body.
    pub classes: TableClasses,
    /// Text labels for the loading and empty states.
    pub texts: TableTexts,
}

/// The table body: the loading row while loading, the empty row when no
/// rows are visible, else one row of cell texts per visible row.
#[allow(non_snake_case)]
pub fn TableBody(props: &TableBodyProps) -> (content: BodyContent)
    ensures
        (content is Loading) <==> props.loading,
        (content is Empty) <==> (!props.loading && props.rows@.len() == 0),
        !props.loading && props.rows@.len() > 0 ==> (content matches BodyContent::Cells(grid)
            && grid.deep_view() == cell_grid(props.rows.deep_view(), props.columns.deep_view())),
{
    if props.loading {
        BodyContent::Loading
    } else if props.rows.len() == 0 {
        BodyContent::Empty
    } else {
        BodyContent::Cells(body(&props.columns, &props.rows))
    }
}

} // verus!
