//! The whole table for one render pass: search box, header, body and
//! pagination controls, derived from the props and the view state.

use crate::body::{cell_grid, BodyContent, TableBody, TableBodyProps};
use crate::controls::{indicator_of, pagination_controls, PaginationView};
use crate::deriver::arranged;
use crate::header::{header, header_cell_of, HeaderCell};
use crate::paginate::{page_slice, total_pages_of};
use crate::rows::Row;
use crate::state::ViewState;
use crate::types::{Column, TableClasses, TableError, TableTexts};
use vstd::prelude::*;

verus! {

/// Main props for the table: the data, the column definitions, and the
/// configuration a host passes through.
pub struct TableProps {
    /// Row data.
    pub data: Vec<Row>,
    /// Definitions of the columns to display.
    pub columns: Vec<Column>,
    /// Rows per page, handed to `ViewState::new` by the host.
    pub page_size: usize,
    /// Whether the table is in a loading state.
    pub loading: bool,
    /// Whether pagination controls are shown.
    pub paginate: bool,
    /// Whether the search input is shown.
    pub search: bool,
    /// Text labels for the table UI.
    pub texts: TableTexts,
    /// Class names used to style the table.
    pub classes: TableClasses,
}

impl Default for TableProps {
    /// An empty table: no data, no columns, ten rows per page, with
    /// pagination and search off and the default texts and classes.
    fn default() -> (props: TableProps)
        ensures
            props.data@.len() == 0,
            props.columns@.len() == 0,
            props.page_size == 10,
            !props.loading,
            !props.paginate,
            !props.search,
    {
        TableProps {
            data: Vec::new(),
            columns: Vec::new(),
            page_size: 10,
            loading: false,
            paginate: false,
            search: false,
            texts: TableTexts::default(),
            classes: TableClasses::default(),
        }
    }
}

/// The search input of the table, when search is enabled.
#[derive(Debug)]
pub struct SearchBox {
    /// The current query, echoed into the input.
    pub value: String,
    /// The placeholder text.
    pub placeholder: &'static str,
}

/// What the whole table shows for one render pass.
#[derive(Debug)]
pub struct TableView {
    /// The search input, when search is enabled.
    pub search_box: Option<SearchBox>,
    /// One header cell per column.
    pub header_cells: Vec<HeaderCell>,
    /// The body: loading row, empty row, or the visible cell texts.
    pub body: BodyContent,
    /// The pagination controls, when pagination is enabled.
    pub pagination: Option<PaginationView>,
}

/// A copy of a column list, element by element.
fn clone_columns(columns: &Vec<Column>) -> (out: Vec<Column>)
    ensures
        out.deep_view() == columns.deep_view(),
        out@.len() == columns@.len(),
{
    let n = columns.len();
    let mut out: Vec<Column> = Vec::new();
    let mut i: usize = 0;
    while i < n
        invariant
            n == columns.len(),
            i <= n,
            out.len() == i,
            forall|k: int| 0 <= k < i ==> #[trigger] out.deep_view()[k] == columns.deep_view()[k],
        decreases n - i,
    {
        let ghost out_before = out.deep_view();
        out.push(columns[i].clone());
        proof {
            assert(out.deep_view() =~= out_before.push(columns.deep_view()[i as int]));
        }
        i += 1;
    }
    proof {
        assert(out.deep_view() =~= columns.deep_view());
    }
    out
}

/// One full render pass: derives the visible rows for the view state and
/// assembles search box, header, body and pagination controls. Fails
/// exactly when the view state's page size is zero.
pub fn table(props: &TableProps, state: &ViewState) -> (result: Result<TableView, TableError>)
    requires
        state.page < usize::MAX,
    ensures
        result is Err <==> state@.page_size == 0,
        result is Err ==> result->Err_0 == TableError::InvalidConfiguration,
        result is Ok ==> ({
            let shown = result->Ok_0;
            let arranged_rows = arranged(props.data.deep_view(), props.columns.deep_view(), state@);
            let visible = page_slice(arranged_rows, state@.page, state@.page_size);
            let total = total_pages_of(arranged_rows.len(), state@.page_size);
            &&& (shown.search_box is Some) <==> props.search
            &&& props.search ==> shown.search_box->0.value@ == state@.search_query
            &&& props.search ==> shown.search_box->0.placeholder@ == props.texts.search_placeholder@
            &&& shown.header_cells@.len() == props.columns@.len()
            &&& forall|j: int|
                0 <= j < shown.header_cells@.len() ==> header_cell_of(
                    #[trigger] shown.header_cells@[j],
                    props.columns.deep_view()[j],
                    state@.sort_column,
                    state@.sort_order,
                )
            &&& (shown.body is Loading) <==> props.loading
            &&& (shown.body is Empty) <==> (!props.loading && visible.len() == 0)
            &&& (!props.loading && visible.len() > 0) ==> (shown.body matches BodyContent::Cells(
                grid,
            ) && grid.deep_view() == cell_grid(visible, props.columns.deep_view()))
            &&& (shown.pagination is Some) <==> props.paginate
            &&& props.paginate ==> shown.pagination->0.prev_enabled == (state@.page > 0)
            &&& props.paginate ==> shown.pagination->0.next_enabled == (state@.page + 1 < total)
            &&& props.paginate ==> shown.pagination->0.indicator@ == indicator_of(
                props.texts.page_indicator@,
                state@.page,
                total as nat,
            )
        }),
{
    let derived = match crate::deriver::derive(&props.data, &props.columns, state) {
        Ok(derived) => derived,
        Err(e) => {
            return Err(e);
        },
    };
    let search_box = if props.search {
        Some(
            SearchBox {
                value: state.search_query.clone(),
                placeholder: props.texts.search_placeholder,
            },
        )
    } else {
        None
    };
    let header_cells = header(&props.columns, state.sort_column, state.sort_order);
    let body_props = TableBodyProps {
        columns: clone_columns(&props.columns),
        rows: derived.visible_rows,
        loading: props.loading,
        classes: props.classes.clone(),
        texts: props.texts.clone(),
    };
    let body_content = TableBody(&body_props);
    let pagination = if props.paginate {
        Some(pagination_controls(state.page, derived.total_pages, &props.texts))
    } else {
        None
    };
    Ok(
        TableView {
            search_box: search_box,
            header_cells: header_cells,
            body: body_content,
            pagination: pagination,
        },
    )
}

} // verus!
