//! The data model of the table: columns, sort direction, presentation
//! records, and the error condition.

use vstd::prelude::*;

verus! {

/// Sort direction for a column: ascending or descending.
#[derive(Clone, Copy, Debug, PartialEq, Eq, Structural, Default)]
pub enum SortOrder {
    /// Ascending order (default).
    #[default]
    Asc,
    /// Descending order.
    Desc,
}

/// The one failure condition: a configuration no derivation is defined for
/// (a page size of zero).
#[derive(Clone, Copy, Debug, PartialEq, Eq, Structural)]
pub enum TableError {
    /// The view state holds a page size of zero.
    InvalidConfiguration,
}

/// Describes one table column.
pub struct Column {
    /// Unique identifier, used to look up values in a row and to identify
    /// sort targets. Ids are expected to be unique within a column list;
    /// on a duplicated id the first matching column definition wins.
    pub id: &'static str,
    /// Header text displayed at the top of the column.
    pub header: &'static str,
    /// Whether clicking the header triggers a sort transition.
    pub sortable: bool,
    /// Minimum width of the column in pixels (a presentation hint, opaque
    /// to the derivation).
    pub min_width: u32,
    /// Optional inline style for the column header, passed through unchanged.
    pub style: Option<&'static str>,
    /// Optional class name for the column header, passed through unchanged.
    pub class: Option<&'static str>,
}

/// The mathematical model of a column: its strings as character sequences.
pub ghost struct ColumnModel {
    pub id: Seq<char>,
    pub header: Seq<char>,
    pub sortable: bool,
    pub min_width: u32,
    pub style: Option<Seq<char>>,
    pub class: Option<Seq<char>>,
}

impl View for Column {
    type V = ColumnModel;

    open spec fn view(&self) -> ColumnModel {
        ColumnModel {
            id: self.id@,
            header: self.header@,
            sortable: self.sortable,
            min_width: self.min_width,
            style: self.style.deep_view(),
            class: self.class.deep_view(),
        }
    }
}

impl DeepView for Column {
    type V = ColumnModel;

    open spec fn deep_view(&self) -> ColumnModel {
        self.view()
    }
}

impl Clone for Column {
    fn clone(&self) -> (res: Column)
        ensures
            res@ == self@,
    {
        Column {
            id: self.id,
            header: self.header,
            sortable: self.sortable,
            min_width: self.min_width,
            style: self.style,
            class: self.class,
        }
    }
}

impl Default for Column {
    /// A blank, unsortable column of the default width.
    fn default() -> (c: Column)
        ensures
            c.id@ == ""@,
            c.header@ == ""@,
            !c.sortable,
            c.min_width == 100,
            c.style is None,
            c.class is None,
    {
        Column { id: "", header: "", sortable: false, min_width: 100, style: None, class: None }
    }
}

/// Texts used in various parts of the table UI.
pub struct TableTexts {
    /// Text shown while data is loading.
    pub loading: &'static str,
    /// Text shown when no rows are found.
    pub empty: &'static str,
    /// Placeholder text for the search input.
    pub search_placeholder: &'static str,
    /// Label for the "Previous" pagination button.
    pub previous_button: &'static str,
    /// Label for the "Next" pagination button.
    pub next_button: &'static str,
    /// Template for the page indicator; `{current}` and `{total}` are
    /// replaced by the one-based page number and the page count.
    pub page_indicator: &'static str,
}

impl Clone for TableTexts {
    fn clone(&self) -> (res: TableTexts)
        ensures
            res.loading@ == self.loading@,
            res.empty@ == self.empty@,
            res.search_placeholder@ == self.search_placeholder@,
            res.previous_button@ == self.previous_button@,
            res.next_button@ == self.next_button@,
            res.page_indicator@ == self.page_indicator@,
    {
        TableTexts {
            loading: self.loading,
            empty: self.empty,
            search_placeholder: self.search_placeholder,
            previous_button: self.previous_button,
            next_button: self.next_button,
            page_indicator: self.page_indicator,
        }
    }
}

impl Default for TableTexts {
    fn default() -> (t: TableTexts)
        ensures
            t.loading@ == "Loading..."@,
            t.empty@ == "No results found"@,
            t.search_placeholder@ == "Search..."@,
            t.previous_button@ == "Previous"@,
            t.next_button@ == "Next"@,
            t.page_indicator@ == "Page {current} of {total}"@,
    {
        TableTexts {
            loading: "Loading...",
            empty: "No results found",
            search_placeholder: "Search...",
            previous_button: "Previous",
            next_button: "Next",
            page_indicator: "Page {current} of {total}",
        }
    }
}

/// Class names used to style the parts of the table, opaque to the
/// derivation and passed through unchanged.
pub struct TableClasses {
    /// Class name for the container wrapping the table.
    pub container: &'static str,
    /// Class name for the table element.
    pub table: &'static str,
    /// Class name for the table head element.
    pub thead: &'static str,
    /// Class name for the table body element.
    pub tbody: &'static str,
    /// Class name for the pagination controls wrapper.
    pub pagination: &'static str,
    /// Class name for the search input.
    pub search_input: &'static str,
    /// Class name for header cells.
    pub header_cell: &'static str,
    /// Class name for body cells.
    pub body_cell: &'static str,
    /// Class name for table rows.
    pub row: &'static str,
    /// Class name for the loading row.
    pub loading_row: &'static str,
    /// Class name for the empty row.
    pub empty_row: &'static str,
    /// Class name for pagination buttons.
    pub pagination_button: &'static str,
}

impl Clone for TableClasses {
    fn clone(&self) -> (res: TableClasses)
        ensures
            res.container@ == self.container@,
            res.table@ == self.table@,
            res.thead@ == self.thead@,
            res.tbody@ == self.tbody@,
            res.pagination@ == self.pagination@,
            res.search_input@ == self.search_input@,
            res.header_cell@ == self.header_cell@,
            res.body_cell@ == self.body_cell@,
            res.row@ == self.row@,
            res.loading_row@ == self.loading_row@,
            res.empty_row@ == self.empty_row@,
            res.pagination_button@ == self.pagination_button@,
    {
        TableClasses {
            container: self.container,
            table: self.table,
            thead: self.thead,
            tbody: self.tbody,
            pagination: self.pagination,
            search_input: self.search_input,
            header_cell: self.header_cell,
            body_cell: self.body_cell,
            row: self.row,
            loading_row: self.loading_row,
            empty_row: self.empty_row,
            pagination_button: self.pagination_button,
        }
    }
}

impl Default for TableClasses {
    fn default() -> (c: TableClasses)
        ensures
            c.container@ == "table-container"@,
            c.table@ == "table"@,
            c.thead@ == "thead"@,
            c.tbody@ == "tbody"@,
            c.pagination@ == "pagination-controls"@,
            c.search_input@ == "search-input"@,
            c.header_cell@ == "th"@,
            c.body_cell@ == "td"@,
            c.row@ == "tr"@,
            c.loading_row@ == "loading-row"@,
            c.empty_row@ == "empty-row"@,
            c.pagination_button@ == "pagination-button"@,
    {
        TableClasses {
            container: "table-container",
            table: "table",
            thead: "thead",
            tbody: "tbody",
            pagination: "pagination-controls",
            search_input: "search-input",
            header_cell: "th",
            body_cell: "td",
            row: "tr",
            loading_row: "loading-row",
            empty_row: "empty-row",
            pagination_button: "pagination-button",
        }
    }
}

} // verus!
