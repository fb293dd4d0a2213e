//! Tests for the view-state transitions and the rendered component views:
//! header, body, pagination controls, and the composed table.

use table_rs::body::{BodyContent, TableBody, TableBodyProps};
use table_rs::controls::{pagination_controls, PaginationControls, PaginationControlsProps};
use table_rs::fmt_text::{decimal_string, replace_all};
use table_rs::header::{header, TableHeader, TableHeaderProps};
use table_rs::table::{table, TableProps};
use table_rs::{Column, Row, SortOrder, TableClasses, TableError, TableTexts, ViewState};

fn row(pairs: &[(&'static str, &str)]) -> Row {
    Row { fields: pairs.iter().map(|(k, v)| (*k, v.to_string())).collect() }
}

fn col(id: &'static str, sortable: bool) -> Column {
    Column { id, header: id, sortable, ..Default::default() }
}

#[test]
fn search_resets_page_to_zero() {
    let mut st = ViewState::new(10);
    st.page = 5;
    let st = st.set_search_query("x".to_string());
    assert_eq!(st.page, 0);
    assert_eq!(st.search_query, "x");
    assert_eq!(st.page_size, 10);
}

#[test]
fn toggle_sort_cycles_direction_and_reenters_ascending() {
    let st = ViewState::new(10);
    assert_eq!(st.sort_column, None);
    let st = st.toggle_sort("age");
    assert_eq!(st.sort_column, Some("age"));
    assert!(matches!(st.sort_order, SortOrder::Asc));
    let st = st.toggle_sort("age");
    assert_eq!(st.sort_column, Some("age"));
    assert!(matches!(st.sort_order, SortOrder::Desc));
    let st = st.toggle_sort("name");
    assert_eq!(st.sort_column, Some("name"));
    assert!(matches!(st.sort_order, SortOrder::Asc));
}

#[test]
fn toggle_sort_keeps_the_page() {
    let mut st = ViewState::new(10);
    st.page = 3;
    let st = st.toggle_sort("age");
    assert_eq!(st.page, 3);
}

#[test]
fn go_to_page_clamps_to_the_valid_range() {
    let st = ViewState::new(10);
    let st = st.go_to_page(2, 5);
    assert_eq!(st.page, 2);
    let st = st.go_to_page(9, 5);
    assert_eq!(st.page, 4);
    let st = st.go_to_page(7, 0);
    assert_eq!(st.page, 0);
}

#[test]
fn go_to_page_is_idempotent() {
    for target in [0usize, 3, 7, 100] {
        for total in [0usize, 1, 4, 50] {
            let once = ViewState::new(10).go_to_page(target, total);
            let page_once = once.page;
            let twice = once.go_to_page(target, total);
            assert_eq!(twice.page, page_once);
        }
    }
}

#[test]
fn header_marks_the_active_sort_column() {
    let columns = vec![col("name", true), col("email", false)];
    let cells = header(&columns, Some("name"), SortOrder::Asc);
    assert_eq!(cells.len(), 2);
    assert_eq!(cells[0].aria_sort, "ascending");
    assert!(cells[0].sortable);
    assert_eq!(cells[1].aria_sort, "none");
    assert!(!cells[1].sortable);

    let cells = header(&columns, Some("name"), SortOrder::Desc);
    assert_eq!(cells[0].aria_sort, "descending");

    let cells = header(&columns, None, SortOrder::Asc);
    assert_eq!(cells[0].aria_sort, "none");
    assert_eq!(cells[0].id, "name");
    assert_eq!(cells[0].header, "name");
}

#[test]
fn table_header_adds_the_row_end_cell() {
    let props = TableHeaderProps {
        columns: vec![col("name", true)],
        sort_column: None,
        sort_order: SortOrder::Asc,
        classes: TableClasses::default(),
        has_row_end: true,
    };
    let head = TableHeader(&props);
    assert!(head.extra_cell);
    assert_eq!(head.cells.len(), 1);
}

#[test]
fn body_shows_loading_then_empty_then_cells() {
    let columns = vec![col("name", false), col("email", false)];
    let make = |rows: Vec<Row>, loading: bool| TableBodyProps {
        columns: columns.clone(),
        rows,
        loading,
        classes: TableClasses::default(),
        texts: TableTexts::default(),
    };
    assert!(matches!(TableBody(&make(vec![], true)), BodyContent::Loading));
    assert!(matches!(TableBody(&make(vec![], false)), BodyContent::Empty));
    let rows = vec![row(&[("name", "Bob")])];
    match TableBody(&make(rows, false)) {
        BodyContent::Cells(grid) => {
            assert_eq!(grid, vec![vec!["Bob".to_string(), "".to_string()]]);
        }
        _ => panic!("expected cells"),
    }
}

#[test]
fn pagination_controls_disable_at_the_bounds() {
    let texts = TableTexts::default();
    let first = pagination_controls(0, 3, &texts);
    assert!(!first.prev_enabled);
    assert!(first.next_enabled);
    assert_eq!(first.indicator, "Page 1 of 3");

    let last = pagination_controls(2, 3, &texts);
    assert!(last.prev_enabled);
    assert!(!last.next_enabled);
    assert_eq!(last.indicator, "Page 3 of 3");

    let props = PaginationControlsProps {
        page: 1,
        total_pages: 3,
        classes: TableClasses::default(),
        texts: TableTexts::default(),
    };
    let middle = PaginationControls(&props);
    assert!(middle.prev_enabled);
    assert!(middle.next_enabled);
    assert_eq!(middle.indicator, "Page 2 of 3");
}

#[test]
fn indicator_template_replaces_every_occurrence() {
    let texts = TableTexts {
        page_indicator: "{current}/{total} ({current})",
        ..Default::default()
    };
    let controls = pagination_controls(11, 345, &texts);
    assert_eq!(controls.indicator, "12/345 (12)");
}

#[test]
fn decimal_rendering_is_exact() {
    assert_eq!(decimal_string(0), "0");
    assert_eq!(decimal_string(7), "7");
    assert_eq!(decimal_string(10), "10");
    assert_eq!(decimal_string(12045), "12045");
}

#[test]
fn replace_all_is_left_to_right_without_overlap() {
    assert_eq!(replace_all("aaa", "aa", "b"), "ba");
    assert_eq!(replace_all("abcabc", "b", "xy"), "axycaxyc");
    assert_eq!(replace_all("abc", "z", "y"), "abc");
}

#[test]
fn composed_table_assembles_all_parts() {
    let props = TableProps {
        data: vec![row(&[("name", "Bob")]), row(&[("name", "amy")])],
        columns: vec![col("name", true)],
        page_size: 1,
        loading: false,
        paginate: true,
        search: true,
        texts: TableTexts::default(),
        classes: TableClasses::default(),
    };
    let mut st = ViewState::new(1);
    st = st.set_search_query("".to_string());
    let shown = table(&props, &st).unwrap();
    let search_box = shown.search_box.expect("search enabled");
    assert_eq!(search_box.value, "");
    assert_eq!(search_box.placeholder, "Search...");
    assert_eq!(shown.header_cells.len(), 1);
    match shown.body {
        BodyContent::Cells(grid) => assert_eq!(grid, vec![vec!["Bob".to_string()]]),
        _ => panic!("expected cells"),
    }
    let controls = shown.pagination.expect("pagination enabled");
    assert!(!controls.prev_enabled);
    assert!(controls.next_enabled);
    assert_eq!(controls.indicator, "Page 1 of 2");
}

#[test]
fn composed_table_reports_invalid_configuration() {
    let props = TableProps::default();
    let st = ViewState::new(0);
    assert_eq!(table(&props, &st).unwrap_err(), TableError::InvalidConfiguration);
}

#[test]
fn composed_table_without_search_or_pagination() {
    let props = TableProps {
        data: vec![row(&[("name", "Bob")])],
        columns: vec![col("name", false)],
        page_size: 10,
        loading: true,
        paginate: false,
        search: false,
        texts: TableTexts::default(),
        classes: TableClasses::default(),
    };
    let st = ViewState::new(10);
    let shown = table(&props, &st).unwrap();
    assert!(shown.search_box.is_none());
    assert!(shown.pagination.is_none());
    assert!(matches!(shown.body, BodyContent::Loading));
}
