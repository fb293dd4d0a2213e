//! Scenario tests for the derivation pipeline: filtering, sorting,
//! pagination, and its error condition.

use table_rs::{Column, Row, SortOrder, TableError, ViewState};

fn row(pairs: &[(&'static str, &str)]) -> Row {
    Row { fields: pairs.iter().map(|(k, v)| (*k, v.to_string())).collect() }
}

fn col(id: &'static str) -> Column {
    Column { id, header: id, sortable: true, ..Default::default() }
}

fn names(rows: &[Row]) -> Vec<String> {
    rows.iter()
        .map(|r| {
            r.fields
                .iter()
                .find(|(k, _)| *k == "name")
                .map(|(_, v)| v.clone())
                .unwrap_or_default()
        })
        .collect()
}

fn state(page_size: usize) -> ViewState {
    ViewState::new(page_size)
}

#[test]
fn filter_is_case_insensitive_on_both_sides() {
    let rows = vec![row(&[("name", "Bob")]), row(&[("name", "amy")]), row(&[("name", "Cid")])];
    let columns = vec![col("name")];
    let st = state(10).set_search_query("b".to_string());
    let out = table_rs::deriver::derive(&rows, &columns, &st).unwrap();
    assert_eq!(names(&out.visible_rows), vec!["Bob".to_string()]);

    let st = state(10).set_search_query("AMY".to_string());
    let out = table_rs::deriver::derive(&rows, &columns, &st).unwrap();
    assert_eq!(names(&out.visible_rows), vec!["amy".to_string()]);
}

#[test]
fn filter_checks_every_column_and_skips_missing_fields() {
    let rows = vec![
        row(&[("name", "Bob"), ("email", "bob@example.com")]),
        row(&[("name", "amy")]),
        row(&[("email", "cid@example.com")]),
    ];
    let columns = vec![col("name"), col("email")];
    let st = state(10).set_search_query("example".to_string());
    let out = table_rs::deriver::derive(&rows, &columns, &st).unwrap();
    assert_eq!(out.visible_rows.len(), 2);

    // A row that misses the queried field is still matched through the
    // columns it does have.
    let st = state(10).set_search_query("cid".to_string());
    let out = table_rs::deriver::derive(&rows, &columns, &st).unwrap();
    assert_eq!(out.visible_rows.len(), 1);
    assert_eq!(out.visible_rows[0].fields[0].1, "cid@example.com");
}

#[test]
fn empty_query_keeps_every_row() {
    let rows = vec![row(&[("name", "Bob")]), row(&[("name", "amy")])];
    let columns = vec![col("name")];
    let out = table_rs::deriver::derive(&rows, &columns, &state(10)).unwrap();
    assert_eq!(out.visible_rows.len(), 2);
    assert_eq!(out.total_pages, 1);
}

#[test]
fn sort_ascending_and_descending_by_code_points() {
    let rows = vec![
        row(&[("name", "Cid")]),
        row(&[("name", "amy")]),
        row(&[("name", "Bob")]),
    ];
    let columns = vec![col("name")];
    // Code-point order puts every upper-case letter before the lower-case.
    let mut st = state(10);
    st = st.toggle_sort("name");
    let out = table_rs::deriver::derive(&rows, &columns, &st).unwrap();
    assert_eq!(names(&out.visible_rows), vec!["Bob", "Cid", "amy"]);

    st = st.toggle_sort("name");
    assert!(matches!(st.sort_order, SortOrder::Desc));
    let out = table_rs::deriver::derive(&rows, &columns, &st).unwrap();
    assert_eq!(names(&out.visible_rows), vec!["amy", "Cid", "Bob"]);
}

#[test]
fn sort_is_stable_on_equal_keys() {
    let rows = vec![
        row(&[("age", "30"), ("name", "first")]),
        row(&[("age", "20"), ("name", "second")]),
        row(&[("age", "30"), ("name", "third")]),
        row(&[("age", "20"), ("name", "fourth")]),
    ];
    let columns = vec![col("age"), col("name")];
    let mut st = state(10);
    st = st.toggle_sort("age");
    let out = table_rs::deriver::derive(&rows, &columns, &st).unwrap();
    assert_eq!(names(&out.visible_rows), vec!["second", "fourth", "first", "third"]);
}

#[test]
fn sort_treats_missing_field_as_empty_string() {
    let rows = vec![row(&[("name", "Bob")]), row(&[])];
    let columns = vec![col("name")];
    let mut st = state(10);
    st = st.toggle_sort("name");
    let out = table_rs::deriver::derive(&rows, &columns, &st).unwrap();
    // The empty string sorts before any name.
    assert_eq!(out.visible_rows[0].fields.len(), 0);
    assert_eq!(out.visible_rows[1].fields[0].1, "Bob");
}

#[test]
fn unknown_sort_column_skips_sorting() {
    let rows = vec![row(&[("name", "Cid")]), row(&[("name", "amy")])];
    let columns = vec![col("name")];
    let mut st = state(10);
    st = st.toggle_sort("height");
    let out = table_rs::deriver::derive(&rows, &columns, &st).unwrap();
    assert_eq!(names(&out.visible_rows), vec!["Cid", "amy"]);
}

#[test]
fn twenty_five_rows_paginate_into_three_pages() {
    let rows: Vec<Row> = (0..25).map(|i| row(&[("name", &format!("user{:02}", i))])).collect();
    let columns = vec![col("name")];
    let mut st = state(10);
    let out = table_rs::deriver::derive(&rows, &columns, &st).unwrap();
    assert_eq!(out.total_pages, 3);
    assert_eq!(out.visible_rows.len(), 10);

    st = st.go_to_page(2, out.total_pages);
    let out = table_rs::deriver::derive(&rows, &columns, &st).unwrap();
    assert_eq!(out.visible_rows.len(), 5);
    assert_eq!(out.visible_rows[0].fields[0].1, "user20");
    assert_eq!(out.visible_rows[4].fields[0].1, "user24");
}

#[test]
fn pages_concatenated_cover_all_rows_exactly_once() {
    let rows: Vec<Row> = (0..25).map(|i| row(&[("name", &format!("user{:02}", i))])).collect();
    let columns = vec![col("name")];
    for page_size in [1usize, 7, 10, 25, 40] {
        let mut seen: Vec<String> = Vec::new();
        let mut st = state(page_size);
        let total = table_rs::deriver::derive(&rows, &columns, &st).unwrap().total_pages;
        for page in 0..total {
            st = st.go_to_page(page, total);
            let out = table_rs::deriver::derive(&rows, &columns, &st).unwrap();
            seen.extend(names(&out.visible_rows));
        }
        assert_eq!(seen, names(&rows));
    }
}

#[test]
fn out_of_range_page_yields_empty_slice_not_error() {
    let rows = vec![row(&[("name", "Bob")])];
    let columns = vec![col("name")];
    let mut st = state(10);
    st.page = 5;
    let out = table_rs::deriver::derive(&rows, &columns, &st).unwrap();
    assert_eq!(out.visible_rows.len(), 0);
    assert_eq!(out.total_pages, 1);
}

#[test]
fn page_size_zero_is_invalid_configuration() {
    let rows = vec![row(&[("name", "Bob")])];
    let columns = vec![col("name")];
    let result = table_rs::deriver::derive(&rows, &columns, &state(0));
    assert_eq!(result.unwrap_err(), TableError::InvalidConfiguration);
}

#[test]
fn empty_rows_yield_empty_slice_and_zero_pages() {
    let rows: Vec<Row> = Vec::new();
    let columns = vec![col("name")];
    let out = table_rs::deriver::derive(&rows, &columns, &state(10)).unwrap();
    assert_eq!(out.visible_rows.len(), 0);
    assert_eq!(out.total_pages, 0);
}

#[test]
fn derive_is_deterministic_and_leaves_inputs_unchanged() {
    let rows = vec![
        row(&[("name", "Cid"), ("age", "3")]),
        row(&[("name", "amy"), ("age", "1")]),
        row(&[("name", "Bob"), ("age", "2")]),
    ];
    let columns = vec![col("name"), col("age")];
    let mut st = state(2);
    st = st.set_search_query("a".to_string());
    st = st.toggle_sort("age");
    let first = table_rs::deriver::derive(&rows, &columns, &st).unwrap();
    let second = table_rs::deriver::derive(&rows, &columns, &st).unwrap();
    assert_eq!(first.total_pages, second.total_pages);
    assert_eq!(names(&first.visible_rows), names(&second.visible_rows));
    // The input rows are untouched.
    assert_eq!(rows[0].fields[0].1, "Cid");
    assert_eq!(rows.len(), 3);
}

#[test]
fn duplicate_row_keys_resolve_to_the_first_pair() {
    let rows = vec![row(&[("name", "first"), ("name", "second")])];
    let columns = vec![col("name")];
    let st = state(10).set_search_query("first".to_string());
    let out = table_rs::deriver::derive(&rows, &columns, &st).unwrap();
    assert_eq!(out.visible_rows.len(), 1);
    let st = state(10).set_search_query("second".to_string());
    let out = table_rs::deriver::derive(&rows, &columns, &st).unwrap();
    assert_eq!(out.visible_rows.len(), 0);
}
