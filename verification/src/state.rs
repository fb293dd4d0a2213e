//! The view state of one table instance and its transitions: setting the
//! search query, toggling the sort of a column, and page navigation.

use crate::text::str_eq;
use crate::types::SortOrder;
use vstd::prelude::*;

verus! {

/// The mutable state a host UI owns for one table: search query, sort
/// column and direction, current page, and the configured page size.
pub struct ViewState {
    /// The search query; the empty string means no filtering.
    pub search_query: String,
    /// The id of the column rows are sorted by, if any.
    pub sort_column: Option<&'static str>,
    /// The sort direction.
    pub sort_order: SortOrder,
    /// The current zero-based page index. It may point past the last page
    /// of the current filtered row set; the derivation then yields an
    /// empty slice rather than an error.
    pub page: usize,
    /// Rows per page; a derivation is defined only for a positive size.
    pub page_size: usize,
}

/// The mathematical model of a view state.
pub ghost struct ViewStateModel {
    pub search_query: Seq<char>,
    pub sort_column: Option<Seq<char>>,
    pub sort_order: SortOrder,
    pub page: nat,
    pub page_size: nat,
}

impl View for ViewState {
    type V = ViewStateModel;

    open spec fn view(&self) -> ViewStateModel {
        ViewStateModel {
            search_query: self.search_query@,
            sort_column: self.sort_column.deep_view(),
            sort_order: self.sort_order,
            page: self.page as nat,
            page_size: self.page_size as nat,
        }
    }
}

/// The state a table starts in: empty query, no sort, first page.
pub open spec fn initial_state(page_size: nat) -> ViewStateModel {
    ViewStateModel {
        search_query: Seq::empty(),
        sort_column: None,
        sort_order: SortOrder::Asc,
        page: 0,
        page_size: page_size,
    }
}

/// Setting the search query resets the page to the first one: keeping a
/// stale page index after filtering could show an empty page even when
/// matches exist on the first page.
pub open spec fn set_search_query_spec(s: ViewStateModel, query: Seq<char>) -> ViewStateModel {
    ViewStateModel { search_query: query, page: 0, ..s }
}

/// Toggling the sort of the column already sorted by flips the direction;
/// toggling any other column sorts by it, ascending. The page is kept.
pub open spec fn toggle_sort_spec(s: ViewStateModel, column_id: Seq<char>) -> ViewStateModel {
    if s.sort_column == Some(column_id) {
        ViewStateModel {
            sort_order: match s.sort_order {
                SortOrder::Asc => SortOrder::Desc,
                SortOrder::Desc => SortOrder::Asc,
            },
            ..s
        }
    } else {
        ViewStateModel { sort_column: Some(column_id), sort_order: SortOrder::Asc, ..s }
    }
}

/// A target page clamped to the valid range: the target itself when it
/// lies before the page count, else the last page (or the first, when
/// there are no pages at all).
pub open spec fn clamp_page(target: nat, total_pages: nat) -> nat {
    if target < total_pages {
        target
    } else if total_pages > 0 {
        (total_pages - 1) as nat
    } else {
        0
    }
}

/// Page navigation: the page becomes the clamped target; nothing else
/// changes. Out-of-range targets clamp, they never fail.
pub open spec fn go_to_page_spec(s: ViewStateModel, target: nat, total_pages: nat) -> ViewStateModel {
    ViewStateModel { page: clamp_page(target, total_pages), ..s }
}

/// Clamping is idempotent: navigating to the same target twice in a row
/// leaves the state where the first navigation put it.
pub proof fn lemma_go_to_page_idempotent(s: ViewStateModel, target: nat, total_pages: nat)
    ensures
        go_to_page_spec(go_to_page_spec(s, target, total_pages), target, total_pages)
            == go_to_page_spec(s, target, total_pages),
{
}

impl ViewState {
    /// A fresh state for a table instance: empty query, no sort, first
    /// page, with the caller-supplied page size.
    pub fn new(page_size: usize) -> (s: ViewState)
        ensures
            s@ == initial_state(page_size as nat),
    {
        let s = ViewState {
            search_query: String::new(),
            sort_column: None,
            sort_order: SortOrder::Asc,
            page: 0,
            page_size: page_size,
        };
        proof {
            assert(s@.search_query =~= initial_state(page_size as nat).search_query);
        }
        s
    }

    /// Sets the search query and resets the page to the first one.
    pub fn set_search_query(self, query: String) -> (s: ViewState)
        ensures
            s@ == set_search_query_spec(self@, query@),
            s@.page == 0,
    {
        ViewState { search_query: query, page: 0, ..self }
    }

    /// Toggles sorting by a column: flips the direction when the column is
    /// already the sort target, else sorts by it ascending.
    pub fn toggle_sort(self, column_id: &'static str) -> (s: ViewState)
        ensures
            s@ == toggle_sort_spec(self@, column_id@),
    {
        let same = match self.sort_column {
            Some(current) => str_eq(current, column_id),
            None => false,
        };
        if same {
            let flipped = match self.sort_order {
                SortOrder::Asc => SortOrder::Desc,
                SortOrder::Desc => SortOrder::Asc,
            };
            ViewState { sort_order: flipped, ..self }
        } else {
            ViewState { sort_column: Some(column_id), sort_order: SortOrder::Asc, ..self }
        }
    }

    /// Navigates to a page, clamped to the valid range for the given page
    /// count; never an error.
    pub fn go_to_page(self, target_page: usize, total_pages: usize) -> (s: ViewState)
        ensures
            s@ == go_to_page_spec(self@, target_page as nat, total_pages as nat),
    {
        let page = if target_page < total_pages {
            target_page
        } else if total_pages > 0 {
            total_pages - 1
        } else {
            0
        };
        ViewState { page: page, ..self }
    }
}

impl Default for ViewState {
    /// The state a table starts in, with the default page size of ten.
    fn default() -> (s: ViewState)
        ensures
            s@ == initial_state(10),
    {
        ViewState::new(10)
    }
}

/// A view state is fit for derivation when its page size is positive.
pub open spec fn valid_page_size(s: ViewStateModel) -> bool {
    s.page_size > 0
}

} // verus!
