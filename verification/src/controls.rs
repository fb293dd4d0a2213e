//! Pagination controls: which buttons are enabled at the current page, and
//! the rendered page indicator.

use crate::fmt_text::{decimal_of, decimal_string, replace_all, replace_of};
use crate::state::clamp_page;
use crate::types::{TableClasses, TableTexts};
use vstd::prelude::*;

verus! {

/// The page-indicator label: the template with `{current}` replaced by the
/// one-based page number and `{total}` by the page count.
pub open spec fn indicator_of(template: Seq<char>, page: nat, total_pages: nat) -> Seq<char> {
    replace_of(
        replace_of(template, "{current}"@, decimal_of(page + 1)),
        "{total}"@,
        decimal_of(total_pages),
    )
}

/// What pagination controls show: whether each button is enabled, and the
/// page indicator.
#[derive(Debug)]
pub struct PaginationView {
    /// Whether the "Previous" button is enabled: only off the first page.
    pub prev_enabled: bool,
    /// Whether the "Next" button is enabled: only before the last page.
    pub next_enabled: bool,
    /// The rendered page indicator.
    pub indicator: String,
}

/// The pagination controls at a page: the previous button is enabled off
/// the first page, the next button before the last page, and the
/// indicator shows the one-based page number and the page count.
pub fn pagination_controls(page: usize, total_pages: usize, texts: &TableTexts) -> (controls:
    PaginationView)
    requires
        page < usize::MAX,
    ensures
        controls.prev_enabled == (page > 0),
        controls.next_enabled == (page + 1 < total_pages),
        controls.indicator@ == indicator_of(texts.page_indicator@, page as nat, total_pages as nat),
{
    proof {
        reveal_strlit("{current}");
        reveal_strlit("{total}");
    }
    let current = decimal_string(page + 1);
    let total_text = decimal_string(total_pages);
    let partial = replace_all(texts.page_indicator, "{current}", current.as_str());
    let indicator = replace_all(partial.as_str(), "{total}", total_text.as_str());
    PaginationView { prev_enabled: page > 0, next_enabled: page + 1 < total_pages, indicator }
}

/// The disabled states of the buttons agree with the clamp rule of page
/// navigation: on an in-range page, the next button is enabled exactly
/// when navigating one page forward moves off the page, and the previous
/// button exactly when navigating one page back does.
pub proof fn lemma_buttons_agree_with_clamp(page: nat, total_pages: nat)
    requires
        page < total_pages,
    ensures
        (page + 1 < total_pages) <==> (clamp_page(page + 1, total_pages) != page),
        page > 0 ==> clamp_page((page - 1) as nat, total_pages) == page - 1,
        page == 0 ==> clamp_page(0, total_pages) == page,
{
}

/// Props for the pagination controls.
pub struct PaginationControlsProps {
    /// Current zero-based page index.
    pub page: usize,
    /// Total number of pages.
    pub total_pages: usize,
    /// Class names used to style the pagination elements.
    pub classes: TableClasses,
    /// Texts used in the pagination controls.
    pub texts: TableTexts,
}

/// The pagination controls, from props.
#[allow(non_snake_case)]
pub fn PaginationControls(props: &PaginationControlsProps) -> (controls: PaginationView)
    requires
        props.page < usize::MAX,
    ensures
        controls.prev_enabled == (props.page > 0),
        controls.next_enabled == (props.page + 1 < props.total_pages),
        controls.indicator@ == indicator_of(
            props.texts.page_indicator@,
            props.page as nat,
            props.total_pages as nat,
        ),
{
    pagination_controls(props.page, props.total_pages, &props.texts)
}

} // verus!
