//! Core logic of a data-table view: search filtering, stable sorting and
//! pagination over rows of named string fields, together with the view-state
//! transitions (search, sort toggling, page navigation) that a host UI drives.

pub mod body;
pub mod controls;
pub mod deriver;
pub mod filter;
pub mod fmt_text;
pub mod header;
pub mod paginate;
pub mod rows;
pub mod sort;
pub mod state;
pub mod table;
pub mod text;
pub mod types;

pub use deriver::Derived;
pub use rows::Row;
pub use state::ViewState;
pub use types::{Column, SortOrder, TableClasses, TableError, TableTexts};
