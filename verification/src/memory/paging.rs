//! Pages, page sizes and page-table entries.

pub mod consts;
pub mod page;
pub mod page_table;
