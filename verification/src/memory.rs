//! Address types and paging support.

pub mod address;
pub mod paging;
