//! Page sizes.

use vstd::prelude::*;

verus! {

/// The page sizes in use: 4 KiB and 2 MiB.
#[allow(non_camel_case_types)]
#[derive(Debug, Clone, Copy, PartialEq, Eq, Structural)]
pub enum PageSize {
    NORMAL,
    LARGE,
}

impl PageSize {
    /// The number of bytes in a page of this size.
    pub open spec fn bytes(self) -> u64 {
        match self {
            PageSize::NORMAL => 0x1000,
            PageSize::LARGE => 0x20_0000,
        }
    }

    /// The number of bytes in a page of this size: `1 << 12` or `1 << 21`.
    pub fn size(self) -> (r: u64)
        ensures
            r == self.bytes(),
    {
        match self {
            PageSize::NORMAL => 0x1000,
            PageSize::LARGE => 0x20_0000,
        }
    }
}

} // verus!
