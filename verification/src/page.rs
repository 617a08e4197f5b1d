//! Page identifiers, the page size, and where a page lies in the file.

use vstd::prelude::*;

verus! {

/// Number of bytes in every page.
pub const PAGE_SIZE: usize = 4096;

/// Index of a page in the heap file. Pages are numbered from zero, without gaps.
#[derive(Clone, Copy, Debug, PartialEq, Eq)]
pub struct PageId(pub u64);

impl PageId {
    /// The index that names no page. No allocation hands it out, and no read
    /// or write accepts it.
    pub const INVALID_PAGE_ID: u64 = u64::MAX;

    /// The page's index as an integer.
    pub fn to_u64(self) -> (index: u64)
        ensures
            index == self.0,
    {
        self.0
    }

    /// Distance in bytes from the start of the file to the start of the page.
    pub open spec fn offset(self) -> nat {
        (PAGE_SIZE * self.0) as nat
    }

    /// Whether the page's offset can be written in 64 bits. Only such a page
    /// can be sought; the invalid identifier is not among them.
    pub open spec fn addressable(self) -> bool {
        self.offset() <= u64::MAX
    }
}

} // verus!
