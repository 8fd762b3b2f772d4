use vstd::prelude::*;

verus! {

/// The one page size that the stack arithmetic supports: 4 KiB.
pub const PAGE_SIZE: usize = 4096;

/// Checks the page size that the operating system reports.
///
/// Larger or smaller pages would break the stack's page arithmetic, so any
/// other value is rejected (`None`); a caller at startup treats that as fatal.
pub fn page_size(reported: usize) -> (r: Option<usize>)
    ensures
        r == (if reported == PAGE_SIZE { Some(PAGE_SIZE) } else { None::<usize> }),
{
    if reported == PAGE_SIZE {
        Some(reported)
    } else {
        None
    }
}

} // verus!
