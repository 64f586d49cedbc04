//! The page of the file that is on screen.

use vstd::prelude::*;

verus! {

/// The window of the file that is on screen: its configured size in bytes
/// and the inclusive range of offsets it covers.
#[derive(Debug)]
pub struct Reader {
    pub page_current_size: usize,
    pub page_start: usize,
    pub page_end: usize,
}

impl Reader {
    /// A one-byte page at the start of the file: it starts and ends at
    /// offset 0. The size is non-zero so that nothing divides by zero before
    /// the first screen size is known.
    pub fn new() -> (r: Self)
        ensures
            r.page_current_size == 1,
            r.page_start == 0,
            r.page_end == 0,
    {
        Reader { page_current_size: 1, page_start: 0, page_end: 0 }
    }
}

} // verus!
