//! Plain values of the C interface of the heap.
use vstd::prelude::*;

verus! {

/// `mallopt` parameter: the trim threshold.
pub const M_TRIM_THRESHOLD: i32 = -1;

/// `mallopt` parameter: the granularity of the memory taken from the system.
pub const M_GRANULARITY: i32 = -2;

/// `mallopt` parameter: the size from which blocks are mapped on their own.
pub const M_MMAP_THRESHOLD: i32 = -3;

/// The summary statistics that `mallinfo` reports.
#[derive(Clone, Copy, Debug, Default, PartialEq, Eq, Structural)]
pub struct MallInfo {
    /// non-mapped spaced allcated from system
    pub arena: usize,
    /// number of free chunks
    pub ordblks: usize,
    /// always 0
    pub smblks: usize,
    /// always 0
    pub hblks: usize,
    /// space in mmapped regions
    pub hblkhd: usize,
    /// maximum total allocated space
    pub usmblks: usize,
    /// always 0
    pub fsmblks: usize,
    /// total allocated space
    pub uordblks: usize,
    /// total free space
    pub fordblks: usize,
    /// releaseable (via malloc_trim space)
    pub keepcost: usize,
}

} // verus!
