//! The calls that the allocators ask their heap to make.
//!
//! The heap is Doug Lea's `malloc`, reached through its C interface. The
//! allocators of this library decide which calls to make and what to make of
//! the answers; the caller makes the calls. Addresses and space handles are
//! plain `usize` values, 0 standing for null.
use vstd::prelude::*;

verus! {

/// Where a call on blocks goes: the global heap, or one space of it, by its handle.
#[derive(Clone, Copy, Debug, PartialEq, Eq, Structural)]
pub enum Heap {
    /// The global heap: `dlmemalign`, `dlfree`, `dlrealloc_in_place`.
    Global,
    /// The space with this handle: `mspace_memalign`, `mspace_free`,
    /// `mspace_realloc_in_place`.
    Space(usize),
}

/// A call on the blocks of a heap: the global heap, or one space of it.
#[derive(Clone, Copy, Debug, PartialEq, Eq, Structural)]
pub enum HeapCall {
    /// `memalign(align, size)`: allocate `size` bytes aligned to `align`; the answer
    /// is the new block, or 0.
    Allocate { align: usize, size: usize },
    /// `free(block)`: release `block`.
    Release { block: usize },
    /// `realloc_in_place(block, new_size)`: resize `block` to `new_size` bytes
    /// without moving it; the answer is `block` on success, 0 on failure.
    ResizeInPlace { block: usize, new_size: usize },
    /// Copy `len` bytes from `from` to `to`, then `free(from)`.
    MoveAndRelease { from: usize, to: usize, len: usize },
}

/// A call that creates or destroys a space of the heap.
#[derive(Clone, Copy, Debug, PartialEq, Eq, Structural)]
pub enum SpaceCall {
    /// `create_mspace(capacity, locked)`: a new space; the answer is its handle, or 0.
    /// A capacity of 0 stands for the default granularity.
    Create { capacity: usize, locked: i32 },
    /// `create_mspace_with_base(base, capacity, locked)`: a new space laid in the
    /// memory at `base`; the answer is its handle, or 0.
    CreateWithBase { base: usize, capacity: usize, locked: i32 },
    /// `destroy_mspace(space)`: give all memory of the space back to the system.
    Destroy { space: usize },
}

/// The C flag for a lock request: 1 for a space with a lock of its own, else 0.
pub open spec fn lock_flag(locked: bool) -> i32 {
    if locked {
        1
    } else {
        0
    }
}

/// The C flag for a lock request, as `locked as i32` gives it.
pub fn lock_flag_of(locked: bool) -> (r: i32)
    ensures
        r == lock_flag(locked),
{
    if locked {
        1
    } else {
        0
    }
}

} // verus!
