//! ## Alternate Allocator API
//! An allocator over a space of the heap that is created for it, to be used
//! through references.
use vstd::prelude::*;
use crate::heap::{lock_flag, lock_flag_of, Heap, HeapCall, SpaceCall};

verus! {

/// The allocation failed: the space has no block of the size asked for.
#[derive(Clone, Copy, Debug, PartialEq, Eq, Structural)]
pub struct AllocError;

/// A block handed out: `len` bytes from address `start`.
#[derive(Clone, Copy, Debug, PartialEq, Eq, Structural)]
pub struct Allocation {
    pub start: usize,
    pub len: usize,
}

/// An allocator that carries the handle of its space and nothing else; copies of
/// it allocate in the same space.
#[derive(Clone, Copy, Debug, PartialEq, Eq, Structural)]
pub struct AltAlloc {
    mspace: usize,
}

impl AltAlloc {
    /// The handle of the space.
    pub closed spec fn space_spec(&self) -> usize {
        self.mspace
    }

    /// The call that creates the space of a new allocator: `create_mspace(capacity,
    /// locked)`, where a capacity of 0 stands for the default granularity and
    /// `locked` asks for a lock of the space's own.
    pub fn creation(capacity: usize, locked: bool) -> (call: SpaceCall)
        ensures
            call == (SpaceCall::Create { capacity, locked: lock_flag(locked) }),
    {
        SpaceCall::Create { capacity, locked: lock_flag_of(locked) }
    }

    /// The call that creates the space of a new allocator in the memory at `base`:
    /// `create_mspace_with_base(base, capacity, locked)`. Nothing is allocated.
    pub fn creation_with_base(base: usize, capacity: usize, locked: bool) -> (call: SpaceCall)
        ensures
            call == (SpaceCall::CreateWithBase { base, capacity, locked: lock_flag(locked) }),
    {
        SpaceCall::CreateWithBase { base, capacity, locked: lock_flag_of(locked) }
    }

    /// The allocator over the space `space` that a creation call answered.
    pub fn with_space(space: usize) -> (r: AltAlloc)
        ensures
            r.space_spec() == space,
    {
        AltAlloc { mspace: space }
    }

    /// The handle of the space.
    pub fn space(&self) -> (r: usize)
        ensures
            r == self.space_spec(),
    {
        self.mspace
    }

    /// The call that destroys the space: `destroy_mspace(space)`. Copies of the
    /// allocator still carry the handle after it.
    pub fn destruction(&self) -> (call: SpaceCall)
        ensures
            call == (SpaceCall::Destroy { space: self.space_spec() }),
    {
        SpaceCall::Destroy { space: self.mspace }
    }

    /// The call that allocates `size` bytes aligned to `align` in the allocator's
    /// own space: `mspace_memalign(space, align, size)`.
    pub fn allocation(&self, size: usize, align: usize) -> (r: (Heap, HeapCall))
        ensures
            r == (Heap::Space(self.space_spec()), HeapCall::Allocate { align, size }),
    {
        (Heap::Space(self.mspace), HeapCall::Allocate { align, size })
    }

    /// What an allocation of `size` bytes comes to when the space answered `block`:
    /// null is a failure, any other block is handed out with exactly `size` bytes.
    pub fn allocate(&self, block: usize, size: usize) -> (r: Result<Allocation, AllocError>)
        ensures
            block == 0 ==> r == Err::<Allocation, AllocError>(AllocError),
            block != 0 ==> r == Ok::<Allocation, AllocError>(Allocation { start: block, len: size }),
    {
        if block == 0 {
            Err(AllocError)
        } else {
            Ok(Allocation { start: block, len: size })
        }
    }

    /// The call that gives `block` back to the allocator's own space, not to the
    /// global heap: `mspace_free(space, block)`. The allocator is left as it is.
    pub fn deallocate(&self, block: usize) -> (r: (Heap, HeapCall))
        ensures
            r == (Heap::Space(self.space_spec()), HeapCall::Release { block }),
    {
        (Heap::Space(self.mspace), HeapCall::Release { block })
    }
}

} // verus!
