//! Doug Lea's `malloc` as the allocator of Rust programs.
//!
//! The heap itself is the C library; this crate holds the allocators' own
//! rules: which heap calls each allocator makes, what it makes of the answers,
//! how a block is resized, how a lazily created space lives and dies, and how
//! the build-time granularity setting is read. Each rule is verified.

pub mod alt_alloc;
pub mod granularity;
pub mod heap;
pub mod raw;
pub mod resize;
pub mod sample;

use core::sync::atomic::{AtomicBool, AtomicUsize, Ordering};
use vstd::prelude::*;
use crate::heap::{Heap, HeapCall, SpaceCall};
use crate::resize::{Resize, ResizePhase, ResizeRequest};

verus! {

/// ## DLMalloc allocator
/// The default allocator: every block comes from the global heap.
pub struct DLMalloc;

impl DLMalloc {
    /// The call that allocates a block of `size` bytes aligned to `align`, in the
    /// global heap: `dlmemalign(align, size)`. Its answer is the block handed out,
    /// null on failure.
    pub fn allocate(&self, size: usize, align: usize) -> (r: (Heap, HeapCall))
        ensures
            r == (Heap::Global, HeapCall::Allocate { align, size }),
    {
        (Heap::Global, HeapCall::Allocate { align, size })
    }

    /// The call that gives `block` back to the global heap: `dlfree(block)`.
    pub fn dealloc(&self, block: usize) -> (r: (Heap, HeapCall))
        ensures
            r == (Heap::Global, HeapCall::Release { block }),
    {
        (Heap::Global, HeapCall::Release { block })
    }

    /// Opens the resize of `block`, of `old_size` bytes aligned to `align`, to
    /// `new_size` bytes (see [`resize`](crate::resize)). Every call of the resize
    /// goes to the global heap; the first tries to resize the block where it lies.
    pub fn realloc(&self, block: usize, old_size: usize, align: usize, new_size: usize) -> (r: (
        Heap,
        Resize,
        HeapCall,
    ))
        ensures
            r.0 == Heap::Global,
            r.1.request() == (ResizeRequest { block, old_size, align, new_size }),
            r.1.phase() == ResizePhase::AwaitingInPlace,
            r.2 == (HeapCall::ResizeInPlace { block, new_size }),
    {
        let (resize, call) = Resize::start(ResizeRequest { block, old_size, align, new_size });
        (Heap::Global, resize, call)
    }
}

/// ## MspaceAlloc allocator
/// An allocator with a space of its own, created on the first allocation with the
/// capacity given here, and destroyed at once by [`MspaceAlloc::destroy`].
///
/// Whether a call is the one that creates or destroys the space is decided by an
/// atomic flag, so the contracts here say what holds whichever thread wins. The
/// flag is set before the space is recorded: a caller that finds the flag set
/// while another is still creating the space may read the space as null (0).
/// Allocations from several threads are safe only once the first allocation has
/// returned.
pub struct MspaceAlloc {
    mspace: AtomicUsize,
    init: AtomicBool,
    capacity: usize,
}

impl MspaceAlloc {
    /// The capacity the space is created with (0: the default granularity).
    pub closed spec fn capacity(&self) -> usize {
        self.capacity
    }

    /// ## `new` method
    /// An allocator whose space, not yet created, will have `capacity` bytes to
    /// begin with.
    pub fn new(capacity: usize) -> (r: Self)
        ensures
            r.capacity() == capacity,
    {
        MspaceAlloc { mspace: AtomicUsize::new(0), init: AtomicBool::new(false), capacity }
    }

    /// The first step of an allocation. Of all the callers that find the space not
    /// yet created, one is told to create it: it gets the call that does so (a
    /// locked space of the allocator's capacity), makes it, and hands the new
    /// space to [`MspaceAlloc::publish`] before it allocates. The others get `None`
    /// and go on at once, without waiting for the space to be recorded.
    pub fn claim_creation(&self) -> (call: Option<SpaceCall>)
        ensures
            call is Some ==> call == Some(SpaceCall::Create { capacity: self.capacity(), locked: 1 }),
    {
        let exchange = self.init.compare_exchange(false, true, Ordering::Acquire, Ordering::Relaxed);
        self.creation_after(exchange)
    }

    /// What a caller is told once it has tried to turn the creation flag from unset
    /// to set: `Ok` (it turned the flag) means this caller creates the space, with
    /// the allocator's capacity and a lock of its own; `Err` (the flag was already
    /// set) means another caller does.
    pub fn creation_after(&self, exchange: Result<bool, bool>) -> (call: Option<SpaceCall>)
        ensures
            exchange is Ok ==> call == Some(SpaceCall::Create { capacity: self.capacity(), locked: 1 }),
            exchange is Err ==> call is None,
    {
        match exchange {
            Ok(_) => Some(SpaceCall::Create { capacity: self.capacity, locked: 1 }),
            Err(_) => None,
        }
    }

    /// Records the space that the creating caller obtained.
    pub fn publish(&self, space: usize) {
        self.mspace.store(space, Ordering::Release);
    }

    /// The space blocks are taken from and given back to: the value last recorded
    /// by [`MspaceAlloc::publish`], as the atomic load of this thread sees it.
    pub fn space(&self) -> usize {
        self.mspace.load(Ordering::Acquire)
    }

    /// The call that allocates `size` bytes aligned to `align` in `space`:
    /// `mspace_memalign(space, align, size)`.
    pub fn allocation_in(space: usize, size: usize, align: usize) -> (r: (Heap, HeapCall))
        ensures
            r == (Heap::Space(space), HeapCall::Allocate { align, size }),
    {
        (Heap::Space(space), HeapCall::Allocate { align, size })
    }

    /// The call that gives `block` back to `space`: `mspace_free(space, block)`.
    pub fn release_in(space: usize, block: usize) -> (r: (Heap, HeapCall))
        ensures
            r == (Heap::Space(space), HeapCall::Release { block }),
    {
        (Heap::Space(space), HeapCall::Release { block })
    }

    /// Opens the resize of `block`, of `old_size` bytes aligned to `align`, to
    /// `new_size` bytes in `space`, as [`DLMalloc::realloc`] does in the global
    /// heap: every call of the resize goes to `space`, and a fresh block has the
    /// alignment of the old one.
    pub fn resize_in(space: usize, block: usize, old_size: usize, align: usize, new_size: usize) -> (r: (
        Heap,
        Resize,
        HeapCall,
    ))
        ensures
            r.0 == Heap::Space(space),
            r.1.request() == (ResizeRequest { block, old_size, align, new_size }),
            r.1.phase() == ResizePhase::AwaitingInPlace,
            r.2 == (HeapCall::ResizeInPlace { block, new_size }),
    {
        let (resize, call) = Resize::start(ResizeRequest { block, old_size, align, new_size });
        (Heap::Space(space), resize, call)
    }

    /// The allocation step of the caller that created the space: records `space`
    /// (see [`MspaceAlloc::publish`]) and allocates `size` bytes aligned to `align`
    /// in that very space, which is the first allocation of a new space.
    pub fn publish_and_allocate(&self, space: usize, size: usize, align: usize) -> (r: (
        Heap,
        HeapCall,
    ))
        ensures
            r == (Heap::Space(space), HeapCall::Allocate { align, size }),
    {
        self.publish(space);
        Self::allocation_in(space, size, align)
    }

    /// The call that allocates `size` bytes aligned to `align` in the allocator's
    /// space, as this thread reads it now: what [`MspaceAlloc::allocation_in`]
    /// gives for the space read.
    pub fn allocate(&self, size: usize, align: usize) -> (r: (Heap, HeapCall))
        ensures
            r.0 is Space,
            r == (Heap::Space(r.0->0), HeapCall::Allocate { align, size }),
    {
        let space = self.space();
        Self::allocation_in(space, size, align)
    }

    /// The call that gives `block` back to the allocator's space, as this thread
    /// reads it now: what [`MspaceAlloc::release_in`] gives for the space read.
    pub fn dealloc(&self, block: usize) -> (r: (Heap, HeapCall))
        ensures
            r.0 is Space,
            r == (Heap::Space(r.0->0), HeapCall::Release { block }),
    {
        let space = self.space();
        Self::release_in(space, block)
    }

    /// Opens the resize of `block` in the allocator's space, as this thread reads
    /// it now: what [`MspaceAlloc::resize_in`] gives for the space read.
    pub fn realloc(&self, block: usize, old_size: usize, align: usize, new_size: usize) -> (r: (
        Heap,
        Resize,
        HeapCall,
    ))
        ensures
            r.0 is Space,
            r.1.request() == (ResizeRequest { block, old_size, align, new_size }),
            r.1.phase() == ResizePhase::AwaitingInPlace,
            r.2 == (HeapCall::ResizeInPlace { block, new_size }),
    {
        let space = self.space();
        Self::resize_in(space, block, old_size, align, new_size)
    }

    /// ## `destroy` method
    /// Of all the callers that find the space created, one is told to destroy it:
    /// it gets the call that destroys the recorded space. The others get `None`.
    /// A later allocation creates a new space.
    pub fn destroy(&self) -> (call: Option<SpaceCall>)
        ensures
            call is Some ==> call->0 is Destroy,
    {
        let exchange = self.init.compare_exchange(true, false, Ordering::Acquire, Ordering::Relaxed);
        let space = match exchange {
            Ok(_) => self.mspace.load(Ordering::Acquire),
            Err(_) => 0,
        };
        Self::destruction_after(exchange, space)
    }

    /// What a caller is told once it has tried to turn the creation flag from set
    /// to unset, `space` being the recorded space: `Ok` (it turned the flag) means
    /// this caller destroys `space`; `Err` (the flag was not set) means there is
    /// nothing for it to destroy.
    pub fn destruction_after(exchange: Result<bool, bool>, space: usize) -> (call: Option<SpaceCall>)
        ensures
            exchange is Ok ==> call == Some(SpaceCall::Destroy { space }),
            exchange is Err ==> call is None,
    {
        match exchange {
            Ok(_) => Some(SpaceCall::Destroy { space }),
            Err(_) => None,
        }
    }
}

} // verus!
