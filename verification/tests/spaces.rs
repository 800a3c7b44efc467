use portable_dlmalloc::alt_alloc::{AllocError, Allocation, AltAlloc};
use portable_dlmalloc::heap::{lock_flag_of, Heap, HeapCall, SpaceCall};
use portable_dlmalloc::MspaceAlloc;

#[test]
fn space_is_created_once_then_reused() {
    let a = MspaceAlloc::new(0x500000);
    assert_eq!(a.claim_creation(), Some(SpaceCall::Create { capacity: 0x500000, locked: 1 }));
    a.publish(0xABC000);
    assert_eq!(a.claim_creation(), None);
    assert_eq!(a.claim_creation(), None);
    assert_eq!(a.space(), 0xABC000);
    assert_eq!(a.allocate(16, 8), (Heap::Space(0xABC000), HeapCall::Allocate { align: 8, size: 16 }));
    assert_eq!(a.dealloc(0xABC100), (Heap::Space(0xABC000), HeapCall::Release { block: 0xABC100 }));
}

#[test]
fn destroy_only_a_created_space() {
    let a = MspaceAlloc::new(0);
    assert_eq!(a.destroy(), None);
    assert_eq!(a.claim_creation(), Some(SpaceCall::Create { capacity: 0, locked: 1 }));
    a.publish(0x7000);
    assert_eq!(a.destroy(), Some(SpaceCall::Destroy { space: 0x7000 }));
    assert_eq!(a.destroy(), None);
    // A later allocation creates a new space.
    assert_eq!(a.claim_creation(), Some(SpaceCall::Create { capacity: 0, locked: 1 }));
}

#[test]
fn alternate_allocator_creation_calls() {
    assert_eq!(
        AltAlloc::creation(0x300000, true),
        SpaceCall::Create { capacity: 0x300000, locked: 1 }
    );
    assert_eq!(AltAlloc::creation(0, false), SpaceCall::Create { capacity: 0, locked: 0 });
    assert_eq!(
        AltAlloc::creation_with_base(0x10000, 4096, true),
        SpaceCall::CreateWithBase { base: 0x10000, capacity: 4096, locked: 1 }
    );
    assert_eq!(lock_flag_of(true), true as i32);
    assert_eq!(lock_flag_of(false), false as i32);
}

#[test]
fn alternate_allocator_outcomes() {
    let a = AltAlloc::with_space(0x40000);
    assert_eq!(a.space(), 0x40000);
    let b = a;
    assert_eq!(b.space(), 0x40000);
    assert_eq!(a.allocation(4, 4), (Heap::Space(0x40000), HeapCall::Allocate { align: 4, size: 4 }));
    assert_eq!(a.allocate(0, 4), Err(AllocError));
    assert_eq!(a.allocate(0x40100, 4), Ok(Allocation { start: 0x40100, len: 4 }));
    assert_eq!(a.allocate(0x40100, 0), Ok(Allocation { start: 0x40100, len: 0 }));
    assert_eq!(a.deallocate(0x40100), (Heap::Space(0x40000), HeapCall::Release { block: 0x40100 }));
    let other = AltAlloc::with_space(0x80000);
    assert_eq!(other.deallocate(0x40100), (Heap::Space(0x80000), HeapCall::Release { block: 0x40100 }));
    assert_eq!(a.destruction(), SpaceCall::Destroy { space: 0x40000 });
}

#[test]
fn creation_follows_the_flag_exchange() {
    let a = MspaceAlloc::new(0x500000);
    assert_eq!(a.creation_after(Ok(false)), Some(SpaceCall::Create { capacity: 0x500000, locked: 1 }));
    assert_eq!(a.creation_after(Err(true)), None);
}

#[test]
fn destruction_follows_the_flag_exchange() {
    assert_eq!(MspaceAlloc::destruction_after(Ok(true), 0x7000), Some(SpaceCall::Destroy { space: 0x7000 }));
    assert_eq!(MspaceAlloc::destruction_after(Err(false), 0x7000), None);
}

#[test]
fn calls_in_a_given_space() {
    assert_eq!(
        MspaceAlloc::allocation_in(0x9000, 64, 1024),
        (Heap::Space(0x9000), HeapCall::Allocate { align: 1024, size: 64 })
    );
    assert_eq!(MspaceAlloc::release_in(0x9000, 0x9400), (Heap::Space(0x9000), HeapCall::Release { block: 0x9400 }));
    let (heap, mut r, call) = MspaceAlloc::resize_in(0x9000, 0x9400, 16, 1024, 64);
    assert_eq!(heap, Heap::Space(0x9000));
    assert_eq!(call, HeapCall::ResizeInPlace { block: 0x9400, new_size: 64 });
    assert_eq!(r.answer(0), portable_dlmalloc::resize::ResizeStep::Call(HeapCall::Allocate { align: 1024, size: 64 }));
    assert_eq!(
        r.answer(0x10400),
        portable_dlmalloc::resize::ResizeStep::Call(HeapCall::MoveAndRelease { from: 0x9400, to: 0x10400, len: 16 })
    );
    assert_eq!(r.answer(0), portable_dlmalloc::resize::ResizeStep::Finish(0x10400));
}

#[test]
fn first_allocation_goes_to_the_created_space_and_later_ones_follow() {
    let a = MspaceAlloc::new(0x500000);
    assert_eq!(a.claim_creation(), Some(SpaceCall::Create { capacity: 0x500000, locked: 1 }));
    assert_eq!(a.publish_and_allocate(0x20000, 4, 4), (Heap::Space(0x20000), HeapCall::Allocate { align: 4, size: 4 }));
    assert_eq!(a.space(), 0x20000);
    assert_eq!(a.allocate(8, 8), (Heap::Space(0x20000), HeapCall::Allocate { align: 8, size: 8 }));
    assert_eq!(a.destroy(), Some(SpaceCall::Destroy { space: 0x20000 }));
    assert_eq!(a.claim_creation(), Some(SpaceCall::Create { capacity: 0x500000, locked: 1 }));
    assert_eq!(a.publish_and_allocate(0x60000, 4, 4), (Heap::Space(0x60000), HeapCall::Allocate { align: 4, size: 4 }));
    assert_eq!(a.allocate(4, 4), (Heap::Space(0x60000), HeapCall::Allocate { align: 4, size: 4 }));
    assert_eq!(a.dealloc(0x60100), (Heap::Space(0x60000), HeapCall::Release { block: 0x60100 }));
}
