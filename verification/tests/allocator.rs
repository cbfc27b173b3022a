//! Tests for the secure-allocator logic: layout validation and padding, the
//! allocate/deallocate/resize decisions, and the initialization latch.
//!
//! The secure-memory facility itself is not linked here; where a test needs
//! a facility answer, it supplies one that follows the facility's documented
//! placement (the region ends exactly at a page boundary).

use sodium_alloc::latch::{init_outcome, InitState};
use sodium_alloc::layout::MemLayout;
use sodium_alloc::{AllocError, Region, SodiumAllocator};

/// The facility's page size: allocations are placed so that they end at a
/// page boundary.
const PAGE: usize = 4096;

/// A facility-style answer for a request of `len` bytes: the address of a
/// region that ends exactly at a page boundary.
fn end_of_page_base(len: usize) -> usize {
    let page_end: usize = 1 << 30;
    assert!(len <= page_end);
    assert_eq!(page_end % PAGE, 0);
    page_end - len
}

/// Allocates through the verified decision logic against the simulated
/// facility, with initialization reported successful.
fn simulated_allocate(layout: MemLayout) -> Result<Region, AllocError> {
    let padded = layout.pad_to_align();
    let base = end_of_page_base(padded.size());
    SodiumAllocator.allocate(layout, true, Some(base))
}

#[test]
fn basic_allocation() {
    // Requests up to 0.5GiB
    for i in 0..29 {
        let layout = MemLayout::from_size_align(1 << i, 1).unwrap();
        let region = simulated_allocate(layout).unwrap();

        assert_eq!(region.len, 1 << i);

        let freed = SodiumAllocator.deallocate(region);
        assert_eq!(freed, region.base);
    }
}

#[test]
fn alignment_correct() {
    // Test some repeated allocations, ensure that they're always aligned correctly
    for _ in 0..100 {
        let layout_a = MemLayout::from_size_align(13, 4).unwrap();
        let region_a = simulated_allocate(layout_a).unwrap();
        assert_eq!(region_a.base % 4, 0);

        let layout_b = MemLayout::from_size_align(12, 4).unwrap();
        let region_b = simulated_allocate(layout_b).unwrap();
        assert_eq!(region_b.base % 4, 0);

        let layout_c = MemLayout::from_size_align(20, 16).unwrap();
        let region_c = simulated_allocate(layout_c).unwrap();
        assert_eq!(region_c.base % 16, 0);

        assert_eq!(SodiumAllocator.deallocate(region_a), region_a.base);
        assert_eq!(SodiumAllocator.deallocate(region_b), region_b.base);
        assert_eq!(SodiumAllocator.deallocate(region_c), region_c.base);
    }
}

#[test]
fn zero_size_alloc() {
    let layout = MemLayout::from_size_align(0, 1).unwrap();
    let region = simulated_allocate(layout).unwrap();

    assert_eq!(region.len, 0);

    let freed = SodiumAllocator.deallocate(region);
    assert_eq!(freed, region.base);
}

#[test]
fn test_writing() {
    for i in 0..29 {
        let layout = MemLayout::from_size_align(1 << i, 1).unwrap();
        let region = simulated_allocate(layout).unwrap();
        let buffer: Vec<u8> = vec![0x13; region.len];
        assert_eq!(buffer.len(), 1 << i);
    }
}

#[test]
fn layout_rejects_bad_alignment() {
    assert_eq!(MemLayout::from_size_align(8, 0).err(), Some(sodium_alloc::layout::LayoutError));
    assert!(MemLayout::from_size_align(8, 3).is_err());
    assert!(MemLayout::from_size_align(8, 6).is_err());
    assert!(MemLayout::from_size_align(8, usize::MAX).is_err());
}

#[test]
fn layout_rejects_oversized_requests() {
    assert!(MemLayout::from_size_align(usize::MAX, 1).is_err());
    assert!(MemLayout::from_size_align(usize::MAX, 4096).is_err());
    // The largest size with byte alignment is accepted...
    let max = isize::MAX as usize;
    assert!(MemLayout::from_size_align(max, 1).is_ok());
    // ...but not when padding would push it past the limit.
    assert!(MemLayout::from_size_align(max, 4096).is_err());
}

#[test]
fn padding_is_exact() {
    let cases: [(usize, usize, usize); 6] =
        [(13, 4, 16), (12, 4, 12), (20, 16, 32), (0, 16, 0), (1, 8, 8), (4096, 4096, 4096)];
    for (size, align, expected) in cases {
        let padded = MemLayout::from_size_align(size, align).unwrap().pad_to_align();
        assert_eq!(padded.size(), expected);
        assert_eq!(padded.align(), align);
    }
}

#[test]
fn allocate_fails_without_initialization() {
    let layout = MemLayout::from_size_align(32, 8).unwrap();
    // Failed facility setup: the request fails even if memory were at hand.
    assert_eq!(SodiumAllocator.allocate(layout, false, Some(512)), Err(AllocError));
    // Setup succeeded but the facility returned null: same single error.
    assert_eq!(SodiumAllocator.allocate(layout, true, None), Err(AllocError));
}

#[test]
fn allocate_reports_padded_length_and_exact_base() {
    let layout = MemLayout::from_size_align(13, 4).unwrap();
    let region = SodiumAllocator.allocate(layout, true, Some(7 * 4096 - 16)).unwrap();
    assert_eq!(region.base, 7 * 4096 - 16);
    assert_eq!(region.len, 16);
}

#[test]
fn resize_copies_overlap_and_frees_old_once() {
    let old_layout = MemLayout::from_size_align(10, 1).unwrap();
    let old = simulated_allocate(old_layout).unwrap();

    // Grow: the whole old content is copied, the old base is freed.
    let grow_layout = MemLayout::from_size_align(20, 1).unwrap();
    let plan = SodiumAllocator
        .resize(old, old_layout, grow_layout, true, Some(end_of_page_base(20)))
        .unwrap();
    assert_eq!(plan.copy_len, 10);
    assert_eq!(plan.target.len, 20);
    assert_eq!(plan.free_base, old.base);

    // Shrink: only the prefix that still fits is copied.
    let shrink_layout = MemLayout::from_size_align(4, 1).unwrap();
    let plan = SodiumAllocator
        .resize(old, old_layout, shrink_layout, true, Some(end_of_page_base(4)))
        .unwrap();
    assert_eq!(plan.copy_len, 4);
    assert_eq!(plan.target.len, 4);
    assert_eq!(plan.free_base, old.base);
}

#[test]
fn failed_resize_produces_no_plan() {
    let old_layout = MemLayout::from_size_align(10, 1).unwrap();
    let old = simulated_allocate(old_layout).unwrap();
    let new_layout = MemLayout::from_size_align(1 << 20, 1).unwrap();
    // The facility returned null: the resize fails outright, no copy and no
    // free is planned, and the caller keeps the old region.
    assert_eq!(SodiumAllocator.resize(old, old_layout, new_layout, true, None), Err(AllocError));
}

#[test]
fn latch_settles_exactly_once() {
    // The first observer is told to run the facility setup.
    let (state, must_run) = InitState::Uninitialized.begin();
    assert_eq!(state, InitState::Initializing);
    assert!(must_run);

    // Anyone arriving while the setup runs is not told to run it again.
    let (state, must_run) = state.begin();
    assert_eq!(state, InitState::Initializing);
    assert!(!must_run);

    // The outcome settles the latch.
    assert_eq!(InitState::Initializing.complete(true), InitState::Ready);
    assert_eq!(InitState::Initializing.complete(false), InitState::Failed);

    // Terminal states never move again: every later observer sees the same
    // outcome and nobody re-runs the setup.
    for terminal in [InitState::Ready, InitState::Failed] {
        let (state, must_run) = terminal.begin();
        assert_eq!(state, terminal);
        assert!(!must_run);
        assert_eq!(terminal.complete(true), terminal);
        assert_eq!(terminal.complete(false), terminal);
    }
}

#[test]
fn init_outcome_follows_return_code() {
    // libsodium's sodium_init: 0 on first success, 1 when already
    // initialized, -1 on failure.
    assert_eq!(init_outcome(0), Ok(()));
    assert_eq!(init_outcome(1), Ok(()));
    assert_eq!(init_outcome(-1), Err(AllocError));
}

#[test]
fn alignment_holds_for_every_page_dividing_alignment() {
    // End-of-page placement yields aligned bases for every alignment that
    // divides the page size, across sizes that are not multiples of it.
    for align in [1usize, 2, 4, 16, 64, 256, 1024, 4096] {
        for size in [0usize, 1, 13, 100, 4097] {
            let layout = MemLayout::from_size_align(size, align).unwrap();
            let region = simulated_allocate(layout).unwrap();
            assert_eq!(region.base % align, 0);
            assert!(region.len >= size);
            assert!(region.len < size + align);
        }
    }
}
