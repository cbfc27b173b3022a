//! An allocator core for secret-holding data structures, backed by a
//! secure-memory facility such as libsodium's guarded heap.
//!
//! The facility places each allocation at the end of a page, immediately
//! before a guard page, locks it against swapping, and wipes it on free.
//! This crate holds the allocator's own logic — validating size/alignment
//! requests, padding sizes so that end-of-page placement yields aligned
//! addresses, the one-time initialization latch, and the
//! allocate/deallocate/resize decisions — with machine-checked contracts.
//! The raw calls into the facility are made outside this crate and their
//! outcomes are handed in as plain values.
use vstd::prelude::*;

pub mod latch;
pub mod layout;

use crate::layout::MemLayout;
use crate::layout::round_up;
use vstd::math::min;

verus! {

/// The single error this allocator reports: the secure-memory facility could
/// not be initialized, or it could not satisfy a well-formed allocation
/// request. Callers handle both the same way, by abandoning the operation
/// that needed the memory.
#[derive(Clone, Copy, Debug, PartialEq, Eq, Structural)]
pub struct AllocError;

/// A stateless handle for the secure allocation strategy. It holds no data;
/// its only role is to carry the allocate/deallocate behaviour, so it is
/// freely copied and shared.
#[derive(Clone, Copy, Debug)]
pub struct SodiumAllocator;

/// A region of secure memory handed out by the allocator: the base address
/// the facility returned and the number of valid, writable bytes behind it.
/// The length is the padded size, so it is never smaller than the size that
/// was asked for.
#[derive(Clone, Copy, Debug, PartialEq, Eq, Structural)]
pub struct Region {
    /// The address of the region's first byte, as the facility returned it.
    pub base: usize,
    /// The number of valid bytes starting at `base`.
    pub len: usize,
}

/// The steps that carry out a resize as allocate-copy-free: the fresh target
/// region, how many bytes of old content to copy into it, and the base
/// address of the old region, which must be freed exactly once after the
/// copy.
#[derive(Clone, Copy, Debug, PartialEq, Eq, Structural)]
pub struct ResizePlan {
    /// The freshly allocated region the contents move into.
    pub target: Region,
    /// How many bytes to copy from the old region's start into the target:
    /// the overlapping prefix of the old and new sizes.
    pub copy_len: usize,
    /// The base address of the old region, to hand to the facility's free
    /// once the copy is done. The facility wipes the bytes as it frees them.
    pub free_base: usize,
}

impl SodiumAllocator {
    /// Decides the outcome of an allocation request once the facility has
    /// answered.
    ///
    /// `init_ok` says whether the one-time facility initialization
    /// succeeded; `base` is the address the facility returned for a request
    /// of `layout.pad_to_align().size()` bytes, or `None` where it returned
    /// null. The request succeeds exactly when initialization succeeded and
    /// the facility returned an address; the region then starts at that
    /// address and its length is the padded size — at least the size that
    /// was asked for, and zero exactly for a zero-size request.
    pub fn allocate(&self, layout: MemLayout, init_ok: bool, base: Option<usize>) -> (r: Result<
        Region,
        AllocError,
    >)
        ensures
            r is Ok <==> (init_ok && base is Some),
            r is Ok ==> r.unwrap().base == base.unwrap(),
            r is Ok ==> r.unwrap().len == round_up(layout.size() as int, layout.align() as int),
            r is Ok ==> r.unwrap().len >= layout.size(),
            r is Ok && layout.size() == 0 ==> r.unwrap().len == 0,
    {
        proof {
            use_type_invariant(layout);
            layout.lemma_valid();
            if layout.size() == 0 {
                crate::layout::lemma_round_up_zero(layout.align() as int);
            }
        }
        if !init_ok {
            return Err(AllocError);
        }
        let padded = layout.pad_to_align();
        match base {
            Some(b) => Ok(Region { base: b, len: padded.size() }),
            None => Err(AllocError),
        }
    }

    /// Decides what the facility's free must receive for a region: exactly
    /// the base address a matching allocate returned, never anything else.
    /// Freeing is the allocator's scrub step — the facility overwrites the
    /// bytes before releasing them, so values stored in the region need no
    /// scrub-on-drop of their own. Handing back a foreign or already-freed
    /// address is caller misuse outside this contract.
    pub fn deallocate(&self, region: Region) -> (p: usize)
        ensures
            p == region.base,
    {
        region.base
    }

    /// Decides a resize, which the facility offers no primitive for, as
    /// allocate-copy-free.
    ///
    /// `old` must be the region of a prior allocate with `old_layout`, and
    /// `base` the facility's answer for the padded size of `new_layout`, as
    /// in [`Self::allocate`]. On success the plan copies the overlapping
    /// prefix — the smaller of the old and new sizes — into the fresh target
    /// and frees the old base exactly once. On failure no plan is produced:
    /// nothing is copied, the old region is not freed, and the caller keeps
    /// it, so a failed resize leaks nothing.
    pub fn resize(
        &self,
        old: Region,
        old_layout: MemLayout,
        new_layout: MemLayout,
        init_ok: bool,
        base: Option<usize>,
    ) -> (r: Result<ResizePlan, AllocError>)
        requires
            old.len == round_up(old_layout.size() as int, old_layout.align() as int),
        ensures
            r is Ok <==> (init_ok && base is Some),
            r is Ok ==> r.unwrap().target.base == base.unwrap(),
            r is Ok ==> r.unwrap().target.len == round_up(
                new_layout.size() as int,
                new_layout.align() as int,
            ),
            r is Ok ==> r.unwrap().copy_len == min(
                old_layout.size() as int,
                new_layout.size() as int,
            ),
            r is Ok ==> r.unwrap().copy_len <= old.len && r.unwrap().copy_len
                <= r.unwrap().target.len,
            r is Ok ==> r.unwrap().free_base == old.base,
    {
        let target = match self.allocate(new_layout, init_ok, base) {
            Ok(t) => t,
            Err(e) => {
                return Err(e);
            },
        };
        let copy_len = if old_layout.size() <= new_layout.size() {
            old_layout.size()
        } else {
            new_layout.size()
        };
        proof {
            use_type_invariant(old_layout);
            use_type_invariant(new_layout);
            old_layout.lemma_valid();
            new_layout.lemma_valid();
        }
        Ok(ResizePlan { target, copy_len, free_base: old.base })
    }
}

/// With byte alignment nothing is padded: for any layout whose alignment is
/// one, a satisfied allocation reports exactly the requested size, since the
/// region length [`SodiumAllocator::allocate`] promises is the rounded size
/// and rounding to a multiple of one changes nothing.
pub proof fn lemma_align_one_allocation_exact(layout: MemLayout)
    requires
        layout.align() == 1,
    ensures
        round_up(layout.size() as int, layout.align() as int) == layout.size(),
{
    crate::layout::lemma_round_up_align_one(layout.size() as int);
}

/// A zero-size request is legal and reports a region of length zero: the
/// region length [`SodiumAllocator::allocate`] promises is the rounded size,
/// and zero rounds to zero under every alignment.
pub proof fn lemma_zero_size_allocation_empty(layout: MemLayout)
    requires
        layout.size() == 0,
        layout.align() >= 1,
    ensures
        round_up(layout.size() as int, layout.align() as int) == 0,
{
    crate::layout::lemma_round_up_zero(layout.align() as int);
}

/// The base address of every satisfied allocation is aligned as requested,
/// provided the facility placed the padded region so that it ends exactly at
/// a page boundary and the requested alignment divides the page size. The
/// region length [`SodiumAllocator::allocate`] promises is the rounded size,
/// which is a multiple of the alignment, and end-of-page placement of such a
/// length forces an aligned base.
pub proof fn lemma_allocation_aligned(layout: MemLayout, base: int, page: int)
    requires
        layout.align() >= 1,
        base >= 0,
        page >= 1,
        page % (layout.align() as int) == 0,
        (base + round_up(layout.size() as int, layout.align() as int)) % page == 0,
    ensures
        base % (layout.align() as int) == 0,
{
    crate::layout::lemma_round_up_properties(layout.size() as int, layout.align() as int);
    crate::layout::lemma_end_of_page_alignment(
        base,
        round_up(layout.size() as int, layout.align() as int),
        layout.align() as int,
        page,
    );
}

} // verus!
