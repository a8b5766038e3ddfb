//! Scalar non-temporal stores into a region of memory, with the store-fence
//! obligation that follows them.
//!
//! A region is a run of adjacent, naturally aligned slots. A slot holds the
//! bit pattern of one scalar: 64 bits for a double-precision value, 32 bits
//! for a single-precision one. A non-temporal store leaves the region with a
//! fence pending; ordinary reads of the region are only allowed again once
//! the fence has been issued.

use vstd::prelude::*;
use crate::lane::LanePair;

verus! {

/// A region of memory that non-temporal stores write to.
pub struct StreamRegion<T> {
    slots: Vec<T>,
    pending: bool,
}

impl<T> View for StreamRegion<T> {
    type V = Seq<T>;

    /// The contents of the region, slot by slot.
    closed spec fn view(&self) -> Seq<T> {
        self.slots@
    }
}

impl<T: Copy> StreamRegion<T> {
    /// A non-temporal store into the region has not yet been followed by a
    /// store-fence.
    pub closed spec fn fence_pending(&self) -> bool {
        self.pending
    }

    /// Takes ownership of the slots as a region with no fence pending.
    pub fn new(slots: Vec<T>) -> (r: Self)
        ensures
            r@ == slots@,
            !r.fence_pending(),
    {
        StreamRegion { slots, pending: false }
    }

    /// The number of slots in the region.
    pub fn len(&self) -> (r: usize)
        ensures
            r == self@.len(),
    {
        self.slots.len()
    }

    /// Tells whether a store-fence is still owed.
    pub fn is_fence_pending(&self) -> (r: bool)
        ensures
            r == self.fence_pending(),
    {
        self.pending
    }

    /// Writes `value` to the slot `slot` non-temporally.
    ///
    /// Exactly that slot changes, and a fence is pending afterwards.
    pub fn stream(&mut self, slot: usize, value: T)
        requires
            slot < old(self)@.len(),
        ensures
            final(self)@ == old(self)@.update(slot as int, value),
            final(self).fence_pending(),
    {
        self.slots.set(slot, value);
        self.pending = true;
    }

    /// Issues the store-fence: the contents stay as they are and no fence
    /// is pending any more.
    pub fn sfence(&mut self)
        ensures
            final(self)@ == old(self)@,
            !final(self).fence_pending(),
    {
        self.pending = false;
    }

    /// Reads the slot `slot` by an ordinary load, which is only allowed
    /// while no fence is pending.
    pub fn load(&self, slot: usize) -> (r: T)
        requires
            !self.fence_pending(),
            slot < self@.len(),
        ensures
            r == self@[slot as int],
    {
        self.slots[slot]
    }

    /// Reads the slot `slot` when it exists and no fence is pending, and
    /// returns `None` otherwise.
    pub fn checked_load(&self, slot: usize) -> (r: Option<T>)
        ensures
            r.is_some() <==> (!self.fence_pending() && slot < self@.len()),
            r.is_some() ==> r.unwrap() == self@[slot as int],
    {
        if !self.pending && slot < self.slots.len() {
            Some(self.load(slot))
        } else {
            None
        }
    }
}

/// Non-temporal store of lane 0 of `a` into the 64-bit slot `slot` of `p`.
///
/// The slot receives the low 64 bits of `a`; no other slot changes. The
/// region is left with a fence pending, which the caller settles with
/// `sfence` before reading the region again.
pub fn _mm_stream_sd(p: &mut StreamRegion<u64>, slot: usize, a: LanePair)
    requires
        slot < old(p)@.len(),
    ensures
        final(p)@ == old(p)@.update(slot as int, a.lo),
        final(p)@.len() == old(p)@.len(),
        final(p)@[slot as int] == a.lo,
        forall|j: int| 0 <= j < old(p)@.len() && j != slot ==> final(p)@[j] == old(p)@[j],
        final(p).fence_pending(),
{
    p.stream(slot, a.lo);
}

/// Non-temporal store of the low 32 bits of `a` into the 32-bit slot `slot`
/// of `p`.
///
/// The slot receives the low 32 bits of lane 0 of `a`; no other slot
/// changes. The region is left with a fence pending, which the caller
/// settles with `sfence` before reading the region again.
pub fn _mm_stream_ss(p: &mut StreamRegion<u32>, slot: usize, a: LanePair)
    requires
        slot < old(p)@.len(),
    ensures
        final(p)@ == old(p)@.update(slot as int, a.spec_low32()),
        final(p)@.len() == old(p)@.len(),
        final(p)@[slot as int] == a.spec_low32(),
        forall|j: int| 0 <= j < old(p)@.len() && j != slot ==> final(p)@[j] == old(p)@[j],
        final(p).fence_pending(),
{
    p.stream(slot, a.low32());
}

/// Stores as `_mm_stream_sd` does when the slot exists, and otherwise
/// leaves the region as it is and returns `false`.
pub fn checked_stream_sd(p: &mut StreamRegion<u64>, slot: usize, a: LanePair) -> (done: bool)
    ensures
        done == (slot < old(p)@.len()),
        done ==> final(p)@ == old(p)@.update(slot as int, a.lo),
        done ==> final(p).fence_pending(),
        !done ==> final(p)@ == old(p)@ && final(p).fence_pending() == old(p).fence_pending(),
{
    if slot < p.len() {
        _mm_stream_sd(p, slot, a);
        true
    } else {
        false
    }
}

/// Stores as `_mm_stream_ss` does when the slot exists, and otherwise
/// leaves the region as it is and returns `false`.
pub fn checked_stream_ss(p: &mut StreamRegion<u32>, slot: usize, a: LanePair) -> (done: bool)
    ensures
        done == (slot < old(p)@.len()),
        done ==> final(p)@ == old(p)@.update(slot as int, a.spec_low32()),
        done ==> final(p).fence_pending(),
        !done ==> final(p)@ == old(p)@ && final(p).fence_pending() == old(p).fence_pending(),
{
    if slot < p.len() {
        _mm_stream_ss(p, slot, a);
        true
    } else {
        false
    }
}

} // verus!
