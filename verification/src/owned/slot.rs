//! Slots of a ring's registered-file table.

use super::identity::RingId;
use vstd::prelude::*;

verus! {

/// The index of a slot.
///
/// A submission carries one more than the index, and two of the values that
/// can result are taken: 0 means no slot at all, and the largest means that
/// the kernel chooses. An index that would encode to either does not exist.
#[derive(Clone, Copy, Debug, PartialEq, Eq, Structural)]
pub struct SlotIndex {
    index: u32,
}

impl SlotIndex {
    /// The index can be encoded.
    #[verifier::type_invariant]
    pub closed spec fn wf(self) -> bool {
        encodable(self.index)
    }

    /// The index itself.
    pub closed spec fn value(self) -> u32 {
        self.index
    }

    /// The slot `index`, unless it cannot be encoded.
    pub fn new(index: u32) -> (r: Option<Self>)
        ensures
            match r {
                Some(slot) => encodable(index) && slot.value() == index,
                None => !encodable(index),
            },
    {
        if index >= u32::MAX - 1 {
            None
        } else {
            Some(SlotIndex { index })
        }
    }

    /// The index itself.
    pub fn get(&self) -> (r: u32)
        ensures
            r == self.value(),
            encodable(r),
    {
        proof {
            use_type_invariant(self);
        }
        self.index
    }
}

/// Whether one more than `index` is free to mean that slot.
pub open spec fn encodable(index: u32) -> bool {
    index < u32::MAX - 1
}

/// Where a direct request puts its file.
#[derive(Clone, Copy, Debug, PartialEq, Eq, Structural)]
pub enum SlotTarget {
    /// A free slot that the kernel chooses.
    Auto,
    /// This slot, replacing whatever it holds.
    Exact(SlotIndex),
}

impl SlotTarget {
    /// What a submission carries: -1, or one more than the index.
    pub open spec fn encoded(self) -> i32 {
        match self {
            SlotTarget::Auto => -1i32,
            SlotTarget::Exact(slot) => (slot.value() + 1) as u32 as i32,
        }
    }

    /// The slot a request with this target used, going by its result.
    ///
    /// The kernel reports the slot it chose, but just 0 for one that the
    /// caller chose.
    pub open spec fn resolves_to(self, result: i32, slot: Option<SlotIndex>) -> bool {
        match slot {
            None => result < 0,
            Some(s) => result >= 0 && match self {
                SlotTarget::Auto => s.value() == result,
                SlotTarget::Exact(chosen) => s == chosen,
            },
        }
    }

    /// The slot `index`, unless it cannot be encoded.
    pub fn exact(index: u32) -> (r: Option<Self>)
        ensures
            match r {
                Some(SlotTarget::Exact(slot)) => encodable(index) && slot.value() == index,
                Some(SlotTarget::Auto) => false,
                None => !encodable(index),
            },
    {
        match SlotIndex::new(index) {
            Some(slot) => Some(SlotTarget::Exact(slot)),
            None => None,
        }
    }

    /// What a submission carries.
    pub fn raw(self) -> (r: i32)
        ensures
            r == self.encoded(),
    {
        match self {
            SlotTarget::Auto => -1i32,
            SlotTarget::Exact(slot) => (slot.get() + 1) as i32,
        }
    }

    /// The slot that was used, if the request succeeded.
    pub fn resolve(self, result: i32) -> (r: Option<SlotIndex>)
        ensures
            self.resolves_to(result, r),
    {
        if result < 0 {
            return None;
        }
        match self {
            SlotTarget::Auto => SlotIndex::new(result as u32),
            SlotTarget::Exact(slot) => Some(slot),
        }
    }
}

/// No explicit slot encodes to "no slot" or to "the kernel chooses", and
/// different slots encode differently.
pub proof fn slot_encodings_are_distinct(a: SlotIndex, b: SlotIndex)
    requires
        a.wf(),
        b.wf(),
    ensures
        SlotTarget::Exact(a).encoded() != 0,
        SlotTarget::Exact(a).encoded() != SlotTarget::Auto.encoded(),
        SlotTarget::Exact(a).encoded() == SlotTarget::Exact(b).encoded() ==> a == b,
{
    let x = (a.value() + 1) as u32;
    let y = (b.value() + 1) as u32;
    assert(x != 0 ==> x as i32 != 0) by (bit_vector);
    assert(x != 0xffff_ffffu32 ==> x as i32 != -1i32) by (bit_vector);
    assert(x as i32 == y as i32 ==> x == y) by (bit_vector);
}

/// A file in a slot of a ring's table.
///
/// It is not a descriptor: only the ring can release it, so it has nothing
/// to close.
#[derive(Debug, PartialEq, Eq, Structural)]
pub struct DirectSlot {
    index: SlotIndex,
    ring: RingId,
}

impl DirectSlot {
    /// Which slot.
    pub closed spec fn slot(self) -> SlotIndex {
        self.index
    }

    /// Of which ring.
    pub closed spec fn owner(self) -> RingId {
        self.ring
    }

    /// The file in slot `index` of `ring`.
    pub fn new(index: SlotIndex, ring: RingId) -> (r: Self)
        ensures
            r.slot() == index,
            r.owner() == ring,
    {
        DirectSlot { index, ring }
    }

    /// Which slot.
    pub fn index(&self) -> (r: SlotIndex)
        ensures
            r == self.slot(),
    {
        self.index
    }

    /// Of which ring.
    pub fn ring(&self) -> (r: RingId)
        ensures
            r == self.owner(),
    {
        self.ring
    }

    /// Adopt the slot that a request with this target and result filled, if
    /// it filled one.
    pub fn claim(target: SlotTarget, result: i32, ring: RingId) -> (r: Option<Self>)
        ensures
            slot_claimed(target, result, ring, r),
    {
        match target.resolve(result) {
            Some(index) => Some(DirectSlot::new(index, ring)),
            None => None,
        }
    }
}

/// `slot` is what a completion leaves occupied: the slot that `target` and
/// the result name, in the table of `ring`, or nothing.
pub open spec fn slot_claimed(
    target: SlotTarget,
    result: i32,
    ring: RingId,
    slot: Option<DirectSlot>,
) -> bool {
    match slot {
        Some(s) => s.owner() == ring && target.resolves_to(result, Some(s.slot())),
        None => target.resolves_to(result, None),
    }
}

/// An index is refused exactly where one more than it is taken: the largest
/// number and the one before.
pub proof fn two_indices_are_refused(index: u32)
    ensures
        encodable(index) <==> index != 0xffff_ffff && index != 0xffff_fffe,
{
}

/// A submission carries one more than the index, or -1 to let the kernel
/// choose.
pub proof fn slots_are_carried(slot: SlotIndex)
    requires
        slot.wf(),
    ensures
        SlotTarget::Auto.encoded() == -1,
        SlotTarget::Exact(slot).encoded() as u32 == slot.value() + 1,
        slot.value() < 0x7fff_ffff ==> SlotTarget::Exact(slot).encoded() == slot.value() + 1,
{
    let x = (slot.value() + 1) as u32;
    assert(x as i32 as u32 == x) by (bit_vector);
}

/// A request that did not fail used one slot and no other: the one that the
/// caller chose, or else the one that the result names.
pub proof fn results_name_one_slot(
    target: SlotTarget,
    result: i32,
    a: Option<SlotIndex>,
    b: Option<SlotIndex>,
)
    requires
        target.resolves_to(result, a),
        target.resolves_to(result, b),
    ensures
        a == b,
        a is Some <==> result >= 0,
        a matches Some(s) ==> (target is Auto ==> s.value() == result),
        a matches Some(s) ==> (target matches SlotTarget::Exact(chosen) ==> s == chosen),
{
}

/// A slot is claimed for the ring that filled it, exactly where the request
/// did not fail.
pub proof fn slots_belong_to_their_ring(
    target: SlotTarget,
    result: i32,
    ring: RingId,
    slot: Option<DirectSlot>,
)
    requires
        slot_claimed(target, result, ring, slot),
    ensures
        slot is Some <==> result >= 0,
        slot matches Some(s) ==> s.owner() == ring,
        slot matches Some(s) ==> (target is Auto ==> s.slot().value() == result),
        slot matches Some(s) ==> (target matches SlotTarget::Exact(chosen) ==> s.slot()
            == chosen),
{
}

} // verus!
