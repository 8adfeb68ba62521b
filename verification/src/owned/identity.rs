//! Ring and request identities used to authenticate completions.

use vstd::arithmetic::div_mod::lemma_add_mod_noop_right;
use vstd::prelude::*;

verus! {

/// Process-wide identity for one owned-submission ring.
///
/// Anyone can build a completion, so a matching `user_data` proves nothing
/// by itself. Every ticket and receipt carries the `RingId` of the queue
/// that produced it, and redemption rejects a mismatch.
#[derive(Clone, Copy, Debug, PartialEq, Eq, Structural)]
pub struct RingId(pub u32);

impl RingId {
    /// Allocate an identity that no other ring of the same source shares.
    pub fn next(source: &mut RingIdSource) -> (r: Self)
        ensures
            r.raw() == old(source).upcoming(),
            final(source).upcoming() == after_u32(old(source).upcoming(), 1),
    {
        let raw: u32 = source.next;
        source.next = raw.wrapping_add(1);
        RingId(raw)
    }

    /// The number itself.
    #[verifier::allow_in_spec]
    pub fn raw(self) -> u32
        returns
            self.0,
    {
        self.0
    }
}

/// Where ring identities come from.
///
/// A process keeps one for all its rings.
pub struct RingIdSource {
    next: u32,
}

impl RingIdSource {
    /// The number the next identity gets.
    pub closed spec fn upcoming(&self) -> u32 {
        self.next
    }

    /// A source that has handed out nothing yet.
    pub fn new() -> (r: Self)
        ensures
            r.upcoming() == 1,
    {
        RingIdSource { next: 1 }
    }
}

/// Identity of one submitted operation, unique within its ring.
///
/// It travels in the `user_data` of the submission, so the kernel hands it
/// back with the completion.
#[derive(Clone, Copy, Debug, PartialEq, Eq, PartialOrd, Ord, Structural)]
pub struct RequestId(pub u64);

impl RequestId {
    /// The identity carried in a `user_data` field.
    #[verifier::allow_in_spec]
    pub fn from_raw(raw: u64) -> Self
        returns
            RequestId(raw),
    {
        RequestId(raw)
    }

    /// The value carried in a `user_data` field.
    #[verifier::allow_in_spec]
    pub fn raw(self) -> u64
        returns
            self.0,
    {
        self.0
    }
}

/// Monotonic source of [`RequestId`]s for a single ring.
pub struct RequestIdSource {
    next: u64,
}

impl RequestIdSource {
    /// The number the next identity gets.
    pub closed spec fn upcoming(&self) -> u64 {
        self.next
    }

    /// A source that has handed out nothing yet.
    pub fn new() -> (r: Self)
        ensures
            r.upcoming() == 1,
    {
        RequestIdSource { next: 1 }
    }

    /// Hand out the next identity.
    ///
    /// The counter wraps, but at a billion submissions a second that takes
    /// some 584 years.
    pub fn next(&mut self) -> (r: RequestId)
        ensures
            r.raw() == old(self).upcoming(),
            final(self).upcoming() == after_u64(old(self).upcoming(), 1),
    {
        let raw: u64 = self.next;
        self.next = raw.wrapping_add(1);
        RequestId(raw)
    }
}

/// Where a 32-bit counter at `start` stands after `steps` steps.
pub open spec fn after_u32(start: u32, steps: nat) -> u32 {
    ((start + steps) % 0x1_0000_0000) as u32
}

/// Where a 64-bit counter at `start` stands after `steps` steps.
pub open spec fn after_u64(start: u64, steps: nat) -> u64 {
    ((start + steps) % 0x1_0000_0000_0000_0000) as u64
}

/// Counting on from where a counter stands is counting from its start.
pub proof fn steps_add_up(start32: u32, start64: u64, a: nat, b: nat)
    ensures
        after_u32(after_u32(start32, a), b) == after_u32(start32, a + b),
        after_u64(after_u64(start64, a), b) == after_u64(start64, a + b),
{
    lemma_add_mod_noop_right(b as int, start32 + a, 0x1_0000_0000);
    lemma_add_mod_noop_right(b as int, start64 + a, 0x1_0000_0000_0000_0000);
}

/// Ring identities are distinct.
///
/// Of the identities a source hands out, the `i`-th and the `j`-th differ,
/// unless the counter has gone all the way round between them.
pub proof fn ring_ids_are_distinct(start: u32, i: nat, j: nat)
    requires
        i < j < i + 0x1_0000_0000,
    ensures
        RingId(after_u32(start, i)) != RingId(after_u32(start, j)),
{
    let x = start + i;
    let gap = j - i;
    assert(x % 0x1_0000_0000 != (x + gap) % 0x1_0000_0000);
}

/// Request identities are never reused.
///
/// Of the identities a source hands out, the `i`-th and the `j`-th differ,
/// unless the counter has gone all the way round between them.
pub proof fn request_ids_are_unique(start: u64, i: nat, j: nat)
    requires
        i < j < i + 0x1_0000_0000_0000_0000,
    ensures
        RequestId(after_u64(start, i)) != RequestId(after_u64(start, j)),
{
    let x = start + i;
    let gap = j - i;
    assert(x % 0x1_0000_0000_0000_0000 != (x + gap) % 0x1_0000_0000_0000_0000);
}

/// Request identities grow, as long as the counter does not wrap.
pub proof fn request_ids_are_monotonic(start: u64, i: nat, j: nat)
    requires
        i < j,
        start + j <= u64::MAX,
    ensures
        after_u64(start, i) < after_u64(start, j),
{
}

/// A counter moves by one and starts over behind its largest number.
pub proof fn counters_step_by_one(a: u32, b: u64)
    ensures
        after_u32(a, 0) == a,
        after_u64(b, 0) == b,
        a < 0xffff_ffff ==> after_u32(a, 1) == a + 1,
        b < 0xffff_ffff_ffff_ffff ==> after_u64(b, 1) == b + 1,
        after_u32(0xffff_ffff, 1) == 0,
        after_u64(0xffff_ffff_ffff_ffff, 1) == 0,
{
}

/// Identities are the numbers they are made from.
pub proof fn identities_are_their_numbers(a: u32, b: u64)
    ensures
        RingId(a).raw() == a,
        RequestId(b).raw() == b,
        RequestId::from_raw(b).0 == b,
{
}

} // verus!
