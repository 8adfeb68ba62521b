//! What a reaped completion authorizes.
//!
//! The kernel's `MORE` flag answers one question: will more completions
//! follow for this request? That is exactly the question whether this one
//! may release anything. A completion carrying it is not terminal, so it
//! becomes a [`PartialReceipt`], which nothing accepts where a release is
//! required. What a completion *carries* is a separate matter: an arrival
//! can bring a pool buffer along, so the flags are kept.

use super::identity::{RequestId, RingId};
use super::request::Receipt;
use crate::ring::Completion;
use crate::types::flags::CqeFlags;
use vstd::prelude::*;

verus! {

/// A completion that does **not** release its request's resources.
///
/// Made like a [`Receipt`], but only of completions that carry `MORE`.
#[derive(Debug, PartialEq, Eq, Structural)]
pub struct PartialReceipt {
    ring: RingId,
    id: RequestId,
    result: i32,
    flags: CqeFlags,
}

impl PartialReceipt {
    /// More completions are to follow.
    #[verifier::type_invariant]
    pub closed spec fn wf(self) -> bool {
        self.flags.contains(CqeFlags::more())
    }

    /// Which request this reports.
    pub closed spec fn spec_id(&self) -> RequestId {
        self.id
    }

    /// Which ring produced it.
    pub closed spec fn spec_ring(&self) -> RingId {
        self.ring
    }

    /// The raw result.
    pub closed spec fn spec_raw_result(&self) -> i32 {
        self.result
    }

    /// The flags the kernel set.
    pub closed spec fn spec_flags(&self) -> CqeFlags {
        self.flags
    }

    /// Whether this says what `cqe` says, of the ring `ring`.
    pub open spec fn reports(&self, ring: RingId, cqe: Completion) -> bool {
        &&& self.ring() == ring
        &&& self.id() == RequestId(cqe.user_data)
        &&& self.raw_result() == cqe.result
        &&& self.flags() == cqe.flags
    }

    /// Which request this reports.
    #[verifier::when_used_as_spec(spec_id)]
    pub fn id(&self) -> (r: RequestId)
        ensures
            r == self.spec_id(),
    {
        self.id
    }

    /// Which ring produced it.
    #[verifier::when_used_as_spec(spec_ring)]
    pub fn ring(&self) -> (r: RingId)
        ensures
            r == self.spec_ring(),
    {
        self.ring
    }

    /// Raw result: a byte count when non-negative, a negated error number
    /// otherwise.
    #[verifier::when_used_as_spec(spec_raw_result)]
    pub fn raw_result(&self) -> (r: i32)
        ensures
            r == self.spec_raw_result(),
    {
        self.result
    }

    /// The flags the kernel set. `MORE` is among them.
    #[verifier::when_used_as_spec(spec_flags)]
    pub fn flags(&self) -> (r: CqeFlags)
        ensures
            r == self.spec_flags(),
            r.contains(CqeFlags::more()),
    {
        proof {
            use_type_invariant(self);
        }
        self.flags
    }

    /// The pool buffer this completion consumed, if any.
    ///
    /// That buffer is out of the pool until it is recycled.
    #[verifier::allow_in_spec]
    pub fn buffer_id(&self) -> Option<u16>
        returns
            self.flags().buffer_id(),
    {
        self.flags.buffer_id()
    }

    /// Whether this reports on the request `id` of the ring `ring`.
    #[verifier::allow_in_spec]
    pub fn belongs_to(&self, ring: RingId, id: RequestId) -> bool
        returns
            self.ring() == ring && self.id() == id,
    {
        self.ring.raw() == ring.raw() && self.id.raw() == id.raw()
    }
}

/// What a reaped completion authorizes.
#[derive(Debug, PartialEq, Eq, Structural)]
pub enum Event {
    /// A terminal completion. It releases the resources of the ticket it
    /// matches; a multishot is finished and has to be submitted again.
    Complete(Receipt),
    /// A non-terminal completion: more will follow for this request.
    Partial(PartialReceipt),
}

impl Event {
    /// Whether this is what `cqe`, of the ring `ring`, authorizes.
    pub open spec fn classifies(&self, ring: RingId, cqe: Completion) -> bool {
        match *self {
            Event::Complete(receipt) => !cqe.flags.contains(CqeFlags::more()) && receipt.reports(
                ring,
                cqe,
            ),
            Event::Partial(partial) => cqe.flags.contains(CqeFlags::more()) && partial.reports(
                ring,
                cqe,
            ),
        }
    }

    /// Classify a completion of the ring `ring`.
    pub(crate) fn of(ring: RingId, cqe: Completion) -> (r: Event)
        ensures
            r.classifies(ring, cqe),
    {
        if cqe.flags.contains(CqeFlags::more()) {
            Event::Partial(
                PartialReceipt {
                    ring,
                    id: RequestId::from_raw(cqe.user_data),
                    result: cqe.result,
                    flags: cqe.flags,
                },
            )
        } else {
            Event::Complete(Receipt::of(ring, cqe))
        }
    }

    /// The terminal receipt, if this event carries one.
    #[verifier::allow_in_spec]
    pub fn into_receipt(self) -> Option<Receipt>
        returns
            (match self {
                Event::Complete(receipt) => Some(receipt),
                Event::Partial(_) => None,
            }),
    {
        match self {
            Event::Complete(receipt) => Some(receipt),
            Event::Partial(_) => None,
        }
    }

    /// Which request this event belongs to.
    #[verifier::allow_in_spec]
    pub fn id(&self) -> RequestId
        returns
            (match *self {
                Event::Complete(receipt) => receipt.id(),
                Event::Partial(partial) => partial.id(),
            }),
    {
        match self {
            Event::Complete(receipt) => receipt.id(),
            Event::Partial(partial) => partial.id(),
        }
    }

    /// Which ring produced it.
    #[verifier::allow_in_spec]
    pub fn ring(&self) -> RingId
        returns
            (match *self {
                Event::Complete(receipt) => receipt.ring(),
                Event::Partial(partial) => partial.ring(),
            }),
    {
        match self {
            Event::Complete(receipt) => receipt.ring(),
            Event::Partial(partial) => partial.ring(),
        }
    }

    /// Raw result, whichever kind this is.
    #[verifier::allow_in_spec]
    pub fn raw_result(&self) -> i32
        returns
            (match *self {
                Event::Complete(receipt) => receipt.raw_result(),
                Event::Partial(partial) => partial.raw_result(),
            }),
    {
        match self {
            Event::Complete(receipt) => receipt.raw_result(),
            Event::Partial(partial) => partial.raw_result(),
        }
    }

    /// The flags the kernel set, whichever kind this is.
    #[verifier::allow_in_spec]
    pub fn flags(&self) -> CqeFlags
        returns
            (match *self {
                Event::Complete(receipt) => receipt.flags(),
                Event::Partial(partial) => partial.flags(),
            }),
    {
        match self {
            Event::Complete(receipt) => receipt.flags(),
            Event::Partial(partial) => partial.flags(),
        }
    }

    /// Whether this event releases its request's resources.
    #[verifier::allow_in_spec]
    pub fn is_terminal(&self) -> bool
        returns
            *self is Complete,
    {
        matches!(self, Event::Complete(_))
    }

    /// Whether this concerns the request `id` of the ring `ring`.
    #[verifier::allow_in_spec]
    pub fn belongs_to(&self, ring: RingId, id: RequestId) -> bool
        returns
            self.ring() == ring && self.id() == id,
    {
        self.ring().raw() == ring.raw() && self.id().raw() == id.raw()
    }
}

/// Only a completion without the `MORE` flag yields a receipt, and
/// classification loses nothing of what the completion says.
pub proof fn only_terminal_completions_release(ring: RingId, cqe: Completion, event: Event)
    requires
        event.classifies(ring, cqe),
    ensures
        event.into_receipt() is Some <==> !cqe.flags.contains(CqeFlags::more()),
        event.is_terminal() <==> !cqe.flags.contains(CqeFlags::more()),
        event.ring() == ring,
        event.id() == RequestId(cqe.user_data),
        event.raw_result() == cqe.result,
        event.flags() == cqe.flags,
{
}

/// A completion is the last of its request exactly where bit 2 of its flags is
/// clear. It answers to its own ring and its own number only, and names the
/// buffer its flags name.
pub proof fn events_answer_to_their_request(
    ring: RingId,
    cqe: Completion,
    event: Event,
    other: RingId,
    id: RequestId,
)
    requires
        event.classifies(ring, cqe),
    ensures
        event.is_terminal() <==> cqe.flags.0 & 2u32 != 2u32,
        event.into_receipt() is Some <==> cqe.flags.0 & 2u32 != 2u32,
        event.belongs_to(other, id) <==> other.0 == ring.0 && id.0 == cqe.user_data,
        event.id().0 == cqe.user_data,
        event.ring().0 == ring.0,
        event.raw_result() == cqe.result,
        event.flags().0 == cqe.flags.0,
        event.into_receipt() matches Some(receipt) ==> {
            &&& receipt.id().0 == cqe.user_data
            &&& receipt.ring().0 == ring.0
            &&& receipt.raw_result() == cqe.result
            &&& receipt.flags().0 == cqe.flags.0
            &&& receipt.belongs_to(other, id) <==> other.0 == ring.0 && id.0 == cqe.user_data
        },
        event matches Event::Partial(partial) ==> {
            &&& partial.id().0 == cqe.user_data
            &&& partial.ring().0 == ring.0
            &&& partial.raw_result() == cqe.result
            &&& partial.flags().0 == cqe.flags.0
            &&& partial.belongs_to(other, id) <==> other.0 == ring.0 && id.0 == cqe.user_data
            &&& partial.buffer_id() == cqe.flags.buffer_id()
        },
{
}

} // verus!
