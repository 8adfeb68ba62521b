//! Multishot accept into the ring's file table.
//!
//! As [`accept`](super::accept), but every connection lands in a slot that
//! the kernel chooses, and the result is its index. A full table ends the
//! request, so that is reported like any other ending.

use super::event::Event;
use super::identity::{RequestId, RingId};
use super::lifecycle::Ticket;
use super::multishot::Armed;
use super::request::Receipt;
use super::slot::{slot_claimed, DirectSlot, SlotTarget};
use crate::error::Error;
use crate::op::{blank, IoUringSqe, Sqe};
use crate::ring::Completion;
use crate::types::fd::RawFd;
use crate::types::flags::AcceptFlags;
use vstd::prelude::*;

verus! {

/// A direct multishot accept: what is asked for.
pub struct DirectAcceptRequest {
    /// The listening socket.
    pub fd: RawFd,
    /// Flags of what is accepted.
    pub flags: AcceptFlags,
}

impl DirectAcceptRequest {
    /// The submission that asks for it.
    pub open spec fn sqe(self) -> Sqe {
        Sqe::accept_multishot_direct(self.fd, self.flags)
    }

    /// The entry accepts, operation 13, on the listener with the flags, goes on
    /// accepting, option 1, and lets the kernel choose each slot. It sets nothing
    /// else.
    pub proof fn keeps_accepting_into_slots(self)
        ensures
            self.sqe().0 == (IoUringSqe {
                opcode: 13,
                ioprio: 1,
                fd: self.fd.as_i32(),
                op_flags: self.flags.0,
                splice_fd_in: -1 as i32,
                ..blank()
            }),
    {
    }
}

/// A direct multishot accept that is not queued yet.
#[derive(Clone, Copy, Debug)]
pub struct PreparedDirectAccept {
    fd: RawFd,
    flags: AcceptFlags,
}

impl View for PreparedDirectAccept {
    type V = DirectAcceptRequest;

    closed spec fn view(&self) -> DirectAcceptRequest {
        DirectAcceptRequest { fd: self.fd, flags: self.flags }
    }
}

impl PreparedDirectAccept {
    /// Accept on the listening socket `fd`.
    ///
    /// Peer addresses are not captured: all connections would share one
    /// place for them.
    pub fn on(fd: RawFd, flags: AcceptFlags) -> (r: Self)
        ensures
            r@ == (DirectAcceptRequest { fd, flags }),
    {
        PreparedDirectAccept { fd, flags }
    }

    /// The listening socket.
    pub fn fd(&self) -> (r: RawFd)
        ensures
            r == self@.fd,
    {
        self.fd
    }

    /// Flags of what is accepted.
    pub fn flags(&self) -> (r: AcceptFlags)
        ensures
            r == self@.flags,
    {
        self.flags
    }

    /// Build the submission and move to the armed state.
    pub fn into_pending(self, ring: RingId, id: RequestId) -> (r: (Sqe, DirectAccept))
        ensures
            r.0 == self@.sqe().user_data(id.raw()),
            r.1@ == (Ticket { ring, id, request: self@.fd }),
    {
        let sqe = Sqe::accept_multishot_direct(self.fd, self.flags);
        (sqe.user_data(id.raw()), DirectAccept { ring, id, fd: self.fd })
    }
}

/// A submitted direct multishot accept.
///
/// It owns nothing, but the request outlives it and goes on filling slots.
#[derive(Debug)]
pub struct DirectAccept {
    ring: RingId,
    id: RequestId,
    fd: RawFd,
}

impl View for DirectAccept {
    type V = Ticket<RawFd>;

    closed spec fn view(&self) -> Ticket<RawFd> {
        Ticket { ring: self.ring, id: self.id, request: self.fd }
    }
}

impl DirectAccept {
    /// Identity the kernel echoes back in every completion of this request.
    pub fn id(&self) -> (r: RequestId)
        ensures
            r == self@.id,
    {
        self.id
    }

    /// Identity of the queue that accepted this request.
    pub fn ring(&self) -> (r: RingId)
        ensures
            r == self@.ring,
    {
        self.ring
    }

    /// Whether a completion belongs to this request.
    pub fn matches(&self, event: &Event) -> (r: bool)
        ensures
            r == event.belongs_to(self@.ring, self@.id),
    {
        event.belongs_to(self.ring, self.id)
    }

    /// The listening socket.
    pub fn fd(&self) -> (r: RawFd)
        ensures
            r == self@.request,
    {
        self.fd
    }

    /// Interpret a completion of this request.
    ///
    /// # Errors
    ///
    /// Returns the event unchanged if it belongs to another request or
    /// another ring.
    pub fn record(&mut self, event: Event) -> (r: Result<DirectIncoming, Event>)
        ensures
            final(self)@ == old(self)@,
            match r {
                Err(back) => {
                    &&& !event.belongs_to(old(self)@.ring, old(self)@.id)
                    &&& back == event
                },
                Ok(incoming) => {
                    &&& event.belongs_to(old(self)@.ring, old(self)@.id)
                    &&& brought(old(self)@.ring, event, incoming)
                },
            },
    {
        if !self.matches(&event) {
            return Err(event);
        }
        match event {
            Event::Partial(partial) => {
                let raw: i32 = partial.raw_result();
                match DirectSlot::claim(SlotTarget::Auto, raw, self.ring) {
                    Some(taken) => Ok(DirectIncoming::Installed(taken)),
                    None => Ok(DirectIncoming::Empty(raw)),
                }
            },
            Event::Complete(receipt) => {
                let last = DirectSlot::claim(SlotTarget::Auto, receipt.raw_result(), self.ring);
                Ok(DirectIncoming::Done(DirectAcceptFinished { receipt, last }))
            },
        }
    }
}

/// What one completion of a direct multishot accept brought.
#[derive(Debug)]
pub enum DirectIncoming {
    /// A connection is in this slot.
    Installed(DirectSlot),
    /// None is; the raw result says why. The request goes on.
    Empty(i32),
    /// The request is over. It may have filled a last slot.
    Done(DirectAcceptFinished),
}

/// `incoming` is what `event` brings: a result that is not an error is
/// a slot, also when the completion is the last one.
pub open spec fn brought(ring: RingId, event: Event, incoming: DirectIncoming) -> bool {
    match event {
        Event::Complete(receipt) => incoming matches DirectIncoming::Done(end) && end.terminal()
            == receipt
            && slot_claimed(SlotTarget::Auto, receipt.raw_result(), ring, end.left()),
        Event::Partial(partial) => match incoming {
            DirectIncoming::Installed(taken) => slot_claimed(
                SlotTarget::Auto,
                partial.raw_result(),
                ring,
                Some(taken),
            ),
            DirectIncoming::Empty(raw) => raw == partial.raw_result() && raw < 0,
            DirectIncoming::Done(_) => false,
        },
    }
}

/// No filled slot is lost: whatever the completion filled is what is handed
/// on, terminal or not, and nothing else is.
pub proof fn no_slot_is_lost(ring: RingId, event: Event, incoming: DirectIncoming)
    requires
        brought(ring, event, incoming),
    ensures
        slot_claimed(SlotTarget::Auto, event.raw_result(), ring, incoming.carried()),
        incoming.goes_on() is Yes <==> !event.is_terminal(),
{
}

impl DirectIncoming {
    /// Whether the request goes on after this.
    pub open spec fn goes_on(self) -> Armed {
        match self {
            DirectIncoming::Done(_) => Armed::Finished,
            _ => Armed::Yes,
        }
    }

    /// What came with this completion, if anything.
    pub open spec fn carried(self) -> Option<DirectSlot> {
        match self {
            DirectIncoming::Installed(taken) => Some(taken),
            DirectIncoming::Done(end) => end.left(),
            DirectIncoming::Empty(_) => None,
        }
    }

    /// Whether the request goes on after this.
    pub fn armed(&self) -> (r: Armed)
        ensures
            r == self.goes_on(),
    {
        match self {
            DirectIncoming::Done(_) => Armed::Finished,
            _ => Armed::Yes,
        }
    }

    /// Take the slot that this completion filled, if any.
    pub fn into_slot(self) -> (r: Option<DirectSlot>)
        ensures
            r == self.carried(),
    {
        match self {
            DirectIncoming::Installed(taken) => Some(taken),
            DirectIncoming::Done(end) => end.into_parts().1,
            DirectIncoming::Empty(_) => None,
        }
    }
}

/// A direct multishot accept that the kernel has ended.
#[derive(Debug)]
pub struct DirectAcceptFinished {
    receipt: Receipt,
    last: Option<DirectSlot>,
}

impl DirectAcceptFinished {
    /// The terminal completion.
    pub closed spec fn terminal(self) -> Receipt {
        self.receipt
    }

    /// What came with it.
    pub closed spec fn left(self) -> Option<DirectSlot> {
        self.last
    }

    /// The slot that the terminal completion filled, if any.
    pub fn last(&self) -> (r: Option<&DirectSlot>)
        ensures
            match r {
                Some(x) => self.left() == Some(*x),
                None => self.left() is None,
            },
    {
        self.last.as_ref()
    }

    /// The raw result of the terminal completion.
    pub fn raw_result(&self) -> (r: i32)
        ensures
            r == self.terminal().raw_result(),
    {
        self.receipt.raw_result()
    }

    /// Why the request ended.
    ///
    /// # Errors
    ///
    /// The error number the terminal completion carried. A full table is the
    /// common one.
    pub fn result(&self) -> (r: Result<u32, Error>)
        ensures
            r == Error::count_of(self.terminal().raw_result()),
    {
        Error::count_of(self.receipt.raw_result())
    }

    /// Split into the terminal receipt and the last slot.
    pub fn into_parts(self) -> (r: (Receipt, Option<DirectSlot>))
        ensures
            r == (self.terminal(), self.left()),
    {
        (self.receipt, self.last)
    }
}

/// A completion fills a slot exactly where it reports no error: the slot that
/// the result names, of the ring that the request is on. The request is over
/// exactly where the completion is its last.
pub proof fn slots_follow_the_completion(
    ring: RingId,
    cqe: Completion,
    event: Event,
    incoming: DirectIncoming,
)
    requires
        event.classifies(ring, cqe),
        brought(ring, event, incoming),
    ensures
        incoming is Done <==> cqe.flags.0 & 2u32 != 2u32,
        incoming.carried() is Some <==> cqe.result >= 0,
        incoming.carried() matches Some(slot) ==> {
            &&& slot.slot().value() == cqe.result
            &&& slot.owner() == ring
        },
        incoming is Installed <==> cqe.flags.0 & 2u32 == 2u32 && cqe.result >= 0,
        incoming matches DirectIncoming::Empty(raw) ==> raw == cqe.result,
        incoming matches DirectIncoming::Done(end) ==> {
            &&& end.terminal().raw_result() == cqe.result
            &&& end.terminal().id().0 == cqe.user_data
        },
        incoming.goes_on().is_armed() <==> cqe.flags.0 & 2u32 == 2u32,
{
}

} // verus!
