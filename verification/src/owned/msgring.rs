//! Messages between rings, which own nothing.
//!
//! A message ends in two completions: one on the sending ring, for the
//! request, and one on the target ring, which carries the payload. Only the
//! first is redeemed here.

use super::identity::{RequestId, RingId};
use super::lifecycle::{Done, Ticket};
use super::request::Receipt;
use crate::op::{blank, IoUringSqe, Sqe};
use crate::types::fd::RawFd;
use crate::types::flags::MsgRingFlags;
use vstd::prelude::*;

verus! {

/// A message: what is asked for.
pub struct MsgRingRequest {
    /// The ring it goes to.
    pub target: RawFd,
    /// Delivered as the result.
    pub len: u32,
    /// Delivered as the identity.
    pub data: u64,
    /// How it is delivered.
    pub flags: MsgRingFlags,
}

impl MsgRingRequest {
    /// The submission that asks for it.
    pub open spec fn sqe(self) -> Sqe {
        Sqe::msg_ring_with_flags(self.target, self.len, self.data, self.flags)
    }

    /// The entry posts, operation 40, a completion with the length and the data to
    /// the other ring.
    pub proof fn reaches_its_ring(self)
        ensures
            self.sqe().0 == (IoUringSqe {
                opcode: 40,
                fd: self.target.as_i32(),
                off: self.data,
                len: self.len,
                op_flags: self.flags.0,
                ..blank()
            }),
    {
    }
}

/// A message that is not queued yet.
#[derive(Clone, Copy, Debug)]
pub struct PreparedMsgRing {
    target: RawFd,
    len: u32,
    data: u64,
    flags: MsgRingFlags,
}

impl View for PreparedMsgRing {
    type V = MsgRingRequest;

    closed spec fn view(&self) -> MsgRingRequest {
        MsgRingRequest { target: self.target, len: self.len, data: self.data, flags: self.flags }
    }
}

impl PreparedMsgRing {
    /// Send `len` and `data` to the ring `target`.
    pub fn new(target: RawFd, len: u32, data: u64, flags: MsgRingFlags) -> (r: Self)
        ensures
            r@ == (MsgRingRequest { target, len, data, flags }),
    {
        PreparedMsgRing { target, len, data, flags }
    }

    /// The ring it goes to.
    pub fn target(&self) -> (r: RawFd)
        ensures
            r == self@.target,
    {
        self.target
    }

    /// What is delivered as the result.
    pub fn payload_len(&self) -> (r: u32)
        ensures
            r == self@.len,
    {
        self.len
    }

    /// What is delivered as the identity.
    pub fn data(&self) -> (r: u64)
        ensures
            r == self@.data,
    {
        self.data
    }

    /// Build the submission and move to the pending state.
    pub fn into_pending(self, ring: RingId, id: RequestId) -> (r: (Sqe, PendingMsgRing))
        ensures
            r.0 == self@.sqe().user_data(id.raw()),
            r.1@ == (Ticket { ring, id, request: self@.target }),
    {
        let sqe = Sqe::msg_ring_with_flags(self.target, self.len, self.data, self.flags);
        (sqe.user_data(id.raw()), PendingMsgRing { ring, id, target: self.target })
    }
}

/// A submitted message.
///
/// It owns nothing, so dropping it leaks nothing.
#[derive(Debug)]
pub struct PendingMsgRing {
    ring: RingId,
    id: RequestId,
    target: RawFd,
}

impl View for PendingMsgRing {
    type V = Ticket<RawFd>;

    closed spec fn view(&self) -> Ticket<RawFd> {
        Ticket { ring: self.ring, id: self.id, request: self.target }
    }
}

impl PendingMsgRing {
    /// Identity the kernel echoes back in this request's completion.
    pub fn id(&self) -> (r: RequestId)
        ensures
            r == self@.id,
    {
        self.id
    }

    /// Identity of the queue that accepted this request.
    pub fn ring(&self) -> (r: RingId)
        ensures
            r == self@.ring,
    {
        self.ring
    }

    /// Whether `receipt` ends this very request.
    pub fn matches(&self, receipt: &Receipt) -> (r: bool)
        ensures
            r == receipt.belongs_to(self@.ring, self@.id),
    {
        receipt.belongs_to(self.ring, self.id)
    }

    /// The ring it goes to.
    pub fn target(&self) -> (r: RawFd)
        ensures
            r == self@.request,
    {
        self.target
    }

    /// Trade a matching receipt for the outcome of sending.
    ///
    /// # Errors
    ///
    /// Returns the ticket and receipt unchanged if the receipt belongs to
    /// another request or another ring.
    pub fn redeem(self, receipt: Receipt) -> (r: Result<MsgRingDone, (Self, Receipt)>)
        ensures
            match r {
                Err((ticket, back)) => {
                    &&& !receipt.belongs_to(self@.ring, self@.id)
                    &&& ticket@ == self@
                    &&& back == receipt
                },
                Ok(done) => {
                    &&& receipt.belongs_to(self@.ring, self@.id)
                    &&& done@ == (Done {
                        id: self@.id,
                        result: receipt.raw_result(),
                        request: self@.request,
                    })
                },
            },
    {
        if !self.matches(&receipt) {
            return Err((self, receipt));
        }
        Ok(MsgRingDone { target: self.target, id: self.id, result: receipt.raw_result() })
    }
}

/// A finished message: whether it was accepted for delivery.
#[derive(Clone, Copy, Debug)]
pub struct MsgRingDone {
    target: RawFd,
    id: RequestId,
    result: i32,
}

impl View for MsgRingDone {
    type V = Done<RawFd>;

    closed spec fn view(&self) -> Done<RawFd> {
        Done { id: self.id, result: self.result, request: self.target }
    }
}

impl MsgRingDone {
    /// Identity of the request this completes.
    pub fn id(&self) -> (r: RequestId)
        ensures
            r == self@.id,
    {
        self.id
    }

    /// The raw result.
    pub fn raw_result(&self) -> (r: i32)
        ensures
            r == self@.result,
    {
        self.result
    }

    /// The ring it goes to.
    pub fn target(&self) -> (r: RawFd)
        ensures
            r == self@.request,
    {
        self.target
    }

    /// Whether the message was accepted for delivery.
    pub fn is_ok(&self) -> (r: bool)
        ensures
            r == (self@.result >= 0),
    {
        self.result >= 0
    }
}

} // verus!
