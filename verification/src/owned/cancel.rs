//! Cancelling, which owns nothing and races with what it cancels.
//!
//! A cancel and its target complete in either order, and the target may be
//! finished or past stopping when the cancel is looked at. That nothing was
//! found, or that it was too late, are ordinary outcomes, so
//! [`CancelOutcome`] names them. Pairing a cancel with its target is up to
//! the caller.

use super::identity::{RequestId, RingId};
use super::lifecycle::{Done, Ticket};
use super::request::Receipt;
use crate::op::{blank, IoUringSqe, Sqe};
use crate::types::fd::RawFd;
use crate::types::flags::CancelFlags;
use crate::types::outcome::CancelOutcome;
use vstd::prelude::*;

verus! {

/// Which requests a cancel is for.
#[derive(Clone, Copy, Debug, PartialEq, Eq, Structural)]
pub enum CancelTarget {
    /// The one with this identity.
    UserData(u64),
    /// Those using this descriptor.
    Fd(RawFd),
    /// Whichever is in flight.
    Any,
}

/// A cancel: what is asked for.
pub struct CancelRequest {
    /// Which requests.
    pub target: CancelTarget,
    /// How they are matched.
    pub flags: CancelFlags,
}

impl CancelRequest {
    /// The submission that asks for it.
    pub open spec fn sqe(self) -> Sqe {
        match self.target {
            CancelTarget::UserData(target) => Sqe::cancel_with_flags(target, self.flags),
            CancelTarget::Fd(fd) => Sqe::cancel_fd(fd, self.flags),
            CancelTarget::Any => Sqe::cancel_any(self.flags),
        }
    }

    /// The entry cancels, operation 14: what carries the value, whatever uses the
    /// descriptor, flag 2, or anything, flag 4, besides the flags asked for.
    pub proof fn cancels_its_target(self)
        ensures
            self.target matches CancelTarget::UserData(target) ==> self.sqe().0 == (IoUringSqe {
                opcode: 14,
                addr: target,
                op_flags: self.flags.0,
                ..blank()
            }),
            self.target matches CancelTarget::Fd(fd) ==> self.sqe().0 == (IoUringSqe {
                opcode: 14,
                fd: fd.as_i32(),
                op_flags: 2u32 | self.flags.0,
                ..blank()
            }),
            self.target is Any ==> self.sqe().0 == (IoUringSqe {
                opcode: 14,
                op_flags: 4u32 | self.flags.0,
                ..blank()
            }),
    {
    }
}

/// A cancel that is not queued yet.
#[derive(Clone, Copy, Debug)]
pub struct PreparedCancel {
    target: CancelTarget,
    flags: CancelFlags,
}

impl View for PreparedCancel {
    type V = CancelRequest;

    closed spec fn view(&self) -> CancelRequest {
        CancelRequest { target: self.target, flags: self.flags }
    }
}

impl PreparedCancel {
    /// Cancel the request with this identity.
    pub fn user_data(target_user_data: u64, flags: CancelFlags) -> (r: Self)
        ensures
            r@ == (CancelRequest { target: CancelTarget::UserData(target_user_data), flags }),
    {
        PreparedCancel { target: CancelTarget::UserData(target_user_data), flags }
    }

    /// Cancel the requests that use this descriptor.
    pub fn fd(target: RawFd, flags: CancelFlags) -> (r: Self)
        ensures
            r@ == (CancelRequest { target: CancelTarget::Fd(target), flags }),
    {
        PreparedCancel { target: CancelTarget::Fd(target), flags }
    }

    /// Cancel whichever request is in flight, or with the flag for it, all.
    pub fn any(flags: CancelFlags) -> (r: Self)
        ensures
            r@ == (CancelRequest { target: CancelTarget::Any, flags }),
    {
        PreparedCancel { target: CancelTarget::Any, flags }
    }

    /// Which requests.
    pub fn target(&self) -> (r: CancelTarget)
        ensures
            r == self@.target,
    {
        self.target
    }

    /// How they are matched.
    pub fn flags(&self) -> (r: CancelFlags)
        ensures
            r == self@.flags,
    {
        self.flags
    }

    /// Build the submission and move to the pending state.
    pub fn into_pending(self, ring: RingId, id: RequestId) -> (r: (Sqe, PendingCancel))
        ensures
            r.0 == self@.sqe().user_data(id.raw()),
            r.1@ == (Ticket { ring, id, request: self@.target }),
    {
        let sqe = match self.target {
            CancelTarget::UserData(target) => Sqe::cancel_with_flags(target, self.flags),
            CancelTarget::Fd(fd) => Sqe::cancel_fd(fd, self.flags),
            CancelTarget::Any => Sqe::cancel_any(self.flags),
        };
        (sqe.user_data(id.raw()), PendingCancel { ring, id, target: self.target })
    }
}

/// A submitted cancel.
///
/// It owns nothing, so dropping it leaks nothing, but only its receipt tells
/// how it ended.
#[derive(Debug)]
pub struct PendingCancel {
    ring: RingId,
    id: RequestId,
    target: CancelTarget,
}

impl View for PendingCancel {
    type V = Ticket<CancelTarget>;

    closed spec fn view(&self) -> Ticket<CancelTarget> {
        Ticket { ring: self.ring, id: self.id, request: self.target }
    }
}

impl PendingCancel {
    /// Identity the kernel echoes back in this request's completion.
    pub fn id(&self) -> (r: RequestId)
        ensures
            r == self@.id,
    {
        self.id
    }

    /// Identity of the queue that accepted this request.
    pub fn ring(&self) -> (r: RingId)
        ensures
            r == self@.ring,
    {
        self.ring
    }

    /// Whether `receipt` ends this very request.
    pub fn matches(&self, receipt: &Receipt) -> (r: bool)
        ensures
            r == receipt.belongs_to(self@.ring, self@.id),
    {
        receipt.belongs_to(self.ring, self.id)
    }

    /// Which requests.
    pub fn target(&self) -> (r: CancelTarget)
        ensures
            r == self@.request,
    {
        self.target
    }

    /// Trade a matching receipt for the outcome.
    ///
    /// # Errors
    ///
    /// Returns the ticket and receipt unchanged if the receipt belongs to
    /// another request or another ring.
    pub fn redeem(self, receipt: Receipt) -> (r: Result<CancelDone, (Self, Receipt)>)
        ensures
            match r {
                Err((ticket, back)) => {
                    &&& !receipt.belongs_to(self@.ring, self@.id)
                    &&& ticket@ == self@
                    &&& back == receipt
                },
                Ok(done) => {
                    &&& receipt.belongs_to(self@.ring, self@.id)
                    &&& done@ == (Done {
                        id: self@.id,
                        result: receipt.raw_result(),
                        request: self@.request,
                    })
                },
            },
    {
        if !self.matches(&receipt) {
            return Err((self, receipt));
        }
        Ok(CancelDone { target: self.target, id: self.id, result: receipt.raw_result() })
    }
}

/// A finished cancel.
#[derive(Clone, Copy, Debug)]
pub struct CancelDone {
    target: CancelTarget,
    id: RequestId,
    result: i32,
}

impl View for CancelDone {
    type V = Done<CancelTarget>;

    closed spec fn view(&self) -> Done<CancelTarget> {
        Done { id: self.id, result: self.result, request: self.target }
    }
}

impl CancelDone {
    /// Identity of the request this completes.
    pub fn id(&self) -> (r: RequestId)
        ensures
            r == self@.id,
    {
        self.id
    }

    /// The raw result.
    pub fn raw_result(&self) -> (r: i32)
        ensures
            r == self@.result,
    {
        self.result
    }

    /// Which requests.
    pub fn target(&self) -> (r: CancelTarget)
        ensures
            r == self@.request,
    {
        self.target
    }

    /// How it ended.
    pub fn outcome(&self) -> (r: CancelOutcome)
        ensures
            r == CancelOutcome::from_raw(self@.result),
    {
        CancelOutcome::from_raw(self.result)
    }
}

} // verus!
