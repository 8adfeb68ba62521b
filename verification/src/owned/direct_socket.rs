//! A socket created straight into the ring's file table.
//!
//! It is described by a few integers, so the request owns no memory and its
//! ticket leaks nothing. What must be kept is the result: a slot that nobody
//! records stays occupied until the ring is gone.
//!
//! An explicit slot replaces whatever it holds, silently;
//! [`SlotTarget::Auto`] is the safer choice.

use super::direct::FilledSlot;
use super::identity::{RequestId, RingId};
use super::lifecycle::Ticket;
use super::request::Receipt;
use super::slot::{slot_claimed, DirectSlot, SlotIndex, SlotTarget};
use crate::error::Error;
use crate::op::{blank, IoUringSqe, Sqe};
use crate::types::codes::{AddressFamily, SocketType};
use crate::types::flags::SocketFlags;
use vstd::prelude::*;
use vstd::string::StringExecFns;

verus! {

/// Why a direct socket could not be prepared.
#[derive(Clone, Copy, Debug, PartialEq, Eq, Structural)]
pub enum DirectSocketError {
    /// `SOCK_CLOEXEC` says what `execve` does to a descriptor, and a slot is
    /// not one.
    CloseOnExec,
}

impl DirectSocketError {
    /// What [`message`](Self::message) says.
    pub open spec fn text(self) -> Seq<char> {
        "SOCK_CLOEXEC is meaningless for a file-table slot"@
    }

    /// Every case says what happened, in its own words and with its own numbers.
    pub proof fn texts_say_what_happened(self)
        ensures
            self.text() == "SOCK_CLOEXEC is meaningless for a file-table slot"@,
    {
    }

    /// A description for people.
    pub fn message(&self) -> (s: String)
        ensures
            s@ == self.text(),
    {
        String::from_str("SOCK_CLOEXEC is meaningless for a file-table slot")
    }
}

/// A direct socket: what is asked for.
pub struct DirectSocketRequest {
    /// Address family.
    pub domain: AddressFamily,
    /// Communication style.
    pub sock_type: SocketType,
    /// Protocol, or 0 for the usual one.
    pub protocol: i32,
    /// Flags.
    pub flags: SocketFlags,
    /// Where the socket goes.
    pub target: SlotTarget,
}

impl DirectSocketRequest {
    /// The submission that asks for it.
    pub open spec fn sqe(self) -> Sqe {
        Sqe::socket_direct_at(
            self.domain,
            self.sock_type,
            self.protocol,
            self.flags,
            self.target.encoded(),
        )
    }

    /// The entry creates a socket, operation 45, of the family, the type and the
    /// protocol, with the flags, in the slot.
    pub proof fn creates_in_its_slot(self)
        ensures
            self.sqe().0 == (IoUringSqe {
                opcode: 45,
                fd: self.domain.as_raw(),
                off: self.sock_type.as_raw() as u64,
                len: self.protocol as u32,
                op_flags: self.flags.0,
                splice_fd_in: self.target.encoded(),
                ..blank()
            }),
    {
    }
}

/// A direct socket creation that is not queued yet.
#[derive(Clone, Copy, Debug)]
pub struct PreparedDirectSocket {
    domain: AddressFamily,
    sock_type: SocketType,
    protocol: i32,
    flags: SocketFlags,
    target: SlotTarget,
}

impl View for PreparedDirectSocket {
    type V = DirectSocketRequest;

    closed spec fn view(&self) -> DirectSocketRequest {
        DirectSocketRequest {
            domain: self.domain,
            sock_type: self.sock_type,
            protocol: self.protocol,
            flags: self.flags,
            target: self.target,
        }
    }
}

impl PreparedDirectSocket {
    /// The flags do not ask to close on `execve`.
    #[verifier::type_invariant]
    pub closed spec fn wf(self) -> bool {
        !self.flags.contains(SocketFlags::cloexec())
    }

    /// The kernel is never asked to close a slot on `execve`.
    pub proof fn never_closes_on_exec(self)
        requires
            self.wf(),
        ensures
            self@.sqe().0.op_flags & 0x80000 != 0x80000,
    {
    }

    /// Create a socket in `target`.
    ///
    /// # Errors
    ///
    /// [`DirectSocketError::CloseOnExec`] if `flags` ask for that.
    pub fn new(
        domain: AddressFamily,
        sock_type: SocketType,
        protocol: i32,
        flags: SocketFlags,
        target: SlotTarget,
    ) -> (r: Result<Self, DirectSocketError>)
        ensures
            if flags.contains(SocketFlags::cloexec()) {
                r == Err::<Self, DirectSocketError>(DirectSocketError::CloseOnExec)
            } else {
                &&& r is Ok
                &&& r->Ok_0@ == (DirectSocketRequest {
                    domain,
                    sock_type,
                    protocol,
                    flags,
                    target,
                })
            },
    {
        if flags.contains(SocketFlags::cloexec()) {
            return Err(DirectSocketError::CloseOnExec);
        }
        Ok(PreparedDirectSocket { domain, sock_type, protocol, flags, target })
    }

    /// Create a socket in a slot that the kernel chooses.
    ///
    /// # Errors
    ///
    /// As [`new`](Self::new).
    pub fn auto(
        domain: AddressFamily,
        sock_type: SocketType,
        protocol: i32,
        flags: SocketFlags,
    ) -> (r: Result<Self, DirectSocketError>)
        ensures
            if flags.contains(SocketFlags::cloexec()) {
                r == Err::<Self, DirectSocketError>(DirectSocketError::CloseOnExec)
            } else {
                &&& r is Ok
                &&& r->Ok_0@ == (DirectSocketRequest {
                    domain,
                    sock_type,
                    protocol,
                    flags,
                    target: SlotTarget::Auto,
                })
            },
    {
        Self::new(domain, sock_type, protocol, flags, SlotTarget::Auto)
    }

    /// Address family.
    pub fn domain(&self) -> (r: AddressFamily)
        ensures
            r == self@.domain,
    {
        self.domain
    }

    /// Communication style.
    pub fn sock_type(&self) -> (r: SocketType)
        ensures
            r == self@.sock_type,
    {
        self.sock_type
    }

    /// Protocol.
    pub fn protocol(&self) -> (r: i32)
        ensures
            r == self@.protocol,
    {
        self.protocol
    }

    /// Flags.
    pub fn flags(&self) -> (r: SocketFlags)
        ensures
            r == self@.flags,
    {
        self.flags
    }

    /// Where the socket goes.
    pub fn target(&self) -> (r: SlotTarget)
        ensures
            r == self@.target,
    {
        self.target
    }

    /// Build the submission and move to the pending state.
    pub fn into_pending(self, ring: RingId, id: RequestId) -> (r: (Sqe, PendingDirectSocket))
        ensures
            r.0 == self@.sqe().user_data(id.raw()),
            r.1@ == (Ticket { ring, id, request: self@.target }),
    {
        let sqe = Sqe::socket_direct_at(
            self.domain,
            self.sock_type,
            self.protocol,
            self.flags,
            self.target.raw(),
        );
        (sqe.user_data(id.raw()), PendingDirectSocket { ring, id, target: self.target })
    }
}

/// A submitted direct socket creation.
///
/// It owns nothing, but dropping it loses track of the slot.
#[must_use]
#[derive(Debug)]
pub struct PendingDirectSocket {
    ring: RingId,
    id: RequestId,
    target: SlotTarget,
}

impl View for PendingDirectSocket {
    type V = Ticket<SlotTarget>;

    closed spec fn view(&self) -> Ticket<SlotTarget> {
        Ticket { ring: self.ring, id: self.id, request: self.target }
    }
}

impl PendingDirectSocket {
    /// Identity the kernel echoes back in this request's completion.
    pub fn id(&self) -> (r: RequestId)
        ensures
            r == self@.id,
    {
        self.id
    }

    /// Identity of the queue that accepted this request.
    pub fn ring(&self) -> (r: RingId)
        ensures
            r == self@.ring,
    {
        self.ring
    }

    /// Whether `receipt` ends this very request.
    pub fn matches(&self, receipt: &Receipt) -> (r: bool)
        ensures
            r == receipt.belongs_to(self@.ring, self@.id),
    {
        receipt.belongs_to(self.ring, self.id)
    }

    /// Where the socket goes.
    pub fn target(&self) -> (r: SlotTarget)
        ensures
            r == self@.request,
    {
        self.target
    }

    /// Trade a matching receipt for the slot.
    ///
    /// # Errors
    ///
    /// Returns the ticket and receipt unchanged if the receipt belongs to
    /// another request or another ring.
    pub fn redeem(self, receipt: Receipt) -> (r: Result<DirectSocketCreated, (Self, Receipt)>)
        ensures
            match r {
                Err((ticket, back)) => {
                    &&& !receipt.belongs_to(self@.ring, self@.id)
                    &&& ticket@ == self@
                    &&& back == receipt
                },
                Ok(done) => {
                    &&& receipt.belongs_to(self@.ring, self@.id)
                    &&& done@.id == self@.id
                    &&& done@.result == receipt.raw_result()
                    &&& slot_claimed(self@.request, receipt.raw_result(), self@.ring, done@.slot)
                },
            },
    {
        if !self.matches(&receipt) {
            return Err((self, receipt));
        }
        let result: i32 = receipt.raw_result();
        let slot = DirectSlot::claim(self.target, result, self.ring);
        Ok(DirectSocketCreated { slot, id: self.id, result })
    }
}

/// A finished direct socket creation: the slot, if any.
#[derive(Debug)]
pub struct DirectSocketCreated {
    slot: Option<DirectSlot>,
    id: RequestId,
    result: i32,
}

impl View for DirectSocketCreated {
    type V = FilledSlot<()>;

    closed spec fn view(&self) -> FilledSlot<()> {
        FilledSlot { id: self.id, result: self.result, kept: (), slot: self.slot }
    }
}

impl DirectSocketCreated {
    /// Identity of the request this completes.
    pub fn id(&self) -> (r: RequestId)
        ensures
            r == self@.id,
    {
        self.id
    }

    /// The raw result: a slot or 0, or a negated error number.
    pub fn raw_result(&self) -> (r: i32)
        ensures
            r == self@.result,
    {
        self.result
    }

    /// Whether the socket was created.
    pub fn is_ok(&self) -> (r: bool)
        ensures
            r == (self@.result >= 0),
    {
        Error::cqe_is_ok(self.result)
    }

    /// Why the request failed, if it did.
    ///
    /// # Errors
    ///
    /// The error number the completion carried.
    pub fn result(&self) -> (r: Result<(), Error>)
        ensures
            r == Error::status_of(self@.result),
    {
        Error::status_of(self.result)
    }

    /// Borrow the slot, if the socket was created.
    pub fn slot(&self) -> (r: Option<&DirectSlot>)
        ensures
            match r {
                Some(x) => self@.slot == Some(*x),
                None => self@.slot is None,
            },
    {
        self.slot.as_ref()
    }

    /// The slot's index, if the socket was created.
    pub fn index(&self) -> (r: Option<SlotIndex>)
        ensures
            r == (match self@.slot {
                Some(slot) => Some(slot.slot()),
                None => None,
            }),
    {
        match &self.slot {
            Some(slot) => Some(slot.index()),
            None => None,
        }
    }

    /// Take the slot.
    pub fn into_slot(self) -> (r: Option<DirectSlot>)
        ensures
            r == self@.slot,
    {
        self.slot
    }
}

} // verus!
