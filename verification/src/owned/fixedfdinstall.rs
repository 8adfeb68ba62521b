//! Giving a file-table slot a descriptor of its own.
//!
//! The reverse of a direct open. The slot keeps its file; the descriptor is
//! a second owner of it.

use super::identity::{RequestId, RingId};
use super::lifecycle::Ticket;
use super::open::OpenedFile;
use super::request::Receipt;
use super::slot::DirectSlot;
use crate::error::Error;
use crate::fs::{claimed, File};
use crate::op::{blank, IoUringSqe, Sqe};
use crate::types::fd::RawFd;
use crate::types::flags::InstallFdFlags;
use vstd::prelude::*;

verus! {

/// An install: what is asked for.
pub struct InstallRequest {
    /// The slot.
    pub slot: RawFd,
    /// Flags.
    pub flags: InstallFdFlags,
}

impl InstallRequest {
    /// The submission that asks for it.
    pub open spec fn sqe(self) -> Sqe {
        Sqe::fixed_fd_install(self.slot, self.flags)
    }

    /// The entry installs a descriptor, operation 54, for the slot, which is a fixed
    /// file, flag 1, with the flags asked for.
    pub proof fn installs_its_slot(self)
        ensures
            self.sqe().0 == (IoUringSqe {
                opcode: 54,
                flags: 1,
                fd: self.slot.as_i32(),
                op_flags: self.flags.0,
                ..blank()
            }),
    {
    }
}

/// An install that is not queued yet.
#[derive(Clone, Copy, Debug)]
pub struct PreparedFixedFdInstall {
    slot: RawFd,
    flags: InstallFdFlags,
}

impl View for PreparedFixedFdInstall {
    type V = InstallRequest;

    closed spec fn view(&self) -> InstallRequest {
        InstallRequest { slot: self.slot, flags: self.flags }
    }
}

impl PreparedFixedFdInstall {
    /// Give the table entry `slot` a descriptor.
    ///
    /// `slot` is the plain index, not the encoded form that allocating a
    /// slot uses.
    pub fn new(slot: RawFd, flags: InstallFdFlags) -> (r: Self)
        ensures
            r@ == (InstallRequest { slot, flags }),
    {
        PreparedFixedFdInstall { slot, flags }
    }

    /// Give an occupied slot a descriptor.
    pub fn of(slot: &DirectSlot, flags: InstallFdFlags) -> (r: Self)
        ensures
            r@ == (InstallRequest { slot: RawFd(slot.slot().value() as usize), flags }),
    {
        Self::new(RawFd::from_raw(slot.index().get() as usize), flags)
    }

    /// The slot.
    pub fn slot(&self) -> (r: RawFd)
        ensures
            r == self@.slot,
    {
        self.slot
    }

    /// Flags.
    pub fn flags(&self) -> (r: InstallFdFlags)
        ensures
            r == self@.flags,
    {
        self.flags
    }

    /// Build the submission and move to the pending state.
    pub fn into_pending(self, ring: RingId, id: RequestId) -> (r: (Sqe, PendingFixedFdInstall))
        ensures
            r.0 == self@.sqe().user_data(id.raw()),
            r.1@ == (Ticket { ring, id, request: self@.slot }),
    {
        let sqe = Sqe::fixed_fd_install(self.slot, self.flags);
        (sqe.user_data(id.raw()), PendingFixedFdInstall { ring, id, slot: self.slot })
    }
}

/// A submitted install.
#[derive(Debug)]
pub struct PendingFixedFdInstall {
    ring: RingId,
    id: RequestId,
    slot: RawFd,
}

impl View for PendingFixedFdInstall {
    type V = Ticket<RawFd>;

    closed spec fn view(&self) -> Ticket<RawFd> {
        Ticket { ring: self.ring, id: self.id, request: self.slot }
    }
}

impl PendingFixedFdInstall {
    /// Identity the kernel echoes back in this request's completion.
    pub fn id(&self) -> (r: RequestId)
        ensures
            r == self@.id,
    {
        self.id
    }

    /// Identity of the queue that accepted this request.
    pub fn ring(&self) -> (r: RingId)
        ensures
            r == self@.ring,
    {
        self.ring
    }

    /// Whether `receipt` ends this very request.
    pub fn matches(&self, receipt: &Receipt) -> (r: bool)
        ensures
            r == receipt.belongs_to(self@.ring, self@.id),
    {
        receipt.belongs_to(self.ring, self.id)
    }

    /// The slot.
    pub fn slot(&self) -> (r: RawFd)
        ensures
            r == self@.request,
    {
        self.slot
    }

    /// Trade a matching receipt for the descriptor.
    ///
    /// # Errors
    ///
    /// Returns the ticket and receipt unchanged if the receipt belongs to
    /// another request or another ring.
    pub fn redeem(self, receipt: Receipt) -> (r: Result<FixedFdInstalled, (Self, Receipt)>)
        ensures
            match r {
                Err((ticket, back)) => {
                    &&& !receipt.belongs_to(self@.ring, self@.id)
                    &&& ticket@ == self@
                    &&& back == receipt
                },
                Ok(done) => {
                    &&& receipt.belongs_to(self@.ring, self@.id)
                    &&& done@.id == self@.id
                    &&& done@.result == receipt.raw_result()
                    &&& done@.path == self@.request
                    &&& claimed(receipt.raw_result(), done@.file)
                },
            },
    {
        if !self.matches(&receipt) {
            return Err((self, receipt));
        }
        let result: i32 = receipt.raw_result();
        let file = File::claim(result);
        Ok(FixedFdInstalled { slot: self.slot, file, id: self.id, result })
    }
}

/// A finished install: the descriptor, if any.
#[derive(Debug)]
pub struct FixedFdInstalled {
    slot: RawFd,
    file: Option<File>,
    id: RequestId,
    result: i32,
}

impl View for FixedFdInstalled {
    type V = OpenedFile<RawFd>;

    closed spec fn view(&self) -> OpenedFile<RawFd> {
        OpenedFile { id: self.id, result: self.result, path: self.slot, file: self.file }
    }
}

impl FixedFdInstalled {
    /// There is a descriptor exactly when the install succeeded.
    #[verifier::type_invariant]
    pub closed spec fn wf(self) -> bool {
        claimed(self.result, self.file)
    }

    /// A failed install leaves no descriptor, a successful one leaves the
    /// one its result names.
    pub proof fn descriptor_iff_success(self)
        requires
            self.wf(),
        ensures
            claimed(self@.result, self@.file),
    {
    }

    /// Identity of the request this completes.
    pub fn id(&self) -> (r: RequestId)
        ensures
            r == self@.id,
    {
        self.id
    }

    /// The raw result: a descriptor, or a negated error number.
    pub fn raw_result(&self) -> (r: i32)
        ensures
            r == self@.result,
    {
        self.result
    }

    /// Whether the install succeeded.
    pub fn is_ok(&self) -> (r: bool)
        ensures
            r == (self@.result >= 0),
    {
        Error::cqe_is_ok(self.result)
    }

    /// Why the request failed, if it did.
    ///
    /// # Errors
    ///
    /// The error number the completion carried.
    pub fn result(&self) -> (r: Result<(), Error>)
        ensures
            r == Error::status_of(self@.result),
    {
        Error::status_of(self.result)
    }

    /// The slot.
    pub fn slot(&self) -> (r: RawFd)
        ensures
            r == self@.path,
    {
        self.slot
    }

    /// Borrow the descriptor, if the install succeeded.
    pub fn file(&self) -> (r: Option<&File>)
        ensures
            match r {
                Some(x) => self@.file == Some(*x),
                None => self@.file is None,
            },
    {
        self.file.as_ref()
    }

    /// Take the descriptor.
    pub fn into_file(self) -> (r: Option<File>)
        ensures
            r == self@.file,
    {
        self.file
    }
}

} // verus!
