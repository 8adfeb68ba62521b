//! A direct open, whose result is a table slot rather than a descriptor.
//!
//! The kernel puts the file into the ring's table, so the completion names a
//! [`SlotIndex`]. A slot is released by asking the ring and dies with it,
//! which is why this is a type of its own.
//!
//! The result means different things depending on the request: for
//! [`SlotTarget::Auto`] it is the slot the kernel chose, for an explicit slot
//! it is just 0. So the target resolves the result.

use super::buffer::StableBuffer;
use super::identity::{RequestId, RingId};
use super::lifecycle::Ticket;
use super::path::OwnedPath;
use super::request::Receipt;
use super::slot::{slot_claimed, DirectSlot, SlotIndex, SlotTarget};
use crate::error::Error;
use crate::op::{blank, IoUringSqe, Sqe};
use crate::types::fd::DirFd;
use crate::types::flags::FileMode;
use crate::types::open::OpenFlags;
use core::mem::ManuallyDrop;
use vstd::prelude::*;
use vstd::string::StringExecFns;

verus! {

/// Why a direct open could not be prepared.
#[derive(Clone, Copy, Debug, PartialEq, Eq, Structural)]
pub enum DirectOpenError {
    /// `O_CLOEXEC` says what `execve` does to a descriptor, and a slot is
    /// not one.
    CloseOnExec,
}

impl DirectOpenError {
    /// What [`message`](Self::message) says.
    pub open spec fn text(self) -> Seq<char> {
        "O_CLOEXEC is meaningless for a file-table slot"@
    }

    /// Every case says what happened, in its own words and with its own numbers.
    pub proof fn texts_say_what_happened(self)
        ensures
            self.text() == "O_CLOEXEC is meaningless for a file-table slot"@,
    {
    }

    /// A description for people.
    pub fn message(&self) -> (s: String)
        ensures
            s@ == self.text(),
    {
        String::from_str("O_CLOEXEC is meaningless for a file-table slot")
    }
}

/// A direct open: what is asked for.
pub struct DirectOpenRequest<S: StableBuffer> {
    /// Where a relative path starts.
    pub dir: DirFd,
    /// What to open.
    pub path: OwnedPath<S>,
    /// How to open it.
    pub flags: OpenFlags,
    /// Permissions if it is created.
    pub mode: FileMode,
    /// Where the file goes.
    pub target: SlotTarget,
}

impl<S: StableBuffer> DirectOpenRequest<S> {
    /// The submission that asks for it.
    pub open spec fn sqe(self) -> Sqe {
        Sqe::openat_direct(
            self.dir.as_raw(),
            self.path.storage().addr() as u64,
            self.flags,
            self.mode,
            self.target.encoded(),
        )
    }

    /// The entry opens, operation 18, the stored path, relative to the directory,
    /// with the flags and the permissions, into the slot.
    pub proof fn opens_into_its_slot(self)
        ensures
            self.sqe().0 == (IoUringSqe {
                opcode: 18,
                fd: self.dir.as_raw(),
                addr: self.path.storage().addr() as u64,
                len: self.mode.0,
                op_flags: self.flags.word(),
                splice_fd_in: self.target.encoded(),
                ..blank()
            }),
    {
    }
}

/// Whether `flags` ask to close on `execve`.
pub open spec fn closes_on_exec(flags: OpenFlags) -> bool {
    flags.word() & 0o2000000 == 0o2000000
}

/// A direct open that owns its path storage but is not queued yet.
pub struct PreparedDirectOpen<S: StableBuffer> {
    path: OwnedPath<S>,
    dir: DirFd,
    flags: OpenFlags,
    mode: FileMode,
    target: SlotTarget,
}

impl<S: StableBuffer> View for PreparedDirectOpen<S> {
    type V = DirectOpenRequest<S>;

    closed spec fn view(&self) -> DirectOpenRequest<S> {
        DirectOpenRequest {
            dir: self.dir,
            path: self.path,
            flags: self.flags,
            mode: self.mode,
            target: self.target,
        }
    }
}

impl<S: StableBuffer> PreparedDirectOpen<S> {
    /// The flags do not ask to close on `execve`.
    #[verifier::type_invariant]
    pub closed spec fn wf(self) -> bool {
        !closes_on_exec(self.flags)
    }

    /// The kernel is never asked to close a slot on `execve`.
    pub proof fn never_closes_on_exec(self)
        requires
            self.wf(),
        ensures
            self@.sqe().0.op_flags & 0o2000000 != 0o2000000,
    {
    }

    /// Open `path`, relative to `dir`, into `target`.
    ///
    /// # Errors
    ///
    /// Returns the path back if `flags` ask to close on `execve`.
    pub fn at(
        dir: DirFd,
        path: OwnedPath<S>,
        flags: OpenFlags,
        mode: FileMode,
        target: SlotTarget,
    ) -> (r: Result<Self, (OwnedPath<S>, DirectOpenError)>)
        ensures
            if closes_on_exec(flags) {
                r == Err::<Self, (OwnedPath<S>, DirectOpenError)>(
                    (path, DirectOpenError::CloseOnExec),
                )
            } else {
                &&& r is Ok
                &&& r->Ok_0@ == (DirectOpenRequest { dir, path, flags, mode, target })
            },
    {
        if flags.contains(OpenFlags::cloexec()) {
            return Err((path, DirectOpenError::CloseOnExec));
        }
        Ok(PreparedDirectOpen { path, dir, flags, mode, target })
    }

    /// Open `path`, relative to the current directory, into `target`.
    ///
    /// # Errors
    ///
    /// As [`at`](Self::at).
    pub fn cwd(path: OwnedPath<S>, flags: OpenFlags, mode: FileMode, target: SlotTarget) -> (r:
        Result<Self, (OwnedPath<S>, DirectOpenError)>)
        ensures
            if closes_on_exec(flags) {
                r == Err::<Self, (OwnedPath<S>, DirectOpenError)>(
                    (path, DirectOpenError::CloseOnExec),
                )
            } else {
                &&& r is Ok
                &&& r->Ok_0@ == (DirectOpenRequest { dir: DirFd::Cwd, path, flags, mode, target })
            },
    {
        Self::at(DirFd::Cwd, path, flags, mode, target)
    }

    /// Where a relative path starts.
    pub fn dir(&self) -> (r: DirFd)
        ensures
            r == self@.dir,
    {
        self.dir
    }

    /// How the file is opened.
    pub fn flags(&self) -> (r: OpenFlags)
        ensures
            r == self@.flags,
    {
        self.flags
    }

    /// Permissions if the file is created.
    pub fn mode(&self) -> (r: FileMode)
        ensures
            r == self@.mode,
    {
        self.mode
    }

    /// Where the file goes.
    pub fn target(&self) -> (r: SlotTarget)
        ensures
            r == self@.target,
    {
        self.target
    }

    /// The path to open.
    pub fn path(&self) -> (r: &OwnedPath<S>)
        ensures
            *r == self@.path,
    {
        &self.path
    }

    /// Give the path back, abandoning the request.
    pub fn into_path(self) -> (r: OwnedPath<S>)
        ensures
            r == self@.path,
    {
        self.path
    }

    /// Build the submission and move to the pending state.
    pub fn into_pending(self, ring: RingId, id: RequestId) -> (r: (Sqe, PendingDirectOpen<S>))
        ensures
            r.0 == self@.sqe().user_data(id.raw()),
            r.1@ == (Ticket { ring, id, request: self@ }),
    {
        proof {
            use_type_invariant(&self);
        }
        let sqe = Sqe::openat_direct(
            self.dir.as_raw(),
            self.path.stable_ptr() as u64,
            self.flags,
            self.mode,
            self.target.raw(),
        );
        let pending = PendingDirectOpen {
            path: ManuallyDrop::new(self.path),
            ring,
            id,
            dir: self.dir,
            flags: self.flags,
            mode: self.mode,
            target: self.target,
        };
        (sqe.user_data(id.raw()), pending)
    }
}

/// A submitted direct open whose path the kernel may be reading.
///
/// Dropping it runs no destructor for the storage: it leaks rather than
/// being freed underneath the kernel.
#[must_use]
pub struct PendingDirectOpen<S: StableBuffer> {
    path: ManuallyDrop<OwnedPath<S>>,
    ring: RingId,
    id: RequestId,
    dir: DirFd,
    flags: OpenFlags,
    mode: FileMode,
    target: SlotTarget,
}

impl<S: StableBuffer> View for PendingDirectOpen<S> {
    type V = Ticket<DirectOpenRequest<S>>;

    closed spec fn view(&self) -> Ticket<DirectOpenRequest<S>> {
        Ticket {
            ring: self.ring,
            id: self.id,
            request: DirectOpenRequest {
                dir: self.dir,
                path: self.path@,
                flags: self.flags,
                mode: self.mode,
                target: self.target,
            },
        }
    }
}

impl<S: StableBuffer> PendingDirectOpen<S> {
    /// The flags did not ask to close on `execve`.
    #[verifier::type_invariant]
    pub closed spec fn wf(self) -> bool {
        !closes_on_exec(self.flags)
    }

    /// Identity the kernel echoes back in this request's completion.
    pub fn id(&self) -> (r: RequestId)
        ensures
            r == self@.id,
    {
        self.id
    }

    /// Identity of the queue that accepted this request.
    pub fn ring(&self) -> (r: RingId)
        ensures
            r == self@.ring,
    {
        self.ring
    }

    /// Whether `receipt` ends this very request.
    pub fn matches(&self, receipt: &Receipt) -> (r: bool)
        ensures
            r == receipt.belongs_to(self@.ring, self@.id),
    {
        receipt.belongs_to(self.ring, self.id)
    }

    /// Where the file goes.
    pub fn target(&self) -> (r: SlotTarget)
        ensures
            r == self@.request.target,
    {
        self.target
    }

    /// Take the path back without a receipt, undoing a failed push.
    ///
    /// Only for a submission that the kernel has never seen.
    pub fn reclaim_unsubmitted(self) -> (r: PreparedDirectOpen<S>)
        ensures
            r@ == self@.request,
    {
        proof {
            use_type_invariant(&self);
        }
        PreparedDirectOpen {
            path: ManuallyDrop::into_inner(self.path),
            dir: self.dir,
            flags: self.flags,
            mode: self.mode,
            target: self.target,
        }
    }

    /// Trade a matching receipt for the slot and the path.
    ///
    /// # Errors
    ///
    /// Returns the ticket and receipt unchanged if the receipt belongs to
    /// another request or another ring.
    pub fn redeem(self, receipt: Receipt) -> (r: Result<DirectOpened<S>, (Self, Receipt)>)
        ensures
            match r {
                Err((ticket, back)) => {
                    &&& !receipt.belongs_to(self@.ring, self@.id)
                    &&& ticket@ == self@
                    &&& back == receipt
                },
                Ok(done) => {
                    &&& receipt.belongs_to(self@.ring, self@.id)
                    &&& done@.id == self@.id
                    &&& done@.result == receipt.raw_result()
                    &&& done@.kept == self@.request.path
                    &&& slot_claimed(
                        self@.request.target,
                        receipt.raw_result(),
                        self@.ring,
                        done@.slot,
                    )
                },
            },
    {
        if !self.matches(&receipt) {
            return Err((self, receipt));
        }
        let result: i32 = receipt.raw_result();
        let slot = DirectSlot::claim(self.target, result, self.ring);
        Ok(
            DirectOpened {
                path: ManuallyDrop::into_inner(self.path),
                slot,
                id: self.id,
                result,
            },
        )
    }
}

/// What a finished direct request leaves behind.
pub struct FilledSlot<K> {
    /// The identity the request had.
    pub id: RequestId,
    /// The raw result of its completion.
    pub result: i32,
    /// What the request owned.
    pub kept: K,
    /// The slot, if one was filled.
    pub slot: Option<DirectSlot>,
}

/// A finished direct open: the slot, if any, and the path back.
pub struct DirectOpened<S: StableBuffer> {
    path: OwnedPath<S>,
    slot: Option<DirectSlot>,
    id: RequestId,
    result: i32,
}

impl<S: StableBuffer> View for DirectOpened<S> {
    type V = FilledSlot<OwnedPath<S>>;

    closed spec fn view(&self) -> FilledSlot<OwnedPath<S>> {
        FilledSlot { id: self.id, result: self.result, kept: self.path, slot: self.slot }
    }
}

impl<S: StableBuffer> DirectOpened<S> {
    /// Identity of the request this completes.
    pub fn id(&self) -> (r: RequestId)
        ensures
            r == self@.id,
    {
        self.id
    }

    /// The raw result: a slot or 0, or a negated error number.
    pub fn raw_result(&self) -> (r: i32)
        ensures
            r == self@.result,
    {
        self.result
    }

    /// Whether the open succeeded.
    pub fn is_ok(&self) -> (r: bool)
        ensures
            r == (self@.result >= 0),
    {
        Error::cqe_is_ok(self.result)
    }

    /// Why the request failed, if it did.
    ///
    /// # Errors
    ///
    /// The error number the completion carried.
    pub fn result(&self) -> (r: Result<(), Error>)
        ensures
            r == Error::status_of(self@.result),
    {
        Error::status_of(self.result)
    }

    /// Borrow the slot, if the open succeeded.
    pub fn slot(&self) -> (r: Option<&DirectSlot>)
        ensures
            match r {
                Some(x) => self@.slot == Some(*x),
                None => self@.slot is None,
            },
    {
        self.slot.as_ref()
    }

    /// The slot's index, if the open succeeded.
    pub fn index(&self) -> (r: Option<SlotIndex>)
        ensures
            r == (match self@.slot {
                Some(slot) => Some(slot.slot()),
                None => None,
            }),
    {
        match &self.slot {
            Some(slot) => Some(slot.index()),
            None => None,
        }
    }

    /// The path that was opened.
    pub fn path(&self) -> (r: &OwnedPath<S>)
        ensures
            *r == self@.kept,
    {
        &self.path
    }

    /// Take the slot and the path.
    pub fn into_parts(self) -> (r: (Option<DirectSlot>, OwnedPath<S>))
        ensures
            r == (self@.slot, self@.kept),
    {
        (self.slot, self.path)
    }
}

/// Closing on `execve` is bit 0x80000 of the flags.
pub proof fn closing_on_exec_is_a_bit(flags: OpenFlags)
    ensures
        closes_on_exec(flags) <==> flags.word() & 0x8_0000u32 == 0x8_0000u32,
{
}

} // verus!
