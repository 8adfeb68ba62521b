//! Renaming: one request, two paths.

use super::buffer::StableBuffer;
use super::identity::{RequestId, RingId};
use super::lifecycle::{Done, Ticket};
use super::path::OwnedPath;
use super::request::Receipt;
use crate::error::Error;
use crate::op::{blank, IoUringSqe, Sqe};
use crate::types::fd::DirFd;
use crate::types::flags::RenameFlags;
use core::mem::ManuallyDrop;
use vstd::prelude::*;

verus! {

/// What happens to a file that already has the new name.
#[derive(Clone, Copy, Debug, PartialEq, Eq, Structural)]
pub enum RenameMode {
    /// It is replaced.
    Replace,
    /// The rename fails.
    NoReplace,
    /// The two swap names.
    Exchange,
}

impl RenameMode {
    /// The kernel's flags for it.
    #[verifier::allow_in_spec]
    pub fn flags(self) -> RenameFlags
        returns
            (match self {
                RenameMode::Replace => RenameFlags(0),
                RenameMode::NoReplace => RenameFlags::noreplace(),
                RenameMode::Exchange => RenameFlags::exchange(),
            }),
    {
        match self {
            RenameMode::Replace => RenameFlags(0),
            RenameMode::NoReplace => RenameFlags::noreplace(),
            RenameMode::Exchange => RenameFlags::exchange(),
        }
    }
}

/// A rename: what is asked for.
pub struct RenameRequest<F: StableBuffer, T: StableBuffer> {
    /// Where the old path starts.
    pub from_dir: DirFd,
    /// The old name.
    pub from: OwnedPath<F>,
    /// Where the new path starts.
    pub to_dir: DirFd,
    /// The new name.
    pub to: OwnedPath<T>,
    /// What happens to a file that already has it.
    pub mode: RenameMode,
}

impl<F: StableBuffer, T: StableBuffer> RenameRequest<F, T> {
    /// The submission that asks for it.
    pub open spec fn sqe(self) -> Sqe {
        Sqe::renameat_ptr(
            self.from_dir.as_raw(),
            self.from.storage().addr() as u64,
            self.to_dir.as_raw(),
            self.to.storage().addr() as u64,
            self.mode.flags(),
        )
    }

    /// The entry renames, operation 35, the old path to the new one, each relative
    /// to its own directory: flag 1 replaces nothing, flag 2 swaps the two.
    pub proof fn renames_old_to_new(self)
        ensures
            self.mode is Replace ==> self.sqe().0 == (IoUringSqe {
                opcode: 35,
                fd: self.from_dir.as_raw(),
                off: self.to.storage().addr() as u64,
                addr: self.from.storage().addr() as u64,
                len: self.to_dir.as_raw() as u32,
                op_flags: 0,
                ..blank()
            }),
            self.mode is NoReplace ==> self.sqe().0 == (IoUringSqe {
                opcode: 35,
                fd: self.from_dir.as_raw(),
                off: self.to.storage().addr() as u64,
                addr: self.from.storage().addr() as u64,
                len: self.to_dir.as_raw() as u32,
                op_flags: 1,
                ..blank()
            }),
            self.mode is Exchange ==> self.sqe().0 == (IoUringSqe {
                opcode: 35,
                fd: self.from_dir.as_raw(),
                off: self.to.storage().addr() as u64,
                addr: self.from.storage().addr() as u64,
                len: self.to_dir.as_raw() as u32,
                op_flags: 2,
                ..blank()
            }),
    {
    }
}

/// A rename that owns both paths but is not queued yet.
pub struct PreparedRename<F: StableBuffer, T: StableBuffer> {
    from: OwnedPath<F>,
    to: OwnedPath<T>,
    from_dir: DirFd,
    to_dir: DirFd,
    mode: RenameMode,
}

impl<F: StableBuffer, T: StableBuffer> View for PreparedRename<F, T> {
    type V = RenameRequest<F, T>;

    closed spec fn view(&self) -> RenameRequest<F, T> {
        RenameRequest {
            from_dir: self.from_dir,
            from: self.from,
            to_dir: self.to_dir,
            to: self.to,
            mode: self.mode,
        }
    }
}

impl<F: StableBuffer, T: StableBuffer> PreparedRename<F, T> {
    /// Rename `from`, relative to `from_dir`, to `to`, relative to `to_dir`.
    pub fn at(
        from_dir: DirFd,
        from: OwnedPath<F>,
        to_dir: DirFd,
        to: OwnedPath<T>,
        mode: RenameMode,
    ) -> (r: Self)
        ensures
            r@ == (RenameRequest { from_dir, from, to_dir, to, mode }),
    {
        PreparedRename { from, to, from_dir, to_dir, mode }
    }

    /// Rename `from` to `to`, both relative to the current directory.
    pub fn cwd(from: OwnedPath<F>, to: OwnedPath<T>, mode: RenameMode) -> (r: Self)
        ensures
            r@ == (RenameRequest { from_dir: DirFd::Cwd, from, to_dir: DirFd::Cwd, to, mode }),
    {
        Self::at(DirFd::Cwd, from, DirFd::Cwd, to, mode)
    }

    /// What happens to a file that already has the new name.
    pub fn mode(&self) -> (r: RenameMode)
        ensures
            r == self@.mode,
    {
        self.mode
    }

    /// Give both paths back, abandoning the request.
    pub fn into_paths(self) -> (r: (OwnedPath<F>, OwnedPath<T>))
        ensures
            r == (self@.from, self@.to),
    {
        (self.from, self.to)
    }

    /// Build the submission and move to the pending state.
    pub fn into_pending(self, ring: RingId, id: RequestId) -> (r: (Sqe, PendingRename<F, T>))
        ensures
            r.0 == self@.sqe().user_data(id.raw()),
            r.1@ == (Ticket { ring, id, request: self@ }),
    {
        let sqe = Sqe::renameat_ptr(
            self.from_dir.as_raw(),
            self.from.stable_ptr() as u64,
            self.to_dir.as_raw(),
            self.to.stable_ptr() as u64,
            self.mode.flags(),
        );
        let pending = PendingRename {
            from: ManuallyDrop::new(self.from),
            to: ManuallyDrop::new(self.to),
            from_dir: self.from_dir,
            to_dir: self.to_dir,
            mode: self.mode,
            ring,
            id,
        };
        (sqe.user_data(id.raw()), pending)
    }
}

/// A submitted rename whose paths the kernel may be reading.
///
/// Dropping it runs no destructor for the storage: it leaks rather than
/// being freed underneath the kernel.
#[must_use]
pub struct PendingRename<F: StableBuffer, T: StableBuffer> {
    from: ManuallyDrop<OwnedPath<F>>,
    to: ManuallyDrop<OwnedPath<T>>,
    from_dir: DirFd,
    to_dir: DirFd,
    mode: RenameMode,
    ring: RingId,
    id: RequestId,
}

impl<F: StableBuffer, T: StableBuffer> View for PendingRename<F, T> {
    type V = Ticket<RenameRequest<F, T>>;

    closed spec fn view(&self) -> Ticket<RenameRequest<F, T>> {
        Ticket {
            ring: self.ring,
            id: self.id,
            request: RenameRequest {
                from_dir: self.from_dir,
                from: self.from@,
                to_dir: self.to_dir,
                to: self.to@,
                mode: self.mode,
            },
        }
    }
}

impl<F: StableBuffer, T: StableBuffer> PendingRename<F, T> {
    /// Identity the kernel echoes back in this request's completion.
    pub fn id(&self) -> (r: RequestId)
        ensures
            r == self@.id,
    {
        self.id
    }

    /// Identity of the queue that accepted this request.
    pub fn ring(&self) -> (r: RingId)
        ensures
            r == self@.ring,
    {
        self.ring
    }

    /// Whether `receipt` ends this very request.
    pub fn matches(&self, receipt: &Receipt) -> (r: bool)
        ensures
            r == receipt.belongs_to(self@.ring, self@.id),
    {
        receipt.belongs_to(self.ring, self.id)
    }

    /// Take both paths back without a receipt, undoing a failed push.
    ///
    /// Only for a submission that the kernel has never seen.
    pub fn reclaim_unsubmitted(self) -> (r: PreparedRename<F, T>)
        ensures
            r@ == self@.request,
    {
        PreparedRename {
            from: ManuallyDrop::into_inner(self.from),
            to: ManuallyDrop::into_inner(self.to),
            from_dir: self.from_dir,
            to_dir: self.to_dir,
            mode: self.mode,
        }
    }

    /// Trade a matching receipt for the outcome and both paths.
    ///
    /// # Errors
    ///
    /// Returns the ticket and receipt unchanged if the receipt belongs to
    /// another request or another ring.
    pub fn redeem(self, receipt: Receipt) -> (r: Result<RenameCompleted<F, T>, (Self, Receipt)>)
        ensures
            match r {
                Err((ticket, back)) => {
                    &&& !receipt.belongs_to(self@.ring, self@.id)
                    &&& ticket@ == self@
                    &&& back == receipt
                },
                Ok(done) => {
                    &&& receipt.belongs_to(self@.ring, self@.id)
                    &&& done@ == (Done {
                        id: self@.id,
                        result: receipt.raw_result(),
                        request: (self@.request.from, self@.request.to),
                    })
                },
            },
    {
        if !self.matches(&receipt) {
            return Err((self, receipt));
        }
        Ok(
            RenameCompleted {
                from: ManuallyDrop::into_inner(self.from),
                to: ManuallyDrop::into_inner(self.to),
                id: self.id,
                result: receipt.raw_result(),
            },
        )
    }
}

/// A finished rename: its outcome, and both paths back.
pub struct RenameCompleted<F: StableBuffer, T: StableBuffer> {
    from: OwnedPath<F>,
    to: OwnedPath<T>,
    id: RequestId,
    result: i32,
}

impl<F: StableBuffer, T: StableBuffer> View for RenameCompleted<F, T> {
    type V = Done<(OwnedPath<F>, OwnedPath<T>)>;

    closed spec fn view(&self) -> Done<(OwnedPath<F>, OwnedPath<T>)> {
        Done { id: self.id, result: self.result, request: (self.from, self.to) }
    }
}

impl<F: StableBuffer, T: StableBuffer> RenameCompleted<F, T> {
    /// Identity of the request this completes.
    pub fn id(&self) -> (r: RequestId)
        ensures
            r == self@.id,
    {
        self.id
    }

    /// The raw result: 0, or a negated error number.
    pub fn raw_result(&self) -> (r: i32)
        ensures
            r == self@.result,
    {
        self.result
    }

    /// Whether the request succeeded.
    pub fn is_ok(&self) -> (r: bool)
        ensures
            r == (self@.result >= 0),
    {
        Error::cqe_is_ok(self.result)
    }

    /// Why the request failed, if it did.
    ///
    /// # Errors
    ///
    /// The error number the completion carried.
    pub fn result(&self) -> (r: Result<(), Error>)
        ensures
            r == Error::status_of(self@.result),
    {
        Error::status_of(self.result)
    }

    /// Take both paths back.
    pub fn into_paths(self) -> (r: (OwnedPath<F>, OwnedPath<T>))
        ensures
            r == self@.request,
    {
        (self.from, self.to)
    }
}

} // verus!
