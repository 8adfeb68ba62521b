//! Removing and creating names: requests with one path and no descriptor.

use super::buffer::StableBuffer;
use super::identity::{RequestId, RingId};
use super::lifecycle::{Done, Ticket};
use super::path::OwnedPath;
use super::request::Receipt;
use crate::error::Error;
use crate::op::{blank, IoUringSqe, Sqe};
use crate::types::codes::Opcode;
use crate::types::fd::DirFd;
use crate::types::flags::{FileMode, UnlinkFlags};
use core::mem::ManuallyDrop;
use vstd::prelude::*;

verus! {

/// What happens to the path.
#[derive(Clone, Copy, Debug, PartialEq, Eq, Structural)]
pub enum PathOpKind {
    /// Remove a file.
    Unlink,
    /// Remove an empty directory.
    Rmdir,
    /// Create a directory with these permissions.
    Mkdir(FileMode),
}

impl PathOpKind {
    /// The submission for the path at `addr`, relative to `dir`.
    #[verifier::allow_in_spec]
    pub fn sqe(self, dir: DirFd, addr: u64) -> Sqe
        returns
            (match self {
                PathOpKind::Unlink => Sqe::unlinkat_ptr(dir.as_raw(), addr, UnlinkFlags::empty()),
                PathOpKind::Rmdir => Sqe::unlinkat_ptr(
                    dir.as_raw(),
                    addr,
                    UnlinkFlags::removedir(),
                ),
                PathOpKind::Mkdir(mode) => Sqe::mkdirat_ptr(dir.as_raw(), addr, mode),
            }),
    {
        match self {
            PathOpKind::Unlink => Sqe::unlinkat_ptr(dir.as_raw(), addr, UnlinkFlags::empty()),
            PathOpKind::Rmdir => Sqe::unlinkat_ptr(dir.as_raw(), addr, UnlinkFlags::removedir()),
            PathOpKind::Mkdir(mode) => Sqe::mkdirat_ptr(dir.as_raw(), addr, mode),
        }
    }
}

/// A removal carries `AT_REMOVEDIR` exactly where a directory is removed, and
/// no flag otherwise.
pub proof fn removals_carry_the_fitting_flag(kind: PathOpKind, dir: DirFd, addr: u64)
    ensures
        kind is Unlink ==> kind.sqe(dir, addr).0.op_flags == 0,
        kind is Rmdir ==> kind.sqe(dir, addr).0.op_flags == 0x200,
        !(kind is Mkdir) ==> kind.sqe(dir, addr).0.opcode == Opcode::Unlinkat.as_raw(),
        kind is Mkdir ==> kind.sqe(dir, addr).0.opcode == Opcode::Mkdirat.as_raw(),
{
}

/// A path operation: what is asked for.
pub struct PathRequest<S: StableBuffer> {
    /// Where a relative path starts.
    pub dir: DirFd,
    /// The path.
    pub path: OwnedPath<S>,
    /// What happens to it.
    pub kind: PathOpKind,
}

impl<S: StableBuffer> PathRequest<S> {
    /// The submission that asks for it.
    pub open spec fn sqe(self) -> Sqe {
        self.kind.sqe(self.dir, self.path.storage().addr() as u64)
    }

    /// The entry removes the stored path, operation 36, as a directory by flag
    /// 0x200, or creates a directory there, operation 37, with the permissions.
    pub proof fn does_what_the_kind_says(self)
        ensures
            self.kind is Unlink ==> self.sqe().0 == (IoUringSqe {
                opcode: 36,
                fd: self.dir.as_raw(),
                addr: self.path.storage().addr() as u64,
                ..blank()
            }),
            self.kind is Rmdir ==> self.sqe().0 == (IoUringSqe {
                opcode: 36,
                fd: self.dir.as_raw(),
                addr: self.path.storage().addr() as u64,
                op_flags: 0x200,
                ..blank()
            }),
            self.kind matches PathOpKind::Mkdir(mode) ==> self.sqe().0 == (IoUringSqe {
                opcode: 37,
                fd: self.dir.as_raw(),
                addr: self.path.storage().addr() as u64,
                len: mode.0,
                ..blank()
            }),
    {
    }
}

/// A path operation that owns its path storage but is not queued yet.
pub struct PreparedPathOp<S: StableBuffer> {
    path: OwnedPath<S>,
    dir: DirFd,
    kind: PathOpKind,
}

impl<S: StableBuffer> View for PreparedPathOp<S> {
    type V = PathRequest<S>;

    closed spec fn view(&self) -> PathRequest<S> {
        PathRequest { dir: self.dir, path: self.path, kind: self.kind }
    }
}

impl<S: StableBuffer> PreparedPathOp<S> {
    /// Do `kind` to `path`, relative to `dir`.
    pub fn new(dir: DirFd, path: OwnedPath<S>, kind: PathOpKind) -> (r: Self)
        ensures
            r@ == (PathRequest { dir, path, kind }),
    {
        PreparedPathOp { path, dir, kind }
    }

    /// Remove the file `path`, relative to `dir`.
    pub fn unlink_at(dir: DirFd, path: OwnedPath<S>) -> (r: Self)
        ensures
            r@ == (PathRequest { dir, path, kind: PathOpKind::Unlink }),
    {
        Self::new(dir, path, PathOpKind::Unlink)
    }

    /// Remove the file `path`, relative to the current directory.
    pub fn unlink_cwd(path: OwnedPath<S>) -> (r: Self)
        ensures
            r@ == (PathRequest { dir: DirFd::Cwd, path, kind: PathOpKind::Unlink }),
    {
        Self::unlink_at(DirFd::Cwd, path)
    }

    /// Remove the directory `path`, relative to `dir`.
    pub fn rmdir_at(dir: DirFd, path: OwnedPath<S>) -> (r: Self)
        ensures
            r@ == (PathRequest { dir, path, kind: PathOpKind::Rmdir }),
    {
        Self::new(dir, path, PathOpKind::Rmdir)
    }

    /// Remove the directory `path`, relative to the current directory.
    pub fn rmdir_cwd(path: OwnedPath<S>) -> (r: Self)
        ensures
            r@ == (PathRequest { dir: DirFd::Cwd, path, kind: PathOpKind::Rmdir }),
    {
        Self::rmdir_at(DirFd::Cwd, path)
    }

    /// Create the directory `path`, relative to `dir`.
    pub fn mkdir_at(dir: DirFd, path: OwnedPath<S>, mode: FileMode) -> (r: Self)
        ensures
            r@ == (PathRequest { dir, path, kind: PathOpKind::Mkdir(mode) }),
    {
        Self::new(dir, path, PathOpKind::Mkdir(mode))
    }

    /// Create the directory `path`, relative to the current directory.
    pub fn mkdir_cwd(path: OwnedPath<S>, mode: FileMode) -> (r: Self)
        ensures
            r@ == (PathRequest { dir: DirFd::Cwd, path, kind: PathOpKind::Mkdir(mode) }),
    {
        Self::mkdir_at(DirFd::Cwd, path, mode)
    }

    /// Where a relative path starts.
    pub fn dir(&self) -> (r: DirFd)
        ensures
            r == self@.dir,
    {
        self.dir
    }

    /// What happens to the path.
    pub fn kind(&self) -> (r: PathOpKind)
        ensures
            r == self@.kind,
    {
        self.kind
    }

    /// The path.
    pub fn path(&self) -> (r: &OwnedPath<S>)
        ensures
            *r == self@.path,
    {
        &self.path
    }

    /// Give the path back, abandoning the request.
    pub fn into_path(self) -> (r: OwnedPath<S>)
        ensures
            r == self@.path,
    {
        self.path
    }

    /// Build the submission and move to the pending state.
    pub fn into_pending(self, ring: RingId, id: RequestId) -> (r: (Sqe, PendingPathOp<S>))
        ensures
            r.0 == self@.sqe().user_data(id.raw()),
            r.1@ == (Ticket { ring, id, request: self@ }),
    {
        let sqe = self.kind.sqe(self.dir, self.path.stable_ptr() as u64);
        let pending = PendingPathOp {
            path: ManuallyDrop::new(self.path),
            ring,
            id,
            dir: self.dir,
            kind: self.kind,
        };
        (sqe.user_data(id.raw()), pending)
    }
}

/// A submitted path operation whose path the kernel may be reading.
///
/// Dropping it runs no destructor for the storage: it leaks rather than
/// being freed underneath the kernel.
#[must_use]
pub struct PendingPathOp<S: StableBuffer> {
    path: ManuallyDrop<OwnedPath<S>>,
    ring: RingId,
    id: RequestId,
    dir: DirFd,
    kind: PathOpKind,
}

impl<S: StableBuffer> View for PendingPathOp<S> {
    type V = Ticket<PathRequest<S>>;

    closed spec fn view(&self) -> Ticket<PathRequest<S>> {
        Ticket {
            ring: self.ring,
            id: self.id,
            request: PathRequest { dir: self.dir, path: self.path@, kind: self.kind },
        }
    }
}

impl<S: StableBuffer> PendingPathOp<S> {
    /// Identity the kernel echoes back in this request's completion.
    pub fn id(&self) -> (r: RequestId)
        ensures
            r == self@.id,
    {
        self.id
    }

    /// Identity of the queue that accepted this request.
    pub fn ring(&self) -> (r: RingId)
        ensures
            r == self@.ring,
    {
        self.ring
    }

    /// Whether `receipt` ends this very request.
    pub fn matches(&self, receipt: &Receipt) -> (r: bool)
        ensures
            r == receipt.belongs_to(self@.ring, self@.id),
    {
        receipt.belongs_to(self.ring, self.id)
    }

    /// What happens to the path.
    pub fn kind(&self) -> (r: PathOpKind)
        ensures
            r == self@.request.kind,
    {
        self.kind
    }

    /// Take the path back without a receipt, undoing a failed push.
    ///
    /// Only for a submission that the kernel has never seen.
    pub fn reclaim_unsubmitted(self) -> (r: PreparedPathOp<S>)
        ensures
            r@ == self@.request,
    {
        PreparedPathOp {
            path: ManuallyDrop::into_inner(self.path),
            dir: self.dir,
            kind: self.kind,
        }
    }

    /// Trade a matching receipt for the outcome and the path.
    ///
    /// # Errors
    ///
    /// Returns the ticket and receipt unchanged if the receipt belongs to
    /// another request or another ring.
    pub fn redeem(self, receipt: Receipt) -> (r: Result<PathOpCompleted<S>, (Self, Receipt)>)
        ensures
            match r {
                Err((ticket, back)) => {
                    &&& !receipt.belongs_to(self@.ring, self@.id)
                    &&& ticket@ == self@
                    &&& back == receipt
                },
                Ok(done) => {
                    &&& receipt.belongs_to(self@.ring, self@.id)
                    &&& done@ == (Done {
                        id: self@.id,
                        result: receipt.raw_result(),
                        request: (self@.request.path, self@.request.kind),
                    })
                },
            },
    {
        if !self.matches(&receipt) {
            return Err((self, receipt));
        }
        Ok(
            PathOpCompleted {
                path: ManuallyDrop::into_inner(self.path),
                kind: self.kind,
                id: self.id,
                result: receipt.raw_result(),
            },
        )
    }
}

/// A finished path operation: its outcome, and the path back.
pub struct PathOpCompleted<S: StableBuffer> {
    path: OwnedPath<S>,
    kind: PathOpKind,
    id: RequestId,
    result: i32,
}

impl<S: StableBuffer> View for PathOpCompleted<S> {
    type V = Done<(OwnedPath<S>, PathOpKind)>;

    closed spec fn view(&self) -> Done<(OwnedPath<S>, PathOpKind)> {
        Done { id: self.id, result: self.result, request: (self.path, self.kind) }
    }
}

impl<S: StableBuffer> PathOpCompleted<S> {
    /// Identity of the request this completes.
    pub fn id(&self) -> (r: RequestId)
        ensures
            r == self@.id,
    {
        self.id
    }

    /// The raw result: 0, or a negated error number.
    pub fn raw_result(&self) -> (r: i32)
        ensures
            r == self@.result,
    {
        self.result
    }

    /// Whether the request succeeded.
    pub fn is_ok(&self) -> (r: bool)
        ensures
            r == (self@.result >= 0),
    {
        Error::cqe_is_ok(self.result)
    }

    /// Why the request failed, if it did.
    ///
    /// # Errors
    ///
    /// The error number the completion carried.
    pub fn result(&self) -> (r: Result<(), Error>)
        ensures
            r == Error::status_of(self@.result),
    {
        Error::status_of(self.result)
    }

    /// What happened to the path.
    pub fn kind(&self) -> (r: PathOpKind)
        ensures
            r == self@.request.1,
    {
        self.kind
    }

    /// The path.
    pub fn path(&self) -> (r: &OwnedPath<S>)
        ensures
            *r == self@.request.0,
    {
        &self.path
    }

    /// Take the path back.
    pub fn into_path(self) -> (r: OwnedPath<S>)
        ensures
            r == self@.request.0,
    {
        self.path
    }
}

} // verus!
