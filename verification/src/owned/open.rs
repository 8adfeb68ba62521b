//! Opening a file, with the path owned until the kernel has read it.
//!
//! Two things come back from one completion: the path's storage, and the
//! descriptor the kernel created. The descriptor arrives as an owning
//! [`File`], so ignoring the completion does not lose track of it.

use super::buffer::StableBuffer;
use super::identity::{RequestId, RingId};
use super::lifecycle::Ticket;
use super::path::OwnedPath;
use super::request::Receipt;
use crate::error::Error;
use crate::fs::{claimed, File};
use crate::op::{blank, IoUringSqe, Sqe};
use crate::types::fd::DirFd;
use crate::types::flags::FileMode;
use crate::types::open::OpenFlags;
use core::mem::ManuallyDrop;
use vstd::prelude::*;

verus! {

/// An open: what is asked for.
pub struct OpenRequest<S: StableBuffer> {
    /// Where a relative path starts.
    pub dir: DirFd,
    /// What to open.
    pub path: OwnedPath<S>,
    /// How to open it.
    pub flags: OpenFlags,
    /// Permissions if it is created.
    pub mode: FileMode,
}

impl<S: StableBuffer> OpenRequest<S> {
    /// The submission that asks for it.
    pub open spec fn sqe(self) -> Sqe {
        Sqe::openat_ptr(
            self.dir.as_raw(),
            self.path.storage().addr() as u64,
            self.flags,
            self.mode,
        )
    }

    /// The entry opens, operation 18, the stored path, relative to the directory,
    /// with the flags and the permissions, and into no slot.
    pub proof fn opens_with_flags_and_mode(self)
        ensures
            self.sqe().0 == (IoUringSqe {
                opcode: 18,
                fd: self.dir.as_raw(),
                addr: self.path.storage().addr() as u64,
                len: self.mode.0,
                op_flags: self.flags.word(),
                ..blank()
            }),
    {
    }
}

/// An open that owns its path storage but is not queued yet.
pub struct PreparedOpen<S: StableBuffer> {
    path: OwnedPath<S>,
    dir: DirFd,
    flags: OpenFlags,
    mode: FileMode,
}

impl<S: StableBuffer> View for PreparedOpen<S> {
    type V = OpenRequest<S>;

    closed spec fn view(&self) -> OpenRequest<S> {
        OpenRequest { dir: self.dir, path: self.path, flags: self.flags, mode: self.mode }
    }
}

impl<S: StableBuffer> PreparedOpen<S> {
    /// Open `path` relative to `dir`.
    pub fn at(dir: DirFd, path: OwnedPath<S>, flags: OpenFlags, mode: FileMode) -> (r: Self)
        ensures
            r@ == (OpenRequest { dir, path, flags, mode }),
    {
        PreparedOpen { path, dir, flags, mode }
    }

    /// Open `path` relative to the current directory.
    pub fn cwd(path: OwnedPath<S>, flags: OpenFlags, mode: FileMode) -> (r: Self)
        ensures
            r@ == (OpenRequest { dir: DirFd::Cwd, path, flags, mode }),
    {
        Self::at(DirFd::Cwd, path, flags, mode)
    }

    /// Where a relative path starts.
    pub fn dir(&self) -> (r: DirFd)
        ensures
            r == self@.dir,
    {
        self.dir
    }

    /// How the file is opened.
    pub fn flags(&self) -> (r: OpenFlags)
        ensures
            r == self@.flags,
    {
        self.flags
    }

    /// Permissions if the file is created.
    pub fn mode(&self) -> (r: FileMode)
        ensures
            r == self@.mode,
    {
        self.mode
    }

    /// The path to open.
    pub fn path(&self) -> (r: &OwnedPath<S>)
        ensures
            *r == self@.path,
    {
        &self.path
    }

    /// Give the path back, abandoning the request.
    pub fn into_path(self) -> (r: OwnedPath<S>)
        ensures
            r == self@.path,
    {
        self.path
    }

    /// Build the submission and move to the pending state.
    pub fn into_pending(self, ring: RingId, id: RequestId) -> (r: (Sqe, PendingOpen<S>))
        ensures
            r.0 == self@.sqe().user_data(id.raw()),
            r.1@ == (Ticket { ring, id, request: self@ }),
    {
        let sqe = Sqe::openat_ptr(
            self.dir.as_raw(),
            self.path.stable_ptr() as u64,
            self.flags,
            self.mode,
        );
        let pending = PendingOpen {
            path: ManuallyDrop::new(self.path),
            ring,
            id,
            dir: self.dir,
            flags: self.flags,
            mode: self.mode,
        };
        (sqe.user_data(id.raw()), pending)
    }
}

/// A submitted open whose path the kernel may be reading.
///
/// Dropping it runs no destructor for the storage: it leaks rather than
/// being freed underneath the kernel.
#[must_use]
pub struct PendingOpen<S: StableBuffer> {
    path: ManuallyDrop<OwnedPath<S>>,
    ring: RingId,
    id: RequestId,
    dir: DirFd,
    flags: OpenFlags,
    mode: FileMode,
}

impl<S: StableBuffer> View for PendingOpen<S> {
    type V = Ticket<OpenRequest<S>>;

    closed spec fn view(&self) -> Ticket<OpenRequest<S>> {
        Ticket {
            ring: self.ring,
            id: self.id,
            request: OpenRequest {
                dir: self.dir,
                path: self.path@,
                flags: self.flags,
                mode: self.mode,
            },
        }
    }
}

impl<S: StableBuffer> PendingOpen<S> {
    /// Identity the kernel echoes back in this request's completion.
    pub fn id(&self) -> (r: RequestId)
        ensures
            r == self@.id,
    {
        self.id
    }

    /// Identity of the queue that accepted this request.
    pub fn ring(&self) -> (r: RingId)
        ensures
            r == self@.ring,
    {
        self.ring
    }

    /// Whether `receipt` ends this very request.
    pub fn matches(&self, receipt: &Receipt) -> (r: bool)
        ensures
            r == receipt.belongs_to(self@.ring, self@.id),
    {
        receipt.belongs_to(self.ring, self.id)
    }

    /// Where a relative path starts.
    pub fn dir(&self) -> (r: DirFd)
        ensures
            r == self@.request.dir,
    {
        self.dir
    }

    /// Take the path back without a receipt, undoing a failed push.
    ///
    /// Only for a submission that the kernel has never seen.
    pub fn reclaim_unsubmitted(self) -> (r: PreparedOpen<S>)
        ensures
            r@ == self@.request,
    {
        PreparedOpen {
            path: ManuallyDrop::into_inner(self.path),
            dir: self.dir,
            flags: self.flags,
            mode: self.mode,
        }
    }

    /// Trade a matching receipt for the descriptor and the path.
    ///
    /// # Errors
    ///
    /// Returns the ticket and receipt unchanged if the receipt belongs to
    /// another request or another ring.
    pub fn redeem(self, receipt: Receipt) -> (r: Result<Opened<S>, (Self, Receipt)>)
        ensures
            match r {
                Err((ticket, back)) => {
                    &&& !receipt.belongs_to(self@.ring, self@.id)
                    &&& ticket@ == self@
                    &&& back == receipt
                },
                Ok(done) => {
                    &&& receipt.belongs_to(self@.ring, self@.id)
                    &&& done@.id == self@.id
                    &&& done@.result == receipt.raw_result()
                    &&& done@.path == self@.request.path
                    &&& claimed(receipt.raw_result(), done@.file)
                },
            },
    {
        if !self.matches(&receipt) {
            return Err((self, receipt));
        }
        let result: i32 = receipt.raw_result();
        Ok(
            Opened {
                path: ManuallyDrop::into_inner(self.path),
                file: File::claim(result),
                id: self.id,
                result,
            },
        )
    }
}

/// What a finished open leaves behind.
pub struct OpenedFile<P> {
    /// The identity the request had.
    pub id: RequestId,
    /// The raw result of its completion.
    pub result: i32,
    /// The path.
    pub path: P,
    /// The descriptor, if one was created.
    pub file: Option<File>,
}

/// A finished open: the descriptor, if any, and the path back.
pub struct Opened<S: StableBuffer> {
    path: OwnedPath<S>,
    file: Option<File>,
    id: RequestId,
    result: i32,
}

impl<S: StableBuffer> View for Opened<S> {
    type V = OpenedFile<OwnedPath<S>>;

    closed spec fn view(&self) -> OpenedFile<OwnedPath<S>> {
        OpenedFile { id: self.id, result: self.result, path: self.path, file: self.file }
    }
}

impl<S: StableBuffer> Opened<S> {
    /// There is a descriptor exactly when the open succeeded.
    #[verifier::type_invariant]
    pub closed spec fn wf(self) -> bool {
        claimed(self.result, self.file)
    }

    /// A failed open leaves no descriptor, a successful one leaves the one
    /// its result names.
    pub proof fn descriptor_iff_success(self)
        requires
            self.wf(),
        ensures
            claimed(self@.result, self@.file),
    {
    }

    /// Identity of the request this completes.
    pub fn id(&self) -> (r: RequestId)
        ensures
            r == self@.id,
    {
        self.id
    }

    /// The raw result: a descriptor, or a negated error number.
    pub fn raw_result(&self) -> (r: i32)
        ensures
            r == self@.result,
    {
        self.result
    }

    /// Whether the open succeeded.
    pub fn is_ok(&self) -> (r: bool)
        ensures
            r == (self@.result >= 0),
    {
        Error::cqe_is_ok(self.result)
    }

    /// Why the request failed, if it did.
    ///
    /// # Errors
    ///
    /// The error number the completion carried.
    pub fn result(&self) -> (r: Result<(), Error>)
        ensures
            r == Error::status_of(self@.result),
    {
        Error::status_of(self.result)
    }

    /// Borrow the descriptor, if the open succeeded.
    pub fn file(&self) -> (r: Option<&File>)
        ensures
            match r {
                Some(x) => self@.file == Some(*x),
                None => self@.file is None,
            },
    {
        self.file.as_ref()
    }

    /// The path that was opened.
    pub fn path(&self) -> (r: &OwnedPath<S>)
        ensures
            *r == self@.path,
    {
        &self.path
    }

    /// Take the descriptor.
    pub fn into_file(self) -> (r: Option<File>)
        ensures
            r == self@.file,
    {
        self.file
    }

    /// Take the descriptor and the path.
    pub fn into_parts(self) -> (r: (Option<File>, OwnedPath<S>))
        ensures
            r == (self@.file, self@.path),
    {
        (self.file, self.path)
    }
}

} // verus!
