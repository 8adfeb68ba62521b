//! Symbolic and hard links: requests with two paths.

use super::buffer::StableBuffer;
use super::identity::{RequestId, RingId};
use super::lifecycle::{Done, Ticket};
use super::path::OwnedPath;
use super::request::Receipt;
use crate::error::Error;
use crate::op::{blank, IoUringSqe, Sqe};
use crate::types::fd::DirFd;
use crate::types::flags::LinkFlags;
use core::mem::ManuallyDrop;
use vstd::prelude::*;

verus! {

/// Which kind of link, and where its paths start.
#[derive(Clone, Copy, Debug, PartialEq, Eq, Structural)]
pub enum LinkKind {
    /// A symbolic link. What it points to is not resolved.
    Symlink {
        /// Where the new path starts.
        new_dir: DirFd,
    },
    /// Another name of an existing file.
    Link {
        /// Where the existing path starts.
        old_dir: DirFd,
        /// Where the new path starts.
        new_dir: DirFd,
        /// How the existing path is resolved.
        flags: LinkFlags,
    },
}

impl LinkKind {
    /// The submission for the paths at `old_addr` and `new_addr`.
    #[verifier::allow_in_spec]
    pub fn sqe(self, old_addr: u64, new_addr: u64) -> Sqe
        returns
            (match self {
                LinkKind::Symlink { new_dir } => Sqe::symlinkat_ptr(
                    old_addr,
                    new_dir.as_raw(),
                    new_addr,
                ),
                LinkKind::Link { old_dir, new_dir, flags } => Sqe::linkat_ptr(
                    old_dir.as_raw(),
                    old_addr,
                    new_dir.as_raw(),
                    new_addr,
                    flags,
                ),
            }),
    {
        match self {
            LinkKind::Symlink { new_dir } => Sqe::symlinkat_ptr(
                old_addr,
                new_dir.as_raw(),
                new_addr,
            ),
            LinkKind::Link { old_dir, new_dir, flags } => Sqe::linkat_ptr(
                old_dir.as_raw(),
                old_addr,
                new_dir.as_raw(),
                new_addr,
                flags,
            ),
        }
    }
}

/// A link: what is asked for.
pub struct LinkRequest<F: StableBuffer, T: StableBuffer> {
    /// What the link points to.
    pub old: OwnedPath<F>,
    /// The name to create.
    pub dest: OwnedPath<T>,
    /// Which kind of link.
    pub kind: LinkKind,
}

impl<F: StableBuffer, T: StableBuffer> LinkRequest<F, T> {
    /// The submission that asks for it.
    pub open spec fn sqe(self) -> Sqe {
        self.kind.sqe(self.old.storage().addr() as u64, self.dest.storage().addr() as u64)
    }

    /// The entry makes a symbolic link, operation 38, or another name, operation 39,
    /// of the old path under the new one, each relative to its own directory.
    pub proof fn links_old_under_new(self)
        ensures
            self.kind matches LinkKind::Symlink { new_dir } ==> self.sqe().0 == (IoUringSqe {
                opcode: 38,
                fd: new_dir.as_raw(),
                off: self.dest.storage().addr() as u64,
                addr: self.old.storage().addr() as u64,
                ..blank()
            }),
            self.kind matches LinkKind::Link { old_dir, new_dir, flags } ==> self.sqe().0
                == (IoUringSqe {
                opcode: 39,
                fd: old_dir.as_raw(),
                off: self.dest.storage().addr() as u64,
                addr: self.old.storage().addr() as u64,
                len: new_dir.as_raw() as u32,
                op_flags: flags.0,
                ..blank()
            }),
    {
    }
}

/// A link that owns both paths but is not queued yet.
pub struct PreparedLink<F: StableBuffer, T: StableBuffer> {
    old: OwnedPath<F>,
    dest: OwnedPath<T>,
    kind: LinkKind,
}

impl<F: StableBuffer, T: StableBuffer> View for PreparedLink<F, T> {
    type V = LinkRequest<F, T>;

    closed spec fn view(&self) -> LinkRequest<F, T> {
        LinkRequest { old: self.old, dest: self.dest, kind: self.kind }
    }
}

impl<F: StableBuffer, T: StableBuffer> PreparedLink<F, T> {
    /// Make `dest` a link of this kind to `old`.
    pub fn new(old: OwnedPath<F>, dest: OwnedPath<T>, kind: LinkKind) -> (r: Self)
        ensures
            r@ == (LinkRequest { old, dest, kind }),
    {
        PreparedLink { old, dest, kind }
    }

    /// Make `dest`, relative to `new_dir`, a symbolic link to `old`.
    pub fn symlink_at(old: OwnedPath<F>, new_dir: DirFd, dest: OwnedPath<T>) -> (r: Self)
        ensures
            r@ == (LinkRequest { old, dest, kind: LinkKind::Symlink { new_dir } }),
    {
        Self::new(old, dest, LinkKind::Symlink { new_dir })
    }

    /// Make `dest`, relative to the current directory, a symbolic link to
    /// `old`.
    pub fn symlink_cwd(old: OwnedPath<F>, dest: OwnedPath<T>) -> (r: Self)
        ensures
            r@ == (LinkRequest { old, dest, kind: LinkKind::Symlink { new_dir: DirFd::Cwd } }),
    {
        Self::symlink_at(old, DirFd::Cwd, dest)
    }

    /// Make `dest` another name of `old`.
    pub fn link_at(
        old_dir: DirFd,
        old: OwnedPath<F>,
        new_dir: DirFd,
        dest: OwnedPath<T>,
        flags: LinkFlags,
    ) -> (r: Self)
        ensures
            r@ == (LinkRequest { old, dest, kind: LinkKind::Link { old_dir, new_dir, flags } }),
    {
        Self::new(old, dest, LinkKind::Link { old_dir, new_dir, flags })
    }

    /// Make `dest` another name of `old`, both relative to the current
    /// directory.
    pub fn link_cwd(old: OwnedPath<F>, dest: OwnedPath<T>, flags: LinkFlags) -> (r: Self)
        ensures
            r@ == (LinkRequest {
                old,
                dest,
                kind: LinkKind::Link { old_dir: DirFd::Cwd, new_dir: DirFd::Cwd, flags },
            }),
    {
        Self::link_at(DirFd::Cwd, old, DirFd::Cwd, dest, flags)
    }

    /// Which kind of link.
    pub fn kind(&self) -> (r: LinkKind)
        ensures
            r == self@.kind,
    {
        self.kind
    }

    /// What the link points to.
    pub fn old_path(&self) -> (r: &OwnedPath<F>)
        ensures
            *r == self@.old,
    {
        &self.old
    }

    /// The name to create.
    pub fn dest(&self) -> (r: &OwnedPath<T>)
        ensures
            *r == self@.dest,
    {
        &self.dest
    }

    /// Give both paths back, abandoning the request.
    pub fn into_paths(self) -> (r: (OwnedPath<F>, OwnedPath<T>))
        ensures
            r == (self@.old, self@.dest),
    {
        (self.old, self.dest)
    }

    /// Build the submission and move to the pending state.
    pub fn into_pending(self, ring: RingId, id: RequestId) -> (r: (Sqe, PendingLink<F, T>))
        ensures
            r.0 == self@.sqe().user_data(id.raw()),
            r.1@ == (Ticket { ring, id, request: self@ }),
    {
        let sqe = self.kind.sqe(self.old.stable_ptr() as u64, self.dest.stable_ptr() as u64);
        let pending = PendingLink {
            old: ManuallyDrop::new(self.old),
            dest: ManuallyDrop::new(self.dest),
            ring,
            id,
            kind: self.kind,
        };
        (sqe.user_data(id.raw()), pending)
    }
}

/// A submitted link whose paths the kernel may be reading.
///
/// Dropping it runs no destructor for the storage: it leaks rather than
/// being freed underneath the kernel.
#[must_use]
pub struct PendingLink<F: StableBuffer, T: StableBuffer> {
    old: ManuallyDrop<OwnedPath<F>>,
    dest: ManuallyDrop<OwnedPath<T>>,
    ring: RingId,
    id: RequestId,
    kind: LinkKind,
}

impl<F: StableBuffer, T: StableBuffer> View for PendingLink<F, T> {
    type V = Ticket<LinkRequest<F, T>>;

    closed spec fn view(&self) -> Ticket<LinkRequest<F, T>> {
        Ticket {
            ring: self.ring,
            id: self.id,
            request: LinkRequest { old: self.old@, dest: self.dest@, kind: self.kind },
        }
    }
}

impl<F: StableBuffer, T: StableBuffer> PendingLink<F, T> {
    /// Identity the kernel echoes back in this request's completion.
    pub fn id(&self) -> (r: RequestId)
        ensures
            r == self@.id,
    {
        self.id
    }

    /// Identity of the queue that accepted this request.
    pub fn ring(&self) -> (r: RingId)
        ensures
            r == self@.ring,
    {
        self.ring
    }

    /// Whether `receipt` ends this very request.
    pub fn matches(&self, receipt: &Receipt) -> (r: bool)
        ensures
            r == receipt.belongs_to(self@.ring, self@.id),
    {
        receipt.belongs_to(self.ring, self.id)
    }

    /// Which kind of link.
    pub fn kind(&self) -> (r: LinkKind)
        ensures
            r == self@.request.kind,
    {
        self.kind
    }

    /// Take both paths back without a receipt, undoing a failed push.
    ///
    /// Only for a submission that the kernel has never seen.
    pub fn reclaim_unsubmitted(self) -> (r: PreparedLink<F, T>)
        ensures
            r@ == self@.request,
    {
        PreparedLink {
            old: ManuallyDrop::into_inner(self.old),
            dest: ManuallyDrop::into_inner(self.dest),
            kind: self.kind,
        }
    }

    /// Trade a matching receipt for the outcome and both paths.
    ///
    /// # Errors
    ///
    /// Returns the ticket and receipt unchanged if the receipt belongs to
    /// another request or another ring.
    pub fn redeem(self, receipt: Receipt) -> (r: Result<LinkCompleted<F, T>, (Self, Receipt)>)
        ensures
            match r {
                Err((ticket, back)) => {
                    &&& !receipt.belongs_to(self@.ring, self@.id)
                    &&& ticket@ == self@
                    &&& back == receipt
                },
                Ok(done) => {
                    &&& receipt.belongs_to(self@.ring, self@.id)
                    &&& done@ == (Done {
                        id: self@.id,
                        result: receipt.raw_result(),
                        request: self@.request,
                    })
                },
            },
    {
        if !self.matches(&receipt) {
            return Err((self, receipt));
        }
        Ok(
            LinkCompleted {
                old: ManuallyDrop::into_inner(self.old),
                dest: ManuallyDrop::into_inner(self.dest),
                kind: self.kind,
                id: self.id,
                result: receipt.raw_result(),
            },
        )
    }
}

/// A finished link: its outcome, and both paths back.
pub struct LinkCompleted<F: StableBuffer, T: StableBuffer> {
    old: OwnedPath<F>,
    dest: OwnedPath<T>,
    kind: LinkKind,
    id: RequestId,
    result: i32,
}

impl<F: StableBuffer, T: StableBuffer> View for LinkCompleted<F, T> {
    type V = Done<LinkRequest<F, T>>;

    closed spec fn view(&self) -> Done<LinkRequest<F, T>> {
        Done {
            id: self.id,
            result: self.result,
            request: LinkRequest { old: self.old, dest: self.dest, kind: self.kind },
        }
    }
}

impl<F: StableBuffer, T: StableBuffer> LinkCompleted<F, T> {
    /// Identity of the request this completes.
    pub fn id(&self) -> (r: RequestId)
        ensures
            r == self@.id,
    {
        self.id
    }

    /// The raw result: 0, or a negated error number.
    pub fn raw_result(&self) -> (r: i32)
        ensures
            r == self@.result,
    {
        self.result
    }

    /// Whether the request succeeded.
    pub fn is_ok(&self) -> (r: bool)
        ensures
            r == (self@.result >= 0),
    {
        Error::cqe_is_ok(self.result)
    }

    /// Why the request failed, if it did.
    ///
    /// # Errors
    ///
    /// The error number the completion carried.
    pub fn result(&self) -> (r: Result<(), Error>)
        ensures
            r == Error::status_of(self@.result),
    {
        Error::status_of(self.result)
    }

    /// Which kind of link.
    pub fn kind(&self) -> (r: LinkKind)
        ensures
            r == self@.request.kind,
    {
        self.kind
    }

    /// What the link points to.
    pub fn old_path(&self) -> (r: &OwnedPath<F>)
        ensures
            *r == self@.request.old,
    {
        &self.old
    }

    /// The name that was created.
    pub fn dest(&self) -> (r: &OwnedPath<T>)
        ensures
            *r == self@.request.dest,
    {
        &self.dest
    }

    /// Take both paths back.
    pub fn into_paths(self) -> (r: (OwnedPath<F>, OwnedPath<T>))
        ensures
            r == (self@.request.old, self@.request.dest),
    {
        (self.old, self.dest)
    }
}

} // verus!
