//! `statx`, where the kernel writes a structure into caller memory.
//!
//! The structure has a fixed size and the submission no length for it, so
//! the destination is checked for size and alignment before the request can
//! exist.

use super::buffer::{read_at, kept_from, StableBuffer, StableBufferMut};
use super::identity::{RequestId, RingId};
use super::lifecycle::{Done, Ticket};
use super::path::OwnedPath;
use super::request::Receipt;
use crate::error::Error;
use crate::op::{blank, IoUringSqe, Sqe};
use crate::text::{decimal, with_decimal};
use crate::types::abi::{Abi, Statx};
use crate::types::fd::DirFd;
use crate::types::flags::{StatxFlags, StatxMask};
use core::mem::ManuallyDrop;
use vstd::prelude::*;
use vstd::string::StringExecFns;

verus! {

/// Why a `statx` request could not be built.
#[derive(Clone, Copy, Debug, PartialEq, Eq, Structural)]
pub enum StatxError {
    /// The destination cannot hold a whole [`Statx`].
    DestTooSmall {
        /// Bytes it needs.
        needed: usize,
        /// Bytes the supplied storage has.
        got: usize,
    },
    /// The destination is not aligned for a [`Statx`].
    DestMisaligned {
        /// Alignment it needs.
        needed: usize,
    },
}

impl StatxError {
    /// What [`message`](Self::message) says.
    pub open spec fn text(self) -> Seq<char> {
        match self {
            StatxError::DestTooSmall { needed, got } => "statx destination needs "@ + decimal(
                needed as nat,
            ) + " bytes, got "@ + decimal(got as nat),
            StatxError::DestMisaligned { needed } => "statx destination must be "@ + decimal(
                needed as nat,
            ) + "-byte aligned"@,
        }
    }

    /// Every case says what happened, in its own words and with its own numbers.
    pub proof fn texts_say_what_happened(self)
        ensures
            self matches StatxError::DestTooSmall { needed, got } ==> self.text()
                == "statx destination needs "@ + decimal(needed as nat) + " bytes, got "@
                    + decimal(got as nat),
            self matches StatxError::DestMisaligned { needed } ==> self.text()
                == "statx destination must be "@ + decimal(needed as nat) + "-byte aligned"@,
    {
    }

    /// A description for people.
    pub fn message(&self) -> (s: String)
        ensures
            s@ == self.text(),
    {
        match *self {
            StatxError::DestTooSmall { needed, got } => {
                let s = with_decimal(String::from_str("statx destination needs "), needed as u64);
                with_decimal(s.concat(" bytes, got "), got as u64)
            },
            StatxError::DestMisaligned { needed } => {
                let s = with_decimal(String::from_str("statx destination must be "), needed as u64);
                s.concat("-byte aligned")
            },
        }
    }
}

/// A `statx`: what is asked for.
pub struct StatxRequest<S: StableBuffer, D> {
    /// Where a relative path starts.
    pub dir: DirFd,
    /// What to report about.
    pub path: OwnedPath<S>,
    /// How to find it.
    pub flags: StatxFlags,
    /// What to report.
    pub mask: StatxMask,
    /// Where to report it.
    pub dest: D,
}

impl<S: StableBuffer, D: StableBuffer> StatxRequest<S, D> {
    /// The submission that asks for it.
    pub open spec fn sqe(self) -> Sqe {
        Sqe::statx_ptr(
            self.dir.as_raw(),
            self.path.storage().addr() as u64,
            self.flags,
            self.mask,
            self.dest.addr() as u64,
        )
    }

    /// The entry asks, operation 21, for what the mask names about the stored path,
    /// relative to the directory, and where it goes.
    pub proof fn reports_to_its_destination(self)
        ensures
            self.sqe().0 == (IoUringSqe {
                opcode: 21,
                fd: self.dir.as_raw(),
                off: self.dest.addr() as u64,
                addr: self.path.storage().addr() as u64,
                len: self.mask.0,
                op_flags: self.flags.0,
                ..blank()
            }),
    {
    }
}

/// Whether `dest` is large enough and aligned for what the kernel writes.
pub open spec fn holds_statx<D: StableBuffer>(dest: D) -> bool {
    &&& dest.bytes().len() >= 256
    &&& dest.addr() % 8 == 0
}

/// A `statx` that owns its path and its destination but is not queued yet.
pub struct PreparedStatx<S: StableBuffer, D: StableBufferMut> {
    path: OwnedPath<S>,
    dest: D,
    dir: DirFd,
    flags: StatxFlags,
    mask: StatxMask,
}

impl<S: StableBuffer, D: StableBufferMut> View for PreparedStatx<S, D> {
    type V = StatxRequest<S, D>;

    closed spec fn view(&self) -> StatxRequest<S, D> {
        StatxRequest {
            dir: self.dir,
            path: self.path,
            flags: self.flags,
            mask: self.mask,
            dest: self.dest,
        }
    }
}

impl<S: StableBuffer, D: StableBufferMut> PreparedStatx<S, D> {
    /// The destination fits.
    #[verifier::type_invariant]
    pub closed spec fn wf(self) -> bool {
        holds_statx(self.dest)
    }

    /// Report about `path`, relative to `dir`, to `dest`.
    ///
    /// # Errors
    ///
    /// Returns path and destination back if the destination is too small, or
    /// else if it is misaligned.
    pub fn at(dir: DirFd, path: OwnedPath<S>, flags: StatxFlags, mask: StatxMask, dest: D) -> (r:
        Result<Self, (OwnedPath<S>, D, StatxError)>)
        ensures
            ({
                let got = dest.bytes().len();
                if got < 256 {
                    r == Err::<Self, (OwnedPath<S>, D, StatxError)>(
                        (path, dest, StatxError::DestTooSmall { needed: 256, got: got as usize }),
                    )
                } else if dest.addr() % 8 != 0 {
                    r == Err::<Self, (OwnedPath<S>, D, StatxError)>(
                        (path, dest, StatxError::DestMisaligned { needed: 8 }),
                    )
                } else {
                    &&& r is Ok
                    &&& r->Ok_0@ == (StatxRequest { dir, path, flags, mask, dest })
                }
            }),
    {
        let needed: usize = Statx::size_of();
        let got: usize = dest.stable_len();
        if got < needed {
            return Err((path, dest, StatxError::DestTooSmall { needed, got }));
        }
        let align: usize = Statx::align_of();
        if !dest.stable_ptr().is_multiple_of(align) {
            return Err((path, dest, StatxError::DestMisaligned { needed: align }));
        }
        Ok(PreparedStatx { path, dest, dir, flags, mask })
    }

    /// Report about `path`, relative to the current directory, to `dest`.
    ///
    /// # Errors
    ///
    /// As [`at`](Self::at).
    pub fn cwd(path: OwnedPath<S>, flags: StatxFlags, mask: StatxMask, dest: D) -> (r: Result<
        Self,
        (OwnedPath<S>, D, StatxError),
    >)
        ensures
            ({
                let got = dest.bytes().len();
                if got < 256 {
                    r == Err::<Self, (OwnedPath<S>, D, StatxError)>(
                        (path, dest, StatxError::DestTooSmall { needed: 256, got: got as usize }),
                    )
                } else if dest.addr() % 8 != 0 {
                    r == Err::<Self, (OwnedPath<S>, D, StatxError)>(
                        (path, dest, StatxError::DestMisaligned { needed: 8 }),
                    )
                } else {
                    &&& r is Ok
                    &&& r->Ok_0@ == (StatxRequest { dir: DirFd::Cwd, path, flags, mask, dest })
                }
            }),
    {
        Self::at(DirFd::Cwd, path, flags, mask, dest)
    }

    /// How the file is found.
    pub fn flags(&self) -> (r: StatxFlags)
        ensures
            r == self@.flags,
    {
        self.flags
    }

    /// What is reported.
    pub fn mask(&self) -> (r: StatxMask)
        ensures
            r == self@.mask,
    {
        self.mask
    }

    /// What is reported about.
    pub fn path(&self) -> (r: &OwnedPath<S>)
        ensures
            *r == self@.path,
    {
        &self.path
    }

    /// Give path and destination back, abandoning the request.
    pub fn into_parts(self) -> (r: (OwnedPath<S>, D))
        ensures
            r == (self@.path, self@.dest),
    {
        (self.path, self.dest)
    }

    /// Build the submission and move to the pending state.
    pub fn into_pending(self, ring: RingId, id: RequestId) -> (r: (Sqe, PendingStatx<S, D>))
        ensures
            r.0 == self@.sqe().user_data(id.raw()),
            r.1@ == (Ticket { ring, id, request: self@ }),
    {
        proof {
            use_type_invariant(&self);
        }
        let sqe = Sqe::statx_ptr(
            self.dir.as_raw(),
            self.path.stable_ptr() as u64,
            self.flags,
            self.mask,
            self.dest.stable_ptr() as u64,
        );
        let pending = PendingStatx {
            path: ManuallyDrop::new(self.path),
            dest: ManuallyDrop::new(self.dest),
            ring,
            id,
            dir: self.dir,
            flags: self.flags,
            mask: self.mask,
        };
        (sqe.user_data(id.raw()), pending)
    }
}

/// A submitted `statx` whose path the kernel may be reading and whose
/// destination it may be writing.
///
/// Dropping it runs no destructor for the storage: it leaks rather than
/// being freed underneath the kernel.
#[must_use]
pub struct PendingStatx<S: StableBuffer, D: StableBufferMut> {
    path: ManuallyDrop<OwnedPath<S>>,
    dest: ManuallyDrop<D>,
    ring: RingId,
    id: RequestId,
    dir: DirFd,
    flags: StatxFlags,
    mask: StatxMask,
}

impl<S: StableBuffer, D: StableBufferMut> View for PendingStatx<S, D> {
    type V = Ticket<StatxRequest<S, D>>;

    closed spec fn view(&self) -> Ticket<StatxRequest<S, D>> {
        Ticket {
            ring: self.ring,
            id: self.id,
            request: StatxRequest {
                dir: self.dir,
                path: self.path@,
                flags: self.flags,
                mask: self.mask,
                dest: self.dest@,
            },
        }
    }
}

impl<S: StableBuffer, D: StableBufferMut> PendingStatx<S, D> {
    /// The destination fits.
    #[verifier::type_invariant]
    pub closed spec fn wf(self) -> bool {
        holds_statx(self.dest@)
    }

    /// Identity the kernel echoes back in this request's completion.
    pub fn id(&self) -> (r: RequestId)
        ensures
            r == self@.id,
    {
        self.id
    }

    /// Identity of the queue that accepted this request.
    pub fn ring(&self) -> (r: RingId)
        ensures
            r == self@.ring,
    {
        self.ring
    }

    /// Whether `receipt` ends this very request.
    pub fn matches(&self, receipt: &Receipt) -> (r: bool)
        ensures
            r == receipt.belongs_to(self@.ring, self@.id),
    {
        receipt.belongs_to(self.ring, self.id)
    }

    /// Take path and destination back without a receipt, undoing a failed
    /// push.
    ///
    /// Only for a submission that the kernel has never seen.
    pub fn reclaim_unsubmitted(self) -> (r: PreparedStatx<S, D>)
        ensures
            r@ == self@.request,
    {
        proof {
            use_type_invariant(&self);
        }
        PreparedStatx {
            path: ManuallyDrop::into_inner(self.path),
            dest: ManuallyDrop::into_inner(self.dest),
            dir: self.dir,
            flags: self.flags,
            mask: self.mask,
        }
    }

    /// Trade a matching receipt for the report and the path.
    ///
    /// The kernel has written its report to the destination if it had one,
    /// and nothing behind it. A failed request leaves the destination
    /// untouched.
    ///
    /// # Errors
    ///
    /// Returns the ticket and receipt unchanged if the receipt belongs to
    /// another request or another ring.
    pub fn redeem(self, receipt: Receipt) -> (r: Result<StatxCompleted<S, D>, (Self, Receipt)>)
        ensures
            match r {
                Err((ticket, back)) => {
                    &&& !receipt.belongs_to(self@.ring, self@.id)
                    &&& ticket@ == self@
                    &&& back == receipt
                },
                Ok(done) => {
                    &&& receipt.belongs_to(self@.ring, self@.id)
                    &&& done@.id == self@.id
                    &&& done@.result == receipt.raw_result()
                    &&& done@.request.0 == self@.request.path
                    &&& kept_from(
                        done@.request.1,
                        self@.request.dest,
                        Statx::spec_size() as int,
                    )
                    &&& receipt.raw_result() < 0 ==> done@.request.1 == self@.request.dest
                },
            },
    {
        proof {
            use_type_invariant(&self);
        }
        if !self.matches(&receipt) {
            return Err((self, receipt));
        }
        Ok(
            StatxCompleted {
                path: ManuallyDrop::into_inner(self.path),
                dest: ManuallyDrop::into_inner(self.dest),
                id: self.id,
                result: receipt.raw_result(),
            },
        )
    }
}

/// A finished `statx`: the report, if any, and path and destination back.
pub struct StatxCompleted<S: StableBuffer, D: StableBufferMut> {
    path: OwnedPath<S>,
    dest: D,
    id: RequestId,
    result: i32,
}

impl<S: StableBuffer, D: StableBufferMut> View for StatxCompleted<S, D> {
    type V = Done<(OwnedPath<S>, D)>;

    closed spec fn view(&self) -> Done<(OwnedPath<S>, D)> {
        Done { id: self.id, result: self.result, request: (self.path, self.dest) }
    }
}

impl<S: StableBuffer, D: StableBufferMut> StatxCompleted<S, D> {
    /// The destination fits.
    #[verifier::type_invariant]
    pub closed spec fn wf(self) -> bool {
        holds_statx(self.dest)
    }

    /// Identity of the request this completes.
    pub fn id(&self) -> (r: RequestId)
        ensures
            r == self@.id,
    {
        self.id
    }

    /// The raw result: 0, or a negated error number.
    pub fn raw_result(&self) -> (r: i32)
        ensures
            r == self@.result,
    {
        self.result
    }

    /// Whether the request succeeded.
    pub fn is_ok(&self) -> (r: bool)
        ensures
            r == (self@.result >= 0),
    {
        Error::cqe_is_ok(self.result)
    }

    /// Why the request failed, if it did.
    ///
    /// # Errors
    ///
    /// The error number the completion carried.
    pub fn result(&self) -> (r: Result<(), Error>)
        ensures
            r == Error::status_of(self@.result),
    {
        Error::status_of(self.result)
    }

    /// The report, if there is one.
    ///
    /// A failed request never wrote the destination, so nothing is read from
    /// it then.
    pub fn stat(&self) -> (r: Option<Statx>)
        ensures
            r == (if self@.result < 0 {
                None
            } else {
                Some(Statx::decoded(self@.request.1.bytes().subrange(0, 256)))
            }),
    {
        if self.result < 0 {
            return None;
        }
        proof {
            use_type_invariant(self);
        }
        Some(Statx::decode(read_at(&self.dest, 0, Statx::size_of()).as_slice()))
    }

    /// Take path and destination back.
    pub fn into_parts(self) -> (r: (OwnedPath<S>, D))
        ensures
            r == self@.request,
    {
        (self.path, self.dest)
    }
}

/// A destination is good exactly where it has room for 256 bytes and is
/// aligned to 8.
pub proof fn destinations_have_room<D: StableBuffer>(dest: D)
    ensures
        holds_statx(dest) <==> 256 <= dest.bytes().len() && dest.addr() % 8 == 0,
{
}

} // verus!
