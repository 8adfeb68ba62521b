//! `pipe`, whose two descriptors the kernel writes to owned storage.
//!
//! A pipe is described by its flags alone; what has to be owned is the place
//! for the descriptors, checked for room and alignment before the request
//! can exist. The read end comes first. The result itself is just 0.

use super::array::{decode_all, element};
use super::buffer::{kept_from, StableBuffer, StableBufferMut};
use super::identity::{RequestId, RingId};
use super::lifecycle::{Done, Ticket};
use super::request::Receipt;
use crate::bytes::{le_value, unsigned_of};
use crate::error::Error;
use crate::op::{blank, IoUringSqe, Sqe};
use crate::text::{decimal, with_decimal};
use crate::types::abi::Abi;
use crate::types::flags::PipeFlags;
use core::mem::ManuallyDrop;
use vstd::prelude::*;
use vstd::string::StringExecFns;

verus! {

/// Bytes that two descriptors take.
pub const DEST_LEN: usize = 8;

/// Alignment that a descriptor needs.
pub const DEST_ALIGN: usize = 4;

/// Why a `pipe` request could not be built.
#[derive(Clone, Copy, Debug, PartialEq, Eq, Structural)]
pub enum PipeError {
    /// The storage cannot hold both descriptors.
    DestTooSmall {
        /// Bytes they need.
        needed: usize,
        /// Bytes the supplied storage has.
        got: usize,
    },
    /// The storage is not aligned for descriptors.
    DestMisaligned {
        /// Alignment they need.
        needed: usize,
    },
}

impl PipeError {
    /// What [`message`](Self::message) says.
    pub open spec fn text(self) -> Seq<char> {
        match self {
            PipeError::DestTooSmall { needed, got } => "pipe destination needs "@
                + decimal(needed as nat) + " bytes, got "@ + decimal(got as nat),
            PipeError::DestMisaligned { needed } => "pipe destination must be "@
                + decimal(needed as nat) + "-byte aligned"@,
        }
    }

    /// Every case says what happened, in its own words and with its own numbers.
    pub proof fn texts_say_what_happened(self)
        ensures
            self matches PipeError::DestTooSmall { needed, got } ==> self.text()
                == "pipe destination needs "@ + decimal(needed as nat) + " bytes, got "@
                    + decimal(got as nat),
            self matches PipeError::DestMisaligned { needed } ==> self.text()
                == "pipe destination must be "@ + decimal(needed as nat) + "-byte aligned"@,
    {
    }

    /// A description for people.
    pub fn message(&self) -> (s: String)
        ensures
            s@ == self.text(),
    {
        match *self {
            PipeError::DestTooSmall { needed, got } => {
                let s = String::from_str("pipe destination needs ");
                let s = with_decimal(s, needed as u64);
                let s = s.concat(" bytes, got ");
                with_decimal(s, got as u64)
            },
            PipeError::DestMisaligned { needed } => {
                let s = String::from_str("pipe destination must be ");
                let s = with_decimal(s, needed as u64);
                s.concat("-byte aligned")
            },
        }
    }
}

/// A `pipe`: what is asked for.
pub struct PipeRequest<D> {
    /// Flags of both ends.
    pub flags: PipeFlags,
    /// Where the descriptors go.
    pub dest: D,
}

impl<D: StableBuffer> PipeRequest<D> {
    /// The submission that asks for it.
    pub open spec fn sqe(self) -> Sqe {
        Sqe::pipe_ptr(self.dest.addr() as u64, self.flags)
    }

    /// The entry creates a pipe, operation 62, with the flags, and its ends go to
    /// the destination.
    pub proof fn reports_to_its_destination(self)
        ensures
            self.sqe().0 == (IoUringSqe {
                opcode: 62,
                addr: self.dest.addr() as u64,
                op_flags: self.flags.0,
                ..blank()
            }),
    {
    }
}

/// Whether `dest` is large enough and aligned for what the kernel writes.
pub open spec fn holds_descriptors<D: StableBuffer>(dest: D) -> bool {
    &&& dest.bytes().len() >= DEST_LEN
    &&& dest.addr() % DEST_ALIGN == 0
}

/// A `pipe` that owns its destination but is not queued yet.
pub struct PreparedPipe<D: StableBufferMut> {
    dest: D,
    flags: PipeFlags,
}

impl<D: StableBufferMut> View for PreparedPipe<D> {
    type V = PipeRequest<D>;

    closed spec fn view(&self) -> PipeRequest<D> {
        PipeRequest { flags: self.flags, dest: self.dest }
    }
}

impl<D: StableBufferMut> PreparedPipe<D> {
    /// The destination fits.
    #[verifier::type_invariant]
    pub closed spec fn wf(self) -> bool {
        holds_descriptors(self.dest)
    }

    /// Create a pipe, writing both descriptors to `dest`.
    ///
    /// # Errors
    ///
    /// Returns the storage unchanged if it is too small, or else if it is
    /// misaligned.
    pub fn new(flags: PipeFlags, dest: D) -> (r: Result<Self, (D, PipeError)>)
        ensures
            ({
                let got = dest.bytes().len();
                if got < DEST_LEN {
                    r == Err::<Self, (D, PipeError)>(
                        (dest, PipeError::DestTooSmall { needed: DEST_LEN, got: got as usize }),
                    )
                } else if dest.addr() % DEST_ALIGN != 0 {
                    r == Err::<Self, (D, PipeError)>(
                        (dest, PipeError::DestMisaligned { needed: DEST_ALIGN }),
                    )
                } else {
                    &&& r is Ok
                    &&& r->Ok_0@ == (PipeRequest { flags, dest })
                }
            }),
    {
        let got: usize = dest.stable_len();
        if got < DEST_LEN {
            return Err((dest, PipeError::DestTooSmall { needed: DEST_LEN, got }));
        }
        if !dest.stable_ptr().is_multiple_of(DEST_ALIGN) {
            return Err((dest, PipeError::DestMisaligned { needed: DEST_ALIGN }));
        }
        Ok(PreparedPipe { dest, flags })
    }

    /// Flags of both ends.
    pub fn flags(&self) -> (r: PipeFlags)
        ensures
            r == self@.flags,
    {
        self.flags
    }

    /// Give the storage back, abandoning the request.
    pub fn into_dest(self) -> (r: D)
        ensures
            r == self@.dest,
    {
        self.dest
    }

    /// Build the submission and move to the pending state.
    pub fn into_pending(self, ring: RingId, id: RequestId) -> (r: (Sqe, PendingPipe<D>))
        ensures
            r.0 == self@.sqe().user_data(id.raw()),
            r.1@ == (Ticket { ring, id, request: self@ }),
    {
        proof {
            use_type_invariant(&self);
        }
        let sqe = Sqe::pipe_ptr(self.dest.stable_ptr() as u64, self.flags);
        let pending = PendingPipe {
            dest: ManuallyDrop::new(self.dest),
            ring,
            id,
            flags: self.flags,
        };
        (sqe.user_data(id.raw()), pending)
    }
}

/// A submitted `pipe` whose destination the kernel may be writing.
///
/// Dropping it runs no destructor for the storage: it leaks rather than
/// being freed underneath the kernel.
#[must_use]
pub struct PendingPipe<D: StableBufferMut> {
    dest: ManuallyDrop<D>,
    ring: RingId,
    id: RequestId,
    flags: PipeFlags,
}

impl<D: StableBufferMut> View for PendingPipe<D> {
    type V = Ticket<PipeRequest<D>>;

    closed spec fn view(&self) -> Ticket<PipeRequest<D>> {
        Ticket {
            ring: self.ring,
            id: self.id,
            request: PipeRequest { flags: self.flags, dest: self.dest@ },
        }
    }
}

impl<D: StableBufferMut> PendingPipe<D> {
    /// The destination fits.
    #[verifier::type_invariant]
    pub closed spec fn wf(self) -> bool {
        holds_descriptors(self.dest@)
    }

    /// Identity the kernel echoes back in this request's completion.
    pub fn id(&self) -> (r: RequestId)
        ensures
            r == self@.id,
    {
        self.id
    }

    /// Identity of the queue that accepted this request.
    pub fn ring(&self) -> (r: RingId)
        ensures
            r == self@.ring,
    {
        self.ring
    }

    /// Whether `receipt` ends this very request.
    pub fn matches(&self, receipt: &Receipt) -> (r: bool)
        ensures
            r == receipt.belongs_to(self@.ring, self@.id),
    {
        receipt.belongs_to(self.ring, self.id)
    }

    /// Flags of both ends.
    pub fn flags(&self) -> (r: PipeFlags)
        ensures
            r == self@.request.flags,
    {
        self.flags
    }

    /// Take the request back without a receipt, undoing a failed push.
    ///
    /// Only for a submission that the kernel has never seen.
    pub fn reclaim_unsubmitted(self) -> (r: PreparedPipe<D>)
        ensures
            r@ == self@.request,
    {
        proof {
            use_type_invariant(&self);
        }
        PreparedPipe { dest: ManuallyDrop::into_inner(self.dest), flags: self.flags }
    }

    /// Trade a matching receipt for the pipe and the storage.
    ///
    /// The kernel has written both descriptors to the storage if the pipe was
    /// created, and nothing behind them. A failed request has not written to
    /// it at all.
    ///
    /// # Errors
    ///
    /// Returns the ticket and receipt unchanged if the receipt belongs to
    /// another request or another ring.
    pub fn redeem(self, receipt: Receipt) -> (r: Result<PipeCreated<D>, (Self, Receipt)>)
        ensures
            match r {
                Err((ticket, back)) => {
                    &&& !receipt.belongs_to(self@.ring, self@.id)
                    &&& ticket@ == self@
                    &&& back == receipt
                },
                Ok(done) => {
                    &&& receipt.belongs_to(self@.ring, self@.id)
                    &&& done@.id == self@.id
                    &&& done@.result == receipt.raw_result()
                    &&& kept_from(done@.request, self@.request.dest, DEST_LEN as int)
                    &&& receipt.raw_result() < 0 ==> done@.request == self@.request.dest
                },
            },
    {
        proof {
            use_type_invariant(&self);
        }
        if !self.matches(&receipt) {
            return Err((self, receipt));
        }
        Ok(
            PipeCreated {
                dest: ManuallyDrop::into_inner(self.dest),
                id: self.id,
                result: receipt.raw_result(),
            },
        )
    }
}

/// A finished `pipe`: both descriptors, if it succeeded, and the storage
/// back.
pub struct PipeCreated<D: StableBufferMut> {
    dest: D,
    id: RequestId,
    result: i32,
}

impl<D: StableBufferMut> View for PipeCreated<D> {
    type V = Done<D>;

    closed spec fn view(&self) -> Done<D> {
        Done { id: self.id, result: self.result, request: self.dest }
    }
}

/// The descriptor at `index` of the pair, if there is a pair.
pub open spec fn end<D: StableBuffer>(created: Done<D>, index: int) -> Option<i32> {
    if created.result < 0 {
        None
    } else {
        Some(i32::decoded(element::<i32>(created.request.bytes(), 0, index)))
    }
}

impl<D: StableBufferMut> PipeCreated<D> {
    /// The destination fits.
    #[verifier::type_invariant]
    pub closed spec fn wf(self) -> bool {
        holds_descriptors(self.dest)
    }

    /// Identity of the request this completes.
    pub fn id(&self) -> (r: RequestId)
        ensures
            r == self@.id,
    {
        self.id
    }

    /// The raw result: 0, or a negated error number.
    pub fn raw_result(&self) -> (r: i32)
        ensures
            r == self@.result,
    {
        self.result
    }

    /// Whether the pipe was created.
    pub fn is_ok(&self) -> (r: bool)
        ensures
            r == (self@.result >= 0),
    {
        Error::cqe_is_ok(self.result)
    }

    /// Why the request failed, if it did.
    ///
    /// # Errors
    ///
    /// The error number the completion carried.
    pub fn result(&self) -> (r: Result<(), Error>)
        ensures
            r == Error::status_of(self@.result),
    {
        Error::status_of(self.result)
    }

    /// The read end, if the pipe was created.
    pub fn read_fd(&self) -> (r: Option<i32>)
        ensures
            r == end(self@, 0),
    {
        proof {
            use_type_invariant(self);
        }
        if self.result < 0 {
            return None;
        }
        let pair: Vec<i32> = decode_all(&self.dest, 0, 2);
        Some(pair[0])
    }

    /// The write end, if the pipe was created.
    pub fn write_fd(&self) -> (r: Option<i32>)
        ensures
            r == end(self@, 1),
    {
        proof {
            use_type_invariant(self);
        }
        if self.result < 0 {
            return None;
        }
        let pair: Vec<i32> = decode_all(&self.dest, 0, 2);
        Some(pair[1])
    }

    /// Borrow the storage.
    pub fn dest(&self) -> (r: &D)
        ensures
            *r == self@.request,
    {
        &self.dest
    }

    /// Take the storage back for reuse.
    pub fn into_dest(self) -> (r: D)
        ensures
            r == self@.request,
    {
        self.dest
    }
}

/// The destination has 8 bytes at an address that is a multiple of 4, and the
/// kernel leaves the end to read from in the first four of them and the end to
/// write to in the others, unless it failed.
pub proof fn ends_lie_side_by_side<D: StableBuffer>(created: Done<D>)
    requires
        holds_descriptors(created.request),
    ensures
        8 <= created.request.bytes().len(),
        created.request.addr() % 4 == 0,
        end(created, 0) is Some <==> created.result >= 0,
        end(created, 1) is Some <==> created.result >= 0,
        end(created, 0) matches Some(fd) ==> unsigned_of(fd) == le_value(
            created.request.bytes().subrange(0, 4),
        ),
        end(created, 1) matches Some(fd) ==> unsigned_of(fd) == le_value(
            created.request.bytes().subrange(4, 8),
        ),
{
    let bytes = created.request.bytes();
    crate::bytes::span_values();
    crate::bytes::le_value_is_bounded(bytes.subrange(0, 4));
    crate::bytes::le_value_is_bounded(bytes.subrange(4, 8));
    assert(element::<i32>(bytes, 0, 0) =~= bytes.subrange(0, 4));
    assert(element::<i32>(bytes, 0, 1) =~= bytes.subrange(4, 8));
}

/// A destination is good exactly where it has room and is aligned.
pub proof fn destinations_have_room<D: StableBuffer>(dest: D)
    ensures
        holds_descriptors(dest) <==> 8 <= dest.bytes().len() && dest.addr() % 4 == 0,
{
}

} // verus!
