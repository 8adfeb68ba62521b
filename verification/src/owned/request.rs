//! Reads and writes that own their buffer, and the receipts that end them.
//!
//! | State | Owns the buffer | Buffer reachable |
//! |---|---|---|
//! | [`Prepared`] | yes | yes: fill it before submitting |
//! | [`Pending`] | yes | no: the kernel may be using it |
//! | [`Completed`] | yes | yes: the kernel is done |
//!
//! Dropping or forgetting a [`Pending`] does not free its buffer. The kernel
//! may still write to those bytes, so the storage leaks on purpose.

use super::buffer::{kept_from, StableBuffer, StableBufferMut};
use super::identity::{RequestId, RingId};
use super::lifecycle::{Done, Ticket};
use crate::error::Error;
use crate::op::{blank, IoUringSqe, Sqe};
use crate::ring::Completion;
use crate::types::fd::RawFd;
use crate::types::flags::CqeFlags;
use core::mem::ManuallyDrop;
use vstd::prelude::*;

verus! {

/// A terminal completion: what releases the resources of a ticket.
///
/// Anyone can build a completion, but only an
/// [`OwnedCompleter`](super::queue::OwnedCompleter) makes receipts, one for
/// each terminal completion that it takes from its queue.
#[derive(Debug, PartialEq, Eq, Structural)]
pub struct Receipt {
    ring: RingId,
    id: RequestId,
    result: i32,
    flags: CqeFlags,
}

impl Receipt {
    /// No completion is to follow.
    #[verifier::type_invariant]
    pub closed spec fn wf(self) -> bool {
        !self.flags.contains(CqeFlags::more())
    }

    /// Which request this ends.
    pub closed spec fn spec_id(&self) -> RequestId {
        self.id
    }

    /// Which ring produced it.
    pub closed spec fn spec_ring(&self) -> RingId {
        self.ring
    }

    /// The raw result.
    pub closed spec fn spec_raw_result(&self) -> i32 {
        self.result
    }

    /// The flags the kernel set.
    pub closed spec fn spec_flags(&self) -> CqeFlags {
        self.flags
    }

    /// Whether this says what `cqe` says, of the ring `ring`.
    pub open spec fn reports(&self, ring: RingId, cqe: Completion) -> bool {
        &&& self.ring() == ring
        &&& self.id() == RequestId(cqe.user_data)
        &&& self.raw_result() == cqe.result
        &&& self.flags() == cqe.flags
    }

    /// The receipt of a terminal completion.
    pub(crate) fn of(ring: RingId, cqe: Completion) -> (r: Receipt)
        requires
            !cqe.flags.contains(CqeFlags::more()),
        ensures
            r.reports(ring, cqe),
    {
        Receipt {
            ring,
            id: RequestId::from_raw(cqe.user_data),
            result: cqe.result,
            flags: cqe.flags,
        }
    }

    /// Which request this ends.
    #[verifier::when_used_as_spec(spec_id)]
    pub fn id(&self) -> (r: RequestId)
        ensures
            r == self.spec_id(),
    {
        self.id
    }

    /// Which ring produced it.
    #[verifier::when_used_as_spec(spec_ring)]
    pub fn ring(&self) -> (r: RingId)
        ensures
            r == self.spec_ring(),
    {
        self.ring
    }

    /// The raw result.
    #[verifier::when_used_as_spec(spec_raw_result)]
    pub fn raw_result(&self) -> (r: i32)
        ensures
            r == self.spec_raw_result(),
    {
        self.result
    }

    /// The flags the kernel set. `MORE` is not among them.
    #[verifier::when_used_as_spec(spec_flags)]
    pub fn flags(&self) -> (r: CqeFlags)
        ensures
            r == self.spec_flags(),
            !r.contains(CqeFlags::more()),
    {
        proof {
            use_type_invariant(self);
        }
        self.flags
    }

    /// Whether this ends the request `id` of the ring `ring`.
    #[verifier::allow_in_spec]
    pub fn belongs_to(&self, ring: RingId, id: RequestId) -> bool
        returns
            self.ring() == ring && self.id() == id,
    {
        self.ring.raw() == ring.raw() && self.id.raw() == id.raw()
    }
}

/// A receipt ends one request only: whatever it belongs to is the same ring
/// and the same request.
pub proof fn receipts_end_one_request(
    receipt: Receipt,
    ring: RingId,
    id: RequestId,
    other_ring: RingId,
    other_id: RequestId,
)
    requires
        receipt.belongs_to(ring, id),
        receipt.belongs_to(other_ring, other_id),
    ensures
        ring == other_ring,
        id == other_id,
{
}

/// Which way the bytes go.
#[derive(Clone, Copy, Debug, PartialEq, Eq, Structural)]
pub enum Direction {
    /// From the file into the buffer.
    Read,
    /// From the buffer into the file.
    Write,
}

/// A read or a write: what is asked for.
pub struct Transfer<B> {
    /// The file.
    pub fd: RawFd,
    /// Which way the bytes go.
    pub direction: Direction,
    /// The memory.
    pub buffer: B,
    /// The most bytes to transfer.
    pub limit: u32,
    /// Where in the file to start.
    pub offset: u64,
}

impl<B: StableBuffer> Transfer<B> {
    /// How many bytes the kernel is told to transfer.
    pub open spec fn len(self) -> u32 {
        if self.buffer.bytes().len() <= self.limit {
            self.buffer.bytes().len() as u32
        } else {
            self.limit
        }
    }

    /// The submission that asks for it.
    pub open spec fn sqe(self) -> Sqe {
        match self.direction {
            Direction::Read => Sqe::read_ptr(
                self.fd,
                self.buffer.addr() as u64,
                self.len(),
                self.offset,
            ),
            Direction::Write => Sqe::write_ptr(
                self.fd,
                self.buffer.addr() as u64,
                self.len(),
                self.offset,
            ),
        }
    }

    /// The entry reads, operation 22, or writes, operation 23, as the direction
    /// says, the file from the offset on. The length is the buffer's or the limit,
    /// whichever is less.
    pub proof fn goes_its_direction(self)
        ensures
            self.direction is Read ==> self.sqe().0 == (IoUringSqe {
                opcode: 22,
                fd: self.fd.as_i32(),
                off: self.offset,
                addr: self.buffer.addr() as u64,
                len: self.len(),
                ..blank()
            }),
            self.direction is Write ==> self.sqe().0 == (IoUringSqe {
                opcode: 23,
                fd: self.fd.as_i32(),
                off: self.offset,
                addr: self.buffer.addr() as u64,
                len: self.len(),
                ..blank()
            }),
            self.len() <= self.limit && self.len() <= self.buffer.bytes().len(),
            self.len() == self.limit || self.len() == self.buffer.bytes().len(),
    {
    }

    /// The kernel is never told to touch more than the buffer holds.
    pub proof fn stays_inside_the_buffer(self)
        ensures
            self.sqe().0.len <= self.buffer.bytes().len(),
            self.sqe().0.addr == self.buffer.addr(),
    {
    }
}

/// A read or write that owns its buffer but is not queued yet.
pub struct Prepared<B> {
    fd: RawFd,
    direction: Direction,
    buffer: B,
    limit: u32,
    offset: u64,
}

impl<B> View for Prepared<B> {
    type V = Transfer<B>;

    closed spec fn view(&self) -> Transfer<B> {
        Transfer {
            fd: self.fd,
            direction: self.direction,
            buffer: self.buffer,
            limit: self.limit,
            offset: self.offset,
        }
    }
}

impl<B: StableBufferMut> Prepared<B> {
    /// Read from `fd` at `offset` into the whole of `buffer`.
    pub fn read(fd: RawFd, buffer: B, offset: u64) -> (r: Self)
        ensures
            r@ == (Transfer { fd, direction: Direction::Read, buffer, limit: u32::MAX, offset }),
    {
        Prepared { fd, direction: Direction::Read, buffer, limit: u32::MAX, offset }
    }
}

impl<B: StableBuffer> Prepared<B> {
    /// Write the whole of `buffer` to `fd` at `offset`.
    pub fn write(fd: RawFd, buffer: B, offset: u64) -> (r: Self)
        ensures
            r@ == (Transfer { fd, direction: Direction::Write, buffer, limit: u32::MAX, offset }),
    {
        Prepared { fd, direction: Direction::Write, buffer, limit: u32::MAX, offset }
    }

    /// Transfer no more than `len` bytes.
    pub fn with_len(self, len: u32) -> (r: Self)
        ensures
            r@ == (Transfer { limit: len, ..self@ }),
    {
        Prepared {
            fd: self.fd,
            direction: self.direction,
            buffer: self.buffer,
            limit: len,
            offset: self.offset,
        }
    }

    /// Borrow the buffer.
    pub fn buffer(&self) -> (b: &B)
        ensures
            *b == self@.buffer,
    {
        &self.buffer
    }

    /// Borrow the buffer for filling it.
    pub fn buffer_mut(&mut self) -> (b: &mut B)
        ensures
            *b == old(self)@.buffer,
            final(self)@ == (Transfer { buffer: *final(b), ..old(self)@ }),
    {
        &mut self.buffer
    }

    /// Give the buffer back, abandoning the request.
    pub fn into_buffer(self) -> (b: B)
        ensures
            b == self@.buffer,
    {
        self.buffer
    }

    /// Build the submission and move to the pending state.
    pub fn into_pending(self, ring: RingId, id: RequestId) -> (r: (Sqe, Pending<B>))
        ensures
            r.0 == self@.sqe().user_data(id.raw()),
            r.1@ == (Ticket { ring, id, request: self@ }),
    {
        let held: usize = self.buffer.stable_len();
        let len: u32 = if held <= self.limit as usize {
            held as u32
        } else {
            self.limit
        };
        let addr: u64 = self.buffer.stable_ptr() as u64;
        let sqe = match self.direction {
            Direction::Read => Sqe::read_ptr(self.fd, addr, len, self.offset),
            Direction::Write => Sqe::write_ptr(self.fd, addr, len, self.offset),
        };
        let pending = Pending {
            fd: self.fd,
            direction: self.direction,
            buffer: ManuallyDrop::new(self.buffer),
            limit: self.limit,
            offset: self.offset,
            ring,
            id,
        };
        (sqe.user_data(id.raw()), pending)
    }
}

/// A submitted read or write whose buffer the kernel may be using.
///
/// Dropping it runs no destructor for the buffer: it leaks rather than being
/// freed underneath the kernel.
#[must_use]
pub struct Pending<B> {
    fd: RawFd,
    direction: Direction,
    buffer: ManuallyDrop<B>,
    limit: u32,
    offset: u64,
    ring: RingId,
    id: RequestId,
}

impl<B> View for Pending<B> {
    type V = Ticket<Transfer<B>>;

    closed spec fn view(&self) -> Ticket<Transfer<B>> {
        Ticket {
            ring: self.ring,
            id: self.id,
            request: Transfer {
                fd: self.fd,
                direction: self.direction,
                buffer: self.buffer@,
                limit: self.limit,
                offset: self.offset,
            },
        }
    }
}

impl<B: StableBuffer> Pending<B> {
    /// Identity the kernel echoes back in this request's completion.
    pub fn id(&self) -> (r: RequestId)
        ensures
            r == self@.id,
    {
        self.id
    }

    /// Identity of the queue that accepted this request.
    pub fn ring(&self) -> (r: RingId)
        ensures
            r == self@.ring,
    {
        self.ring
    }

    /// Whether `receipt` ends this very request.
    pub fn matches(&self, receipt: &Receipt) -> (r: bool)
        ensures
            r == receipt.belongs_to(self@.ring, self@.id),
    {
        receipt.belongs_to(self.ring, self.id)
    }

    /// Take the buffer back without a receipt, undoing a failed push.
    ///
    /// Only for a submission that the kernel has never seen.
    pub fn reclaim_unsubmitted(self) -> (r: Prepared<B>)
        ensures
            r@ == self@.request,
    {
        Prepared {
            fd: self.fd,
            direction: self.direction,
            buffer: ManuallyDrop::into_inner(self.buffer),
            limit: self.limit,
            offset: self.offset,
        }
    }

    /// Trade a matching receipt for the result and the buffer.
    ///
    /// A write leaves the bytes as they were. A read has had the kernel
    /// write to those it was told to fill, and to none behind them.
    ///
    /// # Errors
    ///
    /// Returns the ticket and receipt unchanged if the receipt belongs to
    /// another request or another ring.
    pub fn redeem(self, receipt: Receipt) -> (r: Result<Completed<B>, (Self, Receipt)>)
        ensures
            match r {
                Err((ticket, back)) => {
                    &&& !receipt.belongs_to(self@.ring, self@.id)
                    &&& ticket@ == self@
                    &&& back == receipt
                },
                Ok(done) => {
                    &&& receipt.belongs_to(self@.ring, self@.id)
                    &&& done@.id == self@.id
                    &&& done@.result == receipt.raw_result()
                    &&& done@.request == (Transfer {
                        buffer: done@.request.buffer,
                        ..self@.request
                    })
                    &&& kept_from(
                        done@.request.buffer,
                        self@.request.buffer,
                        self@.request.len() as int,
                    )
                    &&& self@.request.direction is Write ==> done@.request.buffer
                        == self@.request.buffer
                },
            },
    {
        if !self.matches(&receipt) {
            return Err((self, receipt));
        }
        Ok(
            Completed {
                fd: self.fd,
                direction: self.direction,
                buffer: ManuallyDrop::into_inner(self.buffer),
                limit: self.limit,
                offset: self.offset,
                id: self.id,
                result: receipt.raw_result(),
            },
        )
    }
}

/// A finished read or write: its result, and the buffer back.
pub struct Completed<B> {
    fd: RawFd,
    direction: Direction,
    buffer: B,
    limit: u32,
    offset: u64,
    id: RequestId,
    result: i32,
}

impl<B> View for Completed<B> {
    type V = Done<Transfer<B>>;

    closed spec fn view(&self) -> Done<Transfer<B>> {
        Done {
            id: self.id,
            result: self.result,
            request: Transfer {
                fd: self.fd,
                direction: self.direction,
                buffer: self.buffer,
                limit: self.limit,
                offset: self.offset,
            },
        }
    }
}

impl<B> Completed<B> {
    /// Identity of the request this completes.
    pub fn id(&self) -> (r: RequestId)
        ensures
            r == self@.id,
    {
        self.id
    }

    /// Which way the bytes went.
    pub fn direction(&self) -> (r: Direction)
        ensures
            r == self@.request.direction,
    {
        self.direction
    }

    /// The raw result: a byte count, or a negated error number.
    pub fn raw_result(&self) -> (r: i32)
        ensures
            r == self@.result,
    {
        self.result
    }

    /// How many bytes were transferred, or why none were.
    pub fn result(&self) -> (r: Result<u32, Error>)
        ensures
            r == Error::count_of(self@.result),
    {
        Error::count_of(self.result)
    }

    /// Borrow the buffer.
    pub fn buffer(&self) -> (b: &B)
        ensures
            *b == self@.request.buffer,
    {
        &self.buffer
    }

    /// Take the result and the buffer.
    pub fn into_parts(self) -> (r: (Result<u32, Error>, B))
        ensures
            r.0 == Error::count_of(self@.result),
            r.1 == self@.request.buffer,
    {
        (Error::count_of(self.result), self.buffer)
    }
}

} // verus!
