//! Multishot receive, which borrows pool buffers instead of owning one.
//!
//! One submission stays armed across many arrivals, and the kernel picks a
//! buffer of a pool for each. What there is to manage is the loan of a
//! buffer that has to be given back exactly once: [`Arrival`] is that loan,
//! and ends when it is dropped.
//!
//! A completion without the `MORE` flag ends the request. That is not a
//! failure; receiving again takes a new request.

use super::event::Event;
use super::identity::{RequestId, RingId};
use super::lifecycle::Ticket;
use super::request::Receipt;
use crate::error::Error;
use crate::op::{blank, IoUringSqe, Sqe};
use crate::pool::{BufferConsumer, Pool};
use crate::ring::Completion;
use crate::types::fd::RawFd;
use crate::types::flags::MsgFlags;
use vstd::prelude::*;

verus! {

/// A multishot receive: what is asked for.
pub struct MultishotRequest {
    /// The socket.
    pub fd: RawFd,
    /// The pool arrivals draw from.
    pub bgid: u16,
    /// How to receive.
    pub flags: MsgFlags,
}

impl MultishotRequest {
    /// The submission that asks for it.
    pub open spec fn sqe(self) -> Sqe {
        Sqe::recv_multishot(self.fd, self.flags).buffer_select(self.bgid)
    }

    /// The entry receives, operation 27, with the flags, goes on receiving, option
    /// 2, and takes memory from the pool, flag 32.
    pub proof fn keeps_receiving_from_its_pool(self)
        ensures
            self.sqe().0 == (IoUringSqe {
                opcode: 27,
                flags: 32,
                ioprio: 2,
                fd: self.fd.as_i32(),
                op_flags: self.flags.0,
                buf_index: self.bgid,
                ..blank()
            }),
    {
        assert(0u8 | 32u8 == 32u8) by (bit_vector);
    }
}

/// A multishot receive that is not queued yet. It carries no buffer.
#[derive(Clone, Copy, Debug)]
pub struct PreparedMultishot {
    fd: RawFd,
    bgid: u16,
    flags: MsgFlags,
}

impl View for PreparedMultishot {
    type V = MultishotRequest;

    closed spec fn view(&self) -> MultishotRequest {
        MultishotRequest { fd: self.fd, bgid: self.bgid, flags: self.flags }
    }
}

impl PreparedMultishot {
    /// Receive on `fd` into buffers of the pool `bgid`.
    pub fn recv(fd: RawFd, bgid: u16, flags: MsgFlags) -> (r: Self)
        ensures
            r@ == (MultishotRequest { fd, bgid, flags }),
    {
        PreparedMultishot { fd, bgid, flags }
    }

    /// The socket.
    pub fn fd(&self) -> (r: RawFd)
        ensures
            r == self@.fd,
    {
        self.fd
    }

    /// The pool arrivals draw from.
    pub fn bgid(&self) -> (r: u16)
        ensures
            r == self@.bgid,
    {
        self.bgid
    }

    /// How to receive.
    pub fn flags(&self) -> (r: MsgFlags)
        ensures
            r == self@.flags,
    {
        self.flags
    }

    /// Build the submission and move to the armed state.
    pub fn into_pending(self, ring: RingId, id: RequestId) -> (r: (Sqe, MultishotRecv))
        ensures
            r.0 == self@.sqe().user_data(id.raw()),
            r.1@ == (Ticket { ring, id, request: (self@.bgid, self@.fd) }),
    {
        let sqe = Sqe::recv_multishot(self.fd, self.flags).buffer_select(self.bgid);
        (sqe.user_data(id.raw()), MultishotRecv { ring, id, bgid: self.bgid, fd: self.fd })
    }
}

/// Whether a multishot request goes on after a completion.
#[derive(Clone, Copy, Debug, PartialEq, Eq, Structural)]
pub enum Armed {
    /// More completions will follow.
    Yes,
    /// The request is over; going on takes a new one.
    Finished,
}

impl Armed {
    /// Whether more completions will follow.
    #[verifier::allow_in_spec]
    pub fn is_armed(self) -> bool
        returns
            self is Yes,
    {
        matches!(self, Armed::Yes)
    }
}

/// A submitted multishot receive.
///
/// It owns nothing, but the request outlives it: dropped while armed, it
/// leaves arrivals draining the pool with nobody to read them.
pub struct MultishotRecv {
    ring: RingId,
    id: RequestId,
    bgid: u16,
    fd: RawFd,
}

impl View for MultishotRecv {
    type V = Ticket<(u16, RawFd)>;

    closed spec fn view(&self) -> Ticket<(u16, RawFd)> {
        Ticket { ring: self.ring, id: self.id, request: (self.bgid, self.fd) }
    }
}

impl MultishotRecv {
    /// Identity the kernel echoes back in every completion of this request.
    pub fn id(&self) -> (r: RequestId)
        ensures
            r == self@.id,
    {
        self.id
    }

    /// Identity of the queue that accepted this request.
    pub fn ring(&self) -> (r: RingId)
        ensures
            r == self@.ring,
    {
        self.ring
    }

    /// Whether a completion belongs to this request.
    pub fn matches(&self, event: &Event) -> (r: bool)
        ensures
            r == event.belongs_to(self@.ring, self@.id),
    {
        event.belongs_to(self.ring, self.id)
    }

    /// The pool arrivals draw from.
    pub fn bgid(&self) -> (r: u16)
        ensures
            r == self@.request.0,
    {
        self.bgid
    }

    /// The socket.
    pub fn fd(&self) -> (r: RawFd)
        ensures
            r == self@.request.1,
    {
        self.fd
    }

    /// Interpret a completion of this request.
    ///
    /// # Errors
    ///
    /// Returns the event unchanged, and leaves the pool alone, if it belongs
    /// to another request or another ring.
    pub fn record<'pool>(&self, event: Event, pool: &'pool mut BufferConsumer) -> (r: Result<
        Delivery<'pool>,
        Event,
    >)
        ensures
            match r {
                Err(back) => {
                    &&& !event.belongs_to(self@.ring, self@.id)
                    &&& back == event
                    &&& *final(pool) == *old(pool)
                },
                Ok(delivery) => {
                    &&& event.belongs_to(self@.ring, self@.id)
                    &&& carried(event, delivery)
                    &&& match delivery {
                        Delivery::Data(arrival) => {
                            &&& arrival.is_on_loan()
                            &&& arrival.lender()@ == old(pool)@
                            &&& *final(arrival.lender()) == *final(pool)
                        },
                        _ => *final(pool) == *old(pool),
                    }
                },
            },
    {
        if !self.matches(&event) {
            return Err(event);
        }
        Ok(Delivery::from_event(event, pool))
    }
}

/// What one completion of a multishot request delivered.
pub enum Delivery<'pool> {
    /// Bytes arrived in a pool buffer.
    Data(Arrival<'pool>),
    /// No buffer came along; the raw result says why. The request goes on.
    Empty(i32),
    /// The request is over.
    Done(Finished),
}

/// `delivery` is what `event` delivers: a terminal completion ends the
/// request, another one brings a buffer if it names one and its result is a
/// length, and nothing otherwise.
pub open spec fn carried(event: Event, delivery: Delivery) -> bool {
    match event {
        Event::Complete(receipt) => delivery matches Delivery::Done(end) && end.terminal()
            == receipt,
        Event::Partial(partial) => match partial.buffer_id() {
            Some(id) => if partial.raw_result() >= 0 {
                &&& delivery is Data
                &&& delivery->Data_0.buffer_id() == id
                &&& delivery->Data_0.len() == partial.raw_result()
            } else {
                delivery matches Delivery::Empty(raw) && raw == partial.raw_result()
            },
            None => delivery matches Delivery::Empty(raw) && raw == partial.raw_result(),
        },
    }
}

/// A multishot request goes on exactly until its terminal completion.
pub proof fn armed_until_the_terminal_completion(event: Event, delivery: Delivery)
    requires
        carried(event, delivery),
    ensures
        delivery.goes_on() is Yes <==> !event.is_terminal(),
{
}

impl<'pool> Delivery<'pool> {
    /// Whether the request goes on after this.
    pub open spec fn goes_on(self) -> Armed {
        match self {
            Delivery::Done(_) => Armed::Finished,
            _ => Armed::Yes,
        }
    }

    /// Interpret a completion whose buffers come from `pool`.
    pub fn from_event(event: Event, pool: &'pool mut BufferConsumer) -> (r: Self)
        ensures
            carried(event, r),
            match r {
                Delivery::Data(arrival) => {
                    &&& arrival.is_on_loan()
                    &&& arrival.lender()@ == old(pool)@
                    &&& *final(arrival.lender()) == *final(pool)
                },
                _ => *final(pool) == *old(pool),
            },
    {
        match event {
            Event::Complete(receipt) => Delivery::Done(Finished { receipt }),
            Event::Partial(partial) => {
                let raw: i32 = partial.raw_result();
                match partial.buffer_id() {
                    Some(buf_id) => if raw >= 0 {
                        pool.settle();
                        Delivery::Data(Arrival { pool: Some(pool), buf_id, len: raw as u32 })
                    } else {
                        Delivery::Empty(raw)
                    },
                    None => Delivery::Empty(raw),
                }
            },
        }
    }

    /// Whether the request goes on after this.
    pub fn armed(&self) -> (r: Armed)
        ensures
            r == self.goes_on(),
    {
        match self {
            Delivery::Done(_) => Armed::Finished,
            _ => Armed::Yes,
        }
    }

    /// The bytes that arrived, if any did.
    pub fn bytes(&self) -> (r: Option<&[u8]>)
        ensures
            match *self {
                Delivery::Data(arrival) => r matches Some(data) && data@ == arrival.held(),
                _ => r is None,
            },
    {
        match self {
            Delivery::Data(arrival) => Some(arrival.bytes()),
            _ => None,
        }
    }
}

/// One arrival: a pool buffer on loan.
///
/// The pool is borrowed along with it, so there is one loan at a time.
/// Dropping it gives the buffer back, so the only way to lose one is to
/// forget the loan.
pub struct Arrival<'pool> {
    pool: Option<&'pool mut BufferConsumer>,
    buf_id: u16,
    len: u32,
}

impl<'pool> Arrival<'pool> {
    /// The pool is ready to take a buffer back.
    #[verifier::type_invariant]
    pub closed spec fn wf(self) -> bool {
        self.pool matches Some(pool) ==> pool.is_settled()
    }

    /// Whether the buffer is still to be given back.
    pub closed spec fn is_on_loan(&self) -> bool {
        self.pool is Some
    }

    /// The pool that lent the buffer.
    pub closed spec fn lender(&self) -> &'pool mut BufferConsumer {
        self.pool->0
    }

    /// The bytes that arrived, as far as the pool has them.
    pub open spec fn held(&self) -> Seq<u8> {
        if self.is_on_loan() {
            match self.lender().contents(self.buffer_id(), self.len()) {
                Some(held) => held,
                None => Seq::empty(),
            }
        } else {
            Seq::empty()
        }
    }

    /// Which buffer.
    pub closed spec fn spec_buffer_id(&self) -> u16 {
        self.buf_id
    }

    /// How many bytes arrived.
    pub closed spec fn spec_len(&self) -> u32 {
        self.len
    }

    /// The bytes that arrived.
    ///
    /// Empty if the pool has no such buffer, or a shorter one.
    pub fn bytes(&self) -> (r: &[u8])
        ensures
            r@ == self.held(),
    {
        let held: Option<&[u8]> = match &self.pool {
            Some(pool) => pool.buffer(self.buf_id, self.len),
            None => None,
        };
        match held {
            Some(data) => data,
            None => {
                let none: &[u8] = &[];
                assert(none@ =~= Seq::<u8>::empty());
                none
            },
        }
    }

    /// Which buffer.
    #[verifier::when_used_as_spec(spec_buffer_id)]
    pub fn buffer_id(&self) -> (r: u16)
        ensures
            r == self.spec_buffer_id(),
    {
        self.buf_id
    }

    /// How many bytes arrived.
    #[verifier::when_used_as_spec(spec_len)]
    pub fn len(&self) -> (r: u32)
        ensures
            r == self.spec_len(),
    {
        self.len
    }

    /// Whether no bytes arrived, which on a stream means that the peer is
    /// gone.
    pub fn is_empty(&self) -> (r: bool)
        ensures
            r == (self.len() == 0),
    {
        self.len == 0
    }

    /// Give the buffer back to the pool, and let the kernel know at once.
    ///
    /// Dropping does the same at the end of a scope, where a proof does not
    /// see it.
    pub fn recycle(self)
        ensures
            self.is_on_loan() ==> final(self.lender())@ == (Pool {
                available: old(self.lender()).available().push(self.buffer_id()),
                ..old(self.lender())@
            }),
    {
        let mut this = self;
        let mut pool: Option<&'pool mut BufferConsumer> = None;
        core::mem::swap(&mut pool, &mut this.pool);
        if let Some(pool) = pool {
            pool.recycle_and_commit(this.buf_id);
        }
    }
}

impl<'pool> Drop for Arrival<'pool> {
    /// Give the buffer back to the pool.
    fn drop(&mut self)
        ensures
            old(self).is_on_loan() ==> final(old(self).lender())@ == (Pool {
                available: old(self).lender().available().push(old(self).buffer_id()),
                ..old(self).lender()@
            }),
            !final(self).is_on_loan(),
        opens_invariants none
        no_unwind
    {
        proof {
            use_type_invariant(&*self);
        }
        let mut pool: Option<&'pool mut BufferConsumer> = None;
        core::mem::swap(&mut pool, &mut self.pool);
        if let Some(pool) = pool {
            pool.give_back(self.buf_id);
        }
    }
}

/// A multishot request that the kernel has ended.
#[derive(Debug)]
pub struct Finished {
    receipt: Receipt,
}

impl Finished {
    /// The terminal completion.
    pub closed spec fn terminal(self) -> Receipt {
        self.receipt
    }

    /// The raw result of the terminal completion.
    pub fn raw_result(&self) -> (r: i32)
        ensures
            r == self.terminal().raw_result(),
    {
        self.receipt.raw_result()
    }

    /// Why the request ended.
    ///
    /// # Errors
    ///
    /// The error number the terminal completion carried. A pool that ran
    /// dry is the common one.
    pub fn result(&self) -> (r: Result<u32, Error>)
        ensures
            r == Error::count_of(self.terminal().raw_result()),
    {
        Error::count_of(self.receipt.raw_result())
    }

    /// The terminal receipt.
    pub fn into_receipt(self) -> (r: Receipt)
        ensures
            r == self.terminal(),
    {
        self.receipt
    }
}

/// A completion delivers bytes exactly where it is not the last one, names a
/// buffer and reports no error. What it delivers is that buffer, as far as the
/// result says; else the result itself, or the end.
pub proof fn deliveries_follow_the_completion(
    ring: RingId,
    cqe: Completion,
    event: Event,
    delivery: Delivery,
)
    requires
        event.classifies(ring, cqe),
        carried(event, delivery),
    ensures
        delivery is Done <==> cqe.flags.0 & 2u32 != 2u32,
        delivery is Data <==> cqe.flags.0 & 2u32 == 2u32 && cqe.flags.0 & 1u32 == 1u32 && cqe.result
            >= 0,
        delivery matches Delivery::Data(arrival) ==> {
            &&& Some(arrival.buffer_id()) == cqe.flags.buffer_id()
            &&& arrival.len() == cqe.result
        },
        delivery matches Delivery::Empty(raw) ==> raw == cqe.result,
        delivery matches Delivery::Done(end) ==> {
            &&& end.terminal().raw_result() == cqe.result
            &&& end.terminal().id().0 == cqe.user_data
        },
        delivery.goes_on().is_armed() <==> cqe.flags.0 & 2u32 == 2u32,
{
}

impl<'pool> Arrival<'pool> {
    /// An arrival shows the start of its buffer as far as it was filled, and
    /// nothing once the buffer has gone back.
    pub proof fn arrivals_show_their_buffer(&self, i: int)
        ensures
            !self.is_on_loan() ==> self.held().len() == 0,
            self.is_on_loan() && self.lender().wf() && self.buffer_id()
                < self.lender().slots().len() && self.len() <= self.lender().size() ==> {
                &&& self.held().len() == self.len()
                &&& 0 <= i < self.len() ==> self.held()[i]
                    == self.lender().slots()[self.buffer_id() as int][i]
            },
    {
    }
}

} // verus!
