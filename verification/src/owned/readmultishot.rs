//! Multishot read, the file-side twin of [`multishot`](super::multishot).
//!
//! Only what is armed differs: a pollable file and an offset. Deliveries,
//! loans and endings are the same.

use super::event::Event;
use super::identity::{RequestId, RingId};
use super::lifecycle::Ticket;
use super::multishot::{carried, Delivery};
use crate::op::file::multishot_reads_name_a_pool;
use crate::op::{blank, IoUringSqe, Sqe};
use crate::pool::BufferConsumer;
use crate::types::fd::RawFd;
use vstd::prelude::*;

verus! {

/// A multishot read: what is asked for.
pub struct ReadMultishotRequest {
    /// The file.
    pub fd: RawFd,
    /// Where in the file to read.
    pub offset: u64,
    /// The pool arrivals draw from.
    pub bgid: u16,
}

impl ReadMultishotRequest {
    /// The submission that asks for it.
    pub open spec fn sqe(self) -> Sqe {
        Sqe::read_multishot(self.fd, self.offset, self.bgid)
    }

    /// The entry goes on reading, operation 49, from the place in the file, and
    /// takes memory from the pool, flag 32.
    pub proof fn keeps_reading_from_its_pool(self)
        ensures
            self.sqe().0 == (IoUringSqe {
                opcode: 49,
                flags: 32,
                fd: self.fd.as_i32(),
                off: self.offset,
                buf_index: self.bgid,
                ..blank()
            }),
    {
        multishot_reads_name_a_pool(self.fd, self.offset, self.bgid);
    }
}

/// A multishot read that is not queued yet. It carries no buffer.
#[derive(Clone, Copy, Debug)]
pub struct PreparedReadMultishot {
    fd: RawFd,
    offset: u64,
    bgid: u16,
}

impl View for PreparedReadMultishot {
    type V = ReadMultishotRequest;

    closed spec fn view(&self) -> ReadMultishotRequest {
        ReadMultishotRequest { fd: self.fd, offset: self.offset, bgid: self.bgid }
    }
}

impl PreparedReadMultishot {
    /// Read from `fd` at `offset` into buffers of the pool `bgid`.
    ///
    /// The file has to be pollable; the kernel refuses a regular one.
    pub fn on(fd: RawFd, offset: u64, bgid: u16) -> (r: Self)
        ensures
            r@ == (ReadMultishotRequest { fd, offset, bgid }),
    {
        PreparedReadMultishot { fd, offset, bgid }
    }

    /// The file.
    pub fn fd(&self) -> (r: RawFd)
        ensures
            r == self@.fd,
    {
        self.fd
    }

    /// Where in the file to read.
    pub fn offset(&self) -> (r: u64)
        ensures
            r == self@.offset,
    {
        self.offset
    }

    /// The pool arrivals draw from.
    pub fn bgid(&self) -> (r: u16)
        ensures
            r == self@.bgid,
    {
        self.bgid
    }

    /// Build the submission and move to the armed state.
    pub fn into_pending(self, ring: RingId, id: RequestId) -> (r: (Sqe, MultishotRead))
        ensures
            r.0 == self@.sqe().user_data(id.raw()),
            r.1@ == (Ticket { ring, id, request: (self@.bgid, self@.fd) }),
    {
        let sqe = Sqe::read_multishot(self.fd, self.offset, self.bgid);
        (sqe.user_data(id.raw()), MultishotRead { ring, id, bgid: self.bgid, fd: self.fd })
    }
}

/// A submitted multishot read.
///
/// It owns nothing, but the request outlives it: dropped while armed, it
/// leaves arrivals draining the pool with nobody to read them.
#[derive(Debug)]
pub struct MultishotRead {
    ring: RingId,
    id: RequestId,
    bgid: u16,
    fd: RawFd,
}

impl View for MultishotRead {
    type V = Ticket<(u16, RawFd)>;

    closed spec fn view(&self) -> Ticket<(u16, RawFd)> {
        Ticket { ring: self.ring, id: self.id, request: (self.bgid, self.fd) }
    }
}

impl MultishotRead {
    /// Identity the kernel echoes back in every completion of this request.
    pub fn id(&self) -> (r: RequestId)
        ensures
            r == self@.id,
    {
        self.id
    }

    /// Identity of the queue that accepted this request.
    pub fn ring(&self) -> (r: RingId)
        ensures
            r == self@.ring,
    {
        self.ring
    }

    /// Whether a completion belongs to this request.
    pub fn matches(&self, event: &Event) -> (r: bool)
        ensures
            r == event.belongs_to(self@.ring, self@.id),
    {
        event.belongs_to(self.ring, self.id)
    }

    /// The pool arrivals draw from.
    pub fn bgid(&self) -> (r: u16)
        ensures
            r == self@.request.0,
    {
        self.bgid
    }

    /// The file.
    pub fn fd(&self) -> (r: RawFd)
        ensures
            r == self@.request.1,
    {
        self.fd
    }

    /// Interpret a completion of this request.
    ///
    /// # Errors
    ///
    /// Returns the event unchanged, and leaves the pool alone, if it belongs
    /// to another request or another ring.
    pub fn record<'pool>(&self, event: Event, pool: &'pool mut BufferConsumer) -> (r: Result<
        Delivery<'pool>,
        Event,
    >)
        ensures
            match r {
                Err(back) => {
                    &&& !event.belongs_to(self@.ring, self@.id)
                    &&& back == event
                    &&& *final(pool) == *old(pool)
                },
                Ok(delivery) => {
                    &&& event.belongs_to(self@.ring, self@.id)
                    &&& carried(event, delivery)
                    &&& match delivery {
                        Delivery::Data(arrival) => {
                            &&& arrival.is_on_loan()
                            &&& arrival.lender()@ == old(pool)@
                            &&& *final(arrival.lender()) == *final(pool)
                        },
                        _ => *final(pool) == *old(pool),
                    }
                },
            },
    {
        if !self.matches(&event) {
            return Err(event);
        }
        Ok(Delivery::from_event(event, pool))
    }
}

} // verus!
