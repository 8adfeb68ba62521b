//! Zero-copy sends, which hold their buffer past the first completion.
//!
//! A send reports how much was accepted while the network card may still be
//! reading the pages; a later notification says that it is done with them.
//! The first completion carries the `MORE` flag and is only a
//! [`PartialReceipt`], so it is recorded and releases nothing. If the kernel
//! copied the bytes instead, it promises no notification, and the first
//! completion is the last one.

use super::buffer::StableBuffer;
use super::event::PartialReceipt;
use super::identity::{RequestId, RingId};
use super::lifecycle::{Done, Ticket};
use super::request::Receipt;
use crate::error::Error;
use crate::op::{blank, IoUringSqe, Sqe};
use crate::types::fd::RawFd;
use crate::types::flags::MsgFlags;
use core::mem::ManuallyDrop;
use vstd::prelude::*;

verus! {

/// A zero-copy send: what is asked for.
pub struct ZcRequest<B> {
    /// The socket.
    pub fd: RawFd,
    /// What to send.
    pub buffer: B,
    /// How to send it.
    pub flags: MsgFlags,
}

impl<B: StableBuffer> ZcRequest<B> {
    /// How many bytes the kernel is told to send.
    pub open spec fn len(self) -> u32 {
        if self.buffer.bytes().len() <= u32::MAX {
            self.buffer.bytes().len() as u32
        } else {
            u32::MAX
        }
    }

    /// The submission that asks for it.
    pub open spec fn sqe(self) -> Sqe {
        Sqe::send_zc_ptr(self.fd, self.buffer.addr() as u64, self.len(), self.flags)
    }

    /// The entry sends without copying, operation 47, from the buffer: all of it, or
    /// as much as the kernel can be told.
    pub proof fn sends_its_buffer(self)
        ensures
            self.sqe().0 == (IoUringSqe {
                opcode: 47,
                fd: self.fd.as_i32(),
                addr: self.buffer.addr() as u64,
                len: self.len(),
                op_flags: self.flags.0,
                ..blank()
            }),
            self.len() <= 0xffff_ffff && self.len() <= self.buffer.bytes().len(),
            self.len() == 0xffff_ffff || self.len() == self.buffer.bytes().len(),
    {
    }

    /// The kernel is never told to read more than the buffer holds.
    pub proof fn stays_inside_the_buffer(self)
        ensures
            self.sqe().0.len <= self.buffer.bytes().len(),
            self.sqe().0.addr == self.buffer.addr(),
    {
    }
}

/// The result that counts: what the send reported, or, without a separate
/// report, what the last completion says.
pub open spec fn effective(sent: Option<i32>, last: i32) -> i32 {
    match sent {
        Some(n) => n,
        None => last,
    }
}

/// A zero-copy send that owns its buffer but is not queued yet.
pub struct PreparedZc<B> {
    fd: RawFd,
    buffer: B,
    flags: MsgFlags,
}

impl<B> View for PreparedZc<B> {
    type V = ZcRequest<B>;

    closed spec fn view(&self) -> ZcRequest<B> {
        ZcRequest { fd: self.fd, buffer: self.buffer, flags: self.flags }
    }
}

impl<B: StableBuffer> PreparedZc<B> {
    /// Send the whole of `buffer` on `fd`.
    pub fn send(fd: RawFd, buffer: B, flags: MsgFlags) -> (r: Self)
        ensures
            r@ == (ZcRequest { fd, buffer, flags }),
    {
        PreparedZc { fd, buffer, flags }
    }

    /// Borrow the buffer.
    pub fn buffer(&self) -> (b: &B)
        ensures
            *b == self@.buffer,
    {
        &self.buffer
    }

    /// Borrow the buffer for filling it.
    pub fn buffer_mut(&mut self) -> (b: &mut B)
        ensures
            *b == old(self)@.buffer,
            final(self)@ == (ZcRequest { buffer: *final(b), ..old(self)@ }),
    {
        &mut self.buffer
    }

    /// Give the buffer back, abandoning the request.
    pub fn into_buffer(self) -> (b: B)
        ensures
            b == self@.buffer,
    {
        self.buffer
    }

    /// Build the submission and move to the pending state.
    pub fn into_pending(self, ring: RingId, id: RequestId) -> (r: (Sqe, PendingZc<B>))
        ensures
            r.0 == self@.sqe().user_data(id.raw()),
            r.1@ == (Ticket { ring, id, request: self@ }),
            r.1.sent() is None,
    {
        let held: usize = self.buffer.stable_len();
        let len: u32 = if held <= u32::MAX as usize {
            held as u32
        } else {
            u32::MAX
        };
        let sqe = Sqe::send_zc_ptr(self.fd, self.buffer.stable_ptr() as u64, len, self.flags);
        let pending = PendingZc {
            fd: self.fd,
            buffer: ManuallyDrop::new(self.buffer),
            flags: self.flags,
            sent: None,
            ring,
            id,
        };
        (sqe.user_data(id.raw()), pending)
    }
}

/// A submitted zero-copy send whose pages may still be read.
///
/// Dropping it runs no destructor for the storage: it leaks rather than
/// being freed underneath the kernel.
#[must_use]
pub struct PendingZc<B> {
    fd: RawFd,
    buffer: ManuallyDrop<B>,
    flags: MsgFlags,
    sent: Option<i32>,
    ring: RingId,
    id: RequestId,
}

impl<B> View for PendingZc<B> {
    type V = Ticket<ZcRequest<B>>;

    closed spec fn view(&self) -> Ticket<ZcRequest<B>> {
        Ticket {
            ring: self.ring,
            id: self.id,
            request: ZcRequest { fd: self.fd, buffer: self.buffer@, flags: self.flags },
        }
    }
}

impl<B: StableBuffer> PendingZc<B> {
    /// What the send itself reported so far.
    pub closed spec fn sent(self) -> Option<i32> {
        self.sent
    }

    /// Identity the kernel echoes back in this request's completion.
    pub fn id(&self) -> (r: RequestId)
        ensures
            r == self@.id,
    {
        self.id
    }

    /// Identity of the queue that accepted this request.
    pub fn ring(&self) -> (r: RingId)
        ensures
            r == self@.ring,
    {
        self.ring
    }

    /// Whether `receipt` ends this very request.
    pub fn matches(&self, receipt: &Receipt) -> (r: bool)
        ensures
            r == receipt.belongs_to(self@.ring, self@.id),
    {
        receipt.belongs_to(self.ring, self.id)
    }

    /// The raw result the send reported, if it has.
    pub fn send_result(&self) -> (r: Option<i32>)
        ensures
            r == self.sent(),
    {
        self.sent
    }

    /// Note what the send reported. This releases nothing.
    ///
    /// # Errors
    ///
    /// Returns ticket and notice unchanged if the notice belongs to another
    /// request or another ring.
    pub fn record_sent(self, notice: PartialReceipt) -> (r: Result<Self, (Self, PartialReceipt)>)
        ensures
            match r {
                Err((ticket, back)) => {
                    &&& !notice.belongs_to(self@.ring, self@.id)
                    &&& ticket@ == self@
                    &&& ticket.sent() == self.sent()
                    &&& back == notice
                },
                Ok(ticket) => {
                    &&& notice.belongs_to(self@.ring, self@.id)
                    &&& ticket@ == self@
                    &&& ticket.sent() == Some(notice.raw_result())
                },
            },
    {
        if !notice.belongs_to(self.ring, self.id) {
            return Err((self, notice));
        }
        Ok(
            PendingZc {
                fd: self.fd,
                buffer: self.buffer,
                flags: self.flags,
                sent: Some(notice.raw_result()),
                ring: self.ring,
                id: self.id,
            },
        )
    }

    /// Take the buffer back without a receipt, undoing a failed push.
    ///
    /// Only for a submission that the kernel has never seen.
    pub fn reclaim_unsubmitted(self) -> (r: PreparedZc<B>)
        ensures
            r@ == self@.request,
    {
        PreparedZc {
            fd: self.fd,
            buffer: ManuallyDrop::into_inner(self.buffer),
            flags: self.flags,
        }
    }

    /// Trade the last completion for the result and the buffer.
    ///
    /// The kernel only reads the buffer, so it comes back as it was.
    ///
    /// # Errors
    ///
    /// Returns the ticket and receipt unchanged if the receipt belongs to
    /// another request or another ring.
    pub fn redeem(self, receipt: Receipt) -> (r: Result<ZcCompleted<B>, (Self, Receipt)>)
        ensures
            match r {
                Err((ticket, back)) => {
                    &&& !receipt.belongs_to(self@.ring, self@.id)
                    &&& ticket@ == self@
                    &&& ticket.sent() == self.sent()
                    &&& back == receipt
                },
                Ok(done) => {
                    &&& receipt.belongs_to(self@.ring, self@.id)
                    &&& done@ == (Done {
                        id: self@.id,
                        result: receipt.raw_result(),
                        request: self@.request,
                    })
                    &&& done.sent() == self.sent()
                },
            },
    {
        if !self.matches(&receipt) {
            return Err((self, receipt));
        }
        Ok(
            ZcCompleted {
                fd: self.fd,
                buffer: ManuallyDrop::into_inner(self.buffer),
                flags: self.flags,
                sent: self.sent,
                id: self.id,
                result: receipt.raw_result(),
            },
        )
    }
}

/// A finished zero-copy send: its result, and the buffer back.
pub struct ZcCompleted<B> {
    fd: RawFd,
    buffer: B,
    flags: MsgFlags,
    sent: Option<i32>,
    id: RequestId,
    result: i32,
}

impl<B> View for ZcCompleted<B> {
    type V = Done<ZcRequest<B>>;

    closed spec fn view(&self) -> Done<ZcRequest<B>> {
        Done {
            id: self.id,
            result: self.result,
            request: ZcRequest { fd: self.fd, buffer: self.buffer, flags: self.flags },
        }
    }
}

impl<B> ZcCompleted<B> {
    /// What the send reported before the last completion.
    pub closed spec fn sent(self) -> Option<i32> {
        self.sent
    }

    /// Identity of the request this completes.
    pub fn id(&self) -> (r: RequestId)
        ensures
            r == self@.id,
    {
        self.id
    }

    /// The raw result the send reported separately, if it did.
    pub fn raw_send_result(&self) -> (r: Option<i32>)
        ensures
            r == self.sent(),
    {
        self.sent
    }

    /// How many bytes were accepted, or why none were.
    ///
    /// A notification carries no count, so a separate report wins.
    pub fn result(&self) -> (r: Result<u32, Error>)
        ensures
            r == Error::count_of(effective(self.sent(), self@.result)),
    {
        match self.sent {
            Some(n) => Error::count_of(n),
            None => Error::count_of(self.result),
        }
    }

    /// Borrow the buffer.
    pub fn buffer(&self) -> (b: &B)
        ensures
            *b == self@.request.buffer,
    {
        &self.buffer
    }

    /// Take the result and the buffer.
    pub fn into_parts(self) -> (r: (Result<u32, Error>, B))
        ensures
            r.0 == Error::count_of(effective(self.sent(), self@.result)),
            r.1 == self@.request.buffer,
    {
        let result = self.result();
        (result, self.buffer)
    }
}

/// A result that was reported before counts, whatever the last completion
/// says.
pub proof fn earlier_reports_count(sent: i32, last: i32)
    ensures
        effective(Some(sent), last) == sent,
        effective(None, last) == last,
{
}

} // verus!
