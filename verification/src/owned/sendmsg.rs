//! `sendmsg`, which owns its buffers and everything that leads to them.
//!
//! The kernel follows the header to the descriptors and those to the
//! buffers; a connected socket takes no address, any other one needs it.

use super::buffer::{StableBuffer, StableBufferMut};
use super::identity::{RequestId, RingId};
use super::lifecycle::{Done, Ticket};
use super::message::{region_error, total, Message};
use super::msgregion::{MsgRegionError};
use super::request::Receipt;
use crate::bytes::le_value;
use crate::error::Error;
use crate::op::{blank, IoUringSqe, Sqe};
use crate::types::abi::{MsgHdr, SockAddrIn};
use crate::types::fd::RawFd;
use crate::types::flags::{MsgFlags};
use core::mem::ManuallyDrop;
use vstd::prelude::*;

verus! {

/// Where a message goes.
#[derive(Clone, Copy, Debug, PartialEq, Eq)]
pub enum SendTarget {
    /// To whom the socket is connected.
    Connected,
    /// To this address.
    To(SockAddrIn),
}

/// A `sendmsg`: what is asked for.
pub struct SendmsgRequest<B: StableBuffer, R: StableBufferMut, const N: usize> {
    /// The socket.
    pub fd: RawFd,
    /// Where it goes.
    pub target: SendTarget,
    /// How.
    pub flags: MsgFlags,
    /// The buffers, and the storage that leads to them.
    pub message: Message<B, R, N>,
}

impl<B: StableBuffer, R: StableBufferMut, const N: usize> SendmsgRequest<B, R, N> {
    /// The submission that asks for it.
    pub open spec fn sqe(self) -> Sqe {
        Sqe::sendmsg_ptr(self.fd, self.message.region().store().addr() as u64, self.flags)
    }

    /// The entry sends, operation 9, the one message whose header starts the
    /// region, with the flags.
    pub proof fn sends_its_message(self)
        ensures
            self.sqe().0 == (IoUringSqe {
                opcode: 9,
                fd: self.fd.as_i32(),
                addr: self.message.region().store().addr() as u64,
                len: 1,
                op_flags: self.flags.0,
                ..blank()
            }),
    {
    }

    /// The message says what the request says.
    pub open spec fn is_published(self) -> bool {
        &&& self.message.is_wired()
        &&& self.message.is_named() == (self.target is To)
        &&& self.target matches SendTarget::To(addr) ==> self.message.region().held_name() == addr
    }
}

/// A `sendmsg` that owns its buffers but is not queued yet.
pub struct PreparedSendmsg<B: StableBuffer, R: StableBufferMut, const N: usize> {
    fd: RawFd,
    target: SendTarget,
    flags: MsgFlags,
    message: Message<B, R, N>,
}

impl<B: StableBuffer, R: StableBufferMut, const N: usize> View for PreparedSendmsg<B, R, N> {
    type V = SendmsgRequest<B, R, N>;

    closed spec fn view(&self) -> SendmsgRequest<B, R, N> {
        SendmsgRequest {
            fd: self.fd,
            target: self.target,
            flags: self.flags,
            message: self.message,
        }
    }
}

impl<B: StableBuffer, R: StableBufferMut, const N: usize> PreparedSendmsg<B, R, N> {
    /// The message says what the request says.
    #[verifier::type_invariant]
    pub closed spec fn wf(self) -> bool {
        self@.is_published()
    }

    /// Send `buffers`, one after the other, to `target`.
    ///
    /// Takes `store` to keep header, descriptors and address in.
    ///
    /// # Errors
    ///
    /// Returns buffers and storage unchanged if there are too many buffers,
    /// or else if the storage is too small, or else if it is misaligned.
    pub fn new(
        fd: RawFd,
        buffers: [B; N],
        store: R,
        target: SendTarget,
        flags: MsgFlags,
    ) -> (r: Result<Self, ([B; N], R, MsgRegionError)>)
        ensures
            match r {
                Ok(prepared) => {
                    &&& region_error(store, N) is None
                    &&& prepared@.fd == fd
                    &&& prepared@.target == target
                    &&& prepared@.flags == flags
                    &&& prepared@.is_published()
                    &&& prepared@.message.buffers() == buffers
                    &&& prepared@.message.region().store().addr() == store.addr()
                    &&& prepared@.message.region().store().bytes().len() == store.bytes().len()
                },
                Err((back, back_store, why)) => {
                    &&& region_error(store, N) == Some(why)
                    &&& back == buffers
                    &&& back_store == store
                },
            },
    {
        let (named, name) = match target {
            SendTarget::To(addr) => (true, Some(addr)),
            SendTarget::Connected => (false, None),
        };
        match Message::wire(buffers, store, named, name) {
            Ok(message) => Ok(PreparedSendmsg { fd, target, flags, message }),
            Err(e) => Err(e),
        }
    }

    /// The socket.
    pub fn fd(&self) -> (r: RawFd)
        ensures
            r == self@.fd,
    {
        self.fd
    }

    /// How.
    pub fn flags(&self) -> (r: MsgFlags)
        ensures
            r == self@.flags,
    {
        self.flags
    }

    /// Where it goes.
    pub fn target(&self) -> (r: SendTarget)
        ensures
            r == self@.target,
    {
        self.target
    }

    /// The header as the kernel will read it.
    pub fn published_header(&self) -> (r: MsgHdr)
        ensures
            r == self@.message.region().wired_header(self@.message.is_named()),
            r == self@.message.region().held_header(),
    {
        self.message.header()
    }

    /// How many bytes are to be sent.
    pub fn total_len(&self) -> (n: usize)
        requires
            total(self@.message.buffers()@) <= usize::MAX,
        ensures
            n == total(self@.message.buffers()@),
    {
        self.message.total_len()
    }

    /// Give buffers and storage back, abandoning the request.
    pub fn into_parts(self) -> (r: ([B; N], R))
        ensures
            r == (self@.message.buffers(), self@.message.region().store()),
    {
        let (buffers, region) = self.message.into_parts();
        (buffers, region.into_store())
    }

    /// Build the submission and move to the pending state.
    pub fn into_pending(self, ring: RingId, id: RequestId) -> (r: (Sqe, PendingSendmsg<B, R, N>))
        ensures
            r.0 == self@.sqe().user_data(id.raw()),
            r.1@ == (Ticket { ring, id, request: self@ }),
    {
        proof {
            use_type_invariant(&self);
        }
        let sqe = Sqe::sendmsg_ptr(self.fd, self.message.header_ptr(), self.flags);
        let pending = PendingSendmsg {
            fd: self.fd,
            target: self.target,
            flags: self.flags,
            message: ManuallyDrop::new(self.message),
            ring,
            id,
        };
        (sqe.user_data(id.raw()), pending)
    }
}

/// A submitted `sendmsg` whose buffers the kernel may be reading.
///
/// Dropping it runs no destructor for the storage: it leaks rather than
/// being freed underneath the kernel.
#[must_use]
pub struct PendingSendmsg<B: StableBuffer, R: StableBufferMut, const N: usize> {
    fd: RawFd,
    target: SendTarget,
    flags: MsgFlags,
    message: ManuallyDrop<Message<B, R, N>>,
    ring: RingId,
    id: RequestId,
}

impl<B: StableBuffer, R: StableBufferMut, const N: usize> View for PendingSendmsg<B, R, N> {
    type V = Ticket<SendmsgRequest<B, R, N>>;

    closed spec fn view(&self) -> Ticket<SendmsgRequest<B, R, N>> {
        Ticket {
            ring: self.ring,
            id: self.id,
            request: SendmsgRequest {
                fd: self.fd,
                target: self.target,
                flags: self.flags,
                message: self.message@,
            },
        }
    }
}

impl<B: StableBuffer, R: StableBufferMut, const N: usize> PendingSendmsg<B, R, N> {
    /// The message says what the request says.
    #[verifier::type_invariant]
    pub closed spec fn wf(self) -> bool {
        self@.request.is_published()
    }

    /// Identity the kernel echoes back in this request's completion.
    pub fn id(&self) -> (r: RequestId)
        ensures
            r == self@.id,
    {
        self.id
    }

    /// Identity of the queue that accepted this request.
    pub fn ring(&self) -> (r: RingId)
        ensures
            r == self@.ring,
    {
        self.ring
    }

    /// Whether `receipt` ends this very request.
    pub fn matches(&self, receipt: &Receipt) -> (r: bool)
        ensures
            r == receipt.belongs_to(self@.ring, self@.id),
    {
        receipt.belongs_to(self.ring, self.id)
    }

    /// Take the request back without a receipt, undoing a failed push.
    ///
    /// Only for a submission that the kernel has never seen.
    pub fn reclaim_unsubmitted(self) -> (r: PreparedSendmsg<B, R, N>)
        ensures
            r@ == self@.request,
    {
        proof {
            use_type_invariant(&self);
        }
        PreparedSendmsg {
            fd: self.fd,
            target: self.target,
            flags: self.flags,
            message: ManuallyDrop::into_inner(self.message),
        }
    }

    /// Trade a matching receipt for the result and the buffers.
    ///
    /// The kernel only reads, so everything comes back as it was.
    ///
    /// # Errors
    ///
    /// Returns the ticket and receipt unchanged if the receipt belongs to
    /// another request or another ring.
    pub fn redeem(self, receipt: Receipt) -> (r: Result<SendmsgCompleted<B, R, N>, (Self, Receipt)>)
        ensures
            match r {
                Err((ticket, back)) => {
                    &&& !receipt.belongs_to(self@.ring, self@.id)
                    &&& ticket@ == self@
                    &&& back == receipt
                },
                Ok(done) => {
                    &&& receipt.belongs_to(self@.ring, self@.id)
                    &&& done@.id == self@.id
                    &&& done@.result == receipt.raw_result()
                    &&& done@.request == self@.request.message
                },
            },
    {
        if !self.matches(&receipt) {
            return Err((self, receipt));
        }
        Ok(
            SendmsgCompleted {
                message: ManuallyDrop::into_inner(self.message),
                id: self.id,
                result: receipt.raw_result(),
            },
        )
    }
}

/// A finished `sendmsg`: its result, and the buffers back.
pub struct SendmsgCompleted<B: StableBuffer, R: StableBufferMut, const N: usize> {
    message: Message<B, R, N>,
    id: RequestId,
    result: i32,
}

impl<B: StableBuffer, R: StableBufferMut, const N: usize> View for SendmsgCompleted<B, R, N> {
    type V = Done<Message<B, R, N>>;

    closed spec fn view(&self) -> Done<Message<B, R, N>> {
        Done { id: self.id, result: self.result, request: self.message }
    }
}

impl<B: StableBuffer, R: StableBufferMut, const N: usize> SendmsgCompleted<B, R, N> {
    /// Identity of the request this completes.
    pub fn id(&self) -> (r: RequestId)
        ensures
            r == self@.id,
    {
        self.id
    }

    /// The raw result: a byte count, or a negated error number.
    pub fn raw_result(&self) -> (r: i32)
        ensures
            r == self@.result,
    {
        self.result
    }

    /// How many bytes were sent, or why none were.
    ///
    /// # Errors
    ///
    /// The error number the completion carried.
    pub fn result(&self) -> (r: Result<u32, Error>)
        ensures
            r == Error::count_of(self@.result),
    {
        Error::count_of(self.result)
    }

    /// Take the result, the buffers and the storage.
    pub fn into_parts(self) -> (r: (Result<u32, Error>, [B; N], R))
        ensures
            r.0 == Error::count_of(self@.result),
            r.1 == self@.request.buffers(),
            r.2 == self@.request.region().store(),
    {
        let (buffers, region) = self.message.into_parts();
        (Error::count_of(self.result), buffers, region.into_store())
    }
}

impl<B: StableBuffer, R: StableBufferMut, const N: usize> SendmsgRequest<B, R, N> {
    /// A message to an address is published with that address, behind the
    /// descriptors; one to the connected peer names none.
    pub proof fn targets_are_published(self)
        requires
            self.is_published(),
            0 < N,
            72 + 16 * N <= self.message.region().store().bytes().len(),
        ensures
            self.message.is_wired(),
            self.message.is_named() <==> self.target is To,
            self.target matches SendTarget::To(addr) ==> {
                let bytes = self.message.region().store().bytes();
                let n = 56 + 16 * N;
                &&& le_value(bytes.subrange(n, n + 2)) == addr.sin_family
                &&& le_value(bytes.subrange(n + 2, n + 4)) == addr.sin_port
                &&& le_value(bytes.subrange(n + 4, n + 8)) == addr.sin_addr
            },
    {
        self.message.region().bytes_are_what_is_held(0);
    }
}

} // verus!
