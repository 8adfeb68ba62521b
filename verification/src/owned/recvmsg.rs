//! `recvmsg`, which owns its buffers and everything that leads to them.
//!
//! The kernel follows the header to the descriptors and those to the
//! buffers, fills them, and then writes to the header: whether the message
//! was cut short, and how long the sender's address is. The count in the
//! completion tells neither.

use super::buffer::{kept_from, same_place, StableBufferMut};
use super::identity::{RequestId, RingId};
use super::lifecycle::{Done, Ticket};
use super::message::{region_error, total, Message};
use super::msgregion::{region_len, MsgRegion, MsgRegionError};
use super::request::Receipt;
use crate::bytes::le_value;
use crate::error::Error;
use crate::op::{blank, IoUringSqe, Sqe};
use crate::types::abi::{MsgHdr, SockAddrIn};
use crate::types::fd::RawFd;
use crate::types::flags::{MsgFlags, MsgOutFlags};
use core::mem::ManuallyDrop;
use vstd::prelude::*;

verus! {

/// Whether the sender's address is wanted.
#[derive(Clone, Copy, Debug, PartialEq, Eq, Structural)]
pub enum PeerWanted {
    /// It is; there is room for an IPv4 address.
    Yes,
    /// It is not.
    No,
}

/// What was received.
#[derive(Clone, Copy, Debug, PartialEq, Eq, Structural)]
pub struct Received {
    bytes: u32,
    flags: MsgOutFlags,
}

impl Received {
    /// How many bytes are in the buffers.
    pub closed spec fn count(self) -> u32 {
        self.bytes
    }

    /// What the kernel reported.
    pub closed spec fn reported(self) -> MsgOutFlags {
        self.flags
    }

    /// How many bytes are in the buffers.
    pub fn bytes(&self) -> (r: u32)
        ensures
            r == self.count(),
    {
        self.bytes
    }

    /// What the kernel reported.
    pub fn flags(&self) -> (r: MsgOutFlags)
        ensures
            r == self.reported(),
    {
        self.flags
    }

    /// Whether the message was longer than the buffers.
    pub fn truncated(&self) -> (r: bool)
        ensures
            r == self.reported().contains(MsgOutFlags::trunc()),
    {
        self.flags.contains(MsgOutFlags::trunc())
    }
}

/// What is known of the sender.
#[derive(Clone, Copy, Debug, PartialEq, Eq)]
pub enum Peer {
    /// Nothing: it was not asked for, or the kernel reported no address.
    Unknown,
    /// A whole IPv4 address.
    V4(SockAddrIn),
    /// The address is longer than the room for it.
    Truncated {
        /// How long it is.
        len: u32,
    },
    /// An address that is not a whole IPv4 one.
    Other {
        /// How long it is.
        len: u32,
    },
}

impl Peer {
    /// Tell the sender from what the kernel wrote.
    ///
    /// The reported length decides; the family alone says nothing about
    /// bytes that were never written.
    #[verifier::allow_in_spec]
    pub fn of(wanted: PeerWanted, len: u32, name: SockAddrIn) -> Self
        returns
            (if wanted is No || len == 0 {
                Peer::Unknown
            } else if len > 16 {
                Peer::Truncated { len }
            } else if len == 16 && name.sin_family == 2 {
                Peer::V4(name)
            } else {
                Peer::Other { len }
            }),
    {
        if matches!(wanted, PeerWanted::No) || len == 0 {
            Peer::Unknown
        } else if len > 16 {
            Peer::Truncated { len }
        } else if len == 16 && name.sin_family == 2 {
            Peer::V4(name)
        } else {
            Peer::Other { len }
        }
    }

    /// The IPv4 address, if there is a whole one.
    #[verifier::allow_in_spec]
    pub fn v4(self) -> Option<SockAddrIn>
        returns
            (match self {
                Peer::V4(addr) => Some(addr),
                _ => None,
            }),
    {
        match self {
            Peer::V4(addr) => Some(addr),
            _ => None,
        }
    }

    /// Whether the address is longer than the room for it.
    #[verifier::allow_in_spec]
    pub fn is_truncated(self) -> bool
        returns
            self is Truncated,
    {
        matches!(self, Peer::Truncated { .. })
    }
}

/// An address is only ever read when the kernel says that it wrote all of
/// it.
pub proof fn only_whole_addresses_are_read(wanted: PeerWanted, len: u32, name: SockAddrIn)
    ensures
        Peer::of(wanted, len, name).v4() is Some ==> len == 16 && wanted is Yes,
        Peer::of(wanted, len, name).v4() matches Some(addr) ==> addr == name,
        len > 16 && wanted is Yes ==> Peer::of(wanted, len, name).is_truncated(),
{
}

/// A `recvmsg`: what is asked for.
pub struct RecvmsgRequest<B: StableBufferMut, R: StableBufferMut, const N: usize> {
    /// The socket.
    pub fd: RawFd,
    /// Whether the sender's address is wanted.
    pub peer_wanted: PeerWanted,
    /// How.
    pub flags: MsgFlags,
    /// The buffers, and the storage that leads to them.
    pub message: Message<B, R, N>,
}

impl<B: StableBufferMut, R: StableBufferMut, const N: usize> RecvmsgRequest<B, R, N> {
    /// The submission that asks for it.
    pub open spec fn sqe(self) -> Sqe {
        Sqe::recvmsg_ptr(self.fd, self.message.region().store().addr() as u64, self.flags)
    }

    /// The entry receives, operation 10, the one message whose header starts the
    /// region, with the flags.
    pub proof fn receives_its_message(self)
        ensures
            self.sqe().0 == (IoUringSqe {
                opcode: 10,
                fd: self.fd.as_i32(),
                addr: self.message.region().store().addr() as u64,
                len: 1,
                op_flags: self.flags.0,
                ..blank()
            }),
    {
    }

    /// The message says what the request says.
    pub open spec fn is_published(self) -> bool {
        &&& self.message.is_wired()
        &&& self.message.is_named() == (self.peer_wanted is Yes)
    }
}

/// A `recvmsg` that owns its buffers but is not queued yet.
pub struct PreparedRecvmsg<B: StableBufferMut, R: StableBufferMut, const N: usize> {
    fd: RawFd,
    peer_wanted: PeerWanted,
    flags: MsgFlags,
    message: Message<B, R, N>,
}

impl<B: StableBufferMut, R: StableBufferMut, const N: usize> View for PreparedRecvmsg<B, R, N> {
    type V = RecvmsgRequest<B, R, N>;

    closed spec fn view(&self) -> RecvmsgRequest<B, R, N> {
        RecvmsgRequest {
            fd: self.fd,
            peer_wanted: self.peer_wanted,
            flags: self.flags,
            message: self.message,
        }
    }
}

impl<B: StableBufferMut, R: StableBufferMut, const N: usize> PreparedRecvmsg<B, R, N> {
    /// The message says what the request says.
    #[verifier::type_invariant]
    pub closed spec fn wf(self) -> bool {
        self@.is_published()
    }

    /// Receive into `buffers`, one after the other.
    ///
    /// Takes `store` to keep header, descriptors and address in.
    ///
    /// # Errors
    ///
    /// Returns buffers and storage unchanged if there are too many buffers,
    /// or else if the storage is too small, or else if it is misaligned.
    pub fn new(
        fd: RawFd,
        buffers: [B; N],
        store: R,
        peer_wanted: PeerWanted,
        flags: MsgFlags,
    ) -> (r: Result<Self, ([B; N], R, MsgRegionError)>)
        ensures
            match r {
                Ok(prepared) => {
                    &&& region_error(store, N) is None
                    &&& prepared@.fd == fd
                    &&& prepared@.peer_wanted == peer_wanted
                    &&& prepared@.flags == flags
                    &&& prepared@.is_published()
                    &&& prepared@.message.buffers() == buffers
                    &&& prepared@.message.region().store().addr() == store.addr()
                    &&& prepared@.message.region().store().bytes().len() == store.bytes().len()
                },
                Err((back, back_store, why)) => {
                    &&& region_error(store, N) == Some(why)
                    &&& back == buffers
                    &&& back_store == store
                },
            },
    {
        let named: bool = match peer_wanted {
            PeerWanted::Yes => true,
            PeerWanted::No => false,
        };
        let name: Option<SockAddrIn> = None;
        match Message::wire(buffers, store, named, name) {
            Ok(message) => Ok(PreparedRecvmsg { fd, peer_wanted, flags, message }),
            Err(e) => Err(e),
        }
    }

    /// The socket.
    pub fn fd(&self) -> (r: RawFd)
        ensures
            r == self@.fd,
    {
        self.fd
    }

    /// How.
    pub fn flags(&self) -> (r: MsgFlags)
        ensures
            r == self@.flags,
    {
        self.flags
    }

    /// Whether the sender's address is wanted.
    pub fn peer_wanted(&self) -> (r: PeerWanted)
        ensures
            r == self@.peer_wanted,
    {
        self.peer_wanted
    }

    /// The header as the kernel will read it.
    pub fn published_header(&self) -> (r: MsgHdr)
        ensures
            r == self@.message.region().wired_header(self@.message.is_named()),
            r == self@.message.region().held_header(),
    {
        self.message.header()
    }

    /// How many bytes there is room for.
    pub fn capacity(&self) -> (n: usize)
        requires
            total(self@.message.buffers()@) <= usize::MAX,
        ensures
            n == total(self@.message.buffers()@),
    {
        self.message.total_len()
    }

    /// Give buffers and storage back, abandoning the request.
    pub fn into_parts(self) -> (r: ([B; N], R))
        ensures
            r == (self@.message.buffers(), self@.message.region().store()),
    {
        let (buffers, region) = self.message.into_parts();
        (buffers, region.into_store())
    }

    /// Build the submission and move to the pending state.
    pub fn into_pending(self, ring: RingId, id: RequestId) -> (r: (Sqe, PendingRecvmsg<B, R, N>))
        ensures
            r.0 == self@.sqe().user_data(id.raw()),
            r.1@ == (Ticket { ring, id, request: self@ }),
    {
        proof {
            use_type_invariant(&self);
        }
        let sqe = Sqe::recvmsg_ptr(self.fd, self.message.header_ptr(), self.flags);
        let pending = PendingRecvmsg {
            fd: self.fd,
            peer_wanted: self.peer_wanted,
            flags: self.flags,
            message: ManuallyDrop::new(self.message),
            ring,
            id,
        };
        (sqe.user_data(id.raw()), pending)
    }
}

/// A submitted `recvmsg` whose buffers the kernel may be writing.
///
/// Dropping it runs no destructor for the storage: it leaks rather than
/// being freed underneath the kernel.
#[must_use]
pub struct PendingRecvmsg<B: StableBufferMut, R: StableBufferMut, const N: usize> {
    fd: RawFd,
    peer_wanted: PeerWanted,
    flags: MsgFlags,
    message: ManuallyDrop<Message<B, R, N>>,
    ring: RingId,
    id: RequestId,
}

impl<B: StableBufferMut, R: StableBufferMut, const N: usize> View for PendingRecvmsg<B, R, N> {
    type V = Ticket<RecvmsgRequest<B, R, N>>;

    closed spec fn view(&self) -> Ticket<RecvmsgRequest<B, R, N>> {
        Ticket {
            ring: self.ring,
            id: self.id,
            request: RecvmsgRequest {
                fd: self.fd,
                peer_wanted: self.peer_wanted,
                flags: self.flags,
                message: self.message@,
            },
        }
    }
}

impl<B: StableBufferMut, R: StableBufferMut, const N: usize> PendingRecvmsg<B, R, N> {
    /// The message says what the request says.
    #[verifier::type_invariant]
    pub closed spec fn wf(self) -> bool {
        self@.request.is_published()
    }

    /// Identity the kernel echoes back in this request's completion.
    pub fn id(&self) -> (r: RequestId)
        ensures
            r == self@.id,
    {
        self.id
    }

    /// Identity of the queue that accepted this request.
    pub fn ring(&self) -> (r: RingId)
        ensures
            r == self@.ring,
    {
        self.ring
    }

    /// Whether `receipt` ends this very request.
    pub fn matches(&self, receipt: &Receipt) -> (r: bool)
        ensures
            r == receipt.belongs_to(self@.ring, self@.id),
    {
        receipt.belongs_to(self.ring, self.id)
    }

    /// Take the request back without a receipt, undoing a failed push.
    ///
    /// Only for a submission that the kernel has never seen.
    pub fn reclaim_unsubmitted(self) -> (r: PreparedRecvmsg<B, R, N>)
        ensures
            r@ == self@.request,
    {
        proof {
            use_type_invariant(&self);
        }
        PreparedRecvmsg {
            fd: self.fd,
            peer_wanted: self.peer_wanted,
            flags: self.flags,
            message: ManuallyDrop::into_inner(self.message),
        }
    }

    /// Trade a matching receipt for what was received and the buffers.
    ///
    /// The kernel has written to buffers and storage, so only their places
    /// and sizes are known, and that the storage behind the message is as it
    /// was.
    ///
    /// # Errors
    ///
    /// Returns the ticket and receipt unchanged if the receipt belongs to
    /// another request or another ring.
    pub fn redeem(self, receipt: Receipt) -> (r: Result<RecvmsgCompleted<B, R, N>, (Self, Receipt)>)
        ensures
            match r {
                Err((ticket, back)) => {
                    &&& !receipt.belongs_to(self@.ring, self@.id)
                    &&& ticket@ == self@
                    &&& back == receipt
                },
                Ok(done) => {
                    &&& receipt.belongs_to(self@.ring, self@.id)
                    &&& done@.id == self@.id
                    &&& done@.result == receipt.raw_result()
                    &&& done@.request.peer_wanted == self@.request.peer_wanted
                    &&& forall|i: int|
                        0 <= i < N ==> same_place(
                            #[trigger] done@.request.buffers@[i],
                            self@.request.message.buffers()@[i],
                        )
                    &&& kept_from(
                        done@.request.region.store(),
                        self@.request.message.region().store(),
                        region_len(N as int),
                    )
                    &&& done@.request.region.count() == N
                },
            },
    {
        proof {
            use_type_invariant(&self);
        }
        if !self.matches(&receipt) {
            return Err((self, receipt));
        }
        let (buffers, region) = ManuallyDrop::into_inner(self.message).into_parts();
        Ok(
            RecvmsgCompleted {
                peer_wanted: self.peer_wanted,
                buffers,
                region,
                id: self.id,
                result: receipt.raw_result(),
            },
        )
    }
}

/// What a finished `recvmsg` leaves behind.
pub struct RecvmsgResult<B: StableBufferMut, R: StableBufferMut, const N: usize> {
    /// Whether the sender's address was wanted.
    pub peer_wanted: PeerWanted,
    /// The buffers.
    pub buffers: [B; N],
    /// The storage, as the kernel left it.
    pub region: MsgRegion<R>,
}

/// A finished `recvmsg`: what was received, and the buffers back.
pub struct RecvmsgCompleted<B: StableBufferMut, R: StableBufferMut, const N: usize> {
    peer_wanted: PeerWanted,
    buffers: [B; N],
    region: MsgRegion<R>,
    id: RequestId,
    result: i32,
}

impl<B: StableBufferMut, R: StableBufferMut, const N: usize> View for RecvmsgCompleted<B, R, N> {
    type V = Done<RecvmsgResult<B, R, N>>;

    closed spec fn view(&self) -> Done<RecvmsgResult<B, R, N>> {
        Done {
            id: self.id,
            result: self.result,
            request: RecvmsgResult {
                peer_wanted: self.peer_wanted,
                buffers: self.buffers,
                region: self.region,
            },
        }
    }
}

/// What a completion and the header that the kernel left say of the sender.
pub open spec fn peer_of<B: StableBufferMut, R: StableBufferMut, const N: usize>(
    done: Done<RecvmsgResult<B, R, N>>,
) -> Peer {
    if done.result < 0 {
        Peer::Unknown
    } else {
        Peer::of(
            done.request.peer_wanted,
            done.request.region.held_header().msg_namelen,
            done.request.region.held_name(),
        )
    }
}

impl<B: StableBufferMut, R: StableBufferMut, const N: usize> RecvmsgCompleted<B, R, N> {
    /// The storage fits.
    #[verifier::type_invariant]
    pub closed spec fn wf(self) -> bool {
        self.region.wf()
    }

    /// Identity of the request this completes.
    pub fn id(&self) -> (r: RequestId)
        ensures
            r == self@.id,
    {
        self.id
    }

    /// The raw result: a byte count, or a negated error number.
    pub fn raw_result(&self) -> (r: i32)
        ensures
            r == self@.result,
    {
        self.result
    }

    /// What was received, or why nothing was.
    ///
    /// # Errors
    ///
    /// The error number the completion carried.
    pub fn received(&self) -> (r: Result<Received, Error>)
        ensures
            match r {
                Ok(received) => {
                    &&& self@.result >= 0
                    &&& received.count() == self@.result
                    &&& received.reported() == MsgOutFlags(
                        self@.request.region.held_header().msg_flags,
                    )
                },
                Err(e) => {
                    &&& self@.result < 0
                    &&& Error::status_of(self@.result) == Err::<(), Error>(e)
                },
            },
    {
        proof {
            use_type_invariant(self);
        }
        match Error::count_of(self.result) {
            Ok(bytes) => Ok(Received { bytes, flags: MsgOutFlags(self.region.header().msg_flags) }),
            Err(e) => Err(e),
        }
    }

    /// What is known of the sender.
    pub fn peer(&self) -> (r: Peer)
        ensures
            r == peer_of(self@),
    {
        proof {
            use_type_invariant(self);
        }
        if self.result < 0 {
            return Peer::Unknown;
        }
        Peer::of(self.peer_wanted, self.region.header().msg_namelen, self.region.name())
    }

    /// Take what was received, the sender, the buffers and the storage.
    pub fn into_parts(self) -> (r: (Result<Received, Error>, Peer, [B; N], R))
        ensures
            match r.0 {
                Ok(received) => {
                    &&& self@.result >= 0
                    &&& received.count() == self@.result
                    &&& received.reported() == MsgOutFlags(
                        self@.request.region.held_header().msg_flags,
                    )
                },
                Err(e) => {
                    &&& self@.result < 0
                    &&& Error::status_of(self@.result) == Err::<(), Error>(e)
                },
            },
            r.1 == peer_of(self@),
            r.2 == self@.request.buffers,
            r.3 == self@.request.region.store(),
    {
        let received = self.received();
        let peer = self.peer();
        (received, peer, self.buffers, self.region.into_store())
    }
}

/// The reported length says what the sender's address is: none where it was not
/// asked for or is empty, cut off beyond 16 bytes, and a whole IPv4 address
/// only where it has 16 bytes and its family is 2.
pub proof fn senders_are_told_by_length(wanted: PeerWanted, len: u32, name: SockAddrIn)
    ensures
        Peer::of(wanted, len, name) is Unknown <==> wanted is No || len == 0,
        Peer::of(wanted, len, name) is Truncated <==> wanted is Yes && len > 16,
        Peer::of(wanted, len, name) is V4 <==> wanted is Yes && len == 16 && name.sin_family == 2,
        Peer::of(wanted, len, name) matches Peer::V4(addr) ==> addr == name,
        Peer::of(wanted, len, name) matches Peer::Truncated { len: l } ==> l == len,
        Peer::of(wanted, len, name) matches Peer::Other { len: l } ==> l == len,
        Peer::of(wanted, len, name).is_truncated() <==> wanted is Yes && len > 16,
        Peer::of(wanted, len, name).v4() is Some <==> wanted is Yes && len == 16 && name.sin_family
            == 2,
        Peer::V4(name).v4() == Some(name),
        !Peer::V4(name).is_truncated(),
{
}

/// The sender of a message that was received is what the kernel left in the
/// region: the length in the header, the address behind the descriptors. One
/// that was not received has none.
pub proof fn senders_are_read_from_the_region<
    B: StableBufferMut,
    R: StableBufferMut,
    const N: usize,
>(done: Done<RecvmsgResult<B, R, N>>)
    requires
        done.request.region.count() > 0,
        72 + 16 * done.request.region.count() <= done.request.region.store().bytes().len(),
    ensures
        done.result < 0 ==> peer_of(done) is Unknown,
        ({
            let bytes = done.request.region.store().bytes();
            let n = 56 + 16 * done.request.region.count();
            let len = le_value(bytes.subrange(8, 12));
            let family = le_value(bytes.subrange(n, n + 2));
            let wanted = done.result >= 0 && done.request.peer_wanted is Yes;
            &&& peer_of(done) is Unknown <==> !wanted || len == 0
            &&& peer_of(done) is Truncated <==> wanted && len > 16
            &&& peer_of(done) is V4 <==> wanted && len == 16 && family == 2
            &&& peer_of(done) matches Peer::V4(addr) ==> {
                &&& addr.sin_port == le_value(bytes.subrange(n + 2, n + 4))
                &&& addr.sin_addr == le_value(bytes.subrange(n + 4, n + 8))
            }
        }),
{
    done.request.region.bytes_are_what_is_held(0);
}

impl<B: StableBufferMut, R: StableBufferMut, const N: usize> RecvmsgRequest<B, R, N> {
    /// A published receive leads the kernel to its buffers, and to the room for
    /// an address exactly where one is wanted.
    pub proof fn room_is_named_if_wanted(self)
        requires
            self.is_published(),
        ensures
            self.message.is_wired(),
            self.message.is_named() <==> self.peer_wanted is Yes,
    {
    }
}

} // verus!
