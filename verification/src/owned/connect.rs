//! `connect`, whose address the kernel copies while servicing the request.
//!
//! The kernel finds the address at `addr` and its length in `off`. It posts
//! the completion only when the handshake has been resolved, also on a
//! non-blocking socket, so there is no outcome for a connection in progress.

use super::buffer::StableBufferMut;
use super::identity::{RequestId, RingId};
use super::lifecycle::{Done, Ticket};
use super::request::Receipt;
use super::staged::{Misfit, Staged};
use crate::bytes::overwritten;
use crate::error::Errno;
use crate::op::{blank, IoUringSqe, Sqe};
use crate::text::{decimal, with_decimal};
use crate::types::abi::{Abi, SockAddrIn};
use crate::types::fd::RawFd;
use core::mem::ManuallyDrop;
use vstd::prelude::*;
use vstd::string::StringExecFns;

verus! {

/// How a `connect` ended.
#[derive(Clone, Copy, Debug, PartialEq, Eq, Structural)]
pub enum ConnectOutcome {
    /// The socket is connected to the address.
    Connected,
    /// Nothing listens on that address. A later listener may answer.
    ConnectionRefused,
    /// This socket is connected already. Retrying never helps.
    AlreadyConnected,
    /// The peer did not answer before the kernel gave up.
    TimedOut,
    /// There is no route to that address.
    NetworkUnreachable,
    /// The kernel refused for another reason.
    Failed(Errno),
}

impl ConnectOutcome {
    /// Classify a raw result.
    #[verifier::allow_in_spec]
    pub fn from_raw(result: i32) -> Self
        returns
            (if result == -111 {
                ConnectOutcome::ConnectionRefused
            } else if result == -106 {
                ConnectOutcome::AlreadyConnected
            } else if result == -110 {
                ConnectOutcome::TimedOut
            } else if result == -101 {
                ConnectOutcome::NetworkUnreachable
            } else if result < 0 {
                ConnectOutcome::Failed(Errno::from_negated(result))
            } else {
                ConnectOutcome::Connected
            }),
    {
        if result == -111 {
            ConnectOutcome::ConnectionRefused
        } else if result == -106 {
            ConnectOutcome::AlreadyConnected
        } else if result == -110 {
            ConnectOutcome::TimedOut
        } else if result == -101 {
            ConnectOutcome::NetworkUnreachable
        } else if result < 0 {
            ConnectOutcome::Failed(Errno::from_negated(result))
        } else {
            ConnectOutcome::Connected
        }
    }

    /// Whether the socket is now connected to the address.
    #[verifier::allow_in_spec]
    pub fn is_connected(self) -> bool
        returns
            self is Connected,
    {
        matches!(self, ConnectOutcome::Connected)
    }

    /// What [`message`](Self::message) says.
    pub open spec fn text(self) -> Seq<char> {
        match self {
            ConnectOutcome::Connected => "socket connected"@,
            ConnectOutcome::ConnectionRefused => "connection refused"@,
            ConnectOutcome::AlreadyConnected => "socket is already connected"@,
            ConnectOutcome::TimedOut => "connection timed out"@,
            ConnectOutcome::NetworkUnreachable => "network is unreachable"@,
            ConnectOutcome::Failed(e) => "connect failed: "@ + e.text(),
        }
    }

    /// Every case says what happened, in its own words and with its own numbers.
    pub proof fn texts_say_what_happened(self)
        ensures
            self is Connected ==> self.text() == "socket connected"@,
            self is ConnectionRefused ==> self.text() == "connection refused"@,
            self is AlreadyConnected ==> self.text() == "socket is already connected"@,
            self is TimedOut ==> self.text() == "connection timed out"@,
            self is NetworkUnreachable ==> self.text() == "network is unreachable"@,
            self matches ConnectOutcome::Failed(e) ==> self.text()
                == "connect failed: "@ + e.text(),
    {
    }

    /// A description for people.
    pub fn message(&self) -> (s: String)
        ensures
            s@ == self.text(),
    {
        match *self {
            ConnectOutcome::Connected => String::from_str("socket connected"),
            ConnectOutcome::ConnectionRefused => String::from_str("connection refused"),
            ConnectOutcome::AlreadyConnected => String::from_str("socket is already connected"),
            ConnectOutcome::TimedOut => String::from_str("connection timed out"),
            ConnectOutcome::NetworkUnreachable => String::from_str("network is unreachable"),
            ConnectOutcome::Failed(e) => String::from_str("connect failed: ").concat(
                e.message().as_str(),
            ),
        }
    }
}

/// Only a result that is no error counts as success, and no two errors are
/// taken for one another.
pub proof fn connect_errors_stay_apart(a: i32, b: i32)
    ensures
        ConnectOutcome::from_raw(a) is Connected <==> a >= 0,
        a < 0 && ConnectOutcome::from_raw(a) == ConnectOutcome::from_raw(b) ==> a == b,
{
}

/// Why a `connect` request could not be built.
#[derive(Clone, Copy, Debug, PartialEq, Eq, Structural)]
pub enum ConnectError {
    /// The storage cannot hold a whole socket address.
    StoreTooSmall {
        /// Bytes it needs.
        needed: usize,
        /// Bytes the supplied storage has.
        got: usize,
    },
}

impl ConnectError {
    /// What [`message`](Self::message) says.
    pub open spec fn text(self) -> Seq<char> {
        match self {
            ConnectError::StoreTooSmall { needed, got } => "connect address storage needs "@
                + decimal(needed as nat) + " bytes, got "@ + decimal(got as nat),
        }
    }

    /// Every case says what happened, in its own words and with its own numbers.
    pub proof fn texts_say_what_happened(self)
        ensures
            self matches ConnectError::StoreTooSmall { needed, got } ==> self.text()
                == "connect address storage needs "@ + decimal(needed as nat) + " bytes, got "@
                    + decimal(got as nat),
    {
    }

    /// A description for people.
    pub fn message(&self) -> (s: String)
        ensures
            s@ == self.text(),
    {
        match *self {
            ConnectError::StoreTooSmall { needed, got } => {
                let s = String::from_str("connect address storage needs ");
                let s = with_decimal(s, needed as u64);
                with_decimal(s.concat(" bytes, got "), got as u64)
            },
        }
    }
}

/// A `connect`: what is asked for.
pub struct ConnectRequest<S: StableBufferMut> {
    /// The socket.
    pub fd: RawFd,
    /// The address to connect to, where the kernel finds it.
    pub address: Staged<S, SockAddrIn>,
}

impl<S: StableBufferMut> ConnectRequest<S> {
    /// The submission that asks for it.
    pub open spec fn sqe(self) -> Sqe {
        Sqe::connect_ptr(self.fd, self.address.store().addr() as u64, 16)
    }

    /// The entry connects, operation 16, the socket to the 16 bytes of the address
    /// in its storage. It is not what a bind would send.
    pub proof fn connects_to_its_address(self)
        ensures
            self.sqe().0 == (IoUringSqe {
                opcode: 16,
                fd: self.fd.as_i32(),
                off: 16,
                addr: self.address.store().addr() as u64,
                ..blank()
            }),
            self.sqe() != Sqe::bind_ptr(self.fd, self.address.store().addr() as u64, 16),
    {
    }
}

/// A `connect` that owns its address but is not queued yet.
pub struct PreparedConnect<S: StableBufferMut> {
    fd: RawFd,
    address: Staged<S, SockAddrIn>,
}

impl<S: StableBufferMut> View for PreparedConnect<S> {
    type V = ConnectRequest<S>;

    closed spec fn view(&self) -> ConnectRequest<S> {
        ConnectRequest { fd: self.fd, address: self.address }
    }
}

impl<S: StableBufferMut> PreparedConnect<S> {
    /// Prepare to connect `fd` to `addr`.
    ///
    /// Takes `store` to keep the address in.
    ///
    /// # Errors
    ///
    /// Returns the storage unchanged if it is too small.
    pub fn new(fd: RawFd, addr: SockAddrIn, store: S) -> (r: Result<Self, (S, ConnectError)>)
        ensures
            match r {
                Err((back, why)) => {
                    &&& back == store
                    &&& store.bytes().len() < 16
                    &&& why == (ConnectError::StoreTooSmall {
                        needed: 16,
                        got: store.bytes().len() as usize,
                    })
                },
                Ok(prepared) => {
                    &&& store.bytes().len() >= 16
                    &&& prepared@ == (ConnectRequest { fd, address: prepared@.address })
                    &&& prepared@.address.value() == addr
                    &&& prepared@.address.store().addr() == store.addr()
                    &&& prepared@.address.store().bytes() == overwritten(
                        store.bytes(),
                        0,
                        addr.encoded(),
                    )
                },
            },
    {
        match Staged::place(addr, store, 1) {
            Ok(address) => Ok(PreparedConnect { fd, address }),
            Err((store, Misfit::TooSmall { needed, got })) => Err(
                (store, ConnectError::StoreTooSmall { needed, got }),
            ),
            Err((_, Misfit::Misaligned { .. })) => vstd::pervasive::unreached(),
        }
    }

    /// The socket.
    pub fn fd(&self) -> (r: RawFd)
        ensures
            r == self@.fd,
    {
        self.fd
    }

    /// The address.
    pub fn addr(&self) -> (r: SockAddrIn)
        ensures
            r == self@.address.value(),
    {
        *self.address.get()
    }

    /// The address bytes as the kernel will read them.
    ///
    /// Reads back the storage rather than rebuilding them.
    pub fn published(&self) -> (r: [u8; 16])
        ensures
            r@ == self@.address.value().encoded(),
            r@ == self@.address.store().bytes().subrange(0, 16),
    {
        proof {
            use_type_invariant(&self.address);
        }
        self.address.published().to_bytes()
    }

    /// Give the storage back, abandoning the request.
    pub fn into_store(self) -> (r: S)
        ensures
            r == self@.address.store(),
    {
        self.address.into_store()
    }

    /// Build the submission and move to the pending state.
    pub fn into_pending(self, ring: RingId, id: RequestId) -> (r: (Sqe, PendingConnect<S>))
        ensures
            r.0 == self@.sqe().user_data(id.raw()),
            r.1@ == (Ticket { ring, id, request: self@ }),
    {
        let sqe = Sqe::connect_ptr(self.fd, self.address.addr(), 16);
        let pending = PendingConnect {
            fd: self.fd,
            address: ManuallyDrop::new(self.address),
            ring,
            id,
        };
        (sqe.user_data(id.raw()), pending)
    }
}

/// A submitted `connect` whose address the kernel may be reading.
///
/// The socket is borrowed, so only the storage is at stake.
///
/// Dropping it runs no destructor for the storage: it leaks rather than
/// being freed underneath the kernel.
#[must_use]
pub struct PendingConnect<S: StableBufferMut> {
    fd: RawFd,
    address: ManuallyDrop<Staged<S, SockAddrIn>>,
    ring: RingId,
    id: RequestId,
}

impl<S: StableBufferMut> View for PendingConnect<S> {
    type V = Ticket<ConnectRequest<S>>;

    closed spec fn view(&self) -> Ticket<ConnectRequest<S>> {
        Ticket {
            ring: self.ring,
            id: self.id,
            request: ConnectRequest {
                fd: self.fd,
                address: self.address@,
            },
        }
    }
}

impl<S: StableBufferMut> PendingConnect<S> {
    /// Identity the kernel echoes back in this request's completion.
    pub fn id(&self) -> (r: RequestId)
        ensures
            r == self@.id,
    {
        self.id
    }

    /// Identity of the queue that accepted this request.
    pub fn ring(&self) -> (r: RingId)
        ensures
            r == self@.ring,
    {
        self.ring
    }

    /// Whether `receipt` ends this very request.
    pub fn matches(&self, receipt: &Receipt) -> (r: bool)
        ensures
            r == receipt.belongs_to(self@.ring, self@.id),
    {
        receipt.belongs_to(self.ring, self.id)
    }

    /// The address.
    pub fn addr(&self) -> (r: SockAddrIn)
        ensures
            r == self@.request.address.value(),
    {
        *self.address.get()
    }

    /// Take the request back without a receipt, undoing a failed push.
    ///
    /// Only for a submission that the kernel has never seen.
    pub fn reclaim_unsubmitted(self) -> (r: PreparedConnect<S>)
        ensures
            r@ == self@.request,
    {
        PreparedConnect {
            fd: self.fd,
            address: ManuallyDrop::into_inner(self.address),
        }
    }

    /// Trade a matching receipt for the outcome and the storage.
    ///
    /// The kernel only reads the storage, so it comes back as it was.
    ///
    /// # Errors
    ///
    /// Returns the ticket and receipt unchanged if the receipt belongs to
    /// another request or another ring.
    pub fn redeem(self, receipt: Receipt) -> (r: Result<ConnectDone<S>, (Self, Receipt)>)
        ensures
            match r {
                Err((ticket, back)) => {
                    &&& !receipt.belongs_to(self@.ring, self@.id)
                    &&& ticket@ == self@
                    &&& back == receipt
                },
                Ok(done) => {
                    &&& receipt.belongs_to(self@.ring, self@.id)
                    &&& done@ == (Done {
                        id: self@.id,
                        result: receipt.raw_result(),
                        request: self@.request,
                    })
                },
            },
    {
        if !self.matches(&receipt) {
            return Err((self, receipt));
        }
        Ok(
            ConnectDone {
                fd: self.fd,
                address: ManuallyDrop::into_inner(self.address),
                id: self.id,
                result: receipt.raw_result(),
            },
        )
    }
}

/// A finished `connect`: how it ended, and the storage back.
pub struct ConnectDone<S: StableBufferMut> {
    fd: RawFd,
    address: Staged<S, SockAddrIn>,
    id: RequestId,
    result: i32,
}

impl<S: StableBufferMut> View for ConnectDone<S> {
    type V = Done<ConnectRequest<S>>;

    closed spec fn view(&self) -> Done<ConnectRequest<S>> {
        Done {
            id: self.id,
            result: self.result,
            request: ConnectRequest { fd: self.fd, address: self.address },
        }
    }
}

impl<S: StableBufferMut> ConnectDone<S> {
    /// Identity of the request this completes.
    pub fn id(&self) -> (r: RequestId)
        ensures
            r == self@.id,
    {
        self.id
    }

    /// The raw result: 0, or a negated error number.
    pub fn raw_result(&self) -> (r: i32)
        ensures
            r == self@.result,
    {
        self.result
    }

    /// How the request ended.
    pub fn outcome(&self) -> (r: ConnectOutcome)
        ensures
            r == ConnectOutcome::from_raw(self@.result),
    {
        ConnectOutcome::from_raw(self.result)
    }

    /// The address.
    pub fn addr(&self) -> (r: SockAddrIn)
        ensures
            r == self@.request.address.value(),
    {
        *self.address.get()
    }

    /// Take the storage back for reuse.
    pub fn into_store(self) -> (r: S)
        ensures
            r == self@.request.address.store(),
    {
        self.address.into_store()
    }

    /// Take the outcome and the storage together.
    pub fn into_parts(self) -> (r: (ConnectOutcome, S))
        ensures
            r.0 == ConnectOutcome::from_raw(self@.result),
            r.1 == self@.request.address.store(),
    {
        (ConnectOutcome::from_raw(self.result), self.address.into_store())
    }
}

/// A connect succeeded unless its result is negative. Error 111 is a refusal,
/// 106 an existing connection, 110 a timeout, 101 a missing route; any other
/// keeps its number.
pub proof fn connect_results_are_named(result: i32)
    ensures
        ConnectOutcome::from_raw(result) is Connected <==> result >= 0,
        ConnectOutcome::from_raw(result) is ConnectionRefused <==> result == -111,
        ConnectOutcome::from_raw(result) is AlreadyConnected <==> result == -106,
        ConnectOutcome::from_raw(result) is TimedOut <==> result == -110,
        ConnectOutcome::from_raw(result) is NetworkUnreachable <==> result == -101,
        ConnectOutcome::from_raw(result) matches ConnectOutcome::Failed(e) ==> {
            &&& result < 0
            &&& e.0 == (if result == -0x8000_0000 { result as int } else { 0 - result })
        },
        ConnectOutcome::from_raw(result).is_connected() <==> result >= 0,
{
}

} // verus!
