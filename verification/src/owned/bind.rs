//! `bind`, whose address the kernel copies while servicing the request.
//!
//! The kernel finds the address at `addr` and its length in `off`, and
//! refuses a request that carries anything else. `listen` reads no caller
//! memory, so it has no owned form: [`Sqe::listen`] is enough.
//!
//! A typed address rules out a malformed one, for which the kernel would use
//! the same error number as for a socket that is already bound.

use super::buffer::StableBufferMut;
use super::identity::{RequestId, RingId};
use super::lifecycle::{Done, Ticket};
use super::request::Receipt;
use super::staged::{Misfit, Staged};
use crate::bytes::overwritten;
use crate::error::Errno;
use crate::op::{blank, IoUringSqe, Sqe};
use crate::text::{decimal, with_decimal};
use crate::types::abi::{Abi, SockAddrIn};
use crate::types::fd::RawFd;
use core::mem::ManuallyDrop;
use vstd::prelude::*;
use vstd::string::StringExecFns;

verus! {

/// How a `bind` ended.
#[derive(Clone, Copy, Debug, PartialEq, Eq, Structural)]
pub enum BindOutcome {
    /// The socket is bound to the address.
    Bound,
    /// Another socket holds this address. Another port may be free.
    AddressInUse,
    /// This socket has been bound before. Another port does not help.
    AlreadyBound,
    /// Binding this address needs privilege.
    PermissionDenied,
    /// The kernel refused for another reason.
    Failed(Errno),
}

impl BindOutcome {
    /// Classify a raw result.
    #[verifier::allow_in_spec]
    pub fn from_raw(result: i32) -> Self
        returns
            (if result == -98 {
                BindOutcome::AddressInUse
            } else if result == -22 {
                BindOutcome::AlreadyBound
            } else if result == -13 {
                BindOutcome::PermissionDenied
            } else if result < 0 {
                BindOutcome::Failed(Errno::from_negated(result))
            } else {
                BindOutcome::Bound
            }),
    {
        if result == -98 {
            BindOutcome::AddressInUse
        } else if result == -22 {
            BindOutcome::AlreadyBound
        } else if result == -13 {
            BindOutcome::PermissionDenied
        } else if result < 0 {
            BindOutcome::Failed(Errno::from_negated(result))
        } else {
            BindOutcome::Bound
        }
    }

    /// Whether the socket is now bound to the address.
    #[verifier::allow_in_spec]
    pub fn is_bound(self) -> bool
        returns
            self is Bound,
    {
        matches!(self, BindOutcome::Bound)
    }

    /// What [`message`](Self::message) says.
    pub open spec fn text(self) -> Seq<char> {
        match self {
            BindOutcome::Bound => "socket bound"@,
            BindOutcome::AddressInUse => "address is already in use"@,
            BindOutcome::AlreadyBound => "socket is already bound"@,
            BindOutcome::PermissionDenied => "binding this address requires privilege"@,
            BindOutcome::Failed(e) => "bind failed: "@ + e.text(),
        }
    }

    /// Every case says what happened, in its own words and with its own numbers.
    pub proof fn texts_say_what_happened(self)
        ensures
            self is Bound ==> self.text() == "socket bound"@,
            self is AddressInUse ==> self.text() == "address is already in use"@,
            self is AlreadyBound ==> self.text() == "socket is already bound"@,
            self is PermissionDenied ==> self.text() == "binding this address requires privilege"@,
            self matches BindOutcome::Failed(e) ==> self.text() == "bind failed: "@ + e.text(),
    {
    }

    /// A description for people.
    pub fn message(&self) -> (s: String)
        ensures
            s@ == self.text(),
    {
        match *self {
            BindOutcome::Bound => String::from_str("socket bound"),
            BindOutcome::AddressInUse => String::from_str("address is already in use"),
            BindOutcome::AlreadyBound => String::from_str("socket is already bound"),
            BindOutcome::PermissionDenied => String::from_str(
                "binding this address requires privilege",
            ),
            BindOutcome::Failed(e) => String::from_str("bind failed: ").concat(
                e.message().as_str(),
            ),
        }
    }
}

/// Only a result that is no error counts as success, and no two errors are
/// taken for one another.
pub proof fn bind_errors_stay_apart(a: i32, b: i32)
    ensures
        BindOutcome::from_raw(a) is Bound <==> a >= 0,
        a < 0 && BindOutcome::from_raw(a) == BindOutcome::from_raw(b) ==> a == b,
{
}

/// Why a `bind` request could not be built.
#[derive(Clone, Copy, Debug, PartialEq, Eq, Structural)]
pub enum BindError {
    /// The storage cannot hold a whole socket address.
    StoreTooSmall {
        /// Bytes it needs.
        needed: usize,
        /// Bytes the supplied storage has.
        got: usize,
    },
}

impl BindError {
    /// What [`message`](Self::message) says.
    pub open spec fn text(self) -> Seq<char> {
        match self {
            BindError::StoreTooSmall { needed, got } => "bind address storage needs "@ + decimal(
                needed as nat,
            ) + " bytes, got "@ + decimal(got as nat),
        }
    }

    /// Every case says what happened, in its own words and with its own numbers.
    pub proof fn texts_say_what_happened(self)
        ensures
            self matches BindError::StoreTooSmall { needed, got } ==> self.text()
                == "bind address storage needs "@ + decimal(needed as nat) + " bytes, got "@
                    + decimal(got as nat),
    {
    }

    /// A description for people.
    pub fn message(&self) -> (s: String)
        ensures
            s@ == self.text(),
    {
        match *self {
            BindError::StoreTooSmall { needed, got } => {
                let s = String::from_str("bind address storage needs ");
                let s = with_decimal(s, needed as u64);
                with_decimal(s.concat(" bytes, got "), got as u64)
            },
        }
    }
}

/// A `bind`: what is asked for.
pub struct BindRequest<S: StableBufferMut> {
    /// The socket.
    pub fd: RawFd,
    /// The address to bind to, where the kernel finds it.
    pub address: Staged<S, SockAddrIn>,
}

impl<S: StableBufferMut> BindRequest<S> {
    /// The submission that asks for it.
    pub open spec fn sqe(self) -> Sqe {
        Sqe::bind_ptr(self.fd, self.address.store().addr() as u64, 16)
    }

    /// The entry binds, operation 56, the socket to the 16 bytes of the address in
    /// its storage. It is not what a connect would send.
    pub proof fn binds_to_its_address(self)
        ensures
            self.sqe().0 == (IoUringSqe {
                opcode: 56,
                fd: self.fd.as_i32(),
                off: 16,
                addr: self.address.store().addr() as u64,
                ..blank()
            }),
            self.sqe() != Sqe::connect_ptr(self.fd, self.address.store().addr() as u64, 16),
    {
    }
}

/// A `bind` that owns its address but is not queued yet.
pub struct PreparedBind<S: StableBufferMut> {
    fd: RawFd,
    address: Staged<S, SockAddrIn>,
}

impl<S: StableBufferMut> View for PreparedBind<S> {
    type V = BindRequest<S>;

    closed spec fn view(&self) -> BindRequest<S> {
        BindRequest { fd: self.fd, address: self.address }
    }
}

impl<S: StableBufferMut> PreparedBind<S> {
    /// Prepare to bind `fd` to `addr`.
    ///
    /// Takes `store` to keep the address in.
    ///
    /// # Errors
    ///
    /// Returns the storage unchanged if it is too small.
    pub fn new(fd: RawFd, addr: SockAddrIn, store: S) -> (r: Result<Self, (S, BindError)>)
        ensures
            match r {
                Err((back, why)) => {
                    &&& back == store
                    &&& store.bytes().len() < 16
                    &&& why == (BindError::StoreTooSmall {
                        needed: 16,
                        got: store.bytes().len() as usize,
                    })
                },
                Ok(prepared) => {
                    &&& store.bytes().len() >= 16
                    &&& prepared@ == (BindRequest { fd, address: prepared@.address })
                    &&& prepared@.address.value() == addr
                    &&& prepared@.address.store().addr() == store.addr()
                    &&& prepared@.address.store().bytes() == overwritten(
                        store.bytes(),
                        0,
                        addr.encoded(),
                    )
                },
            },
    {
        match Staged::place(addr, store, 1) {
            Ok(address) => Ok(PreparedBind { fd, address }),
            Err((store, Misfit::TooSmall { needed, got })) => Err(
                (store, BindError::StoreTooSmall { needed, got }),
            ),
            Err((_, Misfit::Misaligned { .. })) => vstd::pervasive::unreached(),
        }
    }

    /// The socket.
    pub fn fd(&self) -> (r: RawFd)
        ensures
            r == self@.fd,
    {
        self.fd
    }

    /// The address.
    pub fn addr(&self) -> (r: SockAddrIn)
        ensures
            r == self@.address.value(),
    {
        *self.address.get()
    }

    /// The address bytes as the kernel will read them.
    ///
    /// Reads back the storage rather than rebuilding them.
    pub fn published(&self) -> (r: [u8; 16])
        ensures
            r@ == self@.address.value().encoded(),
            r@ == self@.address.store().bytes().subrange(0, 16),
    {
        proof {
            use_type_invariant(&self.address);
        }
        self.address.published().to_bytes()
    }

    /// Give the storage back, abandoning the request.
    pub fn into_store(self) -> (r: S)
        ensures
            r == self@.address.store(),
    {
        self.address.into_store()
    }

    /// Build the submission and move to the pending state.
    pub fn into_pending(self, ring: RingId, id: RequestId) -> (r: (Sqe, PendingBind<S>))
        ensures
            r.0 == self@.sqe().user_data(id.raw()),
            r.1@ == (Ticket { ring, id, request: self@ }),
    {
        let sqe = Sqe::bind_ptr(self.fd, self.address.addr(), 16);
        let pending = PendingBind {
            fd: self.fd,
            address: ManuallyDrop::new(self.address),
            ring,
            id,
        };
        (sqe.user_data(id.raw()), pending)
    }
}

/// A submitted `bind` whose address the kernel may be reading.
///
/// The socket is borrowed, so only the storage is at stake.
///
/// Dropping it runs no destructor for the storage: it leaks rather than
/// being freed underneath the kernel.
#[must_use]
pub struct PendingBind<S: StableBufferMut> {
    fd: RawFd,
    address: ManuallyDrop<Staged<S, SockAddrIn>>,
    ring: RingId,
    id: RequestId,
}

impl<S: StableBufferMut> View for PendingBind<S> {
    type V = Ticket<BindRequest<S>>;

    closed spec fn view(&self) -> Ticket<BindRequest<S>> {
        Ticket {
            ring: self.ring,
            id: self.id,
            request: BindRequest {
                fd: self.fd,
                address: self.address@,
            },
        }
    }
}

impl<S: StableBufferMut> PendingBind<S> {
    /// Identity the kernel echoes back in this request's completion.
    pub fn id(&self) -> (r: RequestId)
        ensures
            r == self@.id,
    {
        self.id
    }

    /// Identity of the queue that accepted this request.
    pub fn ring(&self) -> (r: RingId)
        ensures
            r == self@.ring,
    {
        self.ring
    }

    /// Whether `receipt` ends this very request.
    pub fn matches(&self, receipt: &Receipt) -> (r: bool)
        ensures
            r == receipt.belongs_to(self@.ring, self@.id),
    {
        receipt.belongs_to(self.ring, self.id)
    }

    /// The address.
    pub fn addr(&self) -> (r: SockAddrIn)
        ensures
            r == self@.request.address.value(),
    {
        *self.address.get()
    }

    /// Take the request back without a receipt, undoing a failed push.
    ///
    /// Only for a submission that the kernel has never seen.
    pub fn reclaim_unsubmitted(self) -> (r: PreparedBind<S>)
        ensures
            r@ == self@.request,
    {
        PreparedBind {
            fd: self.fd,
            address: ManuallyDrop::into_inner(self.address),
        }
    }

    /// Trade a matching receipt for the outcome and the storage.
    ///
    /// The kernel only reads the storage, so it comes back as it was.
    ///
    /// # Errors
    ///
    /// Returns the ticket and receipt unchanged if the receipt belongs to
    /// another request or another ring.
    pub fn redeem(self, receipt: Receipt) -> (r: Result<BindDone<S>, (Self, Receipt)>)
        ensures
            match r {
                Err((ticket, back)) => {
                    &&& !receipt.belongs_to(self@.ring, self@.id)
                    &&& ticket@ == self@
                    &&& back == receipt
                },
                Ok(done) => {
                    &&& receipt.belongs_to(self@.ring, self@.id)
                    &&& done@ == (Done {
                        id: self@.id,
                        result: receipt.raw_result(),
                        request: self@.request,
                    })
                },
            },
    {
        if !self.matches(&receipt) {
            return Err((self, receipt));
        }
        Ok(
            BindDone {
                fd: self.fd,
                address: ManuallyDrop::into_inner(self.address),
                id: self.id,
                result: receipt.raw_result(),
            },
        )
    }
}

/// A finished `bind`: how it ended, and the storage back.
pub struct BindDone<S: StableBufferMut> {
    fd: RawFd,
    address: Staged<S, SockAddrIn>,
    id: RequestId,
    result: i32,
}

impl<S: StableBufferMut> View for BindDone<S> {
    type V = Done<BindRequest<S>>;

    closed spec fn view(&self) -> Done<BindRequest<S>> {
        Done {
            id: self.id,
            result: self.result,
            request: BindRequest { fd: self.fd, address: self.address },
        }
    }
}

impl<S: StableBufferMut> BindDone<S> {
    /// Identity of the request this completes.
    pub fn id(&self) -> (r: RequestId)
        ensures
            r == self@.id,
    {
        self.id
    }

    /// The raw result: 0, or a negated error number.
    pub fn raw_result(&self) -> (r: i32)
        ensures
            r == self@.result,
    {
        self.result
    }

    /// How the request ended.
    pub fn outcome(&self) -> (r: BindOutcome)
        ensures
            r == BindOutcome::from_raw(self@.result),
    {
        BindOutcome::from_raw(self.result)
    }

    /// The address.
    pub fn addr(&self) -> (r: SockAddrIn)
        ensures
            r == self@.request.address.value(),
    {
        *self.address.get()
    }

    /// Take the storage back for reuse.
    pub fn into_store(self) -> (r: S)
        ensures
            r == self@.request.address.store(),
    {
        self.address.into_store()
    }

    /// Take the outcome and the storage together.
    pub fn into_parts(self) -> (r: (BindOutcome, S))
        ensures
            r.0 == BindOutcome::from_raw(self@.result),
            r.1 == self@.request.address.store(),
    {
        (BindOutcome::from_raw(self.result), self.address.into_store())
    }
}

/// A bind succeeded unless its result is negative. Error 98 means that the
/// address is taken, 22 that the socket has one, 13 that it may not have this
/// one; any other keeps its number.
pub proof fn bind_results_are_named(result: i32)
    ensures
        BindOutcome::from_raw(result) is Bound <==> result >= 0,
        BindOutcome::from_raw(result) is AddressInUse <==> result == -98,
        BindOutcome::from_raw(result) is AlreadyBound <==> result == -22,
        BindOutcome::from_raw(result) is PermissionDenied <==> result == -13,
        BindOutcome::from_raw(result) matches BindOutcome::Failed(e) ==> {
            &&& result < 0
            &&& e.0 == (if result == -0x8000_0000 { result as int } else { 0 - result })
        },
        BindOutcome::from_raw(result).is_bound() <==> result >= 0,
{
}

} // verus!
