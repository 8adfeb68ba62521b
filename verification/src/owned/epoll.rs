//! `epoll_ctl`, where one of the three changes reads nothing.
//!
//! The kernel finds an event at `addr` and the change in `len`. It reads the
//! event to add or modify a registration, and ignores it to remove one, so
//! only the first two [`EpollChange`]s carry one. Removing publishes zero
//! bytes: nothing in the submission says that an address will not be read.

use super::buffer::StableBufferMut;
use super::identity::{RequestId, RingId};
use super::lifecycle::{Done, Ticket};
use super::request::Receipt;
use super::staged::{misfit, Misfit, Staged};
use crate::bytes::overwritten;
use crate::error::Errno;
use crate::op::{blank, IoUringSqe, Sqe};
use crate::text::{decimal, with_decimal};
use crate::types::abi::{Abi, EpollEvent};
use crate::types::codes::EpollOp;
use crate::types::fd::RawFd;
use crate::types::flags::EpollEvents;
use core::mem::ManuallyDrop;
use vstd::prelude::*;
use vstd::string::StringExecFns;

verus! {

/// What a request changes about one descriptor's registration.
#[derive(Clone, Copy, Debug, PartialEq, Eq, Structural)]
pub enum EpollChange {
    /// Register the descriptor; fails if it already is.
    Add {
        /// Events to watch for.
        events: EpollEvents,
        /// Value reported back with each event.
        data: u64,
    },
    /// Replace a registration; fails if there is none.
    Mod {
        /// Events to watch for.
        events: EpollEvents,
        /// Value reported back with each event.
        data: u64,
    },
    /// Remove the registration. The kernel reads no event for this.
    Del,
}

impl EpollChange {
    /// The kernel's code for it.
    #[verifier::allow_in_spec]
    pub fn op(self) -> EpollOp
        returns
            (match self {
                EpollChange::Add { .. } => EpollOp::Add,
                EpollChange::Mod { .. } => EpollOp::Mod,
                EpollChange::Del => EpollOp::Del,
            }),
    {
        match self {
            EpollChange::Add { .. } => EpollOp::Add,
            EpollChange::Mod { .. } => EpollOp::Mod,
            EpollChange::Del => EpollOp::Del,
        }
    }

    /// The event published with it: all zero for a removal.
    #[verifier::allow_in_spec]
    pub fn event(self) -> EpollEvent
        returns
            (match self {
                EpollChange::Add { events, data } => EpollEvent { events: events.bits(), data },
                EpollChange::Mod { events, data } => EpollEvent { events: events.bits(), data },
                EpollChange::Del => EpollEvent { events: 0, data: 0 },
            }),
    {
        match self {
            EpollChange::Add { events, data } => EpollEvent { events: events.bits(), data },
            EpollChange::Mod { events, data } => EpollEvent { events: events.bits(), data },
            EpollChange::Del => EpollEvent { events: 0, data: 0 },
        }
    }
}

/// How an `epoll_ctl` ended.
#[derive(Clone, Copy, Debug, PartialEq, Eq, Structural)]
pub enum EpollOutcome {
    /// The change was made.
    Applied,
    /// The descriptor to add is registered already.
    AlreadyRegistered,
    /// The descriptor to modify or remove is not registered.
    NotRegistered,
    /// The kernel refused for another reason.
    Failed(Errno),
}

impl EpollOutcome {
    /// Classify a raw result.
    #[verifier::allow_in_spec]
    pub fn from_raw(result: i32) -> Self
        returns
            (if result == -17 {
                EpollOutcome::AlreadyRegistered
            } else if result == -2 {
                EpollOutcome::NotRegistered
            } else if result < 0 {
                EpollOutcome::Failed(Errno::from_negated(result))
            } else {
                EpollOutcome::Applied
            }),
    {
        if result == -17 {
            EpollOutcome::AlreadyRegistered
        } else if result == -2 {
            EpollOutcome::NotRegistered
        } else if result < 0 {
            EpollOutcome::Failed(Errno::from_negated(result))
        } else {
            EpollOutcome::Applied
        }
    }

    /// Whether the epoll set now reflects the change.
    #[verifier::allow_in_spec]
    pub fn is_applied(self) -> bool
        returns
            self is Applied,
    {
        matches!(self, EpollOutcome::Applied)
    }

    /// What [`message`](Self::message) says.
    pub open spec fn text(self) -> Seq<char> {
        match self {
            EpollOutcome::Applied => "epoll registration updated"@,
            EpollOutcome::AlreadyRegistered => "descriptor is already registered"@,
            EpollOutcome::NotRegistered => "descriptor is not registered"@,
            EpollOutcome::Failed(e) => "epoll_ctl failed: "@ + e.text(),
        }
    }

    /// Every case says what happened, in its own words and with its own numbers.
    pub proof fn texts_say_what_happened(self)
        ensures
            self is Applied ==> self.text() == "epoll registration updated"@,
            self is AlreadyRegistered ==> self.text() == "descriptor is already registered"@,
            self is NotRegistered ==> self.text() == "descriptor is not registered"@,
            self matches EpollOutcome::Failed(e) ==> self.text()
                == "epoll_ctl failed: "@ + e.text(),
    {
    }

    /// A description for people.
    pub fn message(&self) -> (s: String)
        ensures
            s@ == self.text(),
    {
        match *self {
            EpollOutcome::Applied => String::from_str("epoll registration updated"),
            EpollOutcome::AlreadyRegistered => String::from_str("descriptor is already registered"),
            EpollOutcome::NotRegistered => String::from_str("descriptor is not registered"),
            EpollOutcome::Failed(e) => String::from_str("epoll_ctl failed: ").concat(
                e.message().as_str(),
            ),
        }
    }
}

/// Only a result that is no error counts as success, and no two errors are
/// taken for one another.
pub proof fn epoll_errors_stay_apart(a: i32, b: i32)
    ensures
        EpollOutcome::from_raw(a) is Applied <==> a >= 0,
        a < 0 && EpollOutcome::from_raw(a) == EpollOutcome::from_raw(b) ==> a == b,
{
}

/// Why an `epoll_ctl` request could not be built.
#[derive(Clone, Copy, Debug, PartialEq, Eq, Structural)]
pub enum EpollError {
    /// The storage cannot hold a whole [`EpollEvent`].
    StoreTooSmall {
        /// Bytes it needs.
        needed: usize,
        /// Bytes the supplied storage has.
        got: usize,
    },
    /// The storage is not aligned for a whole [`EpollEvent`].
    StoreMisaligned {
        /// Alignment it needs.
        needed: usize,
    },
}

impl EpollError {
    /// What [`message`](Self::message) says.
    pub open spec fn text(self) -> Seq<char> {
        match self {
            EpollError::StoreTooSmall { needed, got } => "epoll_event storage needs "@ + decimal(
                needed as nat,
            ) + " bytes, got "@ + decimal(got as nat),
            EpollError::StoreMisaligned { needed } => "epoll_event storage must be "@ + decimal(
                needed as nat,
            ) + "-byte aligned"@,
        }
    }

    /// Every case says what happened, in its own words and with its own numbers.
    pub proof fn texts_say_what_happened(self)
        ensures
            self matches EpollError::StoreTooSmall { needed, got } ==> self.text()
                == "epoll_event storage needs "@ + decimal(needed as nat) + " bytes, got "@
                    + decimal(got as nat),
            self matches EpollError::StoreMisaligned { needed } ==> self.text()
                == "epoll_event storage must be "@ + decimal(needed as nat) + "-byte aligned"@,
    {
    }

    /// A description for people.
    pub fn message(&self) -> (s: String)
        ensures
            s@ == self.text(),
    {
        match *self {
            EpollError::StoreTooSmall { needed, got } => {
                let s = with_decimal(String::from_str("epoll_event storage needs "), needed as u64);
                with_decimal(s.concat(" bytes, got "), got as u64)
            },
            EpollError::StoreMisaligned { needed } => {
                let s = String::from_str("epoll_event storage must be ");
                let s = with_decimal(s, needed as u64);
                s.concat("-byte aligned")
            },
        }
    }
}

impl EpollError {
    /// What is wrong with the storage.
    pub open spec fn misfit(self) -> Misfit {
        match self {
            EpollError::StoreTooSmall { needed, got } => Misfit::TooSmall { needed, got },
            EpollError::StoreMisaligned { needed } => Misfit::Misaligned { needed },
        }
    }
}

/// An `epoll_ctl`: what is asked for.
pub struct EpollCtlRequest<S: StableBufferMut> {
    /// The epoll set.
    pub epoll: RawFd,
    /// The descriptor whose registration changes.
    pub target: RawFd,
    /// What changes.
    pub change: EpollChange,
    /// The event, where the kernel finds it.
    pub event: Staged<S, EpollEvent>,
}

impl<S: StableBufferMut> EpollCtlRequest<S> {
    /// The submission that asks for it.
    pub open spec fn sqe(self) -> Sqe {
        Sqe::epoll_ctl_ptr(
            self.epoll.as_i32(),
            self.change.op(),
            self.target.as_i32(),
            self.event.store().addr() as u64,
        )
    }

    /// The entry changes an epoll set, operation 29: it adds, 1, changes, 3, or
    /// removes, 2, the descriptor, with the event in its storage.
    pub proof fn changes_its_registration(self)
        ensures
            self.change is Add ==> self.sqe().0 == (IoUringSqe {
                opcode: 29,
                fd: self.epoll.as_i32(),
                off: self.target.as_i32() as u64,
                addr: self.event.store().addr() as u64,
                len: 1,
                ..blank()
            }),
            self.change is Mod ==> self.sqe().0 == (IoUringSqe {
                opcode: 29,
                fd: self.epoll.as_i32(),
                off: self.target.as_i32() as u64,
                addr: self.event.store().addr() as u64,
                len: 3,
                ..blank()
            }),
            self.change is Del ==> self.sqe().0 == (IoUringSqe {
                opcode: 29,
                fd: self.epoll.as_i32(),
                off: self.target.as_i32() as u64,
                addr: self.event.store().addr() as u64,
                len: 2,
                ..blank()
            }),
    {
    }
}

/// An `epoll_ctl` that owns its event but is not queued yet.
pub struct PreparedEpollCtl<S: StableBufferMut> {
    epoll: RawFd,
    target: RawFd,
    change: EpollChange,
    event: Staged<S, EpollEvent>,
}

impl<S: StableBufferMut> View for PreparedEpollCtl<S> {
    type V = EpollCtlRequest<S>;

    closed spec fn view(&self) -> EpollCtlRequest<S> {
        EpollCtlRequest {
            epoll: self.epoll,
            target: self.target,
            change: self.change,
            event: self.event,
        }
    }
}

impl<S: StableBufferMut> PreparedEpollCtl<S> {
    /// Change the registration of `target` in the set `epoll`.
    ///
    /// Takes `store` to keep the event in.
    ///
    /// # Errors
    ///
    /// Returns the storage unchanged if it is too small or misaligned.
    pub fn new(epoll: RawFd, target: RawFd, change: EpollChange, store: S) -> (r: Result<
        Self,
        (S, EpollError),
    >)
        ensures
            match r {
                Err((back, why)) => {
                    &&& back == store
                    &&& misfit(
                        EpollEvent::spec_size(),
                        EpollEvent::spec_align() as usize,
                        store.bytes().len(),
                        store.addr(),
                    ) == Some(why.misfit())
                },
                Ok(prepared) => {
                    &&& misfit(
                        EpollEvent::spec_size(),
                        EpollEvent::spec_align() as usize,
                        store.bytes().len(),
                        store.addr(),
                    ) is None
                    &&& prepared@ == (EpollCtlRequest {
                        epoll,
                        target,
                        change,
                        event: prepared@.event,
                    })
                    &&& prepared@.event.value() == change.event()
                    &&& prepared@.event.store().addr() == store.addr()
                    &&& prepared@.event.store().bytes() == overwritten(
                        store.bytes(),
                        0,
                        change.event().encoded(),
                    )
                },
            },
    {
        match Staged::place(change.event(), store, 1) {
            Ok(event) => Ok(PreparedEpollCtl { epoll, target, change, event }),
            Err((store, Misfit::TooSmall { needed, got })) => Err(
                (store, EpollError::StoreTooSmall { needed, got }),
            ),
            Err((store, Misfit::Misaligned { needed })) => Err(
                (store, EpollError::StoreMisaligned { needed }),
            ),
        }
    }

    /// The epoll set.
    pub fn epoll(&self) -> (r: RawFd)
        ensures
            r == self@.epoll,
    {
        self.epoll
    }

    /// The descriptor whose registration changes.
    pub fn target(&self) -> (r: RawFd)
        ensures
            r == self@.target,
    {
        self.target
    }

    /// What changes.
    pub fn change(&self) -> (r: EpollChange)
        ensures
            r == self@.change,
    {
        self.change
    }

    /// The event as the kernel will read it.
    ///
    /// Reads back the storage rather than rebuilding it.
    pub fn published(&self) -> (r: EpollEvent)
        ensures
            r == self@.event.value(),
            r == EpollEvent::decoded(
                self@.event.store().bytes().subrange(0, EpollEvent::spec_size() as int),
            ),
    {
        self.event.published()
    }

    /// Give the storage back, abandoning the request.
    pub fn into_store(self) -> (r: S)
        ensures
            r == self@.event.store(),
    {
        self.event.into_store()
    }

    /// Build the submission and move to the pending state.
    pub fn into_pending(self, ring: RingId, id: RequestId) -> (r: (Sqe, PendingEpollCtl<S>))
        ensures
            r.0 == self@.sqe().user_data(id.raw()),
            r.1@ == (Ticket { ring, id, request: self@ }),
    {
        let sqe = Sqe::epoll_ctl_ptr(
            self.epoll.as_i32(),
            self.change.op(),
            self.target.as_i32(),
            self.event.addr(),
        );
        let pending = PendingEpollCtl {
            epoll: self.epoll,
            target: self.target,
            change: self.change,
            event: ManuallyDrop::new(self.event),
            ring,
            id,
        };
        (sqe.user_data(id.raw()), pending)
    }
}

/// A submitted `epoll_ctl` whose event the kernel may be reading.
///
/// Both descriptors are borrowed, so only the storage is at stake.
///
/// Dropping it runs no destructor for the storage: it leaks rather than
/// being freed underneath the kernel.
#[must_use]
pub struct PendingEpollCtl<S: StableBufferMut> {
    epoll: RawFd,
    target: RawFd,
    change: EpollChange,
    event: ManuallyDrop<Staged<S, EpollEvent>>,
    ring: RingId,
    id: RequestId,
}

impl<S: StableBufferMut> View for PendingEpollCtl<S> {
    type V = Ticket<EpollCtlRequest<S>>;

    closed spec fn view(&self) -> Ticket<EpollCtlRequest<S>> {
        Ticket {
            ring: self.ring,
            id: self.id,
            request: EpollCtlRequest {
                epoll: self.epoll,
                target: self.target,
                change: self.change,
                event: self.event@,
            },
        }
    }
}

impl<S: StableBufferMut> PendingEpollCtl<S> {
    /// Identity the kernel echoes back in this request's completion.
    pub fn id(&self) -> (r: RequestId)
        ensures
            r == self@.id,
    {
        self.id
    }

    /// Identity of the queue that accepted this request.
    pub fn ring(&self) -> (r: RingId)
        ensures
            r == self@.ring,
    {
        self.ring
    }

    /// Whether `receipt` ends this very request.
    pub fn matches(&self, receipt: &Receipt) -> (r: bool)
        ensures
            r == receipt.belongs_to(self@.ring, self@.id),
    {
        receipt.belongs_to(self.ring, self.id)
    }

    /// What changes.
    pub fn change(&self) -> (r: EpollChange)
        ensures
            r == self@.request.change,
    {
        self.change
    }

    /// Take the request back without a receipt, undoing a failed push.
    ///
    /// Only for a submission that the kernel has never seen.
    pub fn reclaim_unsubmitted(self) -> (r: PreparedEpollCtl<S>)
        ensures
            r@ == self@.request,
    {
        PreparedEpollCtl {
            epoll: self.epoll,
            target: self.target,
            change: self.change,
            event: ManuallyDrop::into_inner(self.event),
        }
    }

    /// Trade a matching receipt for the outcome and the storage.
    ///
    /// The kernel only reads the storage, so it comes back as it was.
    ///
    /// # Errors
    ///
    /// Returns the ticket and receipt unchanged if the receipt belongs to
    /// another request or another ring.
    pub fn redeem(self, receipt: Receipt) -> (r: Result<EpollCtlDone<S>, (Self, Receipt)>)
        ensures
            match r {
                Err((ticket, back)) => {
                    &&& !receipt.belongs_to(self@.ring, self@.id)
                    &&& ticket@ == self@
                    &&& back == receipt
                },
                Ok(done) => {
                    &&& receipt.belongs_to(self@.ring, self@.id)
                    &&& done@ == (Done {
                        id: self@.id,
                        result: receipt.raw_result(),
                        request: self@.request,
                    })
                },
            },
    {
        if !self.matches(&receipt) {
            return Err((self, receipt));
        }
        Ok(
            EpollCtlDone {
                epoll: self.epoll,
                target: self.target,
                change: self.change,
                event: ManuallyDrop::into_inner(self.event),
                id: self.id,
                result: receipt.raw_result(),
            },
        )
    }
}

/// A finished `epoll_ctl`: how it ended, and the storage back.
pub struct EpollCtlDone<S: StableBufferMut> {
    epoll: RawFd,
    target: RawFd,
    change: EpollChange,
    event: Staged<S, EpollEvent>,
    id: RequestId,
    result: i32,
}

impl<S: StableBufferMut> View for EpollCtlDone<S> {
    type V = Done<EpollCtlRequest<S>>;

    closed spec fn view(&self) -> Done<EpollCtlRequest<S>> {
        Done {
            id: self.id,
            result: self.result,
            request: EpollCtlRequest {
                epoll: self.epoll,
                target: self.target,
                change: self.change,
                event: self.event,
            },
        }
    }
}

impl<S: StableBufferMut> EpollCtlDone<S> {
    /// Identity of the request this completes.
    pub fn id(&self) -> (r: RequestId)
        ensures
            r == self@.id,
    {
        self.id
    }

    /// The raw result: 0, or a negated error number.
    pub fn raw_result(&self) -> (r: i32)
        ensures
            r == self@.result,
    {
        self.result
    }

    /// How the request ended.
    pub fn outcome(&self) -> (r: EpollOutcome)
        ensures
            r == EpollOutcome::from_raw(self@.result),
    {
        EpollOutcome::from_raw(self.result)
    }

    /// What was to change.
    pub fn change(&self) -> (r: EpollChange)
        ensures
            r == self@.request.change,
    {
        self.change
    }

    /// Take the storage back for reuse.
    pub fn into_store(self) -> (r: S)
        ensures
            r == self@.request.event.store(),
    {
        self.event.into_store()
    }

    /// Take the outcome and the storage together.
    pub fn into_parts(self) -> (r: (EpollOutcome, S))
        ensures
            r.0 == EpollOutcome::from_raw(self@.result),
            r.1 == self@.request.event.store(),
    {
        (EpollOutcome::from_raw(self.result), self.event.into_store())
    }
}

/// A change was made unless its result is negative. Error 17 means that the
/// descriptor is registered already, 2 that it is not; any other keeps its
/// number.
pub proof fn epoll_results_are_named(result: i32)
    ensures
        EpollOutcome::from_raw(result) is Applied <==> result >= 0,
        EpollOutcome::from_raw(result) is AlreadyRegistered <==> result == -17,
        EpollOutcome::from_raw(result) is NotRegistered <==> result == -2,
        EpollOutcome::from_raw(result) matches EpollOutcome::Failed(e) ==> {
            &&& result < 0
            &&& e.0 == (if result == -0x8000_0000 { result as int } else { 0 - result })
        },
        EpollOutcome::from_raw(result).is_applied() <==> result >= 0,
{
}

/// What is registered is what was asked for: the events and the value of an
/// addition or a change, nothing for a removal.
pub proof fn changes_carry_their_event(events: EpollEvents, data: u64)
    ensures
        (EpollChange::Add { events, data }).op().as_raw() == 1,
        (EpollChange::Mod { events, data }).op().as_raw() == 3,
        EpollChange::Del.op().as_raw() == 2,
        (EpollChange::Add { events, data }).event().events == events.0,
        (EpollChange::Add { events, data }).event().data == data,
        (EpollChange::Mod { events, data }).event().events == events.0,
        (EpollChange::Mod { events, data }).event().data == data,
        EpollChange::Del.event().events == 0,
        EpollChange::Del.event().data == 0,
{
}

} // verus!
