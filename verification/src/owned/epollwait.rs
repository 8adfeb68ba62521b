//! `epoll_wait`, whose events the kernel writes to owned storage.
//!
//! The storage is checked for alignment and for room for at least one event
//! before the request can exist; as many events as fit are asked for. The
//! result is how many were reported. None is an ordinary answer.

use super::array::{decode_all, element};
use super::buffer::{same_place, StableBuffer, StableBufferMut};
use super::identity::{RequestId, RingId};
use super::lifecycle::{Done, Ticket};
use super::request::Receipt;
use super::staged::{misfit, Misfit};
use crate::error::Error;
use crate::op::{blank, IoUringSqe, Sqe};
use crate::text::{decimal, with_decimal};
use crate::types::abi::{Abi, EpollEvent};
use crate::types::fd::RawFd;
use core::mem::ManuallyDrop;
use vstd::prelude::*;
use vstd::string::StringExecFns;

verus! {

/// Why an `epoll_wait` request could not be built.
#[derive(Clone, Copy, Debug, PartialEq, Eq, Structural)]
pub enum EpollWaitError {
    /// The storage cannot hold even one event.
    StoreTooSmall {
        /// Bytes one event needs.
        needed: usize,
        /// Bytes the supplied storage has.
        got: usize,
    },
    /// The storage is not aligned for events.
    StoreMisaligned {
        /// Alignment an event needs.
        needed: usize,
    },
}

impl EpollWaitError {
    /// What [`message`](Self::message) says.
    pub open spec fn text(self) -> Seq<char> {
        match self {
            EpollWaitError::StoreTooSmall { needed, got } => "epoll_wait storage needs at least "@
                + decimal(needed as nat) + " bytes, got "@ + decimal(got as nat),
            EpollWaitError::StoreMisaligned { needed } => "epoll_wait storage must be "@
                + decimal(needed as nat) + "-byte aligned"@,
        }
    }

    /// Every case says what happened, in its own words and with its own numbers.
    pub proof fn texts_say_what_happened(self)
        ensures
            self matches EpollWaitError::StoreTooSmall { needed, got } ==> self.text()
                == "epoll_wait storage needs at least "@ + decimal(needed as nat)
                    + " bytes, got "@ + decimal(got as nat),
            self matches EpollWaitError::StoreMisaligned { needed } ==> self.text()
                == "epoll_wait storage must be "@ + decimal(needed as nat) + "-byte aligned"@,
    {
    }

    /// A description for people.
    pub fn message(&self) -> (s: String)
        ensures
            s@ == self.text(),
    {
        match *self {
            EpollWaitError::StoreTooSmall { needed, got } => {
                let s = String::from_str("epoll_wait storage needs at least ");
                let s = with_decimal(s, needed as u64);
                let s = s.concat(" bytes, got ");
                with_decimal(s, got as u64)
            },
            EpollWaitError::StoreMisaligned { needed } => {
                let s = String::from_str("epoll_wait storage must be ");
                let s = with_decimal(s, needed as u64);
                s.concat("-byte aligned")
            },
        }
    }
}

impl EpollWaitError {
    /// What is wrong with the storage.
    pub open spec fn misfit(self) -> Misfit {
        match self {
            EpollWaitError::StoreTooSmall { needed, got } => Misfit::TooSmall { needed, got },
            EpollWaitError::StoreMisaligned { needed } => Misfit::Misaligned { needed },
        }
    }
}

/// Why `store` cannot hold an event, if it cannot.
pub open spec fn event_misfit<D: StableBuffer>(store: D) -> Option<Misfit> {
    misfit(
        EpollEvent::spec_size(),
        EpollEvent::spec_align() as usize,
        store.bytes().len(),
        store.addr(),
    )
}

/// How many events fit in `len` bytes, as far as the kernel can be told.
pub open spec fn room(len: nat) -> u32 {
    if len / EpollEvent::spec_size() > u32::MAX {
        u32::MAX
    } else {
        (len / EpollEvent::spec_size()) as u32
    }
}

/// The largest count up to `slots` that the kernel can be told.
fn clamp_max_events(slots: usize) -> (n: u32)
    ensures
        n == (if slots > u32::MAX {
            u32::MAX
        } else {
            slots as u32
        }),
{
    if slots > u32::MAX as usize {
        u32::MAX
    } else {
        slots as u32
    }
}

/// An `epoll_wait`: what is asked for.
pub struct EpollWaitRequest<D> {
    /// The epoll set.
    pub epfd: RawFd,
    /// Where the events go.
    pub store: D,
}

impl<D: StableBuffer> EpollWaitRequest<D> {
    /// The submission that asks for it.
    pub open spec fn sqe(self) -> Sqe {
        Sqe::epoll_wait_ptr(self.epfd, self.store.addr() as u64, room(self.store.bytes().len()))
    }

    /// The entry waits, operation 59, for events of the set, and they go to the
    /// storage: as many as it has whole 12-byte places, or as the kernel can be
    /// told.
    pub proof fn reports_to_its_storage(self)
        ensures
            self.sqe().0 == (IoUringSqe {
                opcode: 59,
                fd: self.epfd.as_i32(),
                addr: self.store.addr() as u64,
                len: room(self.store.bytes().len()),
                ..blank()
            }),
            self.sqe().0.len == 0xffff_ffff || self.store.bytes().len() - 12 < self.sqe().0.len
                * 12,
            self.sqe().0.len * 12 <= self.store.bytes().len(),
    {
    }

    /// The kernel is never told to write more events than the storage holds.
    pub proof fn stays_inside_the_storage(self)
        ensures
            self.sqe().0.len * EpollEvent::spec_size() <= self.store.bytes().len(),
            self.sqe().0.addr == self.store.addr(),
    {
    }
}

/// An `epoll_wait` that owns its storage but is not queued yet.
pub struct PreparedEpollWait<D: StableBufferMut> {
    store: D,
    epfd: RawFd,
    max_events: u32,
}

impl<D: StableBufferMut> View for PreparedEpollWait<D> {
    type V = EpollWaitRequest<D>;

    closed spec fn view(&self) -> EpollWaitRequest<D> {
        EpollWaitRequest { epfd: self.epfd, store: self.store }
    }
}

impl<D: StableBufferMut> PreparedEpollWait<D> {
    /// As many events as fit are asked for, and at least one.
    #[verifier::type_invariant]
    pub closed spec fn wf(self) -> bool {
        &&& self.max_events == room(self.store.bytes().len())
        &&& self.max_events > 0
    }

    /// Wait on `epfd`, with room for as many events as `store` holds.
    ///
    /// # Errors
    ///
    /// Returns the storage unchanged if it is too small for one event, or
    /// else if it is misaligned.
    pub fn new(epfd: RawFd, store: D) -> (r: Result<Self, (D, EpollWaitError)>)
        ensures
            match r {
                Err((back, why)) => {
                    &&& back == store
                    &&& event_misfit(store) == Some(why.misfit())
                },
                Ok(prepared) => {
                    &&& event_misfit(store) is None
                    &&& prepared@ == (EpollWaitRequest { epfd, store })
                },
            },
    {
        let needed: usize = EpollEvent::size_of();
        let got: usize = store.stable_len();
        if got < needed {
            return Err((store, EpollWaitError::StoreTooSmall { needed, got }));
        }
        let align: usize = EpollEvent::align_of();
        if !store.stable_ptr().is_multiple_of(align) {
            return Err((store, EpollWaitError::StoreMisaligned { needed: align }));
        }
        let max_events: u32 = clamp_max_events(got / needed);
        Ok(PreparedEpollWait { store, epfd, max_events })
    }

    /// The epoll set.
    pub fn epfd(&self) -> (r: RawFd)
        ensures
            r == self@.epfd,
    {
        self.epfd
    }

    /// How many events there is room for. Never none.
    pub fn max_events(&self) -> (r: u32)
        ensures
            r == room(self@.store.bytes().len()),
            r > 0,
    {
        proof {
            use_type_invariant(self);
        }
        self.max_events
    }

    /// Give the storage back, abandoning the request.
    pub fn into_store(self) -> (r: D)
        ensures
            r == self@.store,
    {
        self.store
    }

    /// Build the submission and move to the pending state.
    pub fn into_pending(self, ring: RingId, id: RequestId) -> (r: (Sqe, PendingEpollWait<D>))
        ensures
            r.0 == self@.sqe().user_data(id.raw()),
            r.1@ == (Ticket { ring, id, request: self@ }),
    {
        proof {
            use_type_invariant(&self);
        }
        let sqe = Sqe::epoll_wait_ptr(
            self.epfd,
            self.store.stable_ptr() as u64,
            self.max_events,
        );
        let pending = PendingEpollWait {
            store: ManuallyDrop::new(self.store),
            ring,
            id,
            epfd: self.epfd,
            max_events: self.max_events,
        };
        (sqe.user_data(id.raw()), pending)
    }
}

/// A submitted `epoll_wait` whose storage the kernel may be writing.
///
/// Dropping it runs no destructor for the storage: it leaks rather than
/// being freed underneath the kernel.
#[must_use]
pub struct PendingEpollWait<D: StableBufferMut> {
    store: ManuallyDrop<D>,
    ring: RingId,
    id: RequestId,
    epfd: RawFd,
    max_events: u32,
}

impl<D: StableBufferMut> View for PendingEpollWait<D> {
    type V = Ticket<EpollWaitRequest<D>>;

    closed spec fn view(&self) -> Ticket<EpollWaitRequest<D>> {
        Ticket {
            ring: self.ring,
            id: self.id,
            request: EpollWaitRequest { epfd: self.epfd, store: self.store@ },
        }
    }
}

impl<D: StableBufferMut> PendingEpollWait<D> {
    /// As many events as fit are asked for, and at least one.
    #[verifier::type_invariant]
    pub closed spec fn wf(self) -> bool {
        &&& self.max_events == room(self.store@.bytes().len())
        &&& self.max_events > 0
    }

    /// Identity the kernel echoes back in this request's completion.
    pub fn id(&self) -> (r: RequestId)
        ensures
            r == self@.id,
    {
        self.id
    }

    /// Identity of the queue that accepted this request.
    pub fn ring(&self) -> (r: RingId)
        ensures
            r == self@.ring,
    {
        self.ring
    }

    /// Whether `receipt` ends this very request.
    pub fn matches(&self, receipt: &Receipt) -> (r: bool)
        ensures
            r == receipt.belongs_to(self@.ring, self@.id),
    {
        receipt.belongs_to(self.ring, self.id)
    }

    /// Take the request back without a receipt, undoing a failed push.
    ///
    /// Only for a submission that the kernel has never seen.
    pub fn reclaim_unsubmitted(self) -> (r: PreparedEpollWait<D>)
        ensures
            r@ == self@.request,
    {
        proof {
            use_type_invariant(&self);
        }
        PreparedEpollWait {
            store: ManuallyDrop::into_inner(self.store),
            epfd: self.epfd,
            max_events: self.max_events,
        }
    }

    /// Trade a matching receipt for the events and the storage.
    ///
    /// The kernel has written the reported events to the storage, so only its
    /// place and size are known, and that the rest of it is as it was.
    ///
    /// # Errors
    ///
    /// Returns the ticket and receipt unchanged if the receipt belongs to
    /// another request or another ring.
    pub fn redeem(self, receipt: Receipt) -> (r: Result<EpollWaitCompleted<D>, (Self, Receipt)>)
        ensures
            match r {
                Err((ticket, back)) => {
                    &&& !receipt.belongs_to(self@.ring, self@.id)
                    &&& ticket@ == self@
                    &&& back == receipt
                },
                Ok(done) => {
                    &&& receipt.belongs_to(self@.ring, self@.id)
                    &&& done@.id == self@.id
                    &&& done@.result == receipt.raw_result()
                    &&& same_place(done@.request, self@.request.store)
                    &&& unwritten_kept(
                        receipt.raw_result(),
                        self@.request.store.bytes(),
                        done@.request.bytes(),
                    )
                },
            },
    {
        if !self.matches(&receipt) {
            return Err((self, receipt));
        }
        Ok(
            EpollWaitCompleted {
                store: ManuallyDrop::into_inner(self.store),
                id: self.id,
                result: receipt.raw_result(),
            },
        )
    }
}

/// A finished `epoll_wait`: the events it reported, and the storage back.
pub struct EpollWaitCompleted<D: StableBufferMut> {
    store: D,
    id: RequestId,
    result: i32,
}

impl<D: StableBufferMut> View for EpollWaitCompleted<D> {
    type V = Done<D>;

    closed spec fn view(&self) -> Done<D> {
        Done { id: self.id, result: self.result, request: self.store }
    }
}

/// How many events a result and storage of `len` bytes stand for.
///
/// The kernel never reports more than it had room for, and nothing beyond
/// the storage is ever read.
pub open spec fn reported(result: i32, len: nat) -> nat {
    if result < 0 {
        0
    } else if result <= room(len) {
        result as nat
    } else {
        room(len) as nat
    }
}

/// `after` differs from `before` in the reported events at most. A failed
/// wait reports none.
pub open spec fn unwritten_kept(result: i32, before: Seq<u8>, after: Seq<u8>) -> bool {
    &&& after.len() == before.len()
    &&& forall|i: int|
        reported(result, before.len()) * EpollEvent::spec_size() <= i < before.len()
            ==> #[trigger] after[i] == before[i]
}

impl<D: StableBufferMut> EpollWaitCompleted<D> {
    /// Identity of the request this completes.
    pub fn id(&self) -> (r: RequestId)
        ensures
            r == self@.id,
    {
        self.id
    }

    /// The raw result: a count, or a negated error number.
    pub fn raw_result(&self) -> (r: i32)
        ensures
            r == self@.result,
    {
        self.result
    }

    /// How many events were reported, or why none could be.
    ///
    /// # Errors
    ///
    /// The error number the completion carried.
    pub fn count(&self) -> (r: Result<u32, Error>)
        ensures
            r == Error::count_of(self@.result),
    {
        Error::count_of(self.result)
    }

    /// The events that were reported; none if the wait failed.
    pub fn events(&self) -> (r: Vec<EpollEvent>)
        ensures
            r@.len() == reported(self@.result, self@.request.bytes().len()),
            forall|i: int|
                0 <= i < r@.len() ==> #[trigger] r@[i] == EpollEvent::decoded(
                    element::<EpollEvent>(self@.request.bytes(), 0, i),
                ),
    {
        if self.result < 0 {
            return Vec::new();
        }
        let fit: u32 = clamp_max_events(self.store.stable_len() / EpollEvent::size_of());
        let n: u32 = if self.result as u32 <= fit {
            self.result as u32
        } else {
            fit
        };
        decode_all(&self.store, 0, n as usize)
    }

    /// Borrow the storage.
    pub fn store(&self) -> (r: &D)
        ensures
            *r == self@.request,
    {
        &self.store
    }

    /// Take the storage back for reuse.
    pub fn into_store(self) -> (r: D)
        ensures
            r == self@.request,
    {
        self.store
    }
}

/// As many events are reported as the kernel says, but no more than have room;
/// a failure reports none. Room is counted in whole events of 12 bytes.
pub proof fn reports_stay_inside_the_room(result: i32, len: nat)
    ensures
        reported(result, len) * 12 <= len,
        result < 0 ==> reported(result, len) == 0,
        result >= 0 && result * 12 <= len ==> reported(result, len) == result,
        result >= 0 && result * 12 > len ==> reported(result, len) == len / 12,
{
}

/// What lies behind the reported events is left alone.
pub proof fn the_rest_is_left_alone(result: i32, before: Seq<u8>, after: Seq<u8>, i: int)
    requires
        unwritten_kept(result, before, after),
        0 <= i < before.len(),
        result < 0 || i >= result * 12,
    ensures
        after.len() == before.len(),
        after[i] == before[i],
{
    reports_stay_inside_the_room(result, before.len());
}

/// Storage is refused exactly where it has no room for one event, and the
/// refusal keeps its numbers.
pub proof fn one_event_has_to_fit<D: StableBuffer>(store: D, needed: usize, got: usize)
    ensures
        event_misfit(store) is None <==> 12 <= store.bytes().len(),
        (EpollWaitError::StoreTooSmall { needed, got }).misfit() == (Misfit::TooSmall {
            needed,
            got,
        }),
        (EpollWaitError::StoreMisaligned { needed }).misfit() == (Misfit::Misaligned { needed }),
{
}

} // verus!
