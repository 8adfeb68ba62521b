//! `timeout`, whose duration the kernel copies while servicing the request.
//!
//! The kernel finds the duration at `addr` and, in `off`, how many other
//! completions end the wait early.

use super::buffer::StableBufferMut;
use super::identity::{RequestId, RingId};
use super::lifecycle::{Done, Ticket};
use super::request::Receipt;
use super::staged::{misfit, Misfit, Staged};
use crate::bytes::overwritten;
use crate::error::Errno;
use crate::op::{blank, IoUringSqe, Sqe};
use crate::text::{decimal, with_decimal};
use crate::types::abi::{Abi, Timespec};
use crate::types::flags::TimeoutFlags;
use core::mem::ManuallyDrop;
use vstd::prelude::*;
use vstd::string::StringExecFns;

verus! {

/// What besides the clock ends the wait.
#[derive(Clone, Copy, Debug, PartialEq, Eq, Structural)]
pub enum Count {
    /// Nothing: a pure timer.
    Timer,
    /// That many other completions.
    Completions(u32),
}

impl Count {
    /// The number sent to the kernel.
    #[verifier::allow_in_spec]
    pub fn as_raw(self) -> u32
        returns
            (match self {
                Count::Timer => 0,
                Count::Completions(n) => n,
            }),
    {
        match self {
            Count::Timer => 0,
            Count::Completions(n) => n,
        }
    }
}

/// How a timeout ended.
#[derive(Clone, Copy, Debug, PartialEq, Eq, Structural)]
pub enum Expiry {
    /// The completions arrived first.
    CountReached,
    /// The time was up.
    Expired,
    /// It was cancelled.
    Cancelled,
    /// The kernel refused for another reason.
    Failed(Errno),
}

impl Expiry {
    /// Classify a raw result.
    #[verifier::allow_in_spec]
    pub fn from_raw(result: i32) -> Self
        returns
            (if result == -62 {
                Expiry::Expired
            } else if result == -125 {
                Expiry::Cancelled
            } else if result < 0 {
                Expiry::Failed(Errno::from_negated(result))
            } else {
                Expiry::CountReached
            }),
    {
        if result == -62 {
            Expiry::Expired
        } else if result == -125 {
            Expiry::Cancelled
        } else if result < 0 {
            Expiry::Failed(Errno::from_negated(result))
        } else {
            Expiry::CountReached
        }
    }

    /// What [`message`](Self::message) says.
    pub open spec fn text(self) -> Seq<char> {
        match self {
            Expiry::CountReached => "completion count reached"@,
            Expiry::Expired => "timer expired"@,
            Expiry::Cancelled => "timeout cancelled"@,
            Expiry::Failed(e) => "timeout failed: "@ + e.text(),
        }
    }

    /// Every case says what happened, in its own words and with its own numbers.
    pub proof fn texts_say_what_happened(self)
        ensures
            self is CountReached ==> self.text() == "completion count reached"@,
            self is Expired ==> self.text() == "timer expired"@,
            self is Cancelled ==> self.text() == "timeout cancelled"@,
            self matches Expiry::Failed(e) ==> self.text() == "timeout failed: "@ + e.text(),
    {
    }

    /// A description for people.
    pub fn message(&self) -> (s: String)
        ensures
            s@ == self.text(),
    {
        match *self {
            Expiry::CountReached => String::from_str("completion count reached"),
            Expiry::Expired => String::from_str("timer expired"),
            Expiry::Cancelled => String::from_str("timeout cancelled"),
            Expiry::Failed(e) => String::from_str("timeout failed: ").concat(e.message().as_str()),
        }
    }
}

/// Only a result that is no error means that the count was reached, and no
/// two errors are taken for one another.
pub proof fn timeout_endings_stay_apart(a: i32, b: i32)
    ensures
        Expiry::from_raw(a) is CountReached <==> a >= 0,
        a < 0 && Expiry::from_raw(a) == Expiry::from_raw(b) ==> a == b,
{
}

/// Why a timeout could not be built.
#[derive(Clone, Copy, Debug, PartialEq, Eq, Structural)]
pub enum TimeoutError {
    /// The storage cannot hold a whole [`Timespec`].
    StoreTooSmall {
        /// Bytes it needs.
        needed: usize,
        /// Bytes the supplied storage has.
        got: usize,
    },
    /// The storage is not aligned for a whole [`Timespec`].
    StoreMisaligned {
        /// Alignment it needs.
        needed: usize,
    },
}

impl TimeoutError {
    /// What [`message`](Self::message) says.
    pub open spec fn text(self) -> Seq<char> {
        match self {
            TimeoutError::StoreTooSmall { needed, got } => "timespec storage needs "@ + decimal(
                needed as nat,
            ) + " bytes, got "@ + decimal(got as nat),
            TimeoutError::StoreMisaligned { needed } => "timespec storage must be "@ + decimal(
                needed as nat,
            ) + "-byte aligned"@,
        }
    }

    /// Every case says what happened, in its own words and with its own numbers.
    pub proof fn texts_say_what_happened(self)
        ensures
            self matches TimeoutError::StoreTooSmall { needed, got } ==> self.text()
                == "timespec storage needs "@ + decimal(needed as nat) + " bytes, got "@
                    + decimal(got as nat),
            self matches TimeoutError::StoreMisaligned { needed } ==> self.text()
                == "timespec storage must be "@ + decimal(needed as nat) + "-byte aligned"@,
    {
    }

    /// A description for people.
    pub fn message(&self) -> (s: String)
        ensures
            s@ == self.text(),
    {
        match *self {
            TimeoutError::StoreTooSmall { needed, got } => {
                let s = with_decimal(String::from_str("timespec storage needs "), needed as u64);
                with_decimal(s.concat(" bytes, got "), got as u64)
            },
            TimeoutError::StoreMisaligned { needed } => {
                let s = with_decimal(String::from_str("timespec storage must be "), needed as u64);
                s.concat("-byte aligned")
            },
        }
    }
}

impl TimeoutError {
    /// What is wrong with the storage.
    pub open spec fn misfit(self) -> Misfit {
        match self {
            TimeoutError::StoreTooSmall { needed, got } => Misfit::TooSmall { needed, got },
            TimeoutError::StoreMisaligned { needed } => Misfit::Misaligned { needed },
        }
    }
}

/// A timeout: what is asked for.
pub struct TimeoutRequest<S: StableBufferMut> {
    /// What besides the clock ends the wait.
    pub count: Count,
    /// Whether the time is a point or a span.
    pub flags: TimeoutFlags,
    /// How long, or until when, where the kernel finds it.
    pub time: Staged<S, Timespec>,
}

impl<S: StableBufferMut> TimeoutRequest<S> {
    /// The submission that asks for it.
    pub open spec fn sqe(self) -> Sqe {
        Sqe::timeout_ptr(self.time.store().addr() as u64, self.count.as_raw(), self.flags)
    }

    /// The entry waits, operation 11, for the one stored duration, or until so many
    /// completions came: none for a pure timer.
    pub proof fn waits_for_its_duration(self)
        ensures
            self.count is Timer ==> self.sqe().0 == (IoUringSqe {
                opcode: 11,
                addr: self.time.store().addr() as u64,
                len: 1,
                op_flags: self.flags.0,
                ..blank()
            }),
            self.count matches Count::Completions(n) ==> self.sqe().0 == (IoUringSqe {
                opcode: 11,
                off: n as u64,
                addr: self.time.store().addr() as u64,
                len: 1,
                op_flags: self.flags.0,
                ..blank()
            }),
    {
    }
}

/// A timeout that owns its duration but is not queued yet.
pub struct PreparedTimeout<S: StableBufferMut> {
    count: Count,
    flags: TimeoutFlags,
    time: Staged<S, Timespec>,
}

impl<S: StableBufferMut> View for PreparedTimeout<S> {
    type V = TimeoutRequest<S>;

    closed spec fn view(&self) -> TimeoutRequest<S> {
        TimeoutRequest { count: self.count, flags: self.flags, time: self.time }
    }
}

impl<S: StableBufferMut> PreparedTimeout<S> {
    /// Wait for the span `time`, or for `count`.
    ///
    /// Takes `store` to keep the duration in.
    ///
    /// # Errors
    ///
    /// Returns the storage unchanged if it is too small or misaligned.
    pub fn after(time: Timespec, count: Count, store: S) -> (r: Result<Self, (S, TimeoutError)>)
        ensures
            match r {
                Err((back, why)) => {
                    &&& back == store
                    &&& misfit(16, 8, store.bytes().len(), store.addr()) == Some(
                        why.misfit(),
                    )
                },
                Ok(prepared) => {
                    &&& store.bytes().len() >= 16
                    &&& store.addr() % 8 == 0
                    &&& prepared@ == (TimeoutRequest {
                        count,
                        flags: TimeoutFlags(0),
                        time: prepared@.time,
                    })
                    &&& prepared@.time.value() == time
                    &&& prepared@.time.store().addr() == store.addr()
                    &&& prepared@.time.store().bytes() == overwritten(
                        store.bytes(),
                        0,
                        time.encoded(),
                    )
                },
            },
    {
        match Staged::place(time, store, 8) {
            Ok(time) => Ok(PreparedTimeout { count, flags: TimeoutFlags(0), time }),
            Err((store, Misfit::TooSmall { needed, got })) => Err(
                (store, TimeoutError::StoreTooSmall { needed, got }),
            ),
            Err((store, Misfit::Misaligned { needed })) => Err(
                (store, TimeoutError::StoreMisaligned { needed }),
            ),
        }
    }

    /// Wait until the point `time`, or for `count`.
    ///
    /// Takes `store` to keep the time in.
    ///
    /// # Errors
    ///
    /// Returns the storage unchanged if it is too small or misaligned.
    pub fn at(time: Timespec, count: Count, store: S) -> (r: Result<Self, (S, TimeoutError)>)
        ensures
            match r {
                Err((back, why)) => {
                    &&& back == store
                    &&& misfit(16, 8, store.bytes().len(), store.addr()) == Some(
                        why.misfit(),
                    )
                },
                Ok(prepared) => {
                    &&& store.bytes().len() >= 16
                    &&& store.addr() % 8 == 0
                    &&& prepared@ == (TimeoutRequest {
                        count,
                        flags: TimeoutFlags::abs(),
                        time: prepared@.time,
                    })
                    &&& prepared@.time.value() == time
                    &&& prepared@.time.store().addr() == store.addr()
                    &&& prepared@.time.store().bytes() == overwritten(
                        store.bytes(),
                        0,
                        time.encoded(),
                    )
                },
            },
    {
        match Staged::place(time, store, 8) {
            Ok(time) => Ok(PreparedTimeout { count, flags: TimeoutFlags::abs(), time }),
            Err((store, Misfit::TooSmall { needed, got })) => Err(
                (store, TimeoutError::StoreTooSmall { needed, got }),
            ),
            Err((store, Misfit::Misaligned { needed })) => Err(
                (store, TimeoutError::StoreMisaligned { needed }),
            ),
        }
    }

    /// What besides the clock ends the wait.
    pub fn count(&self) -> (r: Count)
        ensures
            r == self@.count,
    {
        self.count
    }

    /// Whether the time is a point rather than a span.
    pub fn is_absolute(&self) -> (r: bool)
        ensures
            r == (self@.flags == TimeoutFlags::abs()),
    {
        self.flags.0 == 1
    }

    /// The time as the kernel will read it.
    ///
    /// Reads back the storage rather than rebuilding it.
    pub fn published(&self) -> (r: Timespec)
        ensures
            r == self@.time.value(),
            r == Timespec::decoded(self@.time.store().bytes().subrange(0, 16)),
    {
        self.time.published()
    }

    /// Give the storage back, abandoning the request.
    pub fn into_store(self) -> (r: S)
        ensures
            r == self@.time.store(),
    {
        self.time.into_store()
    }

    /// Build the submission and move to the pending state.
    pub fn into_pending(self, ring: RingId, id: RequestId) -> (r: (Sqe, PendingTimeout<S>))
        ensures
            r.0 == self@.sqe().user_data(id.raw()),
            r.1@ == (Ticket { ring, id, request: self@ }),
    {
        let sqe = Sqe::timeout_ptr(self.time.addr(), self.count.as_raw(), self.flags);
        let pending = PendingTimeout {
            count: self.count,
            flags: self.flags,
            time: ManuallyDrop::new(self.time),
            ring,
            id,
        };
        (sqe.user_data(id.raw()), pending)
    }
}

/// A submitted timeout whose duration the kernel may be reading.
///
/// Dropping it runs no destructor for the storage: it leaks rather than
/// being freed underneath the kernel.
#[must_use]
pub struct PendingTimeout<S: StableBufferMut> {
    count: Count,
    flags: TimeoutFlags,
    time: ManuallyDrop<Staged<S, Timespec>>,
    ring: RingId,
    id: RequestId,
}

impl<S: StableBufferMut> View for PendingTimeout<S> {
    type V = Ticket<TimeoutRequest<S>>;

    closed spec fn view(&self) -> Ticket<TimeoutRequest<S>> {
        Ticket {
            ring: self.ring,
            id: self.id,
            request: TimeoutRequest {
                count: self.count,
                flags: self.flags,
                time: self.time@,
            },
        }
    }
}

impl<S: StableBufferMut> PendingTimeout<S> {
    /// Identity the kernel echoes back in this request's completion.
    pub fn id(&self) -> (r: RequestId)
        ensures
            r == self@.id,
    {
        self.id
    }

    /// Identity of the queue that accepted this request.
    pub fn ring(&self) -> (r: RingId)
        ensures
            r == self@.ring,
    {
        self.ring
    }

    /// Whether `receipt` ends this very request.
    pub fn matches(&self, receipt: &Receipt) -> (r: bool)
        ensures
            r == receipt.belongs_to(self@.ring, self@.id),
    {
        receipt.belongs_to(self.ring, self.id)
    }

    /// Take the request back without a receipt, undoing a failed push.
    ///
    /// Only for a submission that the kernel has never seen.
    pub fn reclaim_unsubmitted(self) -> (r: PreparedTimeout<S>)
        ensures
            r@ == self@.request,
    {
        PreparedTimeout {
            count: self.count,
            flags: self.flags,
            time: ManuallyDrop::into_inner(self.time),
        }
    }

    /// Trade a matching receipt for the outcome and the storage.
    ///
    /// The kernel only reads the storage, so it comes back as it was.
    ///
    /// # Errors
    ///
    /// Returns the ticket and receipt unchanged if the receipt belongs to
    /// another request or another ring.
    pub fn redeem(self, receipt: Receipt) -> (r: Result<TimeoutDone<S>, (Self, Receipt)>)
        ensures
            match r {
                Err((ticket, back)) => {
                    &&& !receipt.belongs_to(self@.ring, self@.id)
                    &&& ticket@ == self@
                    &&& back == receipt
                },
                Ok(done) => {
                    &&& receipt.belongs_to(self@.ring, self@.id)
                    &&& done@ == (Done {
                        id: self@.id,
                        result: receipt.raw_result(),
                        request: self@.request,
                    })
                },
            },
    {
        if !self.matches(&receipt) {
            return Err((self, receipt));
        }
        Ok(
            TimeoutDone {
                count: self.count,
                flags: self.flags,
                time: ManuallyDrop::into_inner(self.time),
                id: self.id,
                result: receipt.raw_result(),
            },
        )
    }
}

/// A finished timeout: how it ended, and the storage back.
pub struct TimeoutDone<S: StableBufferMut> {
    count: Count,
    flags: TimeoutFlags,
    time: Staged<S, Timespec>,
    id: RequestId,
    result: i32,
}

impl<S: StableBufferMut> View for TimeoutDone<S> {
    type V = Done<TimeoutRequest<S>>;

    closed spec fn view(&self) -> Done<TimeoutRequest<S>> {
        Done {
            id: self.id,
            result: self.result,
            request: TimeoutRequest { count: self.count, flags: self.flags, time: self.time },
        }
    }
}

impl<S: StableBufferMut> TimeoutDone<S> {
    /// Identity of the request this completes.
    pub fn id(&self) -> (r: RequestId)
        ensures
            r == self@.id,
    {
        self.id
    }

    /// The raw result: 0, or a negated error number.
    pub fn raw_result(&self) -> (r: i32)
        ensures
            r == self@.result,
    {
        self.result
    }

    /// How the request ended.
    pub fn expiry(&self) -> (r: Expiry)
        ensures
            r == Expiry::from_raw(self@.result),
    {
        Expiry::from_raw(self.result)
    }

    /// Take the storage back for reuse.
    pub fn into_store(self) -> (r: S)
        ensures
            r == self@.request.time.store(),
    {
        self.time.into_store()
    }

    /// Take the outcome and the storage together.
    pub fn into_parts(self) -> (r: (Expiry, S))
        ensures
            r.0 == Expiry::from_raw(self@.result),
            r.1 == self@.request.time.store(),
    {
        (Expiry::from_raw(self.result), self.time.into_store())
    }
}

/// A timeout that reports no error was ended by the count. Error 62 means that
/// the time ran out, 125 that it was cancelled; any other keeps its number.
pub proof fn timeout_results_are_named(result: i32)
    ensures
        Expiry::from_raw(result) is CountReached <==> result >= 0,
        Expiry::from_raw(result) is Expired <==> result == -62,
        Expiry::from_raw(result) is Cancelled <==> result == -125,
        Expiry::from_raw(result) matches Expiry::Failed(e) ==> {
            &&& result < 0
            &&& e.0 == (if result == -0x8000_0000 { result as int } else { 0 - result })
        },
{
}

/// What is wrong with the storage is said with the same numbers.
pub proof fn timeout_misfits_keep_their_numbers(needed: usize, got: usize)
    ensures
        (TimeoutError::StoreTooSmall { needed, got }).misfit() == (Misfit::TooSmall {
            needed,
            got,
        }),
        (TimeoutError::StoreMisaligned { needed }).misfit() == (Misfit::Misaligned { needed }),
{
}

} // verus!
