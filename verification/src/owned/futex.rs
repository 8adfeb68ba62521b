//! Waiting on and waking a word that no ticket can own.
//!
//! Other threads change a futex word while a wait for it is outstanding;
//! that is what it is for. So a request names the word by address and the
//! caller keeps it readable until the completion.
//!
//! A word that already differs, and a wait that was cancelled, are ordinary
//! outcomes, so [`FutexWaitOutcome`] names them.

use super::identity::{RequestId, RingId};
use super::lifecycle::{Done, Ticket};
use super::request::Receipt;
use crate::error::{Errno, Error};
use crate::op::{blank, IoUringSqe, Sqe};
use crate::types::flags::Futex2Flags;
use vstd::prelude::*;

verus! {

/// How a wait ended.
#[derive(Clone, Copy, Debug, PartialEq, Eq, Structural)]
pub enum FutexWaitOutcome {
    /// A matching wake arrived.
    Woken,
    /// The word already differed from the expected value.
    ValueMismatch,
    /// The wait was cancelled.
    Cancelled,
    /// The kernel refused for another reason.
    Failed(Errno),
}

impl FutexWaitOutcome {
    /// Classify a raw result.
    #[verifier::allow_in_spec]
    pub fn from_raw(result: i32) -> Self
        returns
            (if result == 0 {
                FutexWaitOutcome::Woken
            } else if result == -11 {
                FutexWaitOutcome::ValueMismatch
            } else if result == -125 {
                FutexWaitOutcome::Cancelled
            } else {
                FutexWaitOutcome::Failed(Errno::from_negated(result))
            }),
    {
        if result == 0 {
            FutexWaitOutcome::Woken
        } else if result == -11 {
            FutexWaitOutcome::ValueMismatch
        } else if result == -125 {
            FutexWaitOutcome::Cancelled
        } else {
            FutexWaitOutcome::Failed(Errno::from_negated(result))
        }
    }
}

/// Only a result of 0 counts as a wake, and no two results are taken for one
/// another.
pub proof fn futex_wait_results_stay_apart(a: i32, b: i32)
    ensures
        FutexWaitOutcome::from_raw(a) is Woken <==> a == 0,
        FutexWaitOutcome::from_raw(a) == FutexWaitOutcome::from_raw(b) ==> a == b,
{
}

/// A wait: what is asked for.
pub struct FutexWaitRequest {
    /// Where the word is.
    pub uaddr: u64,
    /// What it is expected to hold.
    pub val: u64,
    /// Which wakes count.
    pub mask: u64,
    /// What kind of word it is.
    pub flags: Futex2Flags,
}

impl FutexWaitRequest {
    /// The submission that asks for it.
    pub open spec fn sqe(self) -> Sqe {
        Sqe::futex_wait(self.uaddr, self.val, self.mask, self.flags)
    }

    /// The entry waits, operation 51, on the word while it holds the value, for
    /// wakes that match the mask.
    pub proof fn waits_on_its_word(self)
        ensures
            self.sqe().0 == (IoUringSqe {
                opcode: 51,
                fd: self.flags.0 as i32,
                off: self.val,
                addr: self.uaddr,
                addr3: self.mask,
                ..blank()
            }),
    {
    }
}

/// A wait that is not queued yet.
#[derive(Clone, Copy, Debug)]
pub struct PreparedFutexWait {
    uaddr: u64,
    val: u64,
    mask: u64,
    flags: Futex2Flags,
}

impl View for PreparedFutexWait {
    type V = FutexWaitRequest;

    closed spec fn view(&self) -> FutexWaitRequest {
        FutexWaitRequest { uaddr: self.uaddr, val: self.val, mask: self.mask, flags: self.flags }
    }
}

impl PreparedFutexWait {
    /// Wait for the word at `uaddr` to stop holding `val`, or for a wake that
    /// matches `mask`.
    ///
    /// The kernel refuses a zero mask. The word has to stay readable until
    /// the completion.
    pub fn new(uaddr: u64, val: u64, mask: u64, flags: Futex2Flags) -> (r: Self)
        ensures
            r@ == (FutexWaitRequest { uaddr, val, mask, flags }),
    {
        PreparedFutexWait { uaddr, val, mask, flags }
    }

    /// Where the word is.
    pub fn uaddr(&self) -> (r: u64)
        ensures
            r == self@.uaddr,
    {
        self.uaddr
    }

    /// Build the submission and move to the pending state.
    pub fn into_pending(self, ring: RingId, id: RequestId) -> (r: (Sqe, PendingFutexWait))
        ensures
            r.0 == self@.sqe().user_data(id.raw()),
            r.1@ == (Ticket { ring, id, request: self@.uaddr }),
    {
        let sqe = Sqe::futex_wait(self.uaddr, self.val, self.mask, self.flags);
        (sqe.user_data(id.raw()), PendingFutexWait { ring, id, uaddr: self.uaddr })
    }
}

/// A submitted wait. It owns nothing.
#[derive(Debug)]
pub struct PendingFutexWait {
    ring: RingId,
    id: RequestId,
    uaddr: u64,
}

impl View for PendingFutexWait {
    type V = Ticket<u64>;

    closed spec fn view(&self) -> Ticket<u64> {
        Ticket { ring: self.ring, id: self.id, request: self.uaddr }
    }
}

impl PendingFutexWait {
    /// Identity the kernel echoes back in this request's completion.
    pub fn id(&self) -> (r: RequestId)
        ensures
            r == self@.id,
    {
        self.id
    }

    /// Identity of the queue that accepted this request.
    pub fn ring(&self) -> (r: RingId)
        ensures
            r == self@.ring,
    {
        self.ring
    }

    /// Whether `receipt` ends this very request.
    pub fn matches(&self, receipt: &Receipt) -> (r: bool)
        ensures
            r == receipt.belongs_to(self@.ring, self@.id),
    {
        receipt.belongs_to(self.ring, self.id)
    }

    /// Where the word is.
    pub fn uaddr(&self) -> (r: u64)
        ensures
            r == self@.request,
    {
        self.uaddr
    }

    /// Trade a matching receipt for the outcome.
    ///
    /// # Errors
    ///
    /// Returns the ticket and receipt unchanged if the receipt belongs to
    /// another request or another ring.
    pub fn redeem(self, receipt: Receipt) -> (r: Result<FutexWaitDone, (Self, Receipt)>)
        ensures
            match r {
                Err((ticket, back)) => {
                    &&& !receipt.belongs_to(self@.ring, self@.id)
                    &&& ticket@ == self@
                    &&& back == receipt
                },
                Ok(done) => {
                    &&& receipt.belongs_to(self@.ring, self@.id)
                    &&& done@ == (Done {
                        id: self@.id,
                        result: receipt.raw_result(),
                        request: (),
                    })
                },
            },
    {
        if !self.matches(&receipt) {
            return Err((self, receipt));
        }
        Ok(FutexWaitDone { id: self.id, result: receipt.raw_result() })
    }
}

/// A finished wait.
#[derive(Clone, Copy, Debug)]
pub struct FutexWaitDone {
    id: RequestId,
    result: i32,
}

impl View for FutexWaitDone {
    type V = Done<()>;

    closed spec fn view(&self) -> Done<()> {
        Done { id: self.id, result: self.result, request: () }
    }
}

impl FutexWaitDone {
    /// Identity of the request this completes.
    pub fn id(&self) -> (r: RequestId)
        ensures
            r == self@.id,
    {
        self.id
    }

    /// The raw result.
    pub fn raw_result(&self) -> (r: i32)
        ensures
            r == self@.result,
    {
        self.result
    }

    /// How it ended.
    pub fn outcome(&self) -> (r: FutexWaitOutcome)
        ensures
            r == FutexWaitOutcome::from_raw(self@.result),
    {
        FutexWaitOutcome::from_raw(self.result)
    }
}

/// A wake: what is asked for.
pub struct FutexWakeRequest {
    /// Where the word is.
    pub uaddr: u64,
    /// The most waiters to wake.
    pub count: u64,
    /// Which waits count.
    pub mask: u64,
    /// What kind of word it is.
    pub flags: Futex2Flags,
}

impl FutexWakeRequest {
    /// The submission that asks for it.
    pub open spec fn sqe(self) -> Sqe {
        Sqe::futex_wake(self.uaddr, self.count, self.mask, self.flags)
    }

    /// The entry wakes, operation 52, up to that many waiters of the word that match
    /// the mask.
    pub proof fn wakes_its_word(self)
        ensures
            self.sqe().0 == (IoUringSqe {
                opcode: 52,
                fd: self.flags.0 as i32,
                off: self.count,
                addr: self.uaddr,
                addr3: self.mask,
                ..blank()
            }),
    {
    }
}

/// A wake that is not queued yet.
#[derive(Clone, Copy, Debug)]
pub struct PreparedFutexWake {
    uaddr: u64,
    count: u64,
    mask: u64,
    flags: Futex2Flags,
}

impl View for PreparedFutexWake {
    type V = FutexWakeRequest;

    closed spec fn view(&self) -> FutexWakeRequest {
        FutexWakeRequest {
            uaddr: self.uaddr,
            count: self.count,
            mask: self.mask,
            flags: self.flags,
        }
    }
}

impl PreparedFutexWake {
    /// Wake up to `count` waiters on the word at `uaddr` that match `mask`.
    pub fn new(uaddr: u64, count: u64, mask: u64, flags: Futex2Flags) -> (r: Self)
        ensures
            r@ == (FutexWakeRequest { uaddr, count, mask, flags }),
    {
        PreparedFutexWake { uaddr, count, mask, flags }
    }

    /// Where the word is.
    pub fn uaddr(&self) -> (r: u64)
        ensures
            r == self@.uaddr,
    {
        self.uaddr
    }

    /// Build the submission and move to the pending state.
    pub fn into_pending(self, ring: RingId, id: RequestId) -> (r: (Sqe, PendingFutexWake))
        ensures
            r.0 == self@.sqe().user_data(id.raw()),
            r.1@ == (Ticket { ring, id, request: self@.uaddr }),
    {
        let sqe = Sqe::futex_wake(self.uaddr, self.count, self.mask, self.flags);
        (sqe.user_data(id.raw()), PendingFutexWake { ring, id, uaddr: self.uaddr })
    }
}

/// A submitted wake. It owns nothing.
#[derive(Debug)]
pub struct PendingFutexWake {
    ring: RingId,
    id: RequestId,
    uaddr: u64,
}

impl View for PendingFutexWake {
    type V = Ticket<u64>;

    closed spec fn view(&self) -> Ticket<u64> {
        Ticket { ring: self.ring, id: self.id, request: self.uaddr }
    }
}

impl PendingFutexWake {
    /// Identity the kernel echoes back in this request's completion.
    pub fn id(&self) -> (r: RequestId)
        ensures
            r == self@.id,
    {
        self.id
    }

    /// Identity of the queue that accepted this request.
    pub fn ring(&self) -> (r: RingId)
        ensures
            r == self@.ring,
    {
        self.ring
    }

    /// Whether `receipt` ends this very request.
    pub fn matches(&self, receipt: &Receipt) -> (r: bool)
        ensures
            r == receipt.belongs_to(self@.ring, self@.id),
    {
        receipt.belongs_to(self.ring, self.id)
    }

    /// Where the word is.
    pub fn uaddr(&self) -> (r: u64)
        ensures
            r == self@.request,
    {
        self.uaddr
    }

    /// Trade a matching receipt for the outcome.
    ///
    /// # Errors
    ///
    /// Returns the ticket and receipt unchanged if the receipt belongs to
    /// another request or another ring.
    pub fn redeem(self, receipt: Receipt) -> (r: Result<FutexWakeDone, (Self, Receipt)>)
        ensures
            match r {
                Err((ticket, back)) => {
                    &&& !receipt.belongs_to(self@.ring, self@.id)
                    &&& ticket@ == self@
                    &&& back == receipt
                },
                Ok(done) => {
                    &&& receipt.belongs_to(self@.ring, self@.id)
                    &&& done@ == (Done {
                        id: self@.id,
                        result: receipt.raw_result(),
                        request: (),
                    })
                },
            },
    {
        if !self.matches(&receipt) {
            return Err((self, receipt));
        }
        Ok(FutexWakeDone { id: self.id, result: receipt.raw_result() })
    }
}

/// A finished wake.
#[derive(Clone, Copy, Debug)]
pub struct FutexWakeDone {
    id: RequestId,
    result: i32,
}

impl View for FutexWakeDone {
    type V = Done<()>;

    closed spec fn view(&self) -> Done<()> {
        Done { id: self.id, result: self.result, request: () }
    }
}

impl FutexWakeDone {
    /// Identity of the request this completes.
    pub fn id(&self) -> (r: RequestId)
        ensures
            r == self@.id,
    {
        self.id
    }

    /// The raw result.
    pub fn raw_result(&self) -> (r: i32)
        ensures
            r == self@.result,
    {
        self.result
    }

    /// How many waiters were woken, or why none were.
    ///
    /// # Errors
    ///
    /// The error number the completion carried.
    pub fn woken(&self) -> (r: Result<u32, Error>)
        ensures
            r == Error::count_of(self@.result),
    {
        Error::count_of(self.result)
    }
}

/// A wait was woken where its result is zero. Error 11 means that the word held
/// something else, 125 that the wait was cancelled; any other result keeps its
/// number, negated.
pub proof fn futex_results_are_named(result: i32)
    ensures
        FutexWaitOutcome::from_raw(result) is Woken <==> result == 0,
        FutexWaitOutcome::from_raw(result) is ValueMismatch <==> result == -11,
        FutexWaitOutcome::from_raw(result) is Cancelled <==> result == -125,
        FutexWaitOutcome::from_raw(result) matches FutexWaitOutcome::Failed(e) ==> {
            &&& result != 0 && result != -11 && result != -125
            &&& e.0 == (if result == -0x8000_0000 { result as int } else { 0 - result })
        },
{
}

} // verus!
