//! Waiting on several words at once.
//!
//! The kernel reads an array that names the words. The array is owned here;
//! the words are not, because other threads change them while the wait is
//! outstanding, so the caller keeps them readable until the completion.

use super::array::{encoded_all, StagedArray};
use super::buffer::StableBufferMut;
use super::identity::{RequestId, RingId};
use super::lifecycle::{Done, Ticket};
use super::request::Receipt;
use super::staged::{misfit, Misfit};
use crate::bytes::overwritten;
use crate::error::Error;
use crate::op::{blank, IoUringSqe, Sqe};
use crate::text::{decimal, numeral_text, with_decimal};
use crate::types::abi::{FutexWaitv, FUTEX_WAITV_MAX};
use core::mem::ManuallyDrop;
use vstd::prelude::*;
use vstd::string::StringExecFns;

verus! {

/// Why a `futex_waitv` request could not be built.
#[derive(Clone, Copy, Debug, PartialEq, Eq, Structural)]
pub enum FutexWaitvError {
    /// The storage cannot hold the array.
    ArrayTooSmall {
        /// Bytes it needs.
        needed: usize,
        /// Bytes the supplied storage has.
        got: usize,
    },
    /// The storage is not aligned for the array.
    ArrayMisaligned {
        /// Alignment it needs.
        needed: usize,
    },
    /// More words than the kernel accepts.
    TooManyWaiters {
        /// Words asked for.
        got: usize,
        /// The most the kernel accepts.
        max: usize,
    },
    /// No word at all. The kernel would refuse that.
    NoWaiters,
}

impl FutexWaitvError {
    /// What [`message`](Self::message) says.
    pub open spec fn text(self) -> Seq<char> {
        match self {
            FutexWaitvError::ArrayTooSmall { needed, got } => "futex_waitv array needs "@
                + decimal(needed as nat) + " bytes, got "@ + decimal(got as nat),
            FutexWaitvError::ArrayMisaligned { needed } => "futex_waitv array must be "@
                + decimal(needed as nat) + "-byte aligned"@,
            FutexWaitvError::TooManyWaiters { got, max } => decimal(got as nat)
                + " waiters exceeds the kernel's limit of "@ + decimal(max as nat),
            FutexWaitvError::NoWaiters => "futex_waitv needs at least one waiter"@,
        }
    }

    /// Every case says what happened, in its own words and with its own numbers.
    pub proof fn texts_say_what_happened(self)
        ensures
            self matches FutexWaitvError::ArrayTooSmall { needed, got } ==> self.text()
                == "futex_waitv array needs "@ + decimal(needed as nat) + " bytes, got "@
                    + decimal(got as nat),
            self matches FutexWaitvError::ArrayMisaligned { needed } ==> self.text()
                == "futex_waitv array must be "@ + decimal(needed as nat) + "-byte aligned"@,
            self matches FutexWaitvError::TooManyWaiters { got, max } ==> self.text()
                == decimal(got as nat) + " waiters exceeds the kernel's limit of "@
                    + decimal(max as nat),
            self is NoWaiters ==> self.text() == "futex_waitv needs at least one waiter"@,
    {
    }

    /// A description for people.
    pub fn message(&self) -> (s: String)
        ensures
            s@ == self.text(),
    {
        match *self {
            FutexWaitvError::ArrayTooSmall { needed, got } => {
                let s = String::from_str("futex_waitv array needs ");
                let s = with_decimal(s, needed as u64);
                let s = s.concat(" bytes, got ");
                with_decimal(s, got as u64)
            },
            FutexWaitvError::ArrayMisaligned { needed } => {
                let s = String::from_str("futex_waitv array must be ");
                let s = with_decimal(s, needed as u64);
                s.concat("-byte aligned")
            },
            FutexWaitvError::TooManyWaiters { got, max } => {
                let s = numeral_text(got as u64, 10);
                let s = s.concat(" waiters exceeds the kernel's limit of ");
                with_decimal(s, max as u64)
            },
            FutexWaitvError::NoWaiters => String::from_str("futex_waitv needs at least one waiter"),
        }
    }
}

impl FutexWaitvError {
    /// What is wrong with the storage, if that is the reason.
    pub open spec fn misfit(self) -> Option<Misfit> {
        match self {
            FutexWaitvError::ArrayTooSmall { needed, got } => Some(
                Misfit::TooSmall { needed, got },
            ),
            FutexWaitvError::ArrayMisaligned { needed } => Some(Misfit::Misaligned { needed }),
            _ => None,
        }
    }
}

/// A `futex_waitv`: what is asked for.
pub struct FutexWaitvRequest<V: StableBufferMut> {
    /// The array, where the kernel finds it.
    pub array: StagedArray<V, FutexWaitv>,
}

impl<V: StableBufferMut> FutexWaitvRequest<V> {
    /// The submission that asks for it.
    pub open spec fn sqe(self) -> Sqe {
        Sqe::futex_waitv_ptr(
            self.array.store().addr() as u64,
            self.array.values().len() as u32,
        )
    }

    /// The entry waits, operation 53, on all the words of the stored array.
    pub proof fn waits_on_its_words(self)
        ensures
            self.sqe().0 == (IoUringSqe {
                opcode: 53,
                addr: self.array.store().addr() as u64,
                len: self.array.values().len() as u32,
                ..blank()
            }),
    {
    }

    /// The kernel accepts that many words.
    pub open spec fn is_acceptable(self) -> bool {
        1 <= self.array.values().len() <= FUTEX_WAITV_MAX
    }
}

/// A `futex_waitv` that owns its array but is not queued yet.
pub struct PreparedFutexWaitv<V: StableBufferMut> {
    array: StagedArray<V, FutexWaitv>,
}

impl<V: StableBufferMut> View for PreparedFutexWaitv<V> {
    type V = FutexWaitvRequest<V>;

    closed spec fn view(&self) -> FutexWaitvRequest<V> {
        FutexWaitvRequest { array: self.array }
    }
}

impl<V: StableBufferMut> PreparedFutexWaitv<V> {
    /// The kernel accepts that many words.
    #[verifier::type_invariant]
    pub closed spec fn wf(self) -> bool {
        self@.is_acceptable()
    }

    /// Wait on the words that `waiters` name.
    ///
    /// Takes `array` to keep a copy of them in.
    ///
    /// # Errors
    ///
    /// Returns the storage unchanged if there are no words, or too many, or
    /// else if the storage is too small, or else if it is misaligned.
    pub fn new(waiters: &[FutexWaitv], array: V) -> (r: Result<Self, (V, FutexWaitvError)>)
        ensures
            ({
                let count = waiters@.len();
                let fits = misfit(
                    count * 24,
                    8,
                    array.bytes().len(),
                    array.addr(),
                );
                if count == 0 {
                    r == Err::<Self, (V, FutexWaitvError)>((array, FutexWaitvError::NoWaiters))
                } else if count > FUTEX_WAITV_MAX {
                    r == Err::<Self, (V, FutexWaitvError)>(
                        (
                            array,
                            FutexWaitvError::TooManyWaiters {
                                got: count as usize,
                                max: FUTEX_WAITV_MAX,
                            },
                        ),
                    )
                } else if fits is Some {
                    &&& r is Err
                    &&& r->Err_0.0 == array
                    &&& r->Err_0.1.misfit() == fits
                } else {
                    &&& r is Ok
                    &&& r->Ok_0@.array.values() == waiters@
                    &&& r->Ok_0@.array.store().addr() == array.addr()
                    &&& r->Ok_0@.array.store().bytes() == overwritten(
                        array.bytes(),
                        0,
                        encoded_all(waiters@),
                    )
                }
            }),
    {
        let count: usize = waiters.len();
        if count == 0 {
            return Err((array, FutexWaitvError::NoWaiters));
        }
        if count > FUTEX_WAITV_MAX {
            return Err(
                (array, FutexWaitvError::TooManyWaiters { got: count, max: FUTEX_WAITV_MAX }),
            );
        }
        let mut values: Vec<FutexWaitv> = Vec::new();
        let mut i: usize = 0;
        while i < count
            invariant
                i <= count,
                count == waiters@.len(),
                values@ =~= waiters@.take(i as int),
            decreases count - i,
        {
            values.push(waiters[i]);
            i += 1;
        }
        assert(values@ =~= waiters@);
        match StagedArray::place(values, array, 8) {
            Ok(array) => Ok(PreparedFutexWaitv { array }),
            Err((array, Misfit::TooSmall { needed, got })) => Err(
                (array, FutexWaitvError::ArrayTooSmall { needed, got }),
            ),
            Err((array, Misfit::Misaligned { needed })) => Err(
                (array, FutexWaitvError::ArrayMisaligned { needed }),
            ),
        }
    }

    /// How many words there are.
    pub fn count(&self) -> (r: usize)
        ensures
            r == self@.array.values().len(),
    {
        self.array.len()
    }

    /// Give the storage back, abandoning the request.
    pub fn into_array(self) -> (r: V)
        ensures
            r == self@.array.store(),
    {
        self.array.into_store()
    }

    /// Build the submission and move to the pending state.
    pub fn into_pending(self, ring: RingId, id: RequestId) -> (r: (Sqe, PendingFutexWaitv<V>))
        ensures
            r.0 == self@.sqe().user_data(id.raw()),
            r.1@ == (Ticket { ring, id, request: self@ }),
    {
        proof {
            use_type_invariant(&self);
        }
        let sqe = Sqe::futex_waitv_ptr(self.array.addr(), self.array.len() as u32);
        let pending = PendingFutexWaitv { array: ManuallyDrop::new(self.array), ring, id };
        (sqe.user_data(id.raw()), pending)
    }
}

/// A submitted `futex_waitv` whose array the kernel may be reading.
///
/// Dropping it runs no destructor for the storage: it leaks rather than
/// being freed underneath the kernel.
#[must_use]
pub struct PendingFutexWaitv<V: StableBufferMut> {
    array: ManuallyDrop<StagedArray<V, FutexWaitv>>,
    ring: RingId,
    id: RequestId,
}

impl<V: StableBufferMut> View for PendingFutexWaitv<V> {
    type V = Ticket<FutexWaitvRequest<V>>;

    closed spec fn view(&self) -> Ticket<FutexWaitvRequest<V>> {
        Ticket {
            ring: self.ring,
            id: self.id,
            request: FutexWaitvRequest { array: self.array@ },
        }
    }
}

impl<V: StableBufferMut> PendingFutexWaitv<V> {
    /// The kernel accepts that many words.
    #[verifier::type_invariant]
    pub closed spec fn wf(self) -> bool {
        self@.request.is_acceptable()
    }

    /// Identity the kernel echoes back in this request's completion.
    pub fn id(&self) -> (r: RequestId)
        ensures
            r == self@.id,
    {
        self.id
    }

    /// Identity of the queue that accepted this request.
    pub fn ring(&self) -> (r: RingId)
        ensures
            r == self@.ring,
    {
        self.ring
    }

    /// Whether `receipt` ends this very request.
    pub fn matches(&self, receipt: &Receipt) -> (r: bool)
        ensures
            r == receipt.belongs_to(self@.ring, self@.id),
    {
        receipt.belongs_to(self.ring, self.id)
    }

    /// How many words there are.
    pub fn count(&self) -> (r: usize)
        ensures
            r == self@.request.array.values().len(),
    {
        self.array.len()
    }

    /// Take the request back without a receipt, undoing a failed push.
    ///
    /// Only for a submission that the kernel has never seen.
    pub fn reclaim_unsubmitted(self) -> (r: PreparedFutexWaitv<V>)
        ensures
            r@ == self@.request,
    {
        proof {
            use_type_invariant(&self);
        }
        PreparedFutexWaitv { array: ManuallyDrop::into_inner(self.array) }
    }

    /// Trade a matching receipt for the outcome and the storage.
    ///
    /// The kernel only reads the array, so it comes back as it was.
    ///
    /// # Errors
    ///
    /// Returns the ticket and receipt unchanged if the receipt belongs to
    /// another request or another ring.
    pub fn redeem(self, receipt: Receipt) -> (r: Result<FutexWaitvDone<V>, (Self, Receipt)>)
        ensures
            match r {
                Err((ticket, back)) => {
                    &&& !receipt.belongs_to(self@.ring, self@.id)
                    &&& ticket@ == self@
                    &&& back == receipt
                },
                Ok(done) => {
                    &&& receipt.belongs_to(self@.ring, self@.id)
                    &&& done@ == (Done {
                        id: self@.id,
                        result: receipt.raw_result(),
                        request: self@.request.array.store(),
                    })
                },
            },
    {
        if !self.matches(&receipt) {
            return Err((self, receipt));
        }
        Ok(
            FutexWaitvDone {
                array: ManuallyDrop::into_inner(self.array).into_store(),
                id: self.id,
                result: receipt.raw_result(),
            },
        )
    }
}

/// A finished `futex_waitv`: which word woke it, and the storage back.
pub struct FutexWaitvDone<V: StableBufferMut> {
    array: V,
    id: RequestId,
    result: i32,
}

impl<V: StableBufferMut> View for FutexWaitvDone<V> {
    type V = Done<V>;

    closed spec fn view(&self) -> Done<V> {
        Done { id: self.id, result: self.result, request: self.array }
    }
}

impl<V: StableBufferMut> FutexWaitvDone<V> {
    /// Identity of the request this completes.
    pub fn id(&self) -> (r: RequestId)
        ensures
            r == self@.id,
    {
        self.id
    }

    /// The raw result.
    pub fn raw_result(&self) -> (r: i32)
        ensures
            r == self@.result,
    {
        self.result
    }

    /// The index of a word that woke this wait. Others may have been woken
    /// too.
    ///
    /// # Errors
    ///
    /// The error number the completion carried.
    pub fn woken_index(&self) -> (r: Result<u32, Error>)
        ensures
            r == Error::count_of(self@.result),
    {
        Error::count_of(self.result)
    }

    /// Take the storage back for reuse.
    pub fn into_array(self) -> (r: V)
        ensures
            r == self@.request,
    {
        self.array
    }
}

/// A wait is acceptable where it names one word to 128.
pub proof fn waits_name_some_words<V: StableBufferMut>(request: FutexWaitvRequest<V>)
    ensures
        request.is_acceptable() <==> 1 <= request.array.values().len() <= 128,
{
}

/// What is wrong with the storage is said with the same numbers.
pub proof fn waitv_misfits_keep_their_numbers(needed: usize, got: usize)
    ensures
        (FutexWaitvError::ArrayTooSmall { needed, got }).misfit() == Some(
            Misfit::TooSmall { needed, got },
        ),
        (FutexWaitvError::ArrayMisaligned { needed }).misfit() == Some(
            Misfit::Misaligned { needed },
        ),
{
}

} // verus!
