//! Split submission and completion halves for owned requests.

use super::buffer::StableBuffer;
use super::event::Event;
use super::identity::{
    after_u32, after_u64, request_ids_are_unique, steps_add_up, RequestId, RequestIdSource, RingId,
    RingIdSource,
};
use super::lifecycle::Ticket;
use super::request::{Pending, Prepared, Receipt};
use crate::error::{CompletionError, Errno, Error, SubmitError};
use crate::op::Sqe;
use crate::ring::{left_over, Completer, Completion, IoUring, Submitter};
use crate::syscall::SystemCall;
use crate::types::flags::CqeFlags;
use vstd::prelude::*;

verus! {

/// The submission half of an owned-request ring.
///
/// Each accepted request yields a [`Pending`] ticket that owns its buffer;
/// the application decides how to get it to the completion thread.
pub struct OwnedSubmitter {
    inner: Submitter,
    ring: RingId,
    ids: RequestIdSource,
}

impl OwnedSubmitter {
    /// The queue behind it.
    pub closed spec fn inner(&self) -> Submitter {
        self.inner
    }

    /// Identity stamped into every ticket.
    pub closed spec fn ring_id(&self) -> RingId {
        self.ring
    }

    /// The number the next request is identified by.
    pub closed spec fn upcoming(&self) -> u64 {
        self.ids.upcoming()
    }

    /// Queue an operation, taking ownership of its buffer.
    ///
    /// Nothing is sent to the kernel yet. Every attempt uses up one
    /// identity, whether or not it succeeds.
    ///
    /// # Errors
    ///
    /// If the queue is full the request is handed back intact, still owning
    /// its buffer.
    pub fn push<B: StableBuffer>(&mut self, request: Prepared<B>) -> (r: Result<
        Pending<B>,
        (Prepared<B>, Error),
    >)
        ensures
            final(self).ring_id() == old(self).ring_id(),
            final(self).upcoming() == after_u64(old(self).upcoming(), 1),
            final(self).inner().capacity() == old(self).inner().capacity(),
            match r {
                Ok(pending) => {
                    &&& old(self).inner().queued().len() < old(self).inner().capacity()
                    &&& pending@ == (Ticket {
                        ring: old(self).ring_id(),
                        id: RequestId(old(self).upcoming()),
                        request: request@,
                    })
                    &&& final(self).inner().queued() == old(self).inner().queued().push(
                        request@.sqe().user_data(old(self).upcoming()),
                    )
                },
                Err((back, e)) => {
                    &&& old(self).inner().queued().len() >= old(self).inner().capacity()
                    &&& back@ == request@
                    &&& e == Error::Submit(SubmitError::QueueFull)
                    &&& final(self).inner() == old(self).inner()
                },
            },
    {
        let id: RequestId = self.ids.next();
        let (sqe, pending) = request.into_pending(self.ring, id);
        match self.inner.push(sqe) {
            Ok(()) => Ok(pending),
            Err(e) => Err((Self::reclaim(pending), e)),
        }
    }

    /// Undo a push that the kernel never observed.
    ///
    /// Only reached when the queue was full, which is found before the entry
    /// is written, so no one else knows the buffer's address.
    fn reclaim<B: StableBuffer>(pending: Pending<B>) -> (r: Prepared<B>)
        ensures
            r@ == pending@.request,
    {
        pending.reclaim_unsubmitted()
    }

    /// Ask the kernel to take the queued entries.
    pub fn submit_call(&self) -> (c: SystemCall)
        ensures
            c == (SystemCall::IoUringEnter {
                to_submit: self.inner().queued().len() as u32,
                min_complete: 0,
            }),
    {
        self.inner.submit_and_wait_call(0)
    }

    /// Publish queued entries to the kernel.
    ///
    /// `entered` is what came of [`submit_call`](Self::submit_call). Tickets stay valid and owned
    /// even on an error, because the kernel may already have started.
    ///
    /// # Errors
    ///
    /// The kernel's refusal.
    pub fn submit(&mut self, entered: Result<u32, Errno>) -> (r: Result<u32, Error>)
        ensures
            final(self).ring_id() == old(self).ring_id(),
            final(self).upcoming() == old(self).upcoming(),
            final(self).inner().capacity() == old(self).inner().capacity(),
            match entered {
                Ok(n) => {
                    &&& r == Ok::<u32, Error>(n)
                    &&& final(self).inner().queued() == left_over(old(self).inner().queued(), n)
                },
                Err(e) => {
                    &&& r == Err::<u32, Error>(Error::Submit(SubmitError::Syscall(e)))
                    &&& final(self).inner() == old(self).inner()
                },
            },
    {
        self.inner.submit(entered)
    }

    /// Ask the kernel to take the queued entries and to wait for
    /// `min_complete` completions.
    pub fn submit_and_wait_call(&self, min_complete: u32) -> (c: SystemCall)
        ensures
            c == (SystemCall::IoUringEnter {
                to_submit: self.inner().queued().len() as u32,
                min_complete,
            }),
    {
        self.inner.submit_and_wait_call(min_complete)
    }

    /// Publish, having waited for completions.
    ///
    /// `entered` is what came of
    /// [`submit_and_wait_call`](Self::submit_and_wait_call).
    ///
    /// # Errors
    ///
    /// The kernel's refusal.
    pub fn submit_and_wait(&mut self, entered: Result<u32, Errno>) -> (r: Result<u32, Error>)
        ensures
            final(self).ring_id() == old(self).ring_id(),
            final(self).upcoming() == old(self).upcoming(),
            final(self).inner().capacity() == old(self).inner().capacity(),
            match entered {
                Ok(n) => {
                    &&& r == Ok::<u32, Error>(n)
                    &&& final(self).inner().queued() == left_over(old(self).inner().queued(), n)
                },
                Err(e) => {
                    &&& r == Err::<u32, Error>(Error::Submit(SubmitError::Syscall(e)))
                    &&& final(self).inner() == old(self).inner()
                },
            },
    {
        self.inner.submit(entered)
    }

    /// Free submission-queue slots.
    pub fn space_left(&self) -> (n: u32)
        ensures
            n == self.inner().capacity() - self.inner().queued().len(),
    {
        self.inner.sq_space_left()
    }

    /// Identity stamped into every ticket this half produces.
    pub fn ring(&self) -> (r: RingId)
        ensures
            r == self.ring_id(),
    {
        self.ring
    }

    /// The underlying submitter, for operations outside the owned API.
    pub fn raw(&mut self) -> (r: &mut Submitter)
        ensures
            *r == old(self).inner(),
            final(self).inner() == *final(r),
            final(self).ring_id() == old(self).ring_id(),
            final(self).upcoming() == old(self).upcoming(),
    {
        &mut self.inner
    }
}

/// The number of completions at the front of `ready` that are not terminal.
pub open spec fn leading_partial(ready: Seq<Completion>) -> nat
    decreases ready.len(),
{
    if ready.len() == 0 || !ready[0].flags.contains(CqeFlags::more()) {
        0
    } else {
        1 + leading_partial(ready.skip(1))
    }
}

/// The completion half of an owned-request ring.
///
/// Turns completions into [`Receipt`]s, the only values that can unlock a
/// [`Pending`] ticket.
pub struct OwnedCompleter {
    inner: Completer,
    ring: RingId,
}

impl OwnedCompleter {
    /// The queue behind it.
    pub closed spec fn inner(&self) -> Completer {
        self.inner
    }

    /// Identity stamped into every receipt.
    pub closed spec fn ring_id(&self) -> RingId {
        self.ring
    }

    /// Reap one completion as a receipt, if one is ready.
    ///
    /// Completions that more will follow are not terminal. They are skipped
    /// rather than turned into a receipt that would wrongly release storage.
    pub fn reap(&mut self) -> (r: Option<Receipt>)
        ensures
            final(self).ring_id() == old(self).ring_id(),
            final(self).inner().published() == old(self).inner().published(),
            ({
                let ready = old(self).inner().ready();
                let n = leading_partial(ready) as int;
                if n == ready.len() {
                    &&& r is None
                    &&& final(self).inner().ready() == Seq::<Completion>::empty()
                    &&& final(self).inner().head() == after_u32(
                        old(self).inner().head(),
                        n as nat,
                    )
                } else {
                    &&& r matches Some(receipt) && receipt.reports(old(self).ring_id(), ready[n])
                    &&& final(self).inner().ready() == ready.skip(n + 1)
                    &&& final(self).inner().head() == after_u32(
                        old(self).inner().head(),
                        (n + 1) as nat,
                    )
                }
            }),
    {
        let ghost ready = self.inner.ready();
        let ghost mut skipped: int = 0;
        assert(ready.skip(0) =~= ready);
        loop
            invariant
                0 <= skipped <= ready.len(),
                ready == old(self).inner().ready(),
                self.inner.ready() == ready.skip(skipped),
                self.ring == old(self).ring_id(),
                leading_partial(ready) == skipped + leading_partial(ready.skip(skipped)),
                self.inner.published() == old(self).inner().published(),
                self.inner.head() == after_u32(old(self).inner().head(), skipped as nat),
            decreases ready.len() - skipped,
        {
            let cqe: Completion = match self.inner.complete() {
                None => {
                    assert(self.inner.ready() =~= Seq::<Completion>::empty());
                    return None;
                },
                Some(cqe) => cqe,
            };
            proof {
                assert(ready.skip(skipped).skip(1) =~= ready.skip(skipped + 1));
                steps_add_up(old(self).inner().head(), 0, skipped as nat, 1);
            }
            if cqe.flags.contains(CqeFlags::more()) {
                proof {
                    skipped = skipped + 1;
                }
                continue;
            }
            return Some(Receipt::of(self.ring, cqe));
        }
    }

    /// Reap one completion, terminal or not, if one is ready.
    ///
    /// For rings whose requests do not all complete at once.
    pub fn reap_event(&mut self) -> (r: Option<Event>)
        ensures
            final(self).ring_id() == old(self).ring_id(),
            final(self).inner().published() == old(self).inner().published(),
            old(self).inner().ready().len() == 0 ==> {
                &&& r is None
                &&& *final(self) == *old(self)
            },
            old(self).inner().ready().len() > 0 ==> {
                &&& r matches Some(event) && event.classifies(
                    old(self).ring_id(),
                    old(self).inner().ready()[0],
                )
                &&& final(self).inner().ready() == old(self).inner().ready().skip(1)
                &&& final(self).inner().head() == after_u32(old(self).inner().head(), 1)
            },
    {
        match self.inner.complete() {
            None => None,
            Some(cqe) => Some(Event::of(self.ring, cqe)),
        }
    }

    /// Ask the kernel to wait for `min_complete` completions.
    pub fn wait_call(&self, min_complete: u32) -> (c: SystemCall)
        ensures
            c == (SystemCall::IoUringEnter { to_submit: 0, min_complete }),
    {
        self.inner.wait_call(min_complete)
    }

    /// Interpret what came of [`wait_call`](Self::wait_call).
    ///
    /// # Errors
    ///
    /// The kernel's refusal.
    pub fn wait(&mut self, entered: Result<u32, Errno>) -> (r: Result<(), Error>)
        ensures
            *final(self) == *old(self),
            match entered {
                Ok(_) => r == Ok::<(), Error>(()),
                Err(e) => r == Err::<(), Error>(Error::Submit(SubmitError::Syscall(e))),
            },
    {
        self.inner.wait(entered)
    }

    /// Block, then reap one receipt.
    ///
    /// `entered` is what came of [`wait_call`](Self::wait_call) for one
    /// completion.
    ///
    /// # Errors
    ///
    /// The kernel's refusal, or [`CompletionError::NoCompletion`] if the
    /// wait brought no terminal completion.
    pub fn wait_one(&mut self, entered: Result<u32, Errno>) -> (r: Result<Receipt, Error>)
        ensures
            final(self).ring_id() == old(self).ring_id(),
            final(self).inner().published() == old(self).inner().published(),
            match entered {
                Err(e) => {
                    &&& r == Err::<Receipt, Error>(Error::Submit(SubmitError::Syscall(e)))
                    &&& *final(self) == *old(self)
                },
                Ok(_) => {
                    let ready = old(self).inner().ready();
                    let n = leading_partial(ready) as int;
                    if n == ready.len() {
                        &&& r == Err::<Receipt, Error>(
                            Error::Completion(CompletionError::NoCompletion),
                        )
                        &&& final(self).inner().ready() == Seq::<Completion>::empty()
                        &&& final(self).inner().head() == after_u32(
                            old(self).inner().head(),
                            n as nat,
                        )
                    } else {
                        &&& r matches Ok(receipt) && receipt.reports(
                            old(self).ring_id(),
                            ready[n],
                        )
                        &&& final(self).inner().ready() == ready.skip(n + 1)
                        &&& final(self).inner().head() == after_u32(
                            old(self).inner().head(),
                            (n + 1) as nat,
                        )
                    }
                },
            },
    {
        match self.wait(entered) {
            Err(e) => Err(e),
            Ok(()) => match self.reap() {
                Some(receipt) => Ok(receipt),
                None => Err(Error::from(CompletionError::NoCompletion)),
            },
        }
    }

    /// Publish consumed completion slots back to the kernel.
    ///
    /// Returns the count to store where the kernel looks for it.
    pub fn sync(&mut self) -> (n: u32)
        ensures
            n == old(self).inner().head(),
            final(self).ring_id() == old(self).ring_id(),
            final(self).inner().ready() == old(self).inner().ready(),
            final(self).inner().head() == old(self).inner().head(),
            final(self).inner().published() == old(self).inner().head(),
    {
        self.inner.sync_cq()
    }

    /// Identity this half stamps into receipts.
    pub fn ring(&self) -> (r: RingId)
        ensures
            r == self.ring_id(),
    {
        self.ring
    }

    /// The underlying completer, for operations outside the owned API.
    pub fn raw(&mut self) -> (r: &mut Completer)
        ensures
            *r == old(self).inner(),
            final(self).inner() == *final(r),
            final(self).ring_id() == old(self).ring_id(),
    {
        &mut self.inner
    }
}

impl IoUring {
    /// Split into owned-request halves that can be used from two threads.
    ///
    /// Both halves get the same fresh identity.
    ///
    /// # Errors
    ///
    /// The ring unchanged, and why, if it is bound to one thread.
    pub fn split_owned(self, rings: &mut RingIdSource) -> (r: Result<
        (OwnedSubmitter, OwnedCompleter),
        (Self, Error),
    >)
        ensures
            final(rings).upcoming() == after_u32(old(rings).upcoming(), 1),
            match r {
                Ok((submitter, completer)) => {
                    &&& self.affinity is None
                    &&& submitter.inner() == self.submitter
                    &&& submitter.ring_id() == RingId(old(rings).upcoming())
                    &&& submitter.upcoming() == 1
                    &&& completer.inner() == self.completer
                    &&& completer.ring_id() == RingId(old(rings).upcoming())
                },
                Err((ring, e)) => {
                    &&& self.affinity == Some(e)
                    &&& ring == self
                },
            },
    {
        let ring: RingId = RingId::next(rings);
        match self.split() {
            Err(e) => Err(e),
            Ok((submitter, completer)) => Ok(
                (
                    OwnedSubmitter { inner: submitter, ring, ids: RequestIdSource::new() },
                    OwnedCompleter { inner: completer, ring },
                ),
            ),
        }
    }
}

/// No receipt can be redeemed for two of the requests that went through one
/// queue, unless the counter has gone all the way round between them.
pub proof fn no_receipt_ends_two_requests(
    receipt: Receipt,
    ring: RingId,
    start: u64,
    i: nat,
    j: nat,
)
    requires
        i < j < i + 0x1_0000_0000_0000_0000,
    ensures
        !(receipt.belongs_to(ring, RequestId(after_u64(start, i))) && receipt.belongs_to(
            ring,
            RequestId(after_u64(start, j)),
        )),
{
    request_ids_are_unique(start, i, j);
}

/// A completion that echoes what a submission carried belongs to the ticket
/// of that submission, on the ring it went through and on no other.
pub proof fn echoed_completions_find_their_ticket(
    sqe: Sqe,
    ring: RingId,
    other: RingId,
    id: RequestId,
    cqe: Completion,
    event: Event,
)
    requires
        cqe.user_data == sqe.user_data(id.raw()).0.user_data,
        event.classifies(other, cqe),
    ensures
        event.belongs_to(ring, id) <==> other == ring,
{
}

/// What [`OwnedCompleter::reap`] passes over is exactly what more completions
/// follow, up to the first one that none do.
pub proof fn only_partial_completions_are_passed_over(ready: Seq<Completion>)
    ensures
        leading_partial(ready) <= ready.len(),
        forall|i: int|
            0 <= i < leading_partial(ready) ==> #[trigger] ready[i].flags.contains(
                CqeFlags::more(),
            ),
        leading_partial(ready) < ready.len() ==> !ready[leading_partial(
            ready,
        ) as int].flags.contains(CqeFlags::more()),
    decreases ready.len(),
{
    if ready.len() > 0 && ready[0].flags.contains(CqeFlags::more()) {
        let rest = ready.skip(1);
        only_partial_completions_are_passed_over(rest);
        assert forall|i: int| 0 <= i < leading_partial(ready) implies #[trigger] ready[i]
            .flags.contains(CqeFlags::more()) by {
            if i > 0 {
                assert(rest[i - 1] == ready[i]);
            }
        }
    }
}

} // verus!
