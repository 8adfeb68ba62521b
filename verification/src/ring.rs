//! The queues shared with the kernel, as the library sees them.
//!
//! A [`Submitter`] holds the entries pushed and not yet handed over, a
//! [`Completer`] the completions that have arrived and not yet been taken.
//! Entering the kernel is the caller's part: it says what came of it.

use crate::error::{Errno, Error, SubmitError};
use crate::op::Sqe;
use crate::owned::identity::after_u32;
use crate::syscall::SystemCall;
use crate::types::flags::CqeFlags;
use vstd::prelude::*;

verus! {

/// A completion as the kernel posts it.
///
/// Any code can build one, so it proves nothing about who posted it.
#[derive(Clone, Copy, Debug, PartialEq, Eq, Structural)]
pub struct Completion {
    /// The value the submission carried.
    pub user_data: u64,
    /// The result, or a negated error number.
    pub result: i32,
    /// The flags the kernel set.
    pub flags: CqeFlags,
}

/// What is left of `queued` once the kernel has reported to have taken `n`
/// entries. It takes the oldest, and no more than there are.
pub open spec fn left_over(queued: Seq<Sqe>, n: u32) -> Seq<Sqe> {
    if n <= queued.len() {
        queued.skip(n as int)
    } else {
        Seq::empty()
    }
}

/// The submission half of a ring.
pub struct Submitter {
    queue: Vec<Sqe>,
    capacity: u32,
}

impl Submitter {
    /// No more entries wait than there is room for.
    #[verifier::type_invariant]
    pub closed spec fn wf(self) -> bool {
        self.queue@.len() <= self.capacity
    }

    /// The entries that wait, oldest first.
    pub closed spec fn queued(&self) -> Seq<Sqe> {
        self.queue@
    }

    /// How many entries there is room for.
    pub closed spec fn capacity(&self) -> u32 {
        self.capacity
    }

    /// An empty queue with room for `capacity` entries.
    pub fn new(capacity: u32) -> (r: Self)
        ensures
            r.queued() == Seq::<Sqe>::empty(),
            r.capacity() == capacity,
    {
        Submitter { queue: Vec::new(), capacity }
    }

    /// Free entries.
    pub fn sq_space_left(&self) -> (n: u32)
        ensures
            n == self.capacity() - self.queued().len(),
    {
        proof {
            use_type_invariant(self);
        }
        self.capacity - self.queue.len() as u32
    }

    /// Queue an entry.
    ///
    /// # Errors
    ///
    /// [`SubmitError::QueueFull`] if there is no room; nothing has changed.
    pub fn push(&mut self, sqe: Sqe) -> (r: Result<(), Error>)
        ensures
            final(self).capacity() == old(self).capacity(),
            old(self).queued().len() < old(self).capacity() ==> {
                &&& r == Ok::<(), Error>(())
                &&& final(self).queued() == old(self).queued().push(sqe)
            },
            old(self).queued().len() >= old(self).capacity() ==> {
                &&& r == Err::<(), Error>(Error::Submit(SubmitError::QueueFull))
                &&& *final(self) == *old(self)
            },
    {
        proof {
            use_type_invariant(&*self);
        }
        if self.queue.len() as u32 >= self.capacity {
            return Err(Error::from(SubmitError::QueueFull));
        }
        let mut queue: Vec<Sqe> = Vec::new();
        core::mem::swap(&mut queue, &mut self.queue);
        queue.push(sqe);
        self.queue = queue;
        Ok(())
    }

    /// Ask the kernel to take the queued entries, and to wait for
    /// `min_complete` completions.
    pub fn submit_and_wait_call(&self, min_complete: u32) -> (c: SystemCall)
        ensures
            c == (SystemCall::IoUringEnter {
                to_submit: self.queued().len() as u32,
                min_complete,
            }),
            self.queued().len() <= self.capacity(),
    {
        proof {
            use_type_invariant(self);
        }
        SystemCall::IoUringEnter { to_submit: self.queue.len() as u32, min_complete }
    }

    /// Hand the queued entries to the kernel.
    ///
    /// `entered` is what the kernel answered: how many of the oldest entries
    /// it took, or its refusal.
    ///
    /// # Errors
    ///
    /// The refusal; the entries stay queued.
    pub fn submit(&mut self, entered: Result<u32, Errno>) -> (r: Result<u32, Error>)
        ensures
            final(self).capacity() == old(self).capacity(),
            match entered {
                Ok(n) => {
                    &&& r == Ok::<u32, Error>(n)
                    &&& final(self).queued() == left_over(old(self).queued(), n)
                },
                Err(e) => {
                    &&& r == Err::<u32, Error>(Error::Submit(SubmitError::Syscall(e)))
                    &&& *final(self) == *old(self)
                },
            },
    {
        proof {
            use_type_invariant(&*self);
        }
        match entered {
            Err(e) => Err(Error::from(SubmitError::Syscall(e))),
            Ok(n) => {
                let mut queue: Vec<Sqe> = Vec::new();
                core::mem::swap(&mut queue, &mut self.queue);
                let waiting: usize = queue.len();
                let taken: usize = if n as usize <= waiting {
                    n as usize
                } else {
                    waiting
                };
                let rest: Vec<Sqe> = queue.split_off(taken);
                assert(rest@ =~= left_over(old(self).queue@, n));
                self.queue = rest;
                Ok(n)
            },
        }
    }
}

/// The completion half of a ring.
pub struct Completer {
    ready: Vec<Completion>,
    head: u32,
    published: u32,
}

impl Completer {
    /// The completions that wait, oldest first.
    pub closed spec fn ready(&self) -> Seq<Completion> {
        self.ready@
    }

    /// How many completions have been taken so far, wrapping.
    pub closed spec fn head(&self) -> u32 {
        self.head
    }

    /// How many of those the kernel has been told of, wrapping.
    pub closed spec fn published(&self) -> u32 {
        self.published
    }

    /// A queue with nothing in it.
    pub fn new() -> (r: Self)
        ensures
            r.ready() == Seq::<Completion>::empty(),
            r.head() == 0,
            r.published() == 0,
    {
        Completer { ready: Vec::new(), head: 0, published: 0 }
    }

    /// Note a completion the kernel has posted.
    pub fn post(&mut self, cqe: Completion)
        ensures
            final(self).ready() == old(self).ready().push(cqe),
            final(self).head() == old(self).head(),
            final(self).published() == old(self).published(),
    {
        self.ready.push(cqe);
    }

    /// Take the oldest completion, if one is ready.
    pub fn complete(&mut self) -> (r: Option<Completion>)
        ensures
            old(self).ready().len() == 0 ==> r is None && *final(self) == *old(self),
            old(self).ready().len() > 0 ==> {
                &&& r == Some(old(self).ready()[0])
                &&& final(self).ready() == old(self).ready().skip(1)
                &&& final(self).head() == after_u32(old(self).head(), 1)
                &&& final(self).published() == old(self).published()
            },
    {
        if self.ready.len() == 0 {
            return None;
        }
        let cqe: Completion = self.ready.remove(0);
        self.head = self.head.wrapping_add(1);
        assert(self.ready@ =~= old(self).ready@.skip(1));
        Some(cqe)
    }

    /// Tell the kernel which completions have been taken, so that it can use
    /// their slots again.
    ///
    /// Returns the count to store where the kernel looks for it.
    pub fn sync_cq(&mut self) -> (n: u32)
        ensures
            n == old(self).head(),
            final(self).ready() == old(self).ready(),
            final(self).head() == old(self).head(),
            final(self).published() == old(self).head(),
    {
        self.published = self.head;
        self.published
    }

    /// Ask the kernel to wait for `min_complete` completions.
    pub fn wait_call(&self, min_complete: u32) -> (c: SystemCall)
        ensures
            c == (SystemCall::IoUringEnter { to_submit: 0, min_complete }),
    {
        SystemCall::IoUringEnter { to_submit: 0, min_complete }
    }

    /// Interpret what came of [`wait_call`](Self::wait_call).
    ///
    /// # Errors
    ///
    /// The kernel's refusal.
    pub fn wait(&mut self, entered: Result<u32, Errno>) -> (r: Result<(), Error>)
        ensures
            *final(self) == *old(self),
            match entered {
                Ok(_) => r == Ok::<(), Error>(()),
                Err(e) => r == Err::<(), Error>(Error::Submit(SubmitError::Syscall(e))),
            },
    {
        match entered {
            Ok(_) => Ok(()),
            Err(e) => Err(Error::from(SubmitError::Syscall(e))),
        }
    }
}

/// A whole ring: both halves, and why they cannot be parted if they cannot.
pub struct IoUring {
    /// The submission half.
    pub submitter: Submitter,
    /// The completion half.
    pub completer: Completer,
    /// Why the ring is bound to one thread, if it is.
    pub affinity: Option<Error>,
}

impl IoUring {
    /// Part the ring into its halves.
    ///
    /// # Errors
    ///
    /// The ring unchanged, and why, if it is bound to one thread.
    pub fn split(self) -> (r: Result<(Submitter, Completer), (Self, Error)>)
        ensures
            match self.affinity {
                Some(e) => r == Err::<(Submitter, Completer), (Self, Error)>((self, e)),
                None => r == Ok::<(Submitter, Completer), (Self, Error)>(
                    (self.submitter, self.completer),
                ),
            },
    {
        match self.affinity {
            Some(e) => Err((self, e)),
            None => Ok((self.submitter, self.completer)),
        }
    }
}

/// What the kernel took leaves from the front, in order, and nothing else
/// does; it cannot take more than there is.
pub proof fn entries_leave_in_order(queued: Seq<Sqe>, n: u32)
    ensures
        n <= queued.len() ==> left_over(queued, n).len() == queued.len() - n,
        n > queued.len() ==> left_over(queued, n).len() == 0,
        forall|i: int|
            0 <= i < left_over(queued, n).len() ==> #[trigger] left_over(queued, n)[i]
                == queued[i + n],
{
}

} // verus!
