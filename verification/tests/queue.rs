//! The two halves of a ring.

use ququmatz::op::Sqe;
use ququmatz::owned::buffer::MmapBuffer;
use ququmatz::owned::event::Event;
use ququmatz::owned::identity::{RequestId, RingId, RingIdSource};
use ququmatz::owned::queue::{OwnedCompleter, OwnedSubmitter};
use ququmatz::owned::request::Prepared;
use ququmatz::ring::{Completer, Completion, IoUring, Submitter};
use ququmatz::syscall::SystemCall;
use ququmatz::types::fd::RawFd;
use ququmatz::types::flags::CqeFlags;
use ququmatz::{CompletionError, Errno, Error, SubmitError};

fn halves(capacity: u32) -> (OwnedSubmitter, OwnedCompleter) {
    let ring = IoUring {
        submitter: Submitter::new(capacity),
        completer: Completer::new(),
        affinity: None,
    };
    ring.split_owned(&mut RingIdSource::new())
        .ok()
        .expect("not bound to a thread")
}

fn buffer() -> MmapBuffer {
    MmapBuffer::with_capacity(16, Ok((0x4000, vec![0; 16].leak()))).expect("map")
}

fn write() -> Prepared<MmapBuffer> {
    Prepared::write(RawFd::from_raw(1), buffer(), 0)
}

fn cqe(user_data: u64, result: i32, flags: CqeFlags) -> Completion {
    Completion {
        user_data,
        result,
        flags,
    }
}

#[test]
fn a_request_goes_through_and_comes_back() {
    let (mut sub, mut comp) = halves(4);
    let mut buf = buffer();
    buf.as_mut_slice()[..5].copy_from_slice(b"hello");
    let ticket = sub
        .push(Prepared::write(RawFd::from_raw(1), buf, 0))
        .ok()
        .expect("room");
    assert!(matches!(
        sub.submit_call(),
        SystemCall::IoUringEnter {
            to_submit: 1,
            min_complete: 0
        }
    ));
    assert_eq!(sub.submit(Ok(1)), Ok(1));

    comp.raw()
        .post(cqe(ticket.id().raw(), 5, CqeFlags::from_raw(0)));
    let receipt = comp.wait_one(Ok(0)).expect("completion");
    let done = ticket.redeem(receipt).ok().expect("matches");
    let (written, buf) = done.into_parts();
    assert_eq!(written, Ok(5));
    assert_eq!(&buf.as_slice()[..5], b"hello");
}

#[test]
fn a_full_queue_hands_the_request_back() {
    let (mut sub, _) = halves(1);
    assert_eq!(sub.space_left(), 1);
    let first = sub.push(write()).ok().expect("room");
    assert_eq!(sub.space_left(), 0);
    let (back, e) = sub.push(write()).err().expect("full");
    assert_eq!(e, Error::Submit(SubmitError::QueueFull));
    assert_eq!(back.buffer().len(), 16);

    // The refused attempt used up an identity.
    assert_eq!(first.id(), RequestId(1));
    assert_eq!(sub.submit(Ok(1)), Ok(1));
    let third = sub.push(back).ok().expect("room again");
    assert_eq!(third.id(), RequestId(3));
}

#[test]
fn a_refused_submission_keeps_the_entries() {
    let (mut sub, _) = halves(2);
    let _ticket = sub.push(write()).ok().expect("room");
    assert_eq!(
        sub.submit(Err(Errno(16))),
        Err(Error::Submit(SubmitError::Syscall(Errno(16))))
    );
    assert_eq!(sub.space_left(), 1);
    assert!(matches!(
        sub.submit_and_wait_call(3),
        SystemCall::IoUringEnter {
            to_submit: 1,
            min_complete: 3
        }
    ));
    assert_eq!(sub.submit_and_wait(Ok(1)), Ok(1));
    assert_eq!(sub.space_left(), 2);
}

#[test]
fn reaping_passes_over_partial_completions() {
    let (_, mut comp) = halves(1);
    assert_eq!(comp.reap(), None);
    comp.raw().post(cqe(1, 10, CqeFlags::more()));
    comp.raw().post(cqe(1, 11, CqeFlags::more()));
    comp.raw().post(cqe(1, 12, CqeFlags::notif()));
    comp.raw().post(cqe(2, 13, CqeFlags::more()));
    let receipt = comp.reap().expect("terminal");
    assert_eq!(receipt.raw_result(), 12);
    assert_eq!(receipt.id(), RequestId(1));
    assert_eq!(receipt.ring(), comp.ring());
    assert_eq!(comp.reap(), None);
    assert_eq!(comp.sync(), 4);
}

#[test]
fn events_come_in_order() {
    let (_, mut comp) = halves(1);
    comp.raw().post(cqe(1, 10, CqeFlags::more()));
    comp.raw().post(cqe(1, 11, CqeFlags::from_raw(0)));
    assert!(matches!(comp.reap_event(), Some(Event::Partial(p)) if p.raw_result() == 10));
    assert!(matches!(comp.reap_event(), Some(Event::Complete(r)) if r.raw_result() == 11));
    assert_eq!(comp.reap_event(), None);
}

#[test]
fn waiting_can_fail_or_bring_nothing() {
    let (_, mut comp) = halves(1);
    assert!(matches!(
        comp.wait_call(1),
        SystemCall::IoUringEnter {
            to_submit: 0,
            min_complete: 1
        }
    ));
    assert_eq!(comp.wait(Ok(0)), Ok(()));
    assert_eq!(
        comp.wait_one(Err(Errno(4))),
        Err(Error::Submit(SubmitError::Syscall(Errno(4))))
    );
    comp.raw().post(cqe(1, 10, CqeFlags::more()));
    assert_eq!(
        comp.wait_one(Ok(0)),
        Err(Error::Completion(CompletionError::NoCompletion))
    );
}

#[test]
fn a_receipt_of_another_ring_is_refused() {
    let mut rings = RingIdSource::new();
    let ring = |rings: &mut RingIdSource| {
        IoUring {
            submitter: Submitter::new(1),
            completer: Completer::new(),
            affinity: None,
        }
        .split_owned(rings)
        .ok()
        .expect("splits")
    };
    let (mut sub, comp) = ring(&mut rings);
    let (_, mut other) = ring(&mut rings);
    assert_eq!((sub.ring(), comp.ring()), (RingId(1), RingId(1)));
    assert_eq!(other.ring(), RingId(2));

    let ticket = sub.push(write()).ok().expect("room");
    other
        .raw()
        .post(cqe(ticket.id().raw(), 16, CqeFlags::from_raw(0)));
    let stranger = other.reap().expect("completion");
    let (ticket, back) = ticket.redeem(stranger).err().expect("refused");
    assert_eq!(back.ring(), RingId(2));
    assert_eq!(ticket.ring(), RingId(1));
}

#[test]
fn a_bound_ring_stays_whole() {
    let ring = IoUring {
        submitter: Submitter::new(1),
        completer: Completer::new(),
        affinity: Some(Error::Syscall(Errno(22))),
    };
    let (ring, e) = ring
        .split_owned(&mut RingIdSource::new())
        .err()
        .expect("bound");
    assert_eq!(e, Error::Syscall(Errno(22)));
    assert!(ring.split().is_err());
}

#[test]
fn plain_entries_queue_too() {
    let mut submitter = Submitter::new(1);
    assert_eq!(submitter.push(Sqe::nop().user_data(42)), Ok(()));
    assert_eq!(
        submitter.push(Sqe::nop()),
        Err(Error::Submit(SubmitError::QueueFull))
    );
    assert_eq!(submitter.submit(Ok(1)), Ok(1));
    assert_eq!(submitter.sq_space_left(), 1);

    let mut completer = Completer::new();
    completer.post(cqe(42, 0, CqeFlags::from_raw(0)));
    let done = completer.complete().expect("completion");
    assert_eq!((done.user_data, done.result), (42, 0));
    assert_eq!(completer.complete(), None);
}

#[test]
fn the_oldest_entries_leave_first() {
    let mut sub = Submitter::new(3);
    for n in 1..=3 {
        assert_eq!(sub.push(Sqe::nop().user_data(n)), Ok(()));
    }
    assert_eq!(sub.submit(Ok(2)), Ok(2));
    assert_eq!(sub.sq_space_left(), 2);
    // A kernel that claims more than it was given empties the queue.
    assert_eq!(sub.submit(Ok(5)), Ok(5));
    assert_eq!(sub.sq_space_left(), 3);
}
