//! Requests that complete more than once.

use ququmatz::net::Socket;
use ququmatz::owned::accept::{Incoming, PreparedAccept};
use ququmatz::owned::direct_accept::{DirectIncoming, PreparedDirectAccept};
use ququmatz::owned::event::Event;
use ququmatz::owned::identity::{RequestId, RingId, RingIdSource};
use ququmatz::owned::multishot::{Armed, Delivery, PreparedMultishot};
use ququmatz::owned::readmultishot::PreparedReadMultishot;
use ququmatz::pool::BufferConsumer;
use ququmatz::ring::{Completer, Completion, IoUring, Submitter};
use ququmatz::types::fd::RawFd;
use ququmatz::types::flags::{AcceptFlags, CqeFlags, MsgFlags, SqeFlags};
use ququmatz::{CompletionError, Errno, Error};

const RING: RingId = RingId(4);
const ID: RequestId = RequestId(9);

/// What a completion of the ring `ring` authorizes once it is reaped there.
fn reaped(ring: RingId, id: RequestId, result: i32, flags: CqeFlags) -> Event {
    let mut rings = RingIdSource::new();
    loop {
        let whole = IoUring {
            submitter: Submitter::new(1),
            completer: Completer::new(),
            affinity: None,
        };
        let (_, mut comp) = whole.split_owned(&mut rings).ok().expect("not bound");
        if comp.ring() == ring {
            comp.raw().post(Completion {
                user_data: id.raw(),
                result,
                flags,
            });
            return comp.reap_event().expect("just posted");
        }
    }
}

fn partial(result: i32, flags: CqeFlags) -> Event {
    reaped(RING, ID, result, flags)
}

fn complete(result: i32) -> Event {
    reaped(RING, ID, result, CqeFlags::from_raw(0))
}

fn stranger() -> Event {
    reaped(RING, RequestId(10), 1, CqeFlags::from_raw(0))
}

fn arrival(id: u16) -> CqeFlags {
    CqeFlags::from_raw(3 | (u32::from(id) << 16))
}

#[test]
fn an_arrival_lends_a_buffer_and_returns_it() {
    let mut pool = BufferConsumer::new(7, 2, 8);
    let prepared = PreparedMultishot::recv(RawFd::from_raw(3), pool.bgid(), MsgFlags::default());
    assert_eq!(prepared.bgid(), 7);
    let (sqe, recv) = prepared.into_pending(RING, ID);
    assert_eq!(sqe.0.user_data, 9);
    assert_eq!(sqe.0.buf_index, 7);
    assert_eq!(sqe.0.flags, SqeFlags::buffer_select().bits());
    assert_eq!((recv.bgid(), recv.fd()), (7, RawFd::from_raw(3)));

    // Two buffers, five arrivals: only giving back makes that possible.
    for text in [b"one", b"two", b"six", b"ten", b"end"] {
        let id = pool.fill(text).expect("a buffer is available");
        let delivery = recv
            .record(partial(3, arrival(id)), &mut pool)
            .ok()
            .expect("matches");
        assert_eq!(delivery.armed(), Armed::Yes);
        assert_eq!(delivery.bytes(), Some(&text[..]));
        let Delivery::Data(arrival) = delivery else {
            panic!("data expected");
        };
        assert_eq!((arrival.buffer_id(), arrival.len()), (id, 3));
        assert!(!arrival.is_empty());
        assert_eq!(arrival.bytes(), text);
        arrival.recycle();
    }
}

#[test]
fn buffers_not_given_back_drain_the_pool() {
    let mut pool = BufferConsumer::new(1, 2, 4);
    assert_eq!(pool.fill(b"a"), Some(0));
    assert_eq!(pool.fill(b"b"), Some(1));
    assert_eq!(pool.fill(b"c"), None);
    pool.recycle_and_commit(0);
    assert_eq!(pool.fill(b"c"), Some(0));
    assert_eq!(pool.buffer(0, 2), Some(&b"c\0"[..]));
    assert_eq!(pool.buffer(1, 1), Some(&b"b"[..]));
    assert_eq!(pool.buffer(2, 0), None);
    assert_eq!(pool.buffer(0, 5), None);
}

#[test]
fn armed_completions_without_a_buffer_lend_nothing() {
    let mut pool = BufferConsumer::new(1, 1, 4);
    let (_, recv) = PreparedMultishot::recv(RawFd::from_raw(3), 1, MsgFlags::default())
        .into_pending(RING, ID);
    for (event, raw) in [
        (partial(5, CqeFlags::more()), 5),
        (partial(-105, arrival(0)), -105),
    ] {
        let delivery = recv.record(event, &mut pool).ok().expect("matches");
        assert!(matches!(delivery, Delivery::Empty(n) if n == raw));
        assert_eq!(delivery.bytes(), None);
        assert!(delivery.armed().is_armed());
    }
    // An id beyond the pool reads as nothing.
    let delivery = recv
        .record(partial(2, arrival(6)), &mut pool)
        .ok()
        .expect("matches");
    assert_eq!(delivery.bytes(), Some(&[][..]));
}

#[test]
fn a_terminal_completion_ends_a_multishot() {
    let mut pool = BufferConsumer::new(1, 1, 4);
    let (_, recv) = PreparedMultishot::recv(RawFd::from_raw(3), 1, MsgFlags::default())
        .into_pending(RING, ID);
    assert!(recv.record(stranger(), &mut pool).is_err());
    let delivery = recv.record(complete(-105), &mut pool).ok().expect("matches");
    assert_eq!(delivery.armed(), Armed::Finished);
    let Delivery::Done(end) = delivery else {
        panic!("an ending expected");
    };
    assert_eq!(end.raw_result(), -105);
    assert_eq!(
        end.result(),
        Err(Error::Completion(CompletionError::Failed(Errno(105))))
    );
    assert_eq!(end.into_receipt().raw_result(), -105);
}

#[test]
fn reads_deliver_like_receives() {
    let mut pool = BufferConsumer::new(2, 1, 4);
    let prepared = PreparedReadMultishot::on(RawFd::from_raw(5), 64, 2);
    assert_eq!((prepared.offset(), prepared.fd()), (64, RawFd::from_raw(5)));
    let (sqe, read) = prepared.into_pending(RING, ID);
    assert_eq!((sqe.0.off, sqe.0.buf_index), (64, 2));
    assert_eq!(read.id(), ID);

    let id = pool.fill(b"data").expect("available");
    let delivery = read
        .record(partial(4, arrival(id)), &mut pool)
        .ok()
        .expect("matches");
    assert_eq!(delivery.bytes(), Some(&b"data"[..]));
    drop(delivery);
    assert!(read.record(stranger(), &mut pool).is_err());
}

#[test]
fn every_accepted_connection_is_handed_on() {
    let prepared = PreparedAccept::on(RawFd::from_raw(3), AcceptFlags(0));
    assert_eq!(prepared.fd(), RawFd::from_raw(3));
    assert_eq!(prepared.flags(), AcceptFlags(0));
    let (sqe, mut accept) = prepared.into_pending(RING, ID);
    assert_eq!(sqe.0.user_data, 9);

    let incoming = accept.record(partial(11, CqeFlags::more())).ok().expect("ours");
    assert_eq!(incoming.armed(), Armed::Yes);
    let socket = incoming.into_connection().expect("accepted");
    assert_eq!(socket.into_fd(), RawFd::from_raw(11));

    let incoming = accept.record(partial(-24, CqeFlags::more())).ok().expect("ours");
    assert!(matches!(incoming, Incoming::Empty(-24)));
    assert!(incoming.into_connection().is_none());

    // A full completion queue folds a connection into the last completion.
    let incoming = accept.record(complete(12)).ok().expect("ours");
    assert_eq!(incoming.armed(), Armed::Finished);
    let Incoming::Done(end) = incoming else {
        panic!("an ending expected");
    };
    assert_eq!(end.last().map(Socket::fd), Some(RawFd::from_raw(12)));
    assert_eq!(end.result(), Ok(12));
    let (receipt, last) = end.into_parts();
    assert_eq!(receipt.raw_result(), 12);
    assert_eq!(last.expect("folded").into_fd(), RawFd::from_raw(12));

    let end = accept.record(complete(-125)).ok().expect("ours");
    assert!(end.into_connection().is_none());
    assert!(accept.record(stranger()).is_err());
}

#[test]
fn every_filled_slot_is_handed_on() {
    let (_, mut accept) =
        PreparedDirectAccept::on(RawFd::from_raw(3), AcceptFlags(0)).into_pending(RING, ID);
    let incoming = accept.record(partial(0, CqeFlags::more())).ok().expect("ours");
    assert_eq!(incoming.armed(), Armed::Yes);
    let slot = incoming.into_slot().expect("slot 0 is a slot");
    assert_eq!((slot.index().get(), slot.ring()), (0, RING));

    assert!(matches!(
        accept.record(partial(-1, CqeFlags::more())),
        Ok(DirectIncoming::Empty(-1))
    ));

    // A full table ends the request.
    let incoming = accept.record(complete(-23)).ok().expect("ours");
    assert_eq!(incoming.armed(), Armed::Finished);
    let DirectIncoming::Done(end) = incoming else {
        panic!("an ending expected");
    };
    assert!(end.last().is_none());
    assert_eq!(end.raw_result(), -23);

    let incoming = accept.record(complete(5)).ok().expect("ours");
    assert_eq!(incoming.into_slot().expect("folded").index().get(), 5);
    assert!(accept.record(stranger()).is_err());
}

#[test]
fn numbers_without_a_buffer_are_passed_over() {
    let mut pool = BufferConsumer::new(1, 2, 4);
    assert_eq!(pool.fill(b"a"), Some(0));
    assert_eq!(pool.fill(b"b"), Some(1));
    pool.recycle_and_commit(9);
    pool.recycle_and_commit(2);
    pool.recycle_and_commit(1);
    assert_eq!(pool.fill(b"cd"), Some(1));
    assert_eq!(pool.buffer(1, 2), Some(&b"cd"[..]));
    assert_eq!(pool.buffer(0, 1), Some(&b"a"[..]));
    pool.recycle_and_commit(7);
    assert_eq!(pool.fill(b"e"), None);
    pool.recycle_and_commit(0);
    assert_eq!(pool.fill(b"e"), Some(0));
}

#[test]
fn a_dropped_arrival_gives_its_buffer_back() {
    let mut pool = BufferConsumer::new(1, 1, 4);
    let (_, recv) = PreparedMultishot::recv(RawFd::from_raw(3), 1, MsgFlags::default())
        .into_pending(RING, ID);
    for round in [b"ab", b"cd", b"ef"] {
        assert_eq!(pool.fill(round), Some(0));
        assert_eq!(pool.fill(round), None);
        let delivery = recv.record(partial(2, arrival(0)), &mut pool).ok().expect("matches");
        assert_eq!(delivery.bytes(), Some(&round[..]));
        drop(delivery);
    }
    assert_eq!(pool.fill(b"g"), Some(0));
    // Forgetting the loan is the one way to lose the buffer.
    let delivery = recv.record(partial(1, arrival(0)), &mut pool).ok().expect("matches");
    core::mem::forget(delivery);
    assert_eq!(pool.fill(b"h"), None);
}

#[test]
fn a_recycled_arrival_is_given_back_once() {
    let mut pool = BufferConsumer::new(1, 2, 4);
    let (_, recv) = PreparedMultishot::recv(RawFd::from_raw(3), 1, MsgFlags::default())
        .into_pending(RING, ID);
    assert_eq!((pool.fill(b"a"), pool.fill(b"b")), (Some(0), Some(1)));
    for id in [1, 0] {
        let delivery = recv.record(partial(1, arrival(id)), &mut pool).ok().expect("matches");
        match delivery {
            Delivery::Data(loan) => loan.recycle(),
            _ => panic!("bytes arrived"),
        }
    }
    assert_eq!((pool.fill(b"c"), pool.fill(b"d")), (Some(1), Some(0)));
    assert_eq!(pool.fill(b"e"), None);
}
