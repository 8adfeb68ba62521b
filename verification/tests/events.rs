//! What a completion authorizes.

use ququmatz::owned::event::{Event, PartialReceipt};
use ququmatz::owned::identity::{RequestId, RingId, RingIdSource};
use ququmatz::ring::{Completer, Completion, IoUring, Submitter};
use ququmatz::types::flags::CqeFlags;

fn ring_id() -> RingId {
    RingId::next(&mut RingIdSource::new())
}

/// What a completion of the ring `ring` authorizes once it is reaped there.
fn reaped(ring: RingId, id: RequestId, result: i32, flags: CqeFlags) -> Event {
    let mut rings = RingIdSource::new();
    loop {
        let whole = IoUring {
            submitter: Submitter::new(1),
            completer: Completer::new(),
            affinity: None,
        };
        let (_, mut comp) = whole.split_owned(&mut rings).ok().expect("not bound");
        if comp.ring() == ring {
            comp.raw().post(Completion {
                user_data: id.raw(),
                result,
                flags,
            });
            return comp.reap_event().expect("just posted");
        }
    }
}

fn partial(ring: RingId, id: RequestId, result: i32, flags: CqeFlags) -> PartialReceipt {
    match reaped(ring, id, result, flags) {
        Event::Partial(partial) => partial,
        Event::Complete(_) => panic!("a terminal completion"),
    }
}

/// The flags a multishot arrival carries: non-terminal, with a chosen
/// buffer id packed into the upper 16 bits.
fn arrival_flags(buf_id: u16) -> CqeFlags {
    CqeFlags::from_raw(
        CqeFlags::more().bits() | CqeFlags::buffer().bits() | (u32::from(buf_id) << 16),
    )
}

#[test]
fn a_non_terminal_arrival_keeps_the_buffer_id_it_must_recycle() {
    let partial = partial(ring_id(), RequestId::from_raw(7), 128, arrival_flags(9));
    assert_eq!(partial.buffer_id(), Some(9));
    assert_eq!(partial.raw_result(), 128);
}

#[test]
fn buffer_id_zero_is_a_real_id_not_an_absent_one() {
    let partial = partial(ring_id(), RequestId::from_raw(1), 0, arrival_flags(0));
    assert_eq!(partial.buffer_id(), Some(0));
}

#[test]
fn the_highest_buffer_id_survives_the_shift() {
    let partial = partial(ring_id(), RequestId::from_raw(1), 0, arrival_flags(u16::MAX));
    assert_eq!(partial.buffer_id(), Some(u16::MAX));
}

#[test]
fn a_completion_without_the_buffer_flag_reports_no_id() {
    // A zero-copy send's result is non-terminal but selects no buffer, so
    // upper bits that happen to be set must not be read as an id.
    let partial = partial(ring_id(), RequestId::from_raw(2), 64, CqeFlags::more());
    assert!(partial.buffer_id().is_none());
}

#[test]
fn only_a_terminal_event_yields_a_receipt() {
    let ring = ring_id();
    let partial = reaped(ring, RequestId::from_raw(3), 1, CqeFlags::more());
    assert!(!partial.is_terminal());
    assert!(partial.into_receipt().is_none());

    let complete = reaped(ring, RequestId::from_raw(3), 1, CqeFlags::from_raw(0));
    assert!(complete.is_terminal());
    assert!(complete.into_receipt().is_some());
}

#[test]
fn identity_is_reachable_without_deciding_which_kind_it_is() {
    let ring = ring_id();
    let id = RequestId::from_raw(11);
    let partial = reaped(ring, id, 5, arrival_flags(2));
    assert_eq!(partial.id(), id);
    assert_eq!(partial.ring(), ring);
    assert_eq!(partial.raw_result(), 5);
    assert!(partial.flags().contains(CqeFlags::buffer()));
}

#[test]
fn classification_follows_the_more_flag_and_keeps_the_rest() {
    let ring = ring_id();
    let id = RequestId::from_raw(5);
    let event = reaped(ring, id, -7, arrival_flags(3));
    assert!(!event.is_terminal());
    assert_eq!(event.id(), id);
    assert_eq!(event.raw_result(), -7);
    assert_eq!(event.flags(), arrival_flags(3));

    let event = reaped(ring, id, 9, CqeFlags::notif());
    assert!(event.is_terminal());
    assert!(event.belongs_to(ring, id));
    assert!(!event.belongs_to(ring, RequestId::from_raw(6)));
    assert!(!event.belongs_to(RingId(77), id));
    assert_eq!(event.into_receipt().map(|r| r.flags()), Some(CqeFlags::notif()));
}
