//! Ring and request identities.

use ququmatz::owned::identity::{RequestId, RequestIdSource, RingId, RingIdSource};

#[test]
fn ring_ids_are_distinct() {
    let mut rings = RingIdSource::new();
    let a = RingId::next(&mut rings);
    let b = RingId::next(&mut rings);
    assert_ne!(a, b);
}

#[test]
fn request_ids_are_monotonic_and_unique() {
    let mut source = RequestIdSource::new();
    let ids = [source.next(), source.next(), source.next()];
    assert!(ids[0] < ids[1] && ids[1] < ids[2]);
}

#[test]
fn request_id_round_trips_through_raw_user_data() {
    let mut source = RequestIdSource::new();
    let id = source.next();
    assert_eq!(RequestId::from_raw(id.raw()), id);
}

#[test]
fn separate_sources_start_from_the_same_base() {
    assert_eq!(RequestIdSource::new().next(), RequestIdSource::new().next());
}

#[test]
fn the_first_identities_are_one_and_two() {
    let mut rings = RingIdSource::new();
    assert_eq!(RingId::next(&mut rings).raw(), 1);
    assert_eq!(RingId::next(&mut rings).raw(), 2);
    let mut source = RequestIdSource::new();
    assert_eq!(source.next().raw(), 1);
    assert_eq!(source.next().raw(), 2);
}
