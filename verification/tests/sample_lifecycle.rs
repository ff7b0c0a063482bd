use sample_mut::{ConnectionFailure, Header, PointerOffset, Publisher, ReleaseEvent, SampleMutUninit};

fn loaned(offset: usize) -> SampleMutUninit<u64> {
    SampleMutUninit::new(Header::new(100, 7), PointerOffset::new(offset))
}

#[test]
fn write_payload_keeps_offset() {
    let sample = loaned(42);
    let before = sample.offset_to_chunk();
    let sample = sample.write_payload(1234u64);
    let after = sample.offset_to_chunk();
    assert_eq!(before, after);
    assert_eq!(after.value(), 42);
}

#[test]
fn header_is_stable_across_the_transition() {
    let sample = loaned(3);
    let ts_before = sample.header().time_stamp();
    let id_before = sample.header().publisher_id();
    let sample = sample.write_payload(9u64);
    assert_eq!(sample.header().time_stamp(), ts_before);
    assert_eq!(sample.header().publisher_id(), id_before);
    assert_eq!(ts_before, 100);
    assert_eq!(id_before, 7);
}

#[test]
fn payload_reads_back_what_was_written() {
    let sample = loaned(1).write_payload(1234u64);
    assert_eq!(*sample.payload(), 1234);
}

#[test]
fn payload_mut_edits_in_place() {
    let mut sample = loaned(8).write_payload(1u64);
    *sample.payload_mut() = 2;
    assert_eq!(*sample.payload(), 2);
    assert_eq!(sample.offset_to_chunk().value(), 8);
}

#[test]
fn abandoned_uninitialized_sample_is_reclaimed_once() {
    let mut publisher = Publisher::new();
    loaned(5).reclaim(&mut publisher);
    assert_eq!(publisher.events().len(), 1);
    assert_eq!(publisher.events()[0], ReleaseEvent::Reclaim { offset: 5 });
}

#[test]
fn abandoned_initialized_sample_is_reclaimed_once() {
    let mut publisher = Publisher::new();
    publisher.add_connection(true);
    loaned(6).write_payload(77u64).reclaim(&mut publisher);
    assert_eq!(publisher.events().len(), 1);
    assert_eq!(publisher.events()[0], ReleaseEvent::Reclaim { offset: 6 });
}

#[test]
fn partial_delivery_is_not_an_error() {
    let mut publisher = Publisher::new();
    publisher.add_connection(true);
    publisher.add_connection(false);
    publisher.add_connection(true);
    let result = loaned(11).write_payload(5u64).send(&mut publisher);
    assert_eq!(result, Ok(2));
}

#[test]
fn full_delivery_reaches_every_receiver() {
    let mut publisher = Publisher::new();
    publisher.add_connection(true);
    publisher.add_connection(true);
    publisher.add_connection(true);
    let result = loaned(12).write_payload(5u64).send(&mut publisher);
    assert_eq!(result, Ok(3));
}

#[test]
fn send_without_connections_fails_structurally() {
    let mut publisher = Publisher::new();
    let result = loaned(13).write_payload(5u64).send(&mut publisher);
    assert_eq!(result, Err(ConnectionFailure::NoViableConnections));
}

#[test]
fn send_over_unreachable_transport_fails_structurally() {
    let mut publisher = Publisher::new();
    publisher.add_connection(true);
    publisher.set_reachable(false);
    let result = loaned(14).write_payload(5u64).send(&mut publisher);
    assert_eq!(result, Err(ConnectionFailure::TransportUnreachable));
}

#[test]
fn send_records_exactly_one_delivery_and_no_reclaim() {
    let mut publisher = Publisher::new();
    publisher.add_connection(true);
    let result = loaned(21).write_payload(5u64).send(&mut publisher);
    assert_eq!(result, Ok(1));
    assert_eq!(publisher.events().len(), 1);
    assert_eq!(publisher.events()[0], ReleaseEvent::Deliver { offset: 21 });
}

#[test]
fn a_failed_send_still_hands_the_region_over() {
    let mut publisher = Publisher::new();
    let result = loaned(22).write_payload(5u64).send(&mut publisher);
    assert!(result.is_err());
    assert_eq!(publisher.events().len(), 1);
    assert_eq!(publisher.events()[0], ReleaseEvent::Deliver { offset: 22 });
}

#[test]
fn each_sample_releases_its_own_region_exactly_once() {
    let mut publisher = Publisher::new();
    publisher.add_connection(true);
    let sent = loaned(31).write_payload(1u64);
    let abandoned_early = loaned(32);
    let abandoned_late = loaned(33).write_payload(3u64);
    assert_eq!(sent.send(&mut publisher), Ok(1));
    abandoned_early.reclaim(&mut publisher);
    abandoned_late.reclaim(&mut publisher);
    let events = publisher.events();
    assert_eq!(events.len(), 3);
    assert_eq!(events[0], ReleaseEvent::Deliver { offset: 31 });
    assert_eq!(events[1], ReleaseEvent::Reclaim { offset: 32 });
    assert_eq!(events[2], ReleaseEvent::Reclaim { offset: 33 });
}
