use sample_mut::{Header, PointerOffset, Publisher};

#[test]
fn pointer_offset_exposes_its_value() {
    let offset = PointerOffset::new(1024);
    assert_eq!(offset.value(), 1024);
}

#[test]
fn pointer_offset_compares_by_value() {
    let low = PointerOffset::new(16);
    let low_again = PointerOffset::new(16);
    let high = PointerOffset::new(32);
    assert_eq!(low, low_again);
    assert_ne!(low, high);
    assert!(low < high);
    assert!(high > low);
    assert!(low <= low_again);
}

#[test]
fn pointer_offset_copies_without_ownership() {
    let offset = PointerOffset::new(8);
    let copy = offset;
    assert_eq!(offset, copy);
    assert_eq!(copy.value(), 8);
}

#[test]
fn header_reports_its_metadata() {
    let header = Header::new(123456, 42);
    assert_eq!(header.time_stamp(), 123456);
    assert_eq!(header.publisher_id(), 42);
}

#[test]
fn new_publisher_starts_empty_and_reachable() {
    let mut publisher = Publisher::new();
    assert_eq!(publisher.connection_count(), 0);
    assert_eq!(publisher.events().len(), 0);
    publisher.add_connection(true);
    publisher.add_connection(false);
    assert_eq!(publisher.connection_count(), 2);
    assert_eq!(publisher.events().len(), 0);
}
