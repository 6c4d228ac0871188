use atproto_client::tid::{Tid, TidClock};

#[test]
fn test_tid_roundtrip() {
    let tid = Tid::from_parts(1234567890123456, 42);
    let encoded = tid.encode();
    let decoded = Tid::decode(&encoded).unwrap();
    assert_eq!(tid.timestamp_us(), decoded.timestamp_us());
    assert_eq!(tid.clock_id(), decoded.clock_id());
}

#[test]
fn test_tid_length() {
    let mut clock = TidClock::new();
    let tid = Tid::now(&mut clock);
    assert_eq!(tid.encode().len(), 13);
}

#[test]
fn test_tid_sortable() {
    let tid1 = Tid::from_parts(1000000, 0);
    let tid2 = Tid::from_parts(2000000, 0);
    assert!(tid1.encode() < tid2.encode());
}

#[test]
fn test_invalid_tid() {
    assert!(Tid::decode("short").is_err());
    assert!(Tid::decode("0000000000001").is_err());
}

#[test]
fn test_same_microsecond_ids_differ_and_sort() {
    let mut clock = TidClock::new();
    let ts = 1234567890123456;
    let a = clock.next(ts);
    let b = clock.next(ts);
    assert_ne!(a.clock_id(), b.clock_id());
    assert!(a.encode() < b.encode());
}

#[test]
fn test_clock_resets_on_new_microsecond() {
    let mut clock = TidClock::new();
    let a = clock.next(5_000_000);
    assert_eq!(a.clock_id(), 0);
    let b = clock.next(5_000_000);
    assert_eq!(b.clock_id(), 1);
    let c = clock.next(5_000_001);
    assert_eq!(c.clock_id(), 0);
    assert!(a.encode() < b.encode());
    assert!(b.encode() < c.encode());
}

#[test]
fn test_known_encoding() {
    // Value 0 encodes as the lowest symbol repeated.
    let tid = Tid::from_parts(0, 0);
    assert_eq!(tid.encode(), "2222222222222");
    // The clock sequence occupies the ten low bits: sequence 1 bumps only
    // the last symbol.
    let tid2 = Tid::from_parts(0, 1);
    assert_eq!(tid2.encode(), "2222222222223");
}

#[test]
fn test_clock_id_masked_to_ten_bits() {
    let tid = Tid::from_parts(77, 1024 + 5);
    assert_eq!(tid.clock_id(), 5);
}

#[test]
fn test_decode_rejects_uppercase() {
    assert!(Tid::decode("3K2F5V2222222").is_err());
}
