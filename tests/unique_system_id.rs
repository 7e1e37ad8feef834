use service_discovery::unique_system_id::{
    ClockType, Time, UniqueSystemId, UniqueSystemIdCounter, UniqueSystemIdCreationError,
};

fn at(seconds: u64, nanoseconds: u32) -> Option<Time> {
    Some(Time { clock_type: ClockType::Monotonic, seconds, nanoseconds })
}

#[test]
fn value_round_trips_through_from() {
    for v in [0u128, 1, u128::MAX, 0x0123_4567_89ab_cdef_fedc_ba98_7654_3210, 1u128 << 127] {
        assert_eq!(UniqueSystemId::from(v).value(), v);
    }
}

#[test]
fn value_packs_fields_process_id_lowest() {
    let mut counter = UniqueSystemIdCounter::new();
    let id = UniqueSystemId::new(&mut counter, 7, at(5, 9)).unwrap();
    assert_eq!(id.value(), 7u128 | (5u128 << 32) | (9u128 << 64));
    let next = UniqueSystemId::new(&mut counter, 7, at(5, 9)).unwrap();
    assert_eq!(next.value(), 7u128 | (5u128 << 32) | (9u128 << 64) | (1u128 << 96));
}

#[test]
fn from_reads_fields_back() {
    let id = UniqueSystemId::from(42u128 | (1000u128 << 32) | (77u128 << 64) | (3u128 << 96));
    assert_eq!(id.pid().value(), 42);
    let t = id.creation_time();
    assert_eq!(t.seconds(), 1000);
    assert_eq!(t.nanoseconds(), 77);
    assert_eq!(t.clock_type(), ClockType::Monotonic);
}

#[test]
fn accessors_report_creation_inputs() {
    let mut counter = UniqueSystemIdCounter::new();
    let id = UniqueSystemId::new(&mut counter, 1234, at(86_400, 999_999_999)).unwrap();
    assert_eq!(id.pid().value(), 1234);
    assert_eq!(id.creation_time().seconds(), 86_400);
    assert_eq!(id.creation_time().nanoseconds(), 999_999_999);
}

#[test]
fn seconds_keep_low_32_bits() {
    let mut counter = UniqueSystemIdCounter::new();
    let id = UniqueSystemId::new(&mut counter, 1, at((1u64 << 32) + 5, 0)).unwrap();
    assert_eq!(id.creation_time().seconds(), 5);
}

#[test]
fn missing_clock_fails_and_keeps_counter() {
    let mut counter = UniqueSystemIdCounter::new();
    let r = UniqueSystemId::new(&mut counter, 1, None);
    assert_eq!(r, Err(UniqueSystemIdCreationError::FailedToAcquireTime));
    let id = UniqueSystemId::new(&mut counter, 1, at(0, 0)).unwrap();
    assert_eq!(id.value() >> 96, 0);
}

#[test]
fn repeated_creation_never_repeats() {
    let mut counter = UniqueSystemIdCounter::new();
    let mut seen = std::collections::HashSet::new();
    for _ in 0..10_000 {
        let id = UniqueSystemId::new(&mut counter, 99, at(10, 20)).unwrap();
        assert!(seen.insert(id.value()));
    }
}

#[test]
fn counter_hands_out_successive_values() {
    let mut counter = UniqueSystemIdCounter::new();
    assert_eq!(counter.fetch_next(), 0);
    assert_eq!(counter.fetch_next(), 1);
    assert_eq!(counter.fetch_next(), 2);
}

#[test]
fn decimal_text_of_value() {
    assert_eq!(UniqueSystemId::from(0u128).to_decimal_string(), "0");
    assert_eq!(UniqueSystemId::from(1234567890u128).to_decimal_string(), "1234567890");
    assert_eq!(UniqueSystemId::from(u128::MAX).to_decimal_string(), u128::MAX.to_string());
    let mut counter = UniqueSystemIdCounter::new();
    let id = UniqueSystemId::new(&mut counter, 7, at(5, 9)).unwrap();
    assert_eq!(id.to_decimal_string(), id.value().to_string());
}
