use polymarket_scanner::clock::{Timestamp, FALLBACK_MILLIS};

#[test]
fn epoch_in_rfc3339() {
    let t = Timestamp { millis: 0 };
    assert_eq!(t.to_rfc3339(), Some("1970-01-01T00:00:00+00:00".to_string()));
}

#[test]
fn milliseconds_show_in_rfc3339() {
    let t = Timestamp { millis: 1_704_067_200_123 };
    assert_eq!(t.to_rfc3339(), Some("2024-01-01T00:00:00.123+00:00".to_string()));
}

#[test]
fn time_before_the_epoch() {
    let t = Timestamp { millis: -1 };
    assert_eq!(t.to_rfc3339(), Some("1969-12-31T23:59:59.999+00:00".to_string()));
}

#[test]
fn time_outside_the_calendar_has_no_notation() {
    assert_eq!(Timestamp { millis: i64::MAX }.to_rfc3339(), None);
    assert_eq!(Timestamp { millis: i64::MIN }.to_rfc3339(), None);
}

#[test]
fn parse_reads_zulu_and_offsets() {
    assert_eq!(
        Timestamp::parse_rfc3339("2024-01-01T00:00:00Z"),
        Some(Timestamp { millis: 1_704_067_200_000 })
    );
    assert_eq!(
        Timestamp::parse_rfc3339("2024-01-01T01:00:00.5+01:00"),
        Some(Timestamp { millis: 1_704_067_200_500 })
    );
}

#[test]
fn parse_rejects_other_texts() {
    assert_eq!(Timestamp::parse_rfc3339(""), None);
    assert_eq!(Timestamp::parse_rfc3339("yesterday"), None);
    assert_eq!(Timestamp::parse_rfc3339("2024-01-01"), None);
}

#[test]
fn fallback_is_the_first_instant_of_2024() {
    assert_eq!(
        Timestamp::parse_rfc3339("2024-01-01T00:00:00Z"),
        Some(Timestamp { millis: FALLBACK_MILLIS })
    );
    assert_eq!(Timestamp::from_stored("not a time"), Timestamp { millis: FALLBACK_MILLIS });
    assert_eq!(Timestamp::from_stored(""), Timestamp { millis: FALLBACK_MILLIS });
}

#[test]
fn stored_time_is_read_back() {
    let t = Timestamp { millis: 1_700_000_000_042 };
    let text = t.to_rfc3339().unwrap();
    assert_eq!(Timestamp::from_stored(&text), t);
}

#[test]
fn now_moves_forward_and_has_a_notation() {
    let a = Timestamp::now();
    let b = Timestamp::now();
    assert!(a.millis <= b.millis);
    assert!(a.millis > 1_600_000_000_000);
    let text = b.to_rfc3339().unwrap();
    assert_eq!(Timestamp::parse_rfc3339(&text), Some(b));
}
