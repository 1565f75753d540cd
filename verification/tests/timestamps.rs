use chrono::DateTime;
use chrono::Utc;
use log_ingest::timestamp::epoch_millis_in_range;
use log_ingest::timestamp::is_resolvable;
use log_ingest::timestamp::resolve_timestamp;
use log_ingest::timestamp::MAX_EPOCH_MILLIS;
use log_ingest::timestamp::MIN_EPOCH_MILLIS;

fn text(s: &str) -> Option<String> {
    Some(String::from(s))
}

#[test]
fn supplied_text_is_used_verbatim() {
    let ts = resolve_timestamp(text("2024-01-01T00:00:00Z"), None);
    assert_eq!(ts, "2024-01-01T00:00:00Z");
}

#[test]
fn supplied_text_wins_over_epoch_value() {
    let ts = resolve_timestamp(text("2024-01-01T00:00:00Z"), Some(1_600_000_000_000));
    assert_eq!(ts, "2024-01-01T00:00:00Z");
}

#[test]
fn supplied_text_is_not_validated_or_reformatted() {
    let ts = resolve_timestamp(text("  not a timestamp "), Some(0));
    assert_eq!(ts, "  not a timestamp ");
    let ts = resolve_timestamp(text(""), None);
    assert_eq!(ts, "");
    let ts = resolve_timestamp(text("2024-01-01t00:00:00.5-08:00"), None);
    assert_eq!(ts, "2024-01-01t00:00:00.5-08:00");
}

#[test]
fn supplied_text_wins_over_an_epoch_value_out_of_range() {
    assert!(is_resolvable(&text("2024-01-01T00:00:00Z"), Some(i64::MAX)));
    let ts = resolve_timestamp(text("2024-01-01T00:00:00Z"), Some(i64::MAX));
    assert_eq!(ts, "2024-01-01T00:00:00Z");
}

#[test]
fn epoch_value_is_read_as_milliseconds() {
    let ts = resolve_timestamp(None, Some(1_704_067_200_000));
    assert_eq!(ts, "2024-01-01T00:00:00+00:00");
}

#[test]
fn epoch_value_zero_is_the_epoch() {
    let ts = resolve_timestamp(None, Some(0));
    assert_eq!(ts, "1970-01-01T00:00:00+00:00");
}

#[test]
fn epoch_value_keeps_its_millisecond_part() {
    let ts = resolve_timestamp(None, Some(1_704_067_200_123));
    assert_eq!(ts, "2024-01-01T00:00:00.123+00:00");
}

#[test]
fn negative_epoch_value_rounds_seconds_down() {
    let ts = resolve_timestamp(None, Some(-1));
    assert_eq!(ts, "1969-12-31T23:59:59.999+00:00");
    let ts = resolve_timestamp(None, Some(-1000));
    assert_eq!(ts, "1969-12-31T23:59:59+00:00");
}

#[test]
fn epoch_value_in_true_microseconds_lands_far_in_the_future() {
    let ts = resolve_timestamp(None, Some(1_704_067_200_000_000));
    let parsed = DateTime::from_timestamp_millis(1_704_067_200_000_000).unwrap();
    assert_eq!(ts, parsed.to_rfc3339());
    assert!(!ts.starts_with("2024-"));
}

#[test]
fn epoch_value_resolves_to_valid_rfc3339() {
    let ts = resolve_timestamp(None, Some(1_431_648_000_456));
    let parsed = DateTime::parse_from_rfc3339(&ts).unwrap();
    assert_eq!(parsed.timestamp_millis(), 1_431_648_000_456);
    assert_eq!(parsed.offset().local_minus_utc(), 0);
}

#[test]
fn clock_is_used_when_nothing_is_supplied() {
    let before = Utc::now();
    let ts = resolve_timestamp(None, None);
    let after = Utc::now();
    let parsed = DateTime::parse_from_rfc3339(&ts).unwrap().with_timezone(&Utc);
    assert!(before <= parsed);
    assert!(parsed <= after);
    assert!(ts.ends_with("+00:00"));
}

#[test]
fn range_bounds_are_those_of_the_calendar() {
    assert!(DateTime::from_timestamp_millis(MIN_EPOCH_MILLIS).is_some());
    assert!(DateTime::from_timestamp_millis(MIN_EPOCH_MILLIS - 1).is_none());
    assert!(DateTime::from_timestamp_millis(MAX_EPOCH_MILLIS).is_some());
    assert!(DateTime::from_timestamp_millis(MAX_EPOCH_MILLIS + 1).is_none());
    assert_eq!(DateTime::<Utc>::MIN_UTC.timestamp_millis(), MIN_EPOCH_MILLIS);
    assert_eq!(DateTime::<Utc>::MAX_UTC.timestamp_millis(), MAX_EPOCH_MILLIS);
}

#[test]
fn range_check_accepts_the_bounds_and_rejects_beyond() {
    assert!(epoch_millis_in_range(0));
    assert!(epoch_millis_in_range(MIN_EPOCH_MILLIS));
    assert!(epoch_millis_in_range(MAX_EPOCH_MILLIS));
    assert!(!epoch_millis_in_range(MIN_EPOCH_MILLIS - 1));
    assert!(!epoch_millis_in_range(MAX_EPOCH_MILLIS + 1));
    assert!(!epoch_millis_in_range(i64::MIN));
    assert!(!epoch_millis_in_range(i64::MAX));
}

#[test]
fn epoch_values_at_the_bounds_are_rendered() {
    let ts = resolve_timestamp(None, Some(MIN_EPOCH_MILLIS));
    assert_eq!(ts, "-262143-01-01T00:00:00+00:00");
    let ts = resolve_timestamp(None, Some(MAX_EPOCH_MILLIS));
    assert_eq!(ts, "+262142-12-31T23:59:59.999+00:00");
}

#[test]
fn resolvable_tells_when_an_epoch_value_must_be_rendered() {
    assert!(is_resolvable(&None, None));
    assert!(is_resolvable(&None, Some(0)));
    assert!(is_resolvable(&None, Some(MAX_EPOCH_MILLIS)));
    assert!(!is_resolvable(&None, Some(MAX_EPOCH_MILLIS + 1)));
    assert!(!is_resolvable(&None, Some(i64::MIN)));
    assert!(is_resolvable(&text("x"), Some(i64::MIN)));
    assert!(is_resolvable(&text("x"), None));
}
