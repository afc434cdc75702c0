use chrono::{TimeZone, Utc};
use sensorflow::range::{checked_range, split_range};
use sensorflow::{parse_timestamp_range, trim_text, UtcTimestamp};

fn stamp(y: i32, mo: u32, d: u32, h: u32, mi: u32, s: u32) -> UtcTimestamp {
    let t = Utc.with_ymd_and_hms(y, mo, d, h, mi, s).unwrap();
    UtcTimestamp { secs: t.timestamp(), nanos: t.timestamp_subsec_nanos() }
}

#[test]
fn parses_full_range_and_trims() {
    let got = parse_timestamp_range(" 2025-03-21T00:00:00Z , 2025-03-21T01:00:00Z ");
    let (s, e) = got.expect("should parse");
    assert_eq!(s, Some(stamp(2025, 3, 21, 0, 0, 0)));
    assert_eq!(e, Some(stamp(2025, 3, 21, 1, 0, 0)));
}

#[test]
fn parses_open_start() {
    let got = parse_timestamp_range(",2025-03-22T00:00:00Z").expect("should parse");
    assert!(got.0.is_none());
    assert_eq!(got.1, Some(stamp(2025, 3, 22, 0, 0, 0)));
}

#[test]
fn rejects_reversed_range() {
    assert!(parse_timestamp_range("2025-03-22T00:00:00Z,2025-03-21T00:00:00Z").is_none());
}

#[test]
fn rejects_missing_comma() {
    assert!(parse_timestamp_range("2025-03-21T00:00:00Z").is_none());
}

#[test]
fn parses_exact_round_trip_range() {
    let got = parse_timestamp_range("2025-03-21T00:00:00Z,2025-03-21T01:00:00Z");
    assert_eq!(
        got,
        Some((Some(stamp(2025, 3, 21, 0, 0, 0)), Some(stamp(2025, 3, 21, 1, 0, 0))))
    );
    assert_eq!(stamp(2025, 3, 21, 0, 0, 0), UtcTimestamp { secs: 1_742_515_200, nanos: 0 });
}

#[test]
fn parses_open_end_and_fully_open() {
    assert_eq!(
        parse_timestamp_range("2025-03-21T00:00:00Z,"),
        Some((Some(stamp(2025, 3, 21, 0, 0, 0)), None))
    );
    assert_eq!(parse_timestamp_range(","), Some((None, None)));
    assert_eq!(parse_timestamp_range("  ,  "), Some((None, None)));
}

#[test]
fn normalizes_offsets_to_utc() {
    let got = parse_timestamp_range("2025-03-21T02:00:00+02:00,2025-03-20T17:00:00.250-07:00");
    assert_eq!(
        got,
        Some((
            Some(stamp(2025, 3, 21, 0, 0, 0)),
            Some(UtcTimestamp { secs: stamp(2025, 3, 21, 0, 0, 0).secs, nanos: 250_000_000 })
        ))
    );
}

#[test]
fn equal_bounds_are_accepted() {
    let t = stamp(2025, 3, 21, 0, 0, 0);
    assert_eq!(
        parse_timestamp_range("2025-03-21T00:00:00Z,2025-03-21T00:00:00Z"),
        Some((Some(t), Some(t)))
    );
}

#[test]
fn rejects_a_malformed_side() {
    assert!(parse_timestamp_range("not-a-timestamp").is_none());
    assert!(parse_timestamp_range("2025-03-21T00:00:00Z,garbage").is_none());
    assert!(parse_timestamp_range("garbage,").is_none());
    assert!(parse_timestamp_range("2025-03-21T00:00:00,").is_none());
    assert!(parse_timestamp_range("2025-03-21,2025-03-22").is_none());
}

#[test]
fn splits_at_the_first_comma() {
    assert_eq!(split_range(" a , b,c "), Some(("a", "b,c")));
    assert_eq!(split_range("no comma"), None);
    assert_eq!(split_range(","), Some(("", "")));
}

#[test]
fn checked_range_orders_bounds() {
    let a = UtcTimestamp { secs: 10, nanos: 0 };
    let b = UtcTimestamp { secs: 10, nanos: 1 };
    assert_eq!(checked_range(Some(a), Some(b)), Some((Some(a), Some(b))));
    assert_eq!(checked_range(Some(b), Some(a)), None);
    assert_eq!(checked_range(Some(b), None), Some((Some(b), None)));
    assert_eq!(checked_range(None, Some(a)), Some((None, Some(a))));
}

#[test]
fn trims_unicode_white_space() {
    assert_eq!(trim_text(" \t\n x y \u{3000}\u{a0}"), "x y");
    assert_eq!(trim_text("   "), "");
    assert_eq!(trim_text("\u{200b}x"), "\u{200b}x");
    for s in ["", " a ", "\u{85}b\u{2029}", "\u{1680}\u{2000}c\u{200a}\u{202f}\u{205f}"] {
        assert_eq!(trim_text(s), s.trim());
    }
}
