use backend_support::database::{mysql_now, mysql_time_to_elastic, timestamp_to_datetime};
use backend_support::env::{env_or_default, get_env};
use backend_support::timefmt::{format_naive_datetime, format_timestamp_parts};
use chrono::{Datelike, Timelike};

#[test]
fn reformat_to_index_timestamp_accepts_a_valid_time() {
    assert_eq!(
        mysql_time_to_elastic("2024-01-02 03:04:05"),
        Some("2024-01-02T03:04:05".to_string())
    );
}

#[test]
fn reformat_to_index_timestamp_rejects_garbage() {
    assert_eq!(mysql_time_to_elastic("not-a-date"), None);
    assert_eq!(mysql_time_to_elastic(""), None);
    assert_eq!(mysql_time_to_elastic("2024-13-02 03:04:05"), None);
}

#[test]
fn epoch_zero_renders_as_the_unix_epoch() {
    assert_eq!(timestamp_to_datetime(0), "1970-01-01 00:00:00");
}

#[test]
fn epoch_conversion_matches_the_calendar_library() {
    for t in [0i64, -1, 86399, 951_827_696, 1_700_000_000, -2_208_988_800] {
        let expected = chrono::DateTime::from_timestamp(t, 0)
            .unwrap()
            .naive_utc()
            .format("%Y-%m-%d %H:%M:%S")
            .to_string();
        assert_eq!(timestamp_to_datetime(t), expected, "epoch {}", t);
    }
}

#[test]
fn now_has_the_expected_shape() {
    let s = mysql_now();
    let b = s.as_bytes();
    assert_eq!(b.len(), 19);
    assert_eq!(b[4], b'-');
    assert_eq!(b[7], b'-');
    assert_eq!(b[10], b' ');
    assert_eq!(b[13], b':');
    assert_eq!(b[16], b':');
    for i in [0usize, 1, 2, 3, 5, 6, 8, 9, 11, 12, 14, 15, 17, 18] {
        assert!(b[i].is_ascii_digit());
    }
}

#[test]
fn formatted_parts_match_the_calendar_library() {
    let dt = chrono::DateTime::from_timestamp(1_700_000_000, 0).unwrap().naive_utc();
    let mine = format_timestamp_parts(
        dt.year(),
        dt.month(),
        dt.day(),
        dt.hour(),
        dt.minute(),
        dt.second(),
        true,
    );
    assert_eq!(mine, dt.format("%Y-%m-%dT%H:%M:%S").to_string());
}

#[test]
fn year_rendering_handles_the_edges() {
    assert_eq!(format_timestamp_parts(1, 2, 3, 4, 5, 6, false), "0001-02-03 04:05:06");
    assert_eq!(format_timestamp_parts(-50, 1, 1, 0, 0, 0, false), "-0050-01-01 00:00:00");
    assert_eq!(format_timestamp_parts(10000, 1, 1, 0, 0, 0, false), "+10000-01-01 00:00:00");
    assert_eq!(format_timestamp_parts(-12345, 1, 1, 0, 0, 0, false), "-12345-01-01 00:00:00");
}

#[test]
fn naive_datetime_rendering_matches_the_calendar_library() {
    for (secs, nanos) in [
        (1_700_000_000i64, 0u32),
        (1_700_000_000, 123_000_000),
        (1_700_000_000, 123_456_000),
        (1_700_000_000, 123_456_789),
        (0, 1),
    ] {
        let dt = chrono::DateTime::from_timestamp(secs, nanos).unwrap().naive_utc();
        let mine = format_naive_datetime(
            dt.year(),
            dt.month(),
            dt.day(),
            dt.hour(),
            dt.minute(),
            dt.second(),
            dt.nanosecond(),
        );
        assert_eq!(mine, dt.to_string(), "secs {} nanos {}", secs, nanos);
    }
}

#[test]
fn get_env_falls_back_when_unset() {
    assert_eq!(get_env("NONEXISTENT_KEY_X", "fallback"), "fallback");
}

#[test]
fn get_env_reads_a_set_variable() {
    // PATH is set in any test environment this runs under.
    let path = get_env("PATH", "unset");
    assert_ne!(path, "unset");
}

#[test]
fn env_or_default_picks_the_value_or_the_default() {
    assert_eq!(env_or_default(Some("value".to_string()), "default"), "value");
    assert_eq!(env_or_default(None, "default"), "default");
}

#[test]
fn reformat_normalizes_unpadded_fields() {
    // The parser accepts unpadded fields; the output renders the parsed
    // values, zero-padded.
    assert_eq!(
        mysql_time_to_elastic("2024-1-2 3:4:5"),
        Some("2024-01-02T03:04:05".to_string())
    );
}

#[test]
fn reformat_keeps_a_written_leap_second() {
    // The parser folds a seconds field of 60 into second 59 plus a full
    // second of nanoseconds; the rendering folds it back.
    assert_eq!(
        mysql_time_to_elastic("2016-12-31 23:59:60"),
        Some("2016-12-31T23:59:60".to_string())
    );
}
