//! Timestamp utilities around the database: format "now", convert between
//! the two datetime string representations, convert an epoch-seconds count,
//! and extract a datetime column from a decoded row.

pub mod connect;

use vstd::prelude::*;
use crate::timefmt::{
    civil_in_range, is_rendered_datetime, spec_datetime_seq, spec_naive_datetime_seq,
    format_timestamp_parts, format_naive_datetime, is_plain_datetime_shape, shape_year, shape_two,
    lemma_shape_roundtrip,
};
use chrono::{Datelike, TimeZone, Timelike};

verus! {

/// The calendar date and clock time, in UTC, of an epoch-seconds count:
/// year, month, day, hour, minute and second. A function of the count alone.
pub uninterp spec fn civil_of_epoch(t: int) -> (int, int, int, int, int, int);

/// Relies on chrono's DateTime::from_timestamp with the Datelike and Timelike
/// accessors: the UTC calendar parts of an epoch-seconds count, a function of
/// the count alone; None only outside chrono's date range, which covers at
/// least |t| <= 8_000_000_000_000; months are 1..=12, days 1..=31, hours,
/// minutes and seconds within a clock's bounds, years within chrono's range.
#[verifier::external_body]
fn epoch_civil(t: i64) -> (r: Option<(i32, u32, u32, u32, u32, u32)>)
    ensures
        -8000000000000 <= t <= 8000000000000 ==> r is Some,
        r matches Some(p) ==> {
            &&& civil_of_epoch(t as int) == (
                p.0 as int,
                p.1 as int,
                p.2 as int,
                p.3 as int,
                p.4 as int,
                p.5 as int,
            )
            &&& civil_in_range(p.0 as int, p.1 as int, p.2 as int, p.3 as int, p.4 as int, p.5 as int)
        },
{
    match chrono::DateTime::from_timestamp(t, 0) {
        Some(dt) => Some((dt.year(), dt.month(), dt.day(), dt.hour(), dt.minute(), dt.second())),
        None => None,
    }
}

/// Relies on chrono's Local::now with the Datelike and Timelike accessors:
/// the current wall-clock calendar parts, which depend on the clock and the
/// machine's time zone, so only their bounds are assumed.
#[verifier::external_body]
fn now_civil() -> (r: (i32, u32, u32, u32, u32, u32))
    ensures
        civil_in_range(r.0 as int, r.1 as int, r.2 as int, r.3 as int, r.4 as int, r.5 as int),
{
    let now = chrono::Local::now();
    (now.year(), now.month(), now.day(), now.hour(), now.minute(), now.second())
}

/// Relies on chrono's TimeZone::datetime_from_str with the format
/// `%Y-%m-%d %H:%M:%S` and the Datelike/Timelike accessors: Some exactly when
/// the string parses as a valid local wall-clock time, whose parts and
/// nanosecond count are then returned. Validity in the local time zone
/// depends on the machine, so only the parts' bounds are assumed in general;
/// but on an input of exactly the `YYYY-MM-DD HH:MM:SS` shape the parser
/// fills each field from the digits as written and the local resolution
/// keeps the wall-clock fields, with one wrinkle: a written seconds field of
/// 60 (a leap second) comes back as second 59 with a nanosecond count of a
/// full second, so the written seconds equal the returned seconds plus that
/// fold.
#[verifier::external_body]
#[allow(deprecated)]
fn parse_local_datetime(value: &str) -> (r: Option<(i32, u32, u32, u32, u32, u32, u32)>)
    ensures
        r matches Some(p) ==> civil_in_range(
            p.0 as int,
            p.1 as int,
            p.2 as int,
            p.3 as int,
            p.4 as int,
            p.5 as int,
        ) && p.6 < 2000000000,
        is_plain_datetime_shape(value@) ==> (r matches Some(p) ==> {
            &&& p.0 as int == shape_year(value@)
            &&& p.1 as int == shape_two(value@, 5)
            &&& p.2 as int == shape_two(value@, 8)
            &&& p.3 as int == shape_two(value@, 11)
            &&& p.4 as int == shape_two(value@, 14)
            &&& (p.5 as int) + (if p.6 >= 1000000000 {
                1int
            } else {
                0int
            }) == shape_two(value@, 17)
        }),
{
    match chrono::Local.datetime_from_str(value, "%Y-%m-%d %H:%M:%S") {
        Ok(dt) => {
            let parts =
                (dt.year(), dt.month(), dt.day(), dt.hour(), dt.minute(), dt.second(), dt.nanosecond());
            Some(parts)
        },
        Err(_) => None,
    }
}

/// Declares the decoded-row type so that it can stand in signatures; the
/// library reads it only through its trusted accessor below.
#[verifier::external_type_specification]
#[verifier::external_body]
pub struct ExRow(mysql::Row);

/// The datetime content of a row's column, by name: None when the column is
/// absent or its value cannot convert to a datetime, Some(None) for a NULL,
/// and Some(Some) with the calendar parts and nanosecond count otherwise. A
/// function of the row value and the name alone.
pub uninterp spec fn row_datetime_col(row: mysql::Row, index: Seq<char>) -> Option<
    Option<(int, int, int, int, int, int, int)>,
>;

/// Relies on mysql's Row::get_opt with mysql_common's chrono conversion for
/// an optional datetime column, a function of the row and the name alone,
/// written `row_datetime_col`: None when the column is absent or its value
/// cannot convert, Some(None) for a NULL, and Some(Some) with the value's
/// calendar parts and nanosecond count otherwise; the parts come from a valid
/// chrono datetime, so their bounds are assumed as stated.
#[verifier::external_body]
fn row_datetime_parts(row: &mysql::Row, index: &str) -> (r: Option<
    Option<(i32, u32, u32, u32, u32, u32, u32)>,
>)
    ensures
        (r is Some) == (row_datetime_col(*row, index@) is Some),
        r matches Some(q) ==> (row_datetime_col(*row, index@) matches Some(nq) && {
            &&& (q is Some) == (nq is Some)
            &&& (q matches Some(p) ==> (nq matches Some(np) && {
                &&& np == (
                    p.0 as int,
                    p.1 as int,
                    p.2 as int,
                    p.3 as int,
                    p.4 as int,
                    p.5 as int,
                    p.6 as int,
                )
                &&& civil_in_range(
                    p.0 as int,
                    p.1 as int,
                    p.2 as int,
                    p.3 as int,
                    p.4 as int,
                    p.5 as int,
                )
                &&& p.6 < 2000000000
            }))
        }),
{
    match row.get_opt::<Option<mysql_common::chrono::NaiveDateTime>, &str>(index) {
        Some(Ok(Some(dt))) => {
            let parts =
                (dt.year(), dt.month(), dt.day(), dt.hour(), dt.minute(), dt.second(), dt.nanosecond());
            Some(Some(parts))
        },
        Some(Ok(None)) => Some(None),
        _ => None,
    }
}

/// The current local time as `YYYY-MM-DD HH:MM:SS`.
pub fn mysql_now() -> (r: String)
    ensures
        is_rendered_datetime(r@, false),
{
    let p = now_civil();
    let r = format_timestamp_parts(p.0, p.1, p.2, p.3, p.4, p.5, false);
    proof {
        assert(civil_in_range(p.0 as int, p.1 as int, p.2 as int, p.3 as int, p.4 as int, p.5 as int)
            && r@ == spec_datetime_seq(
            p.0 as int,
            p.1 as int,
            p.2 as int,
            p.3 as int,
            p.4 as int,
            p.5 as int,
            false,
        ));
    }
    r
}

/// Reformats a local-time `YYYY-MM-DD HH:MM:SS` string to the search index's
/// `YYYY-MM-DDTHH:MM:SS` shape; None when the string does not parse. On an
/// input of exactly that shape, a Some result is the input with only its
/// space replaced by `T`. A parsed leap second folds back into the printed
/// seconds field, so a written `60` stays `60`.
pub fn mysql_time_to_elastic(value: &str) -> (r: Option<String>)
    ensures
        r matches Some(out) ==> is_rendered_datetime(out@, true),
        is_plain_datetime_shape(value@) ==> (r matches Some(out) ==> out@ == value@.update(
            10,
            'T',
        )),
{
    let parsed = parse_local_datetime(value);
    match parsed {
        Some(p) => {
            let seconds: u32 = if p.6 >= 1000000000 {
                p.5 + 1
            } else {
                p.5
            };
            let out = format_timestamp_parts(p.0, p.1, p.2, p.3, p.4, seconds, true);
            proof {
                if is_plain_datetime_shape(value@) {
                    lemma_shape_roundtrip(value@);
                }
                assert(civil_in_range(
                    p.0 as int,
                    p.1 as int,
                    p.2 as int,
                    p.3 as int,
                    p.4 as int,
                    p.5 as int,
                ) && 0 <= seconds as int <= 60 && out@ == spec_datetime_seq(
                    p.0 as int,
                    p.1 as int,
                    p.2 as int,
                    p.3 as int,
                    p.4 as int,
                    seconds as int,
                    true,
                ));
            }
            Some(out)
        },
        None => None,
    }
}

/// A UTC epoch-seconds count as `YYYY-MM-DD HH:MM:SS`.
pub fn timestamp_to_datetime(time: i64) -> (r: String)
    requires
        -8000000000000 <= time <= 8000000000000,
    ensures
        r@ == spec_datetime_seq(
            civil_of_epoch(time as int).0,
            civil_of_epoch(time as int).1,
            civil_of_epoch(time as int).2,
            civil_of_epoch(time as int).3,
            civil_of_epoch(time as int).4,
            civil_of_epoch(time as int).5,
            false,
        ),
{
    match epoch_civil(time) {
        Some(p) => format_timestamp_parts(p.0, p.1, p.2, p.3, p.4, p.5, false),
        None => {
            proof {
                assert(false);
            }
            String::new()
        },
    }
}

/// Extracts an optional datetime column by name from a decoded row and
/// renders it the way the datetime type prints itself: Some exactly when the
/// named column holds a present, non-NULL datetime value, and then the
/// rendering of exactly that value's parts; None when the column is absent,
/// NULL, or cannot convert.
pub fn mysql_datetime_string_from_row(row: &mysql::Row, index: &str) -> (r: Option<String>)
    ensures
        (r is Some) <==> (row_datetime_col(*row, index@) matches Some(q) && q is Some),
        r matches Some(out) ==> (row_datetime_col(*row, index@) matches Some(q) && q matches Some(
            p,
        ) && out@ == spec_naive_datetime_seq(p.0, p.1, p.2, p.3, p.4, p.5, p.6)),
{
    match row_datetime_parts(row, index) {
        Some(Some(p)) => {
            let out = format_naive_datetime(p.0, p.1, p.2, p.3, p.4, p.5, p.6);
            Some(out)
        },
        Some(None) => None,
        None => None,
    }
}

} // verus!
