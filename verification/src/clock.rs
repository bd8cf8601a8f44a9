//! Time stamps that name the saved record of each exchange.

use std::fmt::Write;

use vstd::prelude::*;

use crate::text::is_digit_char;

verus! {

/// The last second that `chrono` can represent: 262142-12-31 23:59:59 UTC
/// (`NaiveDate::MAX`), in seconds since the Unix epoch.
pub open spec fn max_utc_timestamp() -> i64 {
    8_210_266_876_799
}

/// The system clock's type.
#[verifier::external_type_specification]
#[verifier::external_body]
pub struct ExSystemTime(std::time::SystemTime);

/// Calls `std::time::SystemTime::now`. Which moment it reads depends on the
/// clock; nothing is said of it.
#[verifier::external_body]
fn clock_now() -> std::time::SystemTime {
    std::time::SystemTime::now()
}

/// Calls `SystemTime::duration_since(UNIX_EPOCH)` on `t` and keeps the
/// duration as whole seconds and nanoseconds into the second; `None` when
/// `t` lies before the epoch. A `Duration`'s sub-second nanoseconds are
/// below one second.
#[verifier::external_body]
fn elapsed_since_epoch(t: std::time::SystemTime) -> (r: Option<(u64, u32)>)
    ensures
        r matches Some(p) ==> p.1 < 1_000_000_000,
{
    t.duration_since(std::time::UNIX_EPOCH).ok().map(|d| (d.as_secs(), d.subsec_nanos()))
}

/// The text that `chrono` writes for the UTC moment `secs`/`nanos` with the
/// format `pattern`; `None` where `DateTime::from_timestamp` rejects the moment
/// or the pattern cannot be written.
pub uninterp spec fn utc_formatted(secs: i64, nanos: u32, pattern: Seq<char>) -> Option<Seq<char>>;

/// Calls `chrono::DateTime::from_timestamp(secs, nanos)` and writes the moment
/// with `format(pattern)`. The contract names the result (`utc_formatted`);
/// chrono's calendar arithmetic and format language are not restated. It
/// does state when the time stamp pattern succeeds: `from_timestamp` accepts
/// every second from the epoch up to `NaiveDate::MAX` with nanoseconds below
/// one second, and chrono's formatter writes the numeric items `%Y %m %d %H
/// %M %S` and literal characters of a date and time without error. For the
/// years 1000 to 9999 `%Y` writes four digits, and the other items always write
/// two zero-padded digits (the second stays below 60 when the nanoseconds are
/// below one second), which fixes the shape of the stamp.
#[verifier::external_body]
fn format_utc(secs: i64, nanos: u32, pattern: &str) -> (r: Option<String>)
    ensures
        match r {
            Some(s) => utc_formatted(secs, nanos, pattern@) == Some(s@),
            None => utc_formatted(secs, nanos, pattern@) is None,
        },
        (pattern@ == stamp_pattern() && 0 <= secs <= max_utc_timestamp() && nanos < 1_000_000_000)
            ==> r is Some,
        (pattern@ == stamp_pattern() && 0 <= secs <= last_four_digit_year_timestamp() && nanos < 1_000_000_000) ==> r is Some && is_stamp_shape(r->0@),
{
    let moment = chrono::DateTime::from_timestamp(secs, nanos)?;
    let mut out = String::new();
    match write!(out, "{}", moment.format(pattern)) {
        Ok(()) => Some(out),
        Err(_) => None,
    }
}

/// The last second of the year 9999, in seconds since the Unix epoch.
pub open spec fn last_four_digit_year_timestamp() -> i64 {
    253_402_300_799
}

/// The shape of a time stamp of a year with four digits: `YYYY-MM-DD_hh_mm_ss`,
/// digits everywhere but the separators.
pub open spec fn is_stamp_shape(t: Seq<char>) -> bool {
    &&& t.len() == 19
    &&& t[4] == '-' && t[7] == '-'
    &&& t[10] == '_' && t[13] == '_' && t[16] == '_'
    &&& forall|i: int|
        0 <= i < 19 && i != 4 && i != 7 && i != 10 && i != 13 && i != 16 ==> is_digit_char(#[trigger] t[i])
}

/// The format of the time stamps: year-month-day, then hour, minute and
/// second, separated by underscores.
pub open spec fn stamp_pattern() -> Seq<char> {
    "%Y-%m-%d_%H_%M_%S"@
}

/// The time stamp of the moment `secs`/`nanos`; there is one for every moment
/// from the epoch to the end of chrono's range.
pub fn stamp_at(secs: i64, nanos: u32) -> (r: Option<String>)
    ensures
        match r {
            Some(s) => utc_formatted(secs, nanos, stamp_pattern()) == Some(s@),
            None => utc_formatted(secs, nanos, stamp_pattern()) is None,
        },
        (0 <= secs <= max_utc_timestamp() && nanos < 1_000_000_000) ==> r is Some,
        (0 <= secs <= last_four_digit_year_timestamp() && nanos < 1_000_000_000) ==> r is Some && is_stamp_shape(r->0@),
{
    format_utc(secs, nanos, "%Y-%m-%d_%H_%M_%S")
}

/// The time stamp of a clock reading (seconds since the epoch and
/// nanoseconds into the second): there is one exactly when there is a reading
/// within chrono's range.
pub fn stamp_of_reading(reading: Option<(u64, u32)>) -> (r: Option<String>)
    ensures
        r is Some <==> (reading matches Some(p) && p.0 <= max_utc_timestamp() && p.1 < 1_000_000_000),
        r matches Some(s) ==> (reading matches Some(p) && utc_formatted(p.0 as i64, p.1, stamp_pattern()) == Some(s@)),
        (reading matches Some(p) && p.0 <= last_four_digit_year_timestamp() && p.1 < 1_000_000_000) ==> r is Some && is_stamp_shape(r->0@),
{
    match reading {
        Some((secs, nanos)) => {
            if secs <= 8_210_266_876_799u64 && nanos < 1_000_000_000 {
                stamp_at(secs as i64, nanos)
            } else {
                None
            }
        },
        None => None,
    }
}

/// The time stamp of the present moment (UTC); `None` when the system clock
/// reads before the Unix epoch or beyond chrono's range. Up to the year 9999
/// the stamp has the shape `YYYY-MM-DD_hh_mm_ss`.
pub fn current_date_time() -> (r: Option<String>)
    ensures
        r matches Some(s) ==> exists|secs: i64, nanos: u32|
            0 <= secs <= max_utc_timestamp() && nanos < 1_000_000_000 && utc_formatted(
                secs,
                nanos,
                stamp_pattern(),
            ) == Some(s@) && (secs <= last_four_digit_year_timestamp() ==> is_stamp_shape(s@)),
{
    let reading = elapsed_since_epoch(clock_now());
    let r = stamp_of_reading(reading);
    proof {
        if r is Some {
            let p = reading->0;
            assert(utc_formatted(p.0 as i64, p.1, stamp_pattern()) == Some(r->0@));
        }
    }
    r
}

/// The name of the file that keeps the record of an exchange made at `stamp`.
pub fn record_file_name(stamp: &str) -> (r: String)
    ensures
        r@ == stamp@ + ".txt"@,
{
    let mut name = String::from_str(stamp);
    name.append(".txt");
    name
}

} // verus!
