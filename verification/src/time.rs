//! Instants in UTC and the calendar facts the horoscope reads from them (through chrono).
use vstd::prelude::*;
use chrono::{Datelike, Timelike};
use crate::text::{decimal, decimal_two_digits, repeat_char};

verus! {

/// The earliest second chrono represents, `DateTime::<Utc>::MIN_UTC`: -262143-01-01 00:00:00
/// UTC (proleptic Gregorian, year 0 counted).
pub const MIN_UTC_SECS: i64 = -8_334_601_228_800;
/// The latest second chrono represents, `DateTime::<Utc>::MAX_UTC`: +262142-12-31 23:59:59
/// UTC.
pub const MAX_UTC_SECS: i64 = 8_210_266_876_799;

/// An instant: whole seconds since 1970-01-01 00:00:00 UTC and the nanoseconds past them.
#[derive(Debug, Clone, Copy, PartialEq, Eq, Structural)]
pub struct UtcTime {
    pub secs: i64,
    pub nanos: u32,
}

/// Whether the second `secs` lies in the range of chrono's `DateTime<Utc>`.
pub open spec fn representable(secs: int) -> bool {
    MIN_UTC_SECS <= secs <= MAX_UTC_SECS
}

impl UtcTime {
    /// A valid instant: a representable second and fewer than a second of nanoseconds.
    pub open spec fn wf(self) -> bool {
        representable(self.secs as int) && self.nanos < 1_000_000_000
    }

    /// The hour of the day (UTC) of the second `secs`.
    pub open spec fn hour_of(secs: int) -> int {
        (secs % 86_400) / 3_600
    }
}

/// The civil date (year, month 1–12, day 1–31) of the second `secs` (UTC, proleptic
/// Gregorian calendar, year 0 counted). The day since 1970-01-01 is placed in its 400-year
/// cycle of 146 097 days, with years taken to start on 1 March so that the leap day ends them;
/// from the day of the cycle follow the year of the cycle, the day of that year and the month,
/// whose lengths from March on run 31, 30, 31, 30, 31 (153 days in five months).
pub open spec fn civil_date_of(secs: i64) -> (int, int, int) {
    let z = secs as int / 86_400 + 719_468;
    let era = z / 146_097;
    let doe = z % 146_097;
    let yoe = (doe - doe / 1_460 + doe / 36_524 - doe / 146_096) / 365;
    let doy = doe - (365 * yoe + yoe / 4 - yoe / 100);
    let mp = (5 * doy + 2) / 153;
    let day = doy - (153 * mp + 2) / 5 + 1;
    let month = if mp < 10 { mp + 3 } else { mp - 9 };
    let year = era * 400 + yoe + if month <= 2 { 1int } else { 0int };
    (year, month, day)
}

/// The day of the month, counted from 0, of the second `secs` (UTC).
pub open spec fn utc_day0_of(secs: i64) -> u32 {
    (civil_date_of(secs).2 - 1) as u32
}

/// `n` in decimal with at least four digits, padded with leading zeros.
pub open spec fn decimal_four_digits(n: nat) -> Seq<char> {
    let d = decimal(n);
    if d.len() >= 4 {
        d
    } else {
        repeat_char('0', (4 - d.len()) as nat) + d
    }
}

/// A year as chrono's `%Y` writes it: four digits, zero-padded, for years 0 to 9999, and
/// otherwise a sign before at least four digits.
pub open spec fn year_text(year: int) -> Seq<char> {
    if 0 <= year <= 9999 {
        decimal_four_digits(year as nat)
    } else if year < 0 {
        seq!['-'] + decimal_four_digits((-year) as nat)
    } else {
        seq!['+'] + decimal_four_digits(year as nat)
    }
}

/// The text `%Y-%m-%d %H:%M UTC` of the second `secs`: the civil date, then the hour and
/// minute of the day, each of these with two digits.
pub open spec fn utc_minute_label_of(secs: i64) -> Seq<char> {
    let (year, month, day) = civil_date_of(secs);
    let of_day = (secs as int) % 86_400;
    year_text(year) + seq!['-'] + decimal_two_digits(month as nat) + seq!['-']
        + decimal_two_digits(day as nat) + seq![' '] + decimal_two_digits((of_day / 3_600) as nat)
        + seq![':'] + decimal_two_digits(((of_day % 3_600) / 60) as nat) + seq![' ', 'U', 'T', 'C']
}

/// The hour of the day (UTC), by `chrono::Timelike::hour` on
/// `DateTime::from_timestamp(secs, 0)`. Claimed: the hour is the seconds past midnight,
/// divided by 3600; chrono counts no leap seconds in a timestamp.
#[verifier::external_body]
pub(crate) fn utc_hour(secs: i64) -> (h: u32)
    requires
        representable(secs as int),
    ensures
        h == UtcTime::hour_of(secs as int),
{
    let t = chrono::DateTime::from_timestamp(secs, 0).unwrap();
    t.hour()
}

/// The day of the month counted from 0, by `chrono::Datelike::day0` on
/// `DateTime::from_timestamp(secs, 0)`. Claimed: the day of the month of that second in the
/// proleptic Gregorian calendar, less one, as `utc_day0_of` computes it, and below 31 as
/// chrono documents.
#[verifier::external_body]
pub(crate) fn utc_day0(secs: i64) -> (d: u32)
    requires
        representable(secs as int),
    ensures
        d == utc_day0_of(secs),
        d < 31,
{
    let t = chrono::DateTime::from_timestamp(secs, 0).unwrap();
    t.day0()
}

/// The date and minute, by `DateTime::format("%Y-%m-%d %H:%M UTC")` on
/// `DateTime::from_timestamp(secs, 0)`. Claimed: the text that `utc_minute_label_of` spells
/// out, from the proleptic Gregorian date and chrono's rules for `%Y`, `%m`, `%d`, `%H` and
/// `%M` (zero-padded; a sign on years outside 0 to 9999).
#[verifier::external_body]
pub(crate) fn utc_minute_label(secs: i64) -> (s: String)
    requires
        representable(secs as int),
    ensures
        s@ == utc_minute_label_of(secs),
{
    let t = chrono::DateTime::from_timestamp(secs, 0).unwrap();
    t.format("%Y-%m-%d %H:%M UTC").to_string()
}

} // verus!
