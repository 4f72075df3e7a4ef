//! Dates and times as text: the proleptic Gregorian calendar for moments after
//! the Unix epoch, written in RFC 3339, and the current UTC time.

use vstd::prelude::*;
use crate::number::{decimal, digit_char};

verus! {

/// The last `width` decimal digits of `v`, with leading zeros.
pub open spec fn padded(v: nat, width: nat) -> Seq<char>
    decreases width,
{
    if width == 0 {
        Seq::<char>::empty()
    } else {
        padded(v / 10, (width - 1) as nat).push(digit_char(v % 10))
    }
}

/// The year, month and day of the day `days` days after 1970-01-01.
pub open spec fn civil_date(days: nat) -> (nat, nat, nat) {
    let z = days + 719468;
    let era = z / 146097;
    let doe = z - era * 146097;
    let yoe = (doe - doe / 1460 + doe / 36524 - doe / 146096) / 365;
    let doy = doe - (365 * yoe + yoe / 4 - yoe / 100);
    let mp = (5 * doy + 2) / 153;
    let d = doy - (153 * mp + 2) / 5 + 1;
    let m = if mp < 10 {
        mp + 3
    } else {
        mp - 9
    };
    let y = yoe + era * 400 + if m <= 2 {
        1int
    } else {
        0int
    };
    (y as nat, m as nat, d as nat)
}

/// `-MM-DDTHH:MM:SS` of the moment `secs` seconds after the epoch, the text
/// that follows the year.
pub open spec fn after_year_text(secs: nat) -> Seq<char> {
    let (y, m, d) = civil_date(secs / 86400);
    let t = secs % 86400;
    seq!['-'] + padded(m, 2) + seq!['-'] + padded(d, 2) + seq!['T'] + padded(t / 3600, 2) + seq![
        ':',
    ] + padded(t % 3600 / 60, 2) + seq![':'] + padded(t % 60, 2)
}

/// The year of the moment `secs` seconds after the epoch.
pub open spec fn year_of(secs: nat) -> nat {
    civil_date(secs / 86400).0
}

/// The first moment, in seconds after the epoch, whose year has five digits
/// (10000-01-01T00:00:00Z).
pub open spec fn rfc3339_limit() -> u64 {
    253_402_300_800
}

/// `YYYY-MM-DDTHH:MM:SSZ` for the moment `secs` seconds after the epoch.
pub open spec fn rfc3339_seconds(secs: nat) -> Seq<char> {
    padded(year_of(secs), 4) + after_year_text(secs) + seq!['Z']
}

/// The fraction of a second as `chrono` writes it in RFC 3339: nothing for
/// whole seconds, else 3, 6 or 9 digits, the fewest that are exact.
pub open spec fn fraction_text(nanos: nat) -> Seq<char> {
    if nanos == 0 {
        Seq::<char>::empty()
    } else if nanos % 1_000_000 == 0 {
        seq!['.'] + padded(nanos / 1_000_000, 3)
    } else if nanos % 1000 == 0 {
        seq!['.'] + padded(nanos / 1000, 6)
    } else {
        seq!['.'] + padded(nanos, 9)
    }
}

/// The moment `secs` seconds and `nanos` nanoseconds after the epoch, in UTC,
/// as `chrono::DateTime::to_rfc3339` writes it: a year past 9999 gets a `+`
/// sign, and the offset is `+00:00`.
pub open spec fn utc_rfc3339_text(secs: nat, nanos: nat) -> Seq<char> {
    let y = year_of(secs);
    let year = if y <= 9999 {
        padded(y, 4)
    } else {
        seq!['+'] + decimal(y)
    };
    year + after_year_text(secs) + fraction_text(nanos) + "+00:00"@
}

/// Whether `s` is the RFC 3339 text of some moment after the epoch.
pub open spec fn is_utc_rfc3339(s: Seq<char>) -> bool {
    exists|secs: nat, nanos: nat| nanos < 1_000_000_000 && s == #[trigger] utc_rfc3339_text(secs, nanos)
}

/// `std::time::SystemTime`, a reading of the system clock.
#[verifier::external_type_specification]
#[verifier::external_body]
pub struct ExSystemTime(std::time::SystemTime);

/// Reads the system clock with `SystemTime::now`. The reading varies; nothing
/// is stated of it.
#[verifier::external_body]
fn system_now() -> (t: std::time::SystemTime) {
    std::time::SystemTime::now()
}

/// Measures `t` from the Unix epoch with `SystemTime::duration_since`; `None`
/// when `t` is before the epoch. The reading varies; nothing is stated of it.
#[verifier::external_body]
fn since_epoch(t: std::time::SystemTime) -> (r: Option<std::time::Duration>) {
    t.duration_since(std::time::UNIX_EPOCH).ok()
}

/// The whole seconds of `d`, by `Duration::as_secs`. Nothing is stated of them.
#[verifier::external_body]
fn whole_seconds(d: &std::time::Duration) -> (secs: u64) {
    d.as_secs()
}

/// The nanoseconds of `d` beyond its whole seconds, by `Duration::subsec_nanos`,
/// which its documentation says are under a second.
#[verifier::external_body]
fn beyond_seconds(d: &std::time::Duration) -> (nanos: u32)
    ensures
        nanos < 1_000_000_000,
{
    d.subsec_nanos()
}

/// A clock reading as whole seconds and nanoseconds since the Unix epoch;
/// `None` when the clock is before the epoch.
pub(crate) fn clock_reading() -> (r: Option<(u64, u32)>)
    ensures
        r matches Some((_, nanos)) ==> nanos < 1_000_000_000,
{
    match since_epoch(system_now()) {
        Some(d) => Some((whole_seconds(&d), beyond_seconds(&d))),
        None => None,
    }
}

/// Calls `chrono::DateTime::from_timestamp` and writes the moment with
/// `to_rfc3339`; `None` when the moment is outside chrono's calendar. The
/// contract states the text (`utc_rfc3339_text`), as chrono's calendar and its
/// `write_rfc3339` give it, and that every moment before year 10000 is inside.
#[verifier::external_body]
fn utc_rfc3339(secs: i64, nanos: u32) -> (r: Option<String>)
    requires
        secs >= 0,
        nanos < 1_000_000_000,
    ensures
        r matches Some(s) ==> s@ == utc_rfc3339_text(secs as nat, nanos as nat),
        secs < rfc3339_limit() ==> r is Some,
{
    chrono::DateTime::from_timestamp(secs, nanos).map(|t| t.to_rfc3339())
}

/// The RFC 3339 text of a clock reading (whole seconds and nanoseconds since the
/// epoch), as `chrono` writes it: exact for every moment before year 10000,
/// `None` when there is no reading, and for a later moment either its text or
/// `None`.
pub fn rfc3339_of_reading(reading: Option<(u64, u32)>) -> (r: Option<String>)
    requires
        reading matches Some((_, n)) ==> n < 1_000_000_000,
    ensures
        reading is None ==> r is None,
        reading is Some && reading->Some_0.0 < rfc3339_limit() ==> r is Some,
        r is Some ==> reading is Some && r->Some_0@ == utc_rfc3339_text(
            reading->Some_0.0 as nat,
            reading->Some_0.1 as nat,
        ),
{
    let (secs, nanos) = match reading {
        Some(reading) => reading,
        None => {
            return None;
        },
    };
    if secs > 9_223_372_036_854_775_807u64 {
        return None;
    }
    utc_rfc3339(secs as i64, nanos)
}

/// The current UTC time in RFC 3339, as `chrono::Utc::now().to_rfc3339()`
/// writes it; `None` when the clock is before the epoch or past chrono's
/// calendar. See `rfc3339_of_reading` for the text of each reading.
pub fn utc_now_rfc3339() -> (r: Option<String>)
    ensures
        r matches Some(s) ==> is_utc_rfc3339(s@),
{
    let reading = clock_reading();
    let r = rfc3339_of_reading(reading);
    proof {
        if r is Some {
            let (secs, nanos) = reading->Some_0;
            assert(utc_rfc3339_text(secs as nat, nanos as nat) == r->Some_0@);
        }
    }
    r
}

} // verus!
