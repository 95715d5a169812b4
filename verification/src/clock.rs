//! Points in time and the calendar.
//!
//! A point in time is a number of nanoseconds since the Unix epoch
//! (1970-01-01T00:00:00Z), in the range that dates of the calendar can take.

use vstd::prelude::*;

verus! {

/// Nanoseconds in one second.
pub const NANOS_PER_SEC: i128 = 1_000_000_000;

/// Nanoseconds in one day.
pub const NANOS_PER_DAY: i128 = 86_400_000_000_000;

/// The earliest point in time: -262143-01-01T00:00:00Z.
pub const MIN_NANOS: i128 = -8_334_601_228_800_000_000_000;

/// The latest point in time: +262142-12-31T23:59:59.999999999Z.
pub const MAX_NANOS: i128 = 8_210_266_876_799_999_999_999;

/// Whether `t` is a representable point in time.
pub open spec fn valid_time(t: int) -> bool {
    MIN_NANOS <= t <= MAX_NANOS
}

/// The day (counted from the epoch, day 0 being 1970-01-01) that the point
/// in time `t` falls on, in UTC.
pub open spec fn day_of(t: int) -> int {
    t / (NANOS_PER_DAY as int)
}

/// The whole seconds of the point in time `t` (rounded down).
pub open spec fn secs_of(t: int) -> int {
    t / (NANOS_PER_SEC as int)
}

/// The nanoseconds of `t` past its whole second.
pub open spec fn subsec_of(t: int) -> int {
    t % (NANOS_PER_SEC as int)
}

/// `SystemTime::now` measured against `UNIX_EPOCH` with `duration_since`:
/// whether the system clock reads at or after the epoch (`Ok`) or before it
/// (`Err`, whose `duration` is then taken), and the whole seconds and the
/// nanoseconds of the rest of that distance (`as_secs`, `subsec_nanos`).
/// The standard library documents the nanoseconds as below one second; what
/// the clock reads is not otherwise known.
#[verifier::external_body]
fn read_system_clock() -> (r: (bool, u64, u32))
    ensures
        r.2 < 1_000_000_000,
{
    match std::time::SystemTime::now().duration_since(std::time::UNIX_EPOCH) {
        Ok(d) => (true, d.as_secs(), d.subsec_nanos()),
        Err(e) => (false, e.duration().as_secs(), e.duration().subsec_nanos()),
    }
}

/// `DateTime::<Utc>::from_timestamp` followed by `timestamp` and
/// `timestamp_subsec_nanos`: the moment `secs` seconds and `nsecs`
/// nanoseconds after the epoch, given back as its seconds and nanoseconds.
/// chrono gives `None` exactly when the second lies outside its calendar,
/// whose ends are those of `valid_time`.
#[verifier::external_body]
fn timestamp_parts(secs: i64, nsecs: u32) -> (r: Option<(i64, u32)>)
    requires
        nsecs < 1_000_000_000,
    ensures
        r is Some <==> valid_time(secs * 1_000_000_000),
        r matches Some(p) ==> p.0 == secs && p.1 == nsecs,
{
    match chrono::DateTime::from_timestamp(secs, nsecs) {
        Some(d) => Some((d.timestamp(), d.timestamp_subsec_nanos())),
        None => None,
    }
}

/// The current time, read from the system clock and turned into a moment of
/// the calendar by chrono, as `Utc::now` does.  Where `Utc::now` would panic
/// (a clock reading before the epoch, or outside the calendar), the moment
/// read before the epoch is kept as it is, and one outside the calendar is
/// taken as the calendar's nearest end.  Which moment the clock reads is not
/// otherwise known.
pub(crate) fn now_nanos() -> (t: i128)
    ensures
        valid_time(t as int),
{
    let (after, secs, nanos) = read_system_clock();
    if secs > 9_223_372_036_854_775_806u64 {
        return if after {
            MAX_NANOS
        } else {
            MIN_NANOS
        };
    }
    let s = secs as i64;
    let (sec, nsec): (i64, u32) = if after {
        (s, nanos)
    } else if nanos == 0 {
        (-s, 0)
    } else {
        (-s - 1, 1_000_000_000 - nanos)
    };
    match timestamp_parts(sec, nsec) {
        Some((a, b)) => a as i128 * 1_000_000_000 + b as i128,
        None => if after {
            MAX_NANOS
        } else {
            MIN_NANOS
        },
    }
}

proof fn lemma_floor_negative(t: int, d: int)
    requires
        t < 0,
        d > 0,
    ensures
        t / d == -((-t - 1) / d) - 1,
{
    let q = (-t - 1) / d;
    let r = (-t - 1) % d;
    assert(-t - 1 == q * d + r && 0 <= r < d) by (nonlinear_arith)
        requires
            d > 0,
            q == (-t - 1) / d,
            r == (-t - 1) % d,
    ;
    assert(t == (-q - 1) * d + (d - r - 1)) by (nonlinear_arith)
        requires
            -t - 1 == q * d + r,
    ;
    vstd::arithmetic::div_mod::lemma_fundamental_div_mod_converse(t, d, -q - 1, d - r - 1);
}

/// `t` divided by the positive `d`, rounded down, and the remainder.
fn floor_div(t: i128, d: i128) -> (r: (i128, i128))
    requires
        valid_time(t as int),
        1 <= d <= NANOS_PER_DAY,
    ensures
        r.0 == t as int / d as int,
        r.1 == t as int % d as int,
{
    if t >= 0 {
        let q = ((t as u128) / (d as u128)) as i128;
        let m = ((t as u128) % (d as u128)) as i128;
        (q, m)
    } else {
        let m = ((-(t + 1)) as u128) / (d as u128);
        proof {
            lemma_floor_negative(t as int, d as int);
        }
        let q = -(m as i128) - 1;
        proof {
            vstd::arithmetic::div_mod::lemma_fundamental_div_mod(t as int, d as int);
            let r = t as int % d as int;
            assert(q as int * d as int == t as int - r) by (nonlinear_arith)
                requires
                    t as int == d as int * (t as int / d as int) + r,
                    q as int == t as int / d as int,
            ;
        }
        (q, t - q * d)
    }
}

/// The UTC day that the point in time `t` falls on.
pub fn day_number(t: i128) -> (d: i64)
    requires
        valid_time(t as int),
    ensures
        d == day_of(t as int),
{
    let (q, _r) = floor_div(t, NANOS_PER_DAY);
    q as i64
}

/// The whole seconds of `t` and the nanoseconds past them.
fn split_time(t: i128) -> (r: (i64, u32))
    requires
        valid_time(t as int),
    ensures
        r.0 == secs_of(t as int),
        r.1 == subsec_of(t as int),
        r.1 < 1_000_000_000,
        valid_time(r.0 * 1_000_000_000),
{
    let (q, m) = floor_div(t, NANOS_PER_SEC);
    proof {
        vstd::arithmetic::div_mod::lemma_fundamental_div_mod(t as int, NANOS_PER_SEC as int);
    }
    (q as i64, m as u32)
}

/// Day number (counted from 0001-01-01, which is day 1) of the earliest
/// calendar date, -262143-01-01.
pub const MIN_DAY_CE: i32 = -95_746_129;

/// Day number (counted from 0001-01-01, which is day 1) of the latest
/// calendar date, +262142-12-31.
pub const MAX_DAY_CE: i32 = 95_745_399;

/// Day number (counted from 0001-01-01) of the epoch, 1970-01-01.
pub const EPOCH_DAY_CE: i32 = 719_163;

/// What `NaiveDate::parse_from_str(s, "%Y-%m-%d")` reads from `s`, as the
/// day number of the date counted from 0001-01-01 (day 1).
pub uninterp spec fn ymd_day_ce(s: Seq<char>) -> Option<int>;

/// What `DateTime::parse_from_rfc3339` reads from `s`, as the whole seconds
/// since the epoch and the nanoseconds past them.
pub uninterp spec fn rfc3339_instant(s: Seq<char>) -> Option<(int, int)>;

/// What `DateTime::<Utc>::to_rfc3339` writes for the moment `secs` seconds
/// and `nanos` nanoseconds after the epoch.
pub uninterp spec fn rfc3339_text(secs: int, nanos: int) -> Seq<char>;

/// `NaiveDate::parse_from_str(s, "%Y-%m-%d")` followed by
/// `Datelike::num_days_from_ce`: the date written `YYYY-MM-DD` in `s`, as a
/// day number counted from 0001-01-01 (day 1).  The date lies within the
/// calendar's range; which texts are accepted is left to the name.
#[verifier::external_body]
pub(crate) fn parse_ymd(s: &str) -> (r: Option<i32>)
    ensures
        match r {
            Some(d) => ymd_day_ce(s@) == Some(d as int) && MIN_DAY_CE <= d <= MAX_DAY_CE,
            None => ymd_day_ce(s@) is None,
        },
{
    match chrono::NaiveDate::parse_from_str(s, "%Y-%m-%d") {
        Ok(d) => Some(chrono::Datelike::num_days_from_ce(&d)),
        Err(_) => None,
    }
}

/// `DateTime::parse_from_rfc3339` followed by `timestamp` and
/// `timestamp_subsec_nanos`: the moment written in RFC 3339 form in `s`, as
/// its seconds and nanoseconds.  The parser takes four-digit years only, so
/// the moment lies within the calendar; the nanoseconds stay below two
/// seconds' worth (chrono keeps a leap second as nanoseconds past one
/// billion).  Which texts are accepted is left to the name.
#[verifier::external_body]
fn parse_rfc3339_parts(s: &str) -> (r: Option<(i64, u32)>)
    ensures
        match r {
            Some(p) => rfc3339_instant(s@) == Some((p.0 as int, p.1 as int)) && p.1
                < 2_000_000_000 && valid_time(p.0 * 1_000_000_000 + p.1),
            None => rfc3339_instant(s@) is None,
        },
{
    match chrono::DateTime::parse_from_rfc3339(s) {
        Ok(d) => Some((d.timestamp(), d.timestamp_subsec_nanos())),
        Err(_) => None,
    }
}

/// The point in time written in RFC 3339 form in `s`, in nanoseconds.
pub open spec fn rfc3339_nanos(s: Seq<char>) -> Option<int> {
    match rfc3339_instant(s) {
        Some((a, b)) => Some(a * 1_000_000_000 + b),
        None => None,
    }
}

/// The point in time written in RFC 3339 form in `s`.
pub(crate) fn parse_rfc3339(s: &str) -> (r: Option<i128>)
    ensures
        r matches Some(t) ==> valid_time(t as int),
        match r {
            Some(t) => rfc3339_nanos(s@) == Some(t as int),
            None => rfc3339_nanos(s@) is None,
        },
{
    match parse_rfc3339_parts(s) {
        Some((a, b)) => Some(a as i128 * 1_000_000_000 + b as i128),
        None => None,
    }
}

/// The earliest point in time whose RFC 3339 text has a four-digit year:
/// 0000-01-01T00:00:00Z.
pub const RFC3339_MIN_NANOS: i128 = -62_167_219_200_000_000_000;

/// The latest point in time whose RFC 3339 text has a four-digit year:
/// 9999-12-31T23:59:59.999999999Z.
pub const RFC3339_MAX_NANOS: i128 = 253_402_300_799_999_999_999;

/// Whether the RFC 3339 text of `t` has a four-digit year.
pub open spec fn four_digit_year(t: int) -> bool {
    RFC3339_MIN_NANOS <= t <= RFC3339_MAX_NANOS
}

/// `DateTime::<Utc>::from_timestamp` followed by `to_rfc3339`: the RFC 3339
/// text of the moment `secs` seconds and `nanos` nanoseconds after the
/// epoch.  For a year from 0 to 9999 the text is the four-digit year, month,
/// day, time with every non-zero digit of the fraction (3, 6 or 9 of them)
/// and offset, which `DateTime::parse_from_rfc3339` reads back to the same
/// seconds and nanoseconds; years outside that range are written with a
/// sign, which that parser refuses, and nothing is said of them.
#[verifier::external_body]
fn format_rfc3339_parts(secs: i64, nanos: u32) -> (r: String)
    requires
        nanos < 1_000_000_000,
        valid_time(secs * 1_000_000_000),
    ensures
        r@ == rfc3339_text(secs as int, nanos as int),
        four_digit_year(secs * 1_000_000_000 + nanos) ==> rfc3339_instant(r@) == Some(
            (secs as int, nanos as int),
        ),
{
    match chrono::DateTime::from_timestamp(secs, nanos) {
        Some(d) => d.to_rfc3339(),
        None => String::new(),
    }
}

/// The RFC 3339 text of the point in time `t`.
pub open spec fn rfc3339_text_of(t: int) -> Seq<char> {
    rfc3339_text(secs_of(t), subsec_of(t))
}

/// The RFC 3339 text of the point in time `t`; for a year from 0 to 9999 it
/// reads back as `t`.
pub(crate) fn format_rfc3339(t: i128) -> (r: String)
    requires
        valid_time(t as int),
    ensures
        r@ == rfc3339_text_of(t as int),
        four_digit_year(t as int) ==> rfc3339_nanos(r@) == Some(t as int),
{
    let (s, n) = split_time(t);
    proof {
        vstd::arithmetic::div_mod::lemma_fundamental_div_mod(t as int, NANOS_PER_SEC as int);
    }
    format_rfc3339_parts(s, n)
}

/// What `DateTime::<Utc>::format(fmt)` writes for the moment `secs` seconds
/// and `nanos` nanoseconds after the epoch.
pub uninterp spec fn utc_format_text(secs: int, nanos: int, fmt: Seq<char>) -> Seq<char>;

/// Whether `fmt` is one of the formats the program writes dates with:
/// `%b %d`, `%Y-%m-%d` or `%Y-%m-%d %H:%M`.
pub open spec fn date_format(fmt: Seq<char>) -> bool {
    fmt == "%b %d"@ || fmt == "%Y-%m-%d"@ || fmt == "%Y-%m-%d %H:%M"@
}

/// `DateTime::<Utc>::from_timestamp` followed by `format(fmt)` and
/// `to_string`: the moment `secs` seconds and `nanos` nanoseconds after the
/// epoch written in UTC with one of the program's formats.  chrono
/// represents every valid time, so the moment is always found.  With
/// `%b %d` the text is the month's three-letter English abbreviation, a
/// space and the day as two digits (chrono documents `%b` as always three
/// letters and `%d` as zero-padded to two digits); what the texts are
/// otherwise is left to the name.
#[verifier::external_body]
fn format_utc(secs: i64, nanos: u32, fmt: &str) -> (r: String)
    requires
        nanos < 1_000_000_000,
        valid_time(secs * 1_000_000_000),
        date_format(fmt@),
    ensures
        r@ == utc_format_text(secs as int, nanos as int, fmt@),
        fmt@ == "%b %d"@ ==> r@.len() == 6 && r@[3] == ' ',
{
    match chrono::DateTime::from_timestamp(secs, nanos) {
        Some(d) => d.format(fmt).to_string(),
        None => String::new(),
    }
}

/// The month and day of `t` as the task table shows them, as `Jan 05`.
pub open spec fn month_day_text(t: int) -> Seq<char> {
    utc_format_text(secs_of(t), subsec_of(t), "%b %d"@)
}

/// The month and day of `t`, as `Jan 05` (UTC).
pub(crate) fn format_month_day(t: i128) -> (r: String)
    requires
        valid_time(t as int),
    ensures
        r@ == month_day_text(t as int),
        r@.len() == 6,
        r@[3] == ' ',
{
    let (s, n) = split_time(t);
    format_utc(s, n, "%b %d")
}

/// The date of `t` as the task details show it, as `2024-03-05`.
pub open spec fn date_text(t: int) -> Seq<char> {
    utc_format_text(secs_of(t), subsec_of(t), "%Y-%m-%d"@)
}

/// The date and time of `t` as the task details show them, as
/// `2024-03-05 14:30`.
pub open spec fn date_time_text(t: int) -> Seq<char> {
    utc_format_text(secs_of(t), subsec_of(t), "%Y-%m-%d %H:%M"@)
}

/// The date of `t`, as `2024-03-05` (UTC).
pub fn format_date(t: i128) -> (r: String)
    requires
        valid_time(t as int),
    ensures
        r@ == date_text(t as int),
{
    let (s, n) = split_time(t);
    format_utc(s, n, "%Y-%m-%d")
}

/// The date and time of `t`, as `2024-03-05 14:30` (UTC).
pub fn format_date_time(t: i128) -> (r: String)
    requires
        valid_time(t as int),
    ensures
        r@ == date_time_text(t as int),
{
    let (s, n) = split_time(t);
    format_utc(s, n, "%Y-%m-%d %H:%M")
}

/// The last second (23:59:59) of the day with day number `d` counted from
/// 0001-01-01, in nanoseconds since the epoch.
pub open spec fn end_of_day(d: int) -> int {
    (d - EPOCH_DAY_CE) * (NANOS_PER_DAY as int) + 86_399_000_000_000
}

/// The last second (23:59:59, UTC) of the day with day number `d`.
pub fn end_of_day_nanos(d: i32) -> (t: i128)
    requires
        MIN_DAY_CE <= d <= MAX_DAY_CE,
    ensures
        t == end_of_day(d as int),
        valid_time(t as int),
{
    let days: i128 = d as i128 - EPOCH_DAY_CE as i128;
    assert(-96465292 <= days <= 95026236);
    assert(-96465292 * 86_400_000_000_000 <= days * 86_400_000_000_000 <= 95026236
        * 86_400_000_000_000) by (nonlinear_arith)
        requires
            -96465292 <= days <= 95026236,
    ;
    days * NANOS_PER_DAY + 86_399_000_000_000
}

} // verus!
