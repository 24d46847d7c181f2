//! Time as the pet sees it: the present moment, a span of seconds told in
//! days, hours, minutes and seconds, and a moment told as a calendar date.

use crate::text::padded2;
use crate::text::push_decimal;
use crate::text::push_padded2;
use crate::text::push_signed;
use crate::text::signed_decimal;
use chrono::Datelike;
use std::time::Duration;
use std::time::SystemTime;
use vstd::prelude::*;

verus! {

/// The seconds in a day.
pub const SECONDS_PER_DAY: u64 = 86400;

/// The seconds in an hour.
pub const SECONDS_PER_HOUR: u64 = 3600;

/// The seconds in a minute.
pub const SECONDS_PER_MINUTE: u64 = 60;

/// `a` divided by the positive `b`, rounded towards zero.
pub open spec fn trunc_div(a: int, b: int) -> int {
    if a >= 0 {
        a / b
    } else {
        -((-a) / b)
    }
}

/// What is left of `a` after `trunc_div(a, b)`: it has the sign of `a`.
pub open spec fn trunc_rem(a: int, b: int) -> int {
    if a >= 0 {
        a % b
    } else {
        -((-a) % b)
    }
}

/// The days, hours, minutes and seconds in a span of seconds.
pub struct Parts {
    /// Whole days.
    pub days: int,
    /// Whole hours beyond the days.
    pub hours: int,
    /// Whole minutes beyond the hours.
    pub minutes: int,
    /// Seconds beyond the minutes.
    pub seconds: int,
}

/// A span of seconds taken apart by dividing by a day, then the rest by an
/// hour, then the rest by a minute. A negative span gives parts that are
/// negative or zero.
pub open spec fn dhms_parts(seconds: int) -> Parts {
    let in_day = trunc_rem(seconds, SECONDS_PER_DAY as int);
    let in_hour = trunc_rem(in_day, SECONDS_PER_HOUR as int);
    Parts {
        days: trunc_div(seconds, SECONDS_PER_DAY as int),
        hours: trunc_div(in_day, SECONDS_PER_HOUR as int),
        minutes: trunc_div(in_hour, SECONDS_PER_MINUTE as int),
        seconds: trunc_rem(in_hour, SECONDS_PER_MINUTE as int),
    }
}

/// A span of seconds told as days, hours, minutes and seconds.
pub open spec fn dhms_text(seconds: int) -> Seq<char> {
    let parts = dhms_parts(seconds);
    signed_decimal(parts.days) + seq!['d', ' '] + signed_decimal(parts.hours) + seq!['h', ' ']
        + signed_decimal(parts.minutes) + seq!['m', ' '] + signed_decimal(parts.seconds)
        + seq!['s']
}

/// The parts of a span add up to the span, and each part but the days is
/// smaller than the next larger unit.
pub proof fn lemma_dhms_parts_add_up(seconds: int)
    ensures
        ({
            let parts = dhms_parts(seconds);
            &&& parts.days * SECONDS_PER_DAY + parts.hours * SECONDS_PER_HOUR + parts.minutes
                * SECONDS_PER_MINUTE + parts.seconds == seconds
            &&& -24 < parts.hours < 24
            &&& -60 < parts.minutes < 60
            &&& -60 < parts.seconds < 60
        }),
{
}

/// The parts of a span that is not negative are not negative, and the parts
/// of a negative span are not positive.
pub proof fn lemma_dhms_parts_sign(seconds: int)
    ensures
        ({
            let parts = dhms_parts(seconds);
            &&& seconds >= 0 ==> parts.days >= 0 && parts.hours >= 0 && parts.minutes >= 0
                && parts.seconds >= 0
            &&& seconds <= 0 ==> parts.days <= 0 && parts.hours <= 0 && parts.minutes <= 0
                && parts.seconds <= 0
        }),
{
}

/// A calendar date told as day, month and year, the day and the month in two
/// digits.
pub open spec fn dmy_text(year: int, month: nat, day: nat) -> Seq<char> {
    padded2(day) + seq!['-'] + padded2(month) + seq!['-'] + signed_decimal(year)
}

/// A part of a span, given its size and whether the span is negative.
pub open spec fn signed_part(negative: bool, size: int) -> int {
    if negative {
        -size
    } else {
        size
    }
}

/// The parts of a span, from the parts of its size.
proof fn lemma_parts_of_size(negative: bool, size: int)
    requires
        size >= 0,
    ensures
        ({
            let in_day = size % (SECONDS_PER_DAY as int);
            let in_hour = in_day % (SECONDS_PER_HOUR as int);
            dhms_parts(signed_part(negative, size)) == (Parts {
                days: signed_part(negative, size / (SECONDS_PER_DAY as int)),
                hours: signed_part(negative, in_day / (SECONDS_PER_HOUR as int)),
                minutes: signed_part(negative, in_hour / (SECONDS_PER_MINUTE as int)),
                seconds: signed_part(negative, in_hour % (SECONDS_PER_MINUTE as int)),
            })
        }),
{
}

/// Appends one part of a span to `out`: its size, negative if the span is,
/// and the letter that names it.
fn push_part(out: &mut String, negative: bool, size: u128, unit: char)
    ensures
        final(out)@ == old(out)@ + signed_decimal(signed_part(negative, size as int)).push(unit),
{
    if negative && size > 0 {
        out.push('-');
    }
    push_decimal(out, size);
    out.push(unit);
}

/// Tells a span of seconds as days, hours, minutes and seconds.
fn render_dhms(seconds: i128) -> (r: String)
    ensures
        r@ == dhms_text(seconds as int),
{
    let negative: bool = seconds < 0;
    let size: u128 = if negative {
        (-(seconds + 1)) as u128 + 1
    } else {
        seconds as u128
    };
    let days: u128 = size / (SECONDS_PER_DAY as u128);
    let in_day: u128 = size % (SECONDS_PER_DAY as u128);
    let hours: u128 = in_day / (SECONDS_PER_HOUR as u128);
    let in_hour: u128 = in_day % (SECONDS_PER_HOUR as u128);
    let minutes: u128 = in_hour / (SECONDS_PER_MINUTE as u128);
    let in_minute: u128 = in_hour % (SECONDS_PER_MINUTE as u128);
    let ghost parts = dhms_parts(seconds as int);
    proof {
        assert(seconds as int == signed_part(negative, size as int));
        lemma_parts_of_size(negative, size as int);
        assert(parts.days == signed_part(negative, days as int));
        assert(parts.hours == signed_part(negative, hours as int));
        assert(parts.minutes == signed_part(negative, minutes as int));
        assert(parts.seconds == signed_part(negative, in_minute as int));
    }
    let mut out = String::new();
    push_part(&mut out, negative, days, 'd');
    out.push(' ');
    assert(out@ == signed_decimal(parts.days) + seq!['d', ' ']);
    let ghost after_days = out@;
    push_part(&mut out, negative, hours, 'h');
    out.push(' ');
    assert(out@ == after_days + signed_decimal(parts.hours) + seq!['h', ' ']);
    let ghost after_hours = out@;
    push_part(&mut out, negative, minutes, 'm');
    out.push(' ');
    assert(out@ == after_hours + signed_decimal(parts.minutes) + seq!['m', ' ']);
    let ghost after_minutes = out@;
    push_part(&mut out, negative, in_minute, 's');
    assert(out@ == after_minutes + signed_decimal(parts.seconds) + seq!['s']);
    out
}

/// Tells a count of seconds as days, hours, minutes and seconds.
pub fn seconds_to_dhms(seconds: i64) -> (r: String)
    ensures
        r@ == dhms_text(seconds as int),
{
    render_dhms(seconds as i128)
}

/// Tells the seconds from `since` to `now` as days, hours, minutes and
/// seconds. The difference is formed in a wider integer, so it is exact for
/// every pair of timestamps.
pub fn elapsed_dhms(since: i64, now: i64) -> (r: String)
    ensures
        r@ == dhms_text(now as int - since as int),
{
    render_dhms(now as i128 - since as i128)
}

#[verifier::external_type_specification]
#[verifier::external_body]
pub struct ExSystemTime(std::time::SystemTime);

/// `SystemTime::now`: the present moment, as the system clock has it.
/// Nothing is known of it beforehand.
pub assume_specification[ SystemTime::now ]() -> (moment: SystemTime)
;

/// `SystemTime::duration_since` with `UNIX_EPOCH` as the earlier moment: the
/// time from the epoch to `moment`, or nothing if `moment` lies before the
/// epoch.
#[verifier::external_body]
fn since_epoch(moment: &SystemTime) -> (r: Option<Duration>) {
    match moment.duration_since(std::time::UNIX_EPOCH) {
        Ok(elapsed) => Some(elapsed),
        Err(_) => None,
    }
}

/// `Duration::as_secs`: the whole seconds in a span of time.
pub assume_specification[ Duration::as_secs ](span: &Duration) -> (seconds: u64)
;

/// The timestamp that a count of whole seconds since the epoch makes, if
/// there is a count and it fits a timestamp.
pub open spec fn timestamp_of(elapsed: Option<u64>) -> Option<i64> {
    match elapsed {
        Some(seconds) => if seconds <= i64::MAX as u64 {
            Some(seconds as i64)
        } else {
            None
        },
        None => None,
    }
}

/// Turns what the clock said into a timestamp. A clock that stands before
/// the epoch gives none, and neither does a count too large for a timestamp.
pub fn timestamp_from(elapsed: Option<u64>) -> (r: Option<i64>)
    ensures
        r == timestamp_of(elapsed),
{
    match elapsed {
        Some(seconds) => {
            if seconds <= i64::MAX as u64 {
                Some(seconds as i64)
            } else {
                None
            }
        },
        None => None,
    }
}

/// The present moment as a timestamp: whole seconds since the epoch. What
/// the clock says cannot be foretold; a timestamp that comes back is never
/// negative, and none comes back from a clock that stands before the epoch.
pub fn unix_now() -> (r: Option<i64>)
    ensures
        r matches Some(t) ==> t >= 0,
{
    let moment = SystemTime::now();
    let elapsed = match since_epoch(&moment) {
        Some(span) => Some(span.as_secs()),
        None => None,
    };
    timestamp_from(elapsed)
}

/// The UTC calendar date of a timestamp, as year, month and day, where the
/// calendar reaches that far.
pub uninterp spec fn utc_date(timestamp: i64) -> Option<(i32, u32, u32)>;

/// `chrono::DateTime::from_timestamp` with no nanoseconds, and of the moment
/// it gives `Datelike::year`, `Datelike::month` and `Datelike::day`: the UTC
/// calendar date of `timestamp`, or nothing where chrono has no such moment.
#[verifier::external_body]
fn utc_date_of(timestamp: i64) -> (r: Option<(i32, u32, u32)>)
    ensures
        r == utc_date(timestamp),
{
    match chrono::DateTime::from_timestamp(timestamp, 0) {
        Some(moment) => Some((moment.year(), moment.month(), moment.day())),
        None => None,
    }
}

/// Tells a calendar date as `DD-MM-YYYY`.
pub fn format_dmy(year: i32, month: u32, day: u32) -> (r: String)
    ensures
        r@ == dmy_text(year as int, month as nat, day as nat),
{
    let mut out = String::new();
    push_padded2(&mut out, day);
    out.push('-');
    push_padded2(&mut out, month);
    out.push('-');
    push_signed(&mut out, year as i128);
    proof {
        assert(out@ =~= dmy_text(year as int, month as nat, day as nat));
    }
    out
}

/// Tells a timestamp as its UTC calendar date, `DD-MM-YYYY`, if the calendar
/// reaches that far.
pub fn checked_timestamp_to_dmy(timestamp: i64) -> (r: Option<String>)
    ensures
        match utc_date(timestamp) {
            Some((year, month, day)) => r matches Some(s) && s@ == dmy_text(
                year as int,
                month as nat,
                day as nat,
            ),
            None => r is None,
        },
{
    match utc_date_of(timestamp) {
        Some(_) => Some(timestamp_to_dmy(timestamp)),
        None => None,
    }
}

/// Tells a timestamp within the calendar's reach as its UTC calendar date,
/// `DD-MM-YYYY`.
pub fn timestamp_to_dmy(timestamp: i64) -> (r: String)
    requires
        utc_date(timestamp) is Some,
    ensures
        utc_date(timestamp) matches Some((year, month, day)) && r@ == dmy_text(
            year as int,
            month as nat,
            day as nat,
        ),
{
    match utc_date_of(timestamp) {
        Some((year, month, day)) => format_dmy(year, month, day),
        None => String::new(),
    }
}

} // verus!
