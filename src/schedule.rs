//! Break and lunch scheduling: pure decisions over whole instants and times of day.
//!
//! Instants are seconds since the Unix epoch (UTC). A time of day is the number of
//! seconds since local midnight. Durations handed in and out are whole minutes.
use chrono::{NaiveTime, Timelike};
use vstd::prelude::*;

verus! {

/// Seconds in one day.
pub const SECS_PER_DAY: u32 = 86400;

/// The outcome of reading a wall-clock time written `HH:MM`, as seconds since midnight.
pub uninterp spec fn clock_parse(s: Seq<char>) -> Option<u32>;

pub open spec fn is_digit(c: char) -> bool {
    '0' <= c && c <= '9'
}

pub open spec fn digit_value(c: char) -> int {
    c as int - '0' as int
}

/// `s` has the exact shape `DD:DD`.
pub open spec fn is_hhmm_shape(s: Seq<char>) -> bool {
    &&& s.len() == 5
    &&& is_digit(s[0])
    &&& is_digit(s[1])
    &&& s[2] == ':'
    &&& is_digit(s[3])
    &&& is_digit(s[4])
}

pub open spec fn shape_hour(s: Seq<char>) -> int {
    10 * digit_value(s[0]) + digit_value(s[1])
}

pub open spec fn shape_minute(s: Seq<char>) -> int {
    10 * digit_value(s[3]) + digit_value(s[4])
}

/// Relies on chrono's `NaiveTime::parse_from_str` with the format `%H:%M`, and on
/// `Timelike::num_seconds_from_midnight`: a successful parse is a whole minute of one
/// day; a string of two digits, a colon and two digits parses exactly when the hour
/// is below 24 and the minute below 60, and then to that hour and minute.
#[verifier::external_body]
fn parse_clock(s: &str) -> (r: Option<u32>)
    ensures
        r == clock_parse(s@),
        r is Some ==> r->Some_0 < 86400 && r->Some_0 % 60 == 0,
        is_hhmm_shape(s@) && shape_hour(s@) < 24 && shape_minute(s@) < 60 ==> r is Some,
        is_hhmm_shape(s@) && !(shape_hour(s@) < 24 && shape_minute(s@) < 60) ==> r is None,
        is_hhmm_shape(s@) && r is Some ==> r->Some_0 == 3600 * shape_hour(s@) + 60 * shape_minute(s@),
{
    match NaiveTime::parse_from_str(s, "%H:%M") {
        Ok(t) => Some(t.num_seconds_from_midnight()),
        Err(_) => None,
    }
}

/// A number of minutes, read as a mathematical integer.
pub open spec fn minutes_of(d: Option<i64>) -> Option<int> {
    match d {
        Some(m) => Some(m as int),
        None => None,
    }
}

/// Half of a number of minutes, truncated toward zero.
pub open spec fn half_toward_zero(m: int) -> int {
    if m >= 0 {
        m / 2
    } else {
        -((-m) / 2)
    }
}

/// A break is owed once strictly more than the break interval, plus half a work
/// turn, has passed since the last break.
pub open spec fn break_due(now: int, last_break: int, break_interval: int, work_duration: int) -> bool {
    now - last_break > 60 * (break_interval + half_toward_zero(work_duration))
}

pub open spec fn break_decision(
    now: int,
    last_break: int,
    break_interval: int,
    break_duration: int,
    work_duration: int,
) -> Option<int> {
    if break_due(now, last_break, break_interval, work_duration) {
        Some(break_duration)
    } else {
        None
    }
}

/// Whether it is time for a break: `Some(break_duration)` when more than
/// `break_interval + work_duration / 2` minutes have passed since `last_break`.
pub fn is_break_time(
    now: i64,
    last_break: i64,
    break_interval: i64,
    break_duration: i64,
    work_duration: i64,
) -> (r: Option<i64>)
    ensures
        minutes_of(r) == break_decision(
            now as int,
            last_break as int,
            break_interval as int,
            break_duration as int,
            work_duration as int,
        ),
{
    let elapsed: i128 = now as i128 - last_break as i128;
    let half: i128 = if work_duration >= 0 {
        work_duration as i128 / 2
    } else {
        -((-(work_duration as i128)) / 2)
    };
    let grace: i128 = 60 * (break_interval as i128 + half);
    if elapsed > grace {
        Some(break_duration)
    } else {
        None
    }
}

/// A point on the clock of one day, given in seconds, taken modulo one day:
/// stepping back from just after midnight lands late on the same clock.
pub open spec fn wrap_day(t: int) -> int {
    t % (SECS_PER_DAY as int)
}

/// The first second of the day on which lunch is suggested: half a work turn
/// before lunch starts.
pub open spec fn nag_from(work_duration: int, lunch_start: int) -> int {
    wrap_day(60 * lunch_start - 30 * work_duration)
}

/// The first second of the day on which lunch is no longer suggested: one work
/// turn after lunch starts.
pub open spec fn nag_until(work_duration: int, lunch_start: int) -> int {
    wrap_day(60 * lunch_start + 60 * work_duration)
}

/// Lunch takes `lunch_end - lunch_start` minutes, and is suggested while `now`
/// lies in `[nag_from, nag_until)`.
pub open spec fn lunch_decision(now: int, work_duration: int, lunch_start: int, lunch_end: int) -> Option<int> {
    if nag_from(work_duration, lunch_start) <= now && now < nag_until(work_duration, lunch_start) {
        Some(lunch_end - lunch_start)
    } else {
        None
    }
}

fn wrap_day_exec(t: i128) -> (r: u32)
    ensures
        r == wrap_day(t as int),
        r < SECS_PER_DAY,
{
    let d: i128 = SECS_PER_DAY as i128;
    let m: i128 = t % d;
    let w: i128 = if m < 0 { m + d } else { m };
    assert(w == t as int % (d as int)) by {
        assert(w == t as int - d * (t as int / (d as int)));
    }
    w as u32
}

/// Whether lunch should be suggested at `now` (seconds since local midnight), for a
/// lunch from `lunch_start` to `lunch_end` (minutes since midnight): the length of
/// lunch in minutes when it should.
pub fn lunch_window(now: u32, work_duration: i64, lunch_start: u32, lunch_end: u32) -> (r: Option<i64>)
    requires
        now < SECS_PER_DAY,
    ensures
        minutes_of(r) == lunch_decision(now as int, work_duration as int, lunch_start as int, lunch_end as int),
{
    let start: i128 = 60 * (lunch_start as i128);
    let from: u32 = wrap_day_exec(start - 30 * (work_duration as i128));
    let until: u32 = wrap_day_exec(start + 60 * (work_duration as i128));
    if from <= now && now < until {
        Some(lunch_end as i64 - lunch_start as i64)
    } else {
        None
    }
}

/// A wall-clock time that is not of the form `HH:MM`; `value` is the text given.
pub struct ParseError {
    pub value: String,
}

/// `s` is a well-formed `HH:MM` time.
pub open spec fn clock_ok(s: Seq<char>) -> bool {
    clock_parse(s) is Some
}

/// Minutes since midnight of a well-formed `HH:MM` time.
pub open spec fn clock_minutes(s: Seq<char>) -> int {
    clock_parse(s)->Some_0 as int / 60
}

/// `s` has the shape `DD:DD` but names no time of day (`25:99`).
pub open spec fn out_of_range_clock(s: Seq<char>) -> bool {
    is_hhmm_shape(s) && !(shape_hour(s) < 24 && shape_minute(s) < 60)
}

/// Whether lunch should be suggested at `now` (seconds since local midnight) for a
/// lunch from `lunch_start` to `lunch_end`, both written `HH:MM`: the length of lunch
/// in minutes when it should. A malformed time is an error that names it.
pub fn is_lunch_time(now: u32, work_duration: i64, lunch_start: String, lunch_end: String) -> (r: Result<Option<i64>, ParseError>)
    requires
        now < SECS_PER_DAY,
    ensures
        r is Err <==> !clock_ok(lunch_start@) || !clock_ok(lunch_end@),
        r is Err && !clock_ok(lunch_start@) ==> r->Err_0.value@ == lunch_start@,
        r is Err && clock_ok(lunch_start@) ==> r->Err_0.value@ == lunch_end@,
        r is Ok ==> minutes_of(r->Ok_0) == lunch_decision(
            now as int,
            work_duration as int,
            clock_minutes(lunch_start@),
            clock_minutes(lunch_end@),
        ),
        out_of_range_clock(lunch_start@) || out_of_range_clock(lunch_end@) ==> r is Err,
{
    let start = match parse_clock(lunch_start.as_str()) {
        Some(t) => t,
        None => {
            return Err(ParseError { value: lunch_start });
        },
    };
    let end = match parse_clock(lunch_end.as_str()) {
        Some(t) => t,
        None => {
            return Err(ParseError { value: lunch_end });
        },
    };
    Ok(lunch_window(now, work_duration, start / 60, end / 60))
}

/// While the suggestion window lies inside one day, lunch is suggested exactly from
/// half a work turn before lunch starts up to, not including, one work turn after,
/// and it lasts from its start to its end.
pub proof fn lemma_lunch_window_within_day(now: int, work_duration: int, lunch_start: int, lunch_end: int)
    requires
        0 <= now < SECS_PER_DAY,
        0 <= 60 * lunch_start - 30 * work_duration < SECS_PER_DAY,
        0 <= 60 * lunch_start + 60 * work_duration < SECS_PER_DAY,
    ensures
        lunch_decision(now, work_duration, lunch_start, lunch_end) == if 60 * lunch_start - 30
            * work_duration <= now < 60 * lunch_start + 60 * work_duration {
            Some(lunch_end - lunch_start)
        } else {
            None
        },
{
    let d = SECS_PER_DAY as int;
    let a = 60 * lunch_start - 30 * work_duration;
    let b = 60 * lunch_start + 60 * work_duration;
    assert(a % d == a) by {
        vstd::arithmetic::div_mod::lemma_small_mod(a as nat, d as nat);
    }
    assert(b % d == b) by {
        vstd::arithmetic::div_mod::lemma_small_mod(b as nat, d as nat);
    }
}

} // verus!
