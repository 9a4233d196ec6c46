//! The clock, and how long ago something happened.
use vstd::prelude::*;
use vstd::string::*;

use crate::text;

verus! {

/// `std::time::SystemTime`, a reading of the system clock.
#[verifier::external_type_specification]
#[verifier::external_body]
pub struct ExSystemTime(std::time::SystemTime);

/// `std::time::SystemTimeError`, given when the clock stands before a moment.
#[verifier::external_type_specification]
#[verifier::external_body]
pub struct ExSystemTimeError(std::time::SystemTimeError);

/// Calls `SystemTime::now`. Nothing is promised of the reading.
#[verifier::external_body]
fn clock_reading() -> std::time::SystemTime {
    std::time::SystemTime::now()
}

/// The span that `SystemTime::duration_since` gives from the Unix epoch to a
/// reading; none for a reading before the epoch.
pub uninterp spec fn span_since_epoch(reading: std::time::SystemTime) -> Option<
    std::time::Duration,
>;

/// The number of whole milliseconds in a span, by `Duration::as_millis`.
pub uninterp spec fn millis_in(span: std::time::Duration) -> u128;

/// Calls `SystemTime::duration_since` with the Unix epoch. Trusted: whether there
/// is a span, and which, depends on the reading alone.
#[verifier::external_body]
fn since_epoch(reading: std::time::SystemTime) -> (r: Result<
    std::time::Duration,
    std::time::SystemTimeError,
>)
    ensures
        span_since_epoch(reading) == (match r {
            Ok(span) => Some(span),
            Err(_) => None::<std::time::Duration>,
        }),
{
    reading.duration_since(std::time::UNIX_EPOCH)
}

/// Calls `Duration::as_millis`. Trusted: the number depends on the span alone.
#[verifier::external_body]
fn whole_millis(span: std::time::Duration) -> (r: u128)
    ensures
        r == millis_in(span),
{
    span.as_millis()
}

/// A number of milliseconds as the low bits of an `i64`; 0 for none.
pub open spec fn ms_of(millis: Option<u128>) -> i64 {
    match millis {
        Some(m) => m as i64,
        None => 0,
    }
}

/// The milliseconds since the Unix epoch that a reading of the clock stands for.
pub open spec fn reading_ms(reading: std::time::SystemTime) -> i64 {
    ms_of(
        match span_since_epoch(reading) {
            Some(span) => Some(millis_in(span)),
            None => None,
        },
    )
}

/// The milliseconds that readings of the clock stand for.
pub open spec fn readings_ms(readings: Seq<std::time::SystemTime>) -> Seq<i64> {
    readings.map_values(|reading: std::time::SystemTime| reading_ms(reading))
}

/// The milliseconds of a span since the epoch, as the low bits of an `i64`; 0
/// for a clock that stands before the epoch.
pub fn epoch_ms(millis: Option<u128>) -> (r: i64)
    ensures
        r == ms_of(millis),
        millis matches Some(m) ==> (m <= i64::MAX ==> r == m),
{
    match millis {
        Some(m) => #[verifier::truncate] (m as i64),
        None => 0,
    }
}

/// Milliseconds since the Unix epoch, by the system clock: what some reading of
/// it stands for. Which reading, and that it is the present one, is not stated.
pub fn now_ms() -> (r: i64)
    ensures
        exists|reading: std::time::SystemTime| r == #[trigger] reading_ms(reading),
{
    let reading = clock_reading();
    let r = match since_epoch(reading) {
        Ok(span) => epoch_ms(Some(whole_millis(span))),
        Err(_) => epoch_ms(None),
    };
    assert(r == reading_ms(reading));
    r
}

/// The whole seconds from `ms` to `now`; 0 where `ms` lies ahead.
pub open spec fn age_seconds(now: int, ms: int) -> nat {
    if now <= ms {
        0
    } else {
        ((now - ms) / 1000) as nat
    }
}

/// The age of `ms` at `now` in the largest of seconds, minutes and hours that
/// it fills.
pub open spec fn age_text(now: int, ms: int) -> Seq<char> {
    let seconds = age_seconds(now, ms);
    if seconds < 60 {
        text::decimal(seconds) + "s"@
    } else if seconds < 3600 {
        text::decimal(seconds / 60) + "m"@
    } else {
        text::decimal(seconds / 3600) + "h"@
    }
}

/// The span from `ms` to `now` is an `i64`.
pub open spec fn span_fits(now: int, ms: int) -> bool {
    i64::MIN <= now - ms <= i64::MAX
}

/// The age that is shown for an optional moment.
pub open spec fn optional_age(now: int, ms: Option<i64>) -> Seq<char> {
    match ms {
        Some(ms) => age_text(now, ms as int),
        None => Seq::empty(),
    }
}

/// How long before `now` the moment `ms` was; nothing for no moment.
pub fn rel_time(now: i64, ms: Option<i64>) -> (r: String)
    requires
        ms matches Some(m) ==> span_fits(now as int, m as int),
    ensures
        r@ == optional_age(now as int, ms),
{
    match ms {
        Some(ms) => {
            let span: i64 = now - ms;
            let seconds: u64 = if span < 0 {
                0
            } else {
                span as u64 / 1000
            };
            if seconds < 60 {
                text::decimal_text(seconds).concat("s")
            } else if seconds < 3600 {
                text::decimal_text(seconds / 60).concat("m")
            } else {
                text::decimal_text(seconds / 3600).concat("h")
            }
        },
        None => String::new(),
    }
}

/// Tells whether [`rel_time`] can work out the age of `ms` at `now`.
pub fn age_is_known(now: i64, ms: Option<i64>) -> (r: bool)
    ensures
        r == (ms matches Some(m) ==> span_fits(now as int, m as int)),
{
    match ms {
        Some(ms) => now.checked_sub(ms).is_some(),
        None => true,
    }
}

/// A moment that is not past is shown as `0s`.
pub proof fn future_is_now(now: int, ms: int)
    requires
        now <= ms,
    ensures
        age_text(now, ms) == "0s"@,
{
    reveal_strlit("0s");
    reveal_strlit("s");
    assert(age_text(now, ms) =~= "0s"@);
}

/// Time passing never makes a moment look younger.
pub proof fn age_grows(earlier: int, later: int, ms: int)
    requires
        earlier <= later,
    ensures
        age_seconds(earlier, ms) <= age_seconds(later, ms),
{
}

/// The number shown counts at least one of its unit, except below one second,
/// and fewer than sixty seconds or minutes.
pub proof fn age_uses_the_largest_unit(now: int, ms: int)
    ensures
        ({
            let s = age_seconds(now, ms);
            ||| s < 60 && age_text(now, ms) == text::decimal(s) + "s"@
            ||| 1 <= s / 60 < 60 && age_text(now, ms) == text::decimal(s / 60) + "m"@
            ||| 1 <= s / 3600 && age_text(now, ms) == text::decimal(s / 3600) + "h"@
        }),
{
}

/// The seconds of a past moment are the whole seconds of the span.
pub proof fn age_seconds_measure_the_span(now: int, ms: int)
    requires
        ms <= now,
    ensures
        1000 * age_seconds(now, ms) <= now - ms < 1000 * (age_seconds(now, ms) + 1),
{
}

/// Below a minute an age is shown as the whole seconds that have passed.
pub proof fn seconds_are_shown(now: int, ms: int, s: nat)
    requires
        s < 60,
        1000 * s <= now - ms < 1000 * (s + 1),
    ensures
        age_text(now, ms) == text::decimal(s).push('s'),
{
    reveal_strlit("s");
    assert(age_text(now, ms) =~= text::decimal(s).push('s'));
}

/// Below an hour an age is shown as the whole minutes that have passed.
pub proof fn minutes_are_shown(now: int, ms: int, m: nat)
    requires
        1 <= m < 60,
        60_000 * m <= now - ms < 60_000 * (m + 1),
    ensures
        age_text(now, ms) == text::decimal(m).push('m'),
{
    reveal_strlit("m");
    assert(age_text(now, ms) =~= text::decimal(m).push('m'));
}

/// From an hour on an age is shown as the whole hours that have passed.
pub proof fn hours_are_shown(now: int, ms: int, h: nat)
    requires
        1 <= h,
        3_600_000 * h <= now - ms < 3_600_000 * (h + 1),
    ensures
        age_text(now, ms) == text::decimal(h).push('h'),
{
    reveal_strlit("h");
    assert(age_text(now, ms) =~= text::decimal(h).push('h'));
}

/// Only the time that lies between counts, not when it was.
pub proof fn age_depends_on_the_span_alone(now: int, ms: int, by: int)
    ensures
        age_text(now + by, ms + by) == age_text(now, ms),
{
}

/// No moment has no age, and a moment has its own.
pub proof fn optional_age_is_the_age(now: int, ms: i64)
    ensures
        optional_age(now, None).len() == 0,
        optional_age(now, Some(ms)) == age_text(now, ms as int),
{
}

/// An age can be told for every span that is an `i64`, and so between any two
/// moments of the same sign.
pub proof fn ordinary_spans_fit(now: i64, ms: i64, span: i64)
    ensures
        now - ms == span ==> span_fits(now as int, ms as int),
        now >= 0 && ms >= 0 ==> span_fits(now as int, ms as int),
        now < 0 && ms < 0 ==> span_fits(now as int, ms as int),
        span_fits(now as int, ms as int) ==> i64::MIN <= now - ms <= i64::MAX,
{
}

/// A count of milliseconds is kept as long as it is an `i64`.
pub proof fn milliseconds_are_kept(m: u128)
    requires
        m <= i64::MAX,
    ensures
        ms_of(Some(m)) == m,
        ms_of(None) == 0,
{
}

/// Counts that differ by a multiple of the machine word count alike.
pub proof fn milliseconds_wrap(m: u128)
    ensures
        ms_of(Some(m)) as u64 == m as u64,
{
    assert((m as i64) as u64 == m as u64) by (bit_vector);
}

/// A reading stands for the whole milliseconds of its span since the epoch, as
/// long as they are an `i64`, and for 0 before the epoch.
pub proof fn reading_counts_whole_milliseconds(reading: std::time::SystemTime)
    ensures
        span_since_epoch(reading) is None ==> reading_ms(reading) == 0,
        span_since_epoch(reading) matches Some(span) ==> (millis_in(span) <= i64::MAX
            ==> reading_ms(reading) == millis_in(span)),
        span_since_epoch(reading) matches Some(span) ==> reading_ms(reading) as u64 == millis_in(
            span,
        ) as u64,
{
    if let Some(span) = span_since_epoch(reading) {
        milliseconds_wrap(millis_in(span));
    }
}

/// Readings stand for their milliseconds one by one.
pub proof fn readings_count_one_by_one(readings: Seq<std::time::SystemTime>, i: int)
    ensures
        readings_ms(readings).len() == readings.len(),
        0 <= i < readings.len() ==> readings_ms(readings)[i] == reading_ms(readings[i]),
{
}

}
