use crate::compute::spacetime::{time_in_range, MAX_TIME, NANOS_PER_SECOND};
use crate::decoders::errors::{DecoderError, DecoderErrorKind};
use crate::decoders::text::{integer_of, parse_i64};
use vstd::prelude::*;

verus! {

/// The error with which chrono refuses a text.
#[verifier::external_type_specification]
#[verifier::external_body]
pub struct ExParseError(chrono::ParseError);

/// The instant that an RFC 3339 text names, as chrono reads it: the whole
/// seconds from the epoch and the nanoseconds after them, or `None` where
/// chrono refuses the text.
pub uninterp spec fn rfc3339_instant(text: Seq<char>) -> Option<(i64, u32)>;

/// Whether chrono has a date and time for the instant that lies `millis`
/// milliseconds after the epoch.
pub uninterp spec fn millis_representable(millis: i64) -> bool;

/// Calls `chrono::DateTime::parse_from_rfc3339`, then `timestamp` and
/// `timestamp_subsec_nanos` on what it gives. The contract names the outcome
/// and says no more of it.
#[verifier::external_body]
fn rfc3339_parts(text: &str) -> (parts: Result<(i64, u32), chrono::ParseError>)
    ensures
        parts matches Ok(p) ==> rfc3339_instant(text@) == Some(p),
        parts is Err ==> rfc3339_instant(text@) is None,
{
    match chrono::DateTime::parse_from_rfc3339(text) {
        Ok(instant) => Ok((instant.timestamp(), instant.timestamp_subsec_nanos())),
        Err(error) => Err(error),
    }
}

/// The instant that a text names in the relaxed form of RFC 3339 that chrono
/// reads where a text is parsed as a `DateTime<Utc>` (a blank may stand for
/// the `T`): the whole seconds from the epoch and the nanoseconds after
/// them, or `None` where chrono refuses the text.
pub uninterp spec fn relaxed_instant(text: Seq<char>) -> Option<(i64, u32)>;

/// Calls `str::parse` for a `chrono::DateTime<chrono::Utc>`, then
/// `timestamp` and `timestamp_subsec_nanos` on what it gives. The contract
/// names the outcome and says no more of it.
#[verifier::external_body]
fn relaxed_parts(text: &str) -> (parts: Result<(i64, u32), chrono::ParseError>)
    ensures
        parts matches Ok(p) ==> relaxed_instant(text@) == Some(p),
        parts is Err ==> relaxed_instant(text@) is None,
{
    match text.parse::<chrono::DateTime<chrono::Utc>>() {
        Ok(instant) => Ok((instant.timestamp(), instant.timestamp_subsec_nanos())),
        Err(error) => Err(error),
    }
}

/// Calls `to_string` on chrono's error, for the detail text of ours.
#[verifier::external_body]
fn parse_error_text(error: &chrono::ParseError) -> String {
    error.to_string()
}

/// Calls `chrono::DateTime::from_timestamp_millis`, then `timestamp` and
/// `timestamp_subsec_nanos` on what it gives. Chrono splits the milliseconds
/// into whole seconds, rounded down, and the rest; it answers `None` where
/// its calendar does not reach that far.
#[verifier::external_body]
fn millis_parts(millis: i64) -> (parts: Option<(i64, u32)>)
    ensures
        parts is Some <==> millis_representable(millis),
        parts matches Some(p) ==> p.0 == millis as int / 1000 && p.1 == (millis as int % 1000)
            * 1_000_000,
{
    match chrono::DateTime::from_timestamp_millis(millis) {
        Some(instant) => Some((instant.timestamp(), instant.timestamp_subsec_nanos())),
        None => None,
    }
}

/// The instant `nanos` nanoseconds after the whole second `seconds`, in
/// nanoseconds from the epoch.
pub open spec fn instant_nanos(seconds: int, nanos: int) -> int {
    seconds * NANOS_PER_SECOND + nanos
}

/// The instant that the RFC 3339 text names, in nanoseconds from the epoch.
/// `None` where the text is refused or the instant is out of range.
pub open spec fn timestamp_of(text: Seq<char>) -> Option<int> {
    match rfc3339_instant(text) {
        Some(parts) => if time_in_range(instant_nanos(parts.0 as int, parts.1 as int)) {
            Some(instant_nanos(parts.0 as int, parts.1 as int))
        } else {
            None
        },
        None => None,
    }
}

/// The instant that `text` names as a count of milliseconds from the epoch,
/// in nanoseconds from the epoch. `None` where `text` is no integer of 64
/// bits, or the instant is not representable or out of range.
pub open spec fn millis_timestamp_of(text: Seq<char>) -> Option<int> {
    match integer_of(text) {
        Some(millis) => if i64::MIN <= millis <= i64::MAX && millis_representable(millis as i64)
            && time_in_range(millis * 1_000_000) {
            Some(millis * 1_000_000)
        } else {
            None
        },
        None => None,
    }
}

/// Puts whole seconds and nanoseconds together, if the instant is in range.
fn instant_in_range(seconds: i64, nanos: u32) -> (instant: Option<i128>)
    ensures
        instant is Some <==> time_in_range(instant_nanos(seconds as int, nanos as int)),
        instant matches Some(t) ==> t == instant_nanos(seconds as int, nanos as int),
{
    let total: i128 = (seconds as i128) * NANOS_PER_SECOND + (nanos as i128);
    if -MAX_TIME <= total && total <= MAX_TIME {
        Some(total)
    } else {
        None
    }
}

/// Reads a timestamp in the form of RFC 3339, such as
/// `2015-01-25T09:11:16.547-08:00`, as nanoseconds from the epoch.
pub fn parse_timestamp_str(timestamp: &str) -> (instant: Result<i128, DecoderError>)
    ensures
        instant is Ok <==> timestamp_of(timestamp@) is Some,
        instant matches Ok(t) ==> timestamp_of(timestamp@) == Some(t as int),
        instant matches Err(e) ==> e.spec_kind() == DecoderErrorKind::TimeParse,
{
    match rfc3339_parts(timestamp) {
        Ok(parts) => match instant_in_range(parts.0, parts.1) {
            Some(t) => Ok(t),
            None => Err(DecoderError::of_kind(DecoderErrorKind::TimeParse, "timestamp out of range")),
        },
        Err(error) => {
            let detail = parse_error_text(&error);
            Err(DecoderError::TimeParseError(detail))
        },
    }
}

/// The instant that the text names in the relaxed form, in nanoseconds from
/// the epoch. `None` where the text is refused or the instant is out of
/// range.
pub open spec fn relaxed_timestamp_of(text: Seq<char>) -> Option<int> {
    match relaxed_instant(text) {
        Some(parts) => if time_in_range(instant_nanos(parts.0 as int, parts.1 as int)) {
            Some(instant_nanos(parts.0 as int, parts.1 as int))
        } else {
            None
        },
        None => None,
    }
}

/// Reads a timestamp in the relaxed form of RFC 3339, such as
/// `2023-06-29 10:00:00Z`, as nanoseconds from the epoch.
pub fn parse_relaxed_timestamp(timestamp: &str) -> (instant: Result<i128, DecoderError>)
    ensures
        instant is Ok <==> relaxed_timestamp_of(timestamp@) is Some,
        instant matches Ok(t) ==> relaxed_timestamp_of(timestamp@) == Some(t as int),
        instant matches Err(e) ==> e.spec_kind() == DecoderErrorKind::TimeParse,
{
    match relaxed_parts(timestamp) {
        Ok(parts) => match instant_in_range(parts.0, parts.1) {
            Some(t) => Ok(t),
            None => Err(DecoderError::of_kind(DecoderErrorKind::TimeParse, "timestamp out of range")),
        },
        Err(error) => {
            let detail = parse_error_text(&error);
            Err(DecoderError::TimeParseError(detail))
        },
    }
}

/// Reads a timestamp written as a count of milliseconds from the epoch, as
/// nanoseconds from the epoch.
pub fn parse_timestamp_millis(timestamp_ms: &str) -> (instant: Result<i128, DecoderError>)
    ensures
        instant is Ok <==> millis_timestamp_of(timestamp_ms@) is Some,
        instant matches Ok(t) ==> millis_timestamp_of(timestamp_ms@) == Some(t as int),
        instant matches Err(e) ==> e.spec_kind() == DecoderErrorKind::TimeParse,
{
    let millis = match parse_i64(timestamp_ms) {
        Some(v) => v,
        None => {
            return Err(DecoderError::of_kind(DecoderErrorKind::TimeParse, "invalid count of milliseconds"));
        },
    };
    match millis_parts(millis) {
        Some(parts) => {
            assert(instant_nanos(parts.0 as int, parts.1 as int) == millis * 1_000_000) by {
                assert(millis as int == 1000 * (millis as int / 1000) + millis as int % 1000);
            }
            match instant_in_range(parts.0, parts.1) {
                Some(t) => Ok(t),
                None => Err(DecoderError::of_kind(DecoderErrorKind::TimeParse, "timestamp out of range")),
            }
        },
        None => Err(DecoderError::of_kind(DecoderErrorKind::TimeParse, "Error Converting TimestampMs to DateTime")),
    }
}

/// The quotient of `a` by the positive `b`, rounded towards zero.
pub open spec fn quotient_towards_zero(a: int, b: int) -> int {
    if a >= 0 {
        a / b
    } else {
        -((-a) / b)
    }
}

/// The instant that lies `k` parts of `n` from `start` on the way to `end`,
/// each part being the `n`th of the way, rounded towards zero.
pub open spec fn step_towards(start: int, end: int, n: int, k: int) -> int {
    start + k * quotient_towards_zero(end - start, n)
}

/// The instant halfway from `start` to `end`.
pub open spec fn midpoint(start: int, end: int) -> int {
    start + quotient_towards_zero(end - start, 2)
}

/// The `n`th part of the time from `start` to `end`, rounded towards zero.
pub(crate) fn part_of_span(start: i128, end: i128, n: usize) -> (part: i128)
    requires
        time_in_range(start as int),
        time_in_range(end as int),
        n > 0,
    ensures
        part == quotient_towards_zero(end - start, n as int),
        -2 * MAX_TIME <= part <= 2 * MAX_TIME,
{
    let span: i128 = end - start;
    let part: i128 = span / (n as i128);
    proof {
        let s = span as int;
        let d = n as int;
        if s >= 0 {
            assert(0 <= s / d <= s) by (nonlinear_arith)
                requires
                    s >= 0,
                    d >= 1,
            ;
        } else {
            assert(0 <= (-s) / d <= -s) by (nonlinear_arith)
                requires
                    s < 0,
                    d >= 1,
            ;
        }
    }
    part
}

/// The instant halfway from `start` to `end`.
pub(crate) fn midpoint_of(start: i128, end: i128) -> (middle: i128)
    requires
        time_in_range(start as int),
        time_in_range(end as int),
    ensures
        middle == midpoint(start as int, end as int),
        start <= end ==> start <= middle <= end,
        time_in_range(middle as int),
{
    let part = part_of_span(start, end, 2);
    start + part
}

} // verus!
