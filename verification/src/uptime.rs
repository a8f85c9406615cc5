//! How long a container has been up, as a short text.

use crate::error::MonitorError;
use crate::record::ContainerHealth;
use crate::state::ContainerState;
use crate::text::{decimal, decimal_string, signed_decimal, signed_decimal_string};
use vstd::prelude::*;

verus! {

/// The error `chrono` gives for a text that it cannot parse.
#[verifier::external_type_specification]
#[verifier::external_body]
pub struct ExParseError(chrono::ParseError);

/// The instant that an RFC 3339 date-time denotes, in whole seconds since
/// the Unix epoch, as `chrono` reads it; `None` for a text that `chrono`
/// rejects.
pub uninterp spec fn rfc3339_seconds(text: Seq<char>) -> Option<i64>;

/// Parses an RFC 3339 date-time with `chrono::DateTime::parse_from_rfc3339`
/// and converts the instant with `DateTime::timestamp`.
///
/// Trusted: the result is `chrono`'s reading of the text, which depends on
/// the text alone. A text is rejected exactly when `chrono` rejects it.
#[verifier::external_body]
fn parse_rfc3339(text: &str) -> (parsed: Result<i64, chrono::ParseError>)
    ensures
        match parsed {
            Ok(seconds) => rfc3339_seconds(text@) == Some(seconds),
            Err(_) => rfc3339_seconds(text@) is None,
        },
{
    match chrono::DateTime::parse_from_rfc3339(text) {
        Ok(instant) => Ok(instant.timestamp()),
        Err(e) => Err(e),
    }
}

/// The text for an uptime of `elapsed` seconds.
///
/// The time is split into days, hours (0 to 23) and minutes (0 to 59). The
/// two largest parts that are not zero are shown, as in `2d 3h`, `2d 5m` or
/// `5h 12m`; under an hour, the minutes alone, as in `7m` or `0m`. For a
/// start that lies in the future, the minutes part is shown with its sign.
pub open spec fn uptime_text(elapsed: int) -> Seq<char> {
    if elapsed < 0 {
        let minutes = ((-elapsed) / 60) % 60;
        signed_decimal(-minutes) + "m"@
    } else {
        let days = elapsed / 86400;
        let hours = (elapsed / 3600) % 24;
        let minutes = (elapsed / 60) % 60;
        if days > 0 {
            if hours > 0 {
                decimal(days as nat) + "d "@ + decimal(hours as nat) + "h"@
            } else if minutes > 0 {
                decimal(days as nat) + "d "@ + decimal(minutes as nat) + "m"@
            } else {
                decimal(days as nat) + "d"@
            }
        } else if hours > 0 {
            if minutes > 0 {
                decimal(hours as nat) + "h "@ + decimal(minutes as nat) + "m"@
            } else {
                decimal(hours as nat) + "h"@
            }
        } else {
            decimal(minutes as nat) + "m"@
        }
    }
}

/// The uptime at `now` of a container whose start time was read as
/// `started` (both in seconds since the Unix epoch). A start time that could
/// not be read is a `ParseError`.
pub open spec fn uptime_since(started: Option<i64>, now: i64) -> Result<Seq<char>, MonitorError> {
    match started {
        Some(at) => Ok(uptime_text(now - at)),
        None => Err(MonitorError::ParseError),
    }
}

/// The uptime of a container in state `state` that was started at
/// `started_at`, seen at `now` (seconds since the Unix epoch).
///
/// A container that has exited or is dead has no uptime: `0m`, whatever
/// `started_at` holds. For the others `started_at` must parse.
pub open spec fn uptime_of(started_at: Seq<char>, state: ContainerState, now: i64) -> Result<
    Seq<char>,
    MonitorError,
> {
    if state.is_terminated() {
        Ok("0m"@)
    } else {
        uptime_since(rfc3339_seconds(started_at), now)
    }
}

/// Whether a computed uptime is the one that was specified: the same text,
/// or the same error.
pub open spec fn same_uptime(
    got: Result<String, MonitorError>,
    want: Result<Seq<char>, MonitorError>,
) -> bool {
    match got {
        Ok(text) => want == Ok::<Seq<char>, MonitorError>(text@),
        Err(e) => want == Err::<Seq<char>, MonitorError>(e),
    }
}

/// Appends a number and the letter or letters of its unit.
fn push_part(out: &mut String, value: u128, unit: &str)
    ensures
        final(out)@ == old(out)@ + decimal(value as nat) + unit@,
{
    let digits = decimal_string(value);
    out.append(digits.as_str());
    out.append(unit);
}

/// The text for an uptime of `elapsed` seconds, such as `2d 3h`.
pub fn format_uptime(elapsed: i128) -> (s: String)
    ensures
        s@ == uptime_text(elapsed as int),
{
    let mut out = String::new();
    if elapsed < 0 {
        let magnitude: u128 = ((-(elapsed + 1)) as u128) + 1;
        let minutes: u128 = (magnitude / 60) % 60;
        let digits = signed_decimal_string(-(minutes as i128));
        out.append(digits.as_str());
        out.append("m");
    } else {
        let seconds: u128 = elapsed as u128;
        let days: u128 = seconds / 86400;
        let hours: u128 = (seconds / 3600) % 24;
        let minutes: u128 = (seconds / 60) % 60;
        if days > 0 {
            if hours > 0 {
                push_part(&mut out, days, "d ");
                push_part(&mut out, hours, "h");
            } else if minutes > 0 {
                push_part(&mut out, days, "d ");
                push_part(&mut out, minutes, "m");
            } else {
                push_part(&mut out, days, "d");
            }
        } else if hours > 0 {
            if minutes > 0 {
                push_part(&mut out, hours, "h ");
                push_part(&mut out, minutes, "m");
            } else {
                push_part(&mut out, hours, "h");
            }
        } else {
            push_part(&mut out, minutes, "m");
        }
    }
    out
}

/// The uptime at `now` of a container whose start time was read as
/// `started` (both in seconds since the Unix epoch); `ParseError` if the
/// start time could not be read.
pub fn uptime_from(started: Option<i64>, now: i64) -> (uptime: Result<String, MonitorError>)
    ensures
        same_uptime(uptime, uptime_since(started, now)),
{
    match started {
        Some(at) => Ok(format_uptime((now as i128) - (at as i128))),
        None => Err(MonitorError::ParseError),
    }
}

impl ContainerHealth {
    /// The uptime of a container that was started at `started_at` (an
    /// RFC 3339 date-time), seen at `now` (seconds since the Unix epoch).
    ///
    /// Fails with `ParseError` if the container is neither exited nor dead
    /// and `started_at` is not a valid date-time.
    pub fn calculate_uptime(
        started_at: &str,
        container_status: &ContainerState,
        now: i64,
    ) -> (uptime: Result<String, MonitorError>)
        ensures
            same_uptime(uptime, uptime_of(started_at@, *container_status, now)),
            container_status.is_terminated() ==> uptime is Ok && uptime->Ok_0@ == "0m"@,
    {
        if container_status.terminated() {
            Ok(String::from_str("0m"))
        } else {
            let started = match parse_rfc3339(started_at) {
                Ok(seconds) => Some(seconds),
                Err(_) => None,
            };
            uptime_from(started, now)
        }
    }
}

} // verus!
