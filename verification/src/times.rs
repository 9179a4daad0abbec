//! Verified time arithmetic, and the one trusted call into chrono that
//! turns a departure's RFC 3339 timestamp text into plain integers.
//!
//! All remaining-duration and display math in the library works on epoch
//! seconds; only the parse itself is delegated to chrono.

use vstd::prelude::*;

verus! {

/// Absolute bound on any epoch second chrono can represent: its calendar
/// spans roughly the years -262144 to 262142, which keeps every timestamp
/// well under 10^13 seconds away from 1970.
pub const EPOCH_BOUND: i64 = 10_000_000_000_000;

/// What chrono's RFC 3339 parser yields for a string: the UTC epoch second
/// and the fixed offset (seconds east of UTC) carried by the text, or
/// nothing when the text is not a valid RFC 3339 instant.
pub uninterp spec fn rfc3339_parse(s: Seq<char>) -> Option<(int, int)>;

/// Relies on chrono's `DateTime::parse_from_rfc3339`: the result is a pure
/// function of the text; `DateTime::timestamp` is the UTC epoch second,
/// bounded by chrono's calendar range, and `FixedOffset::local_minus_utc`
/// lies strictly within one day either way.
#[verifier::external_body]
pub fn parse_rfc3339(s: &str) -> (r: Option<(i64, i32)>)
    ensures
        match r {
            Some(p) => {
                &&& rfc3339_parse(s@) == Some((p.0 as int, p.1 as int))
                &&& -EPOCH_BOUND < p.0 < EPOCH_BOUND
                &&& -86400 < p.1 < 86400
            },
            None => rfc3339_parse(s@) is None,
        },
{
    match chrono::DateTime::parse_from_rfc3339(s) {
        Ok(dt) => Some((dt.timestamp(), dt.offset().local_minus_utc())),
        Err(_) => None,
    }
}

/// A wall-clock time of day, for display.
#[derive(Clone, Copy, Debug, PartialEq, Eq, Structural)]
pub struct ClockTime {
    pub hour: u8,
    pub minute: u8,
}

/// The time of day an epoch second falls on, in the clock of whatever
/// offset was already folded into `t`.
pub open spec fn clock_of(t: int) -> ClockTime {
    ClockTime {
        hour: ((t % 86400) / 3600) as u8,
        minute: (((t % 86400) % 3600) / 60) as u8,
    }
}

/// Euclidean remainder of an epoch second within its day.
fn second_of_day(t: i64) -> (r: i64)
    ensures
        r == t as int % 86400,
{
    if t >= 0 {
        t % 86400
    } else {
        let u: i64 = -(t + 1);
        let r: i64 = 86399 - (u % 86400);
        proof {
            vstd::arithmetic::div_mod::lemma_fundamental_div_mod(u as int, 86400);
            vstd::arithmetic::div_mod::lemma_fundamental_div_mod_converse(
                t as int,
                86400,
                -(u as int / 86400) - 1,
                r as int,
            );
        }
        r
    }
}

/// Hour and minute of the day `t` falls on.
pub fn clock_time_of(t: i64) -> (r: ClockTime)
    ensures
        r == clock_of(t as int),
{
    let d: i64 = second_of_day(t);
    ClockTime { hour: (d / 3600) as u8, minute: ((d % 3600) / 60) as u8 }
}

/// Division truncating towards zero, as departure delays are shown:
/// minus ninety seconds reads as minus one minute.
pub open spec fn div_towards_zero(a: int, b: int) -> int
    recommends
        b > 0,
{
    if a >= 0 {
        a / b
    } else {
        -((-a) / b)
    }
}

/// A delay in seconds, as the whole minutes a notification shows.
pub fn delay_minutes(delay_secs: i64) -> (r: i64)
    ensures
        r == div_towards_zero(delay_secs as int, 60),
{
    if delay_secs >= 0 {
        delay_secs / 60
    } else {
        let u: i64 = -(delay_secs + 1);
        let q: i64 = u / 60;
        let rem: i64 = u % 60;
        proof {
            vstd::arithmetic::div_mod::lemma_fundamental_div_mod(u as int, 60);
            vstd::arithmetic::div_mod::lemma_fundamental_div_mod_converse(
                u as int + 1,
                60,
                if rem == 59 { q as int + 1 } else { q as int },
                if rem == 59 { 0 } else { rem as int + 1 },
            );
        }
        if rem == 59 {
            -(q + 1)
        } else {
            -q
        }
    }
}

} // verus!
