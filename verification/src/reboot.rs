//! The reboot scheduler: which policy a configuration selects, and how
//! long to stay suspended until the configured time of day comes round.

use vstd::prelude::*;
use chrono::Timelike;
use crate::errors::ConfigError;
use crate::service_core::Config;
use crate::time::{Instant, Pause, TimeOfDay};

verus! {

/// The format of a reboot time that names its seconds.
pub const FORMAT_WITH_SECONDS: &'static str = "%H:%M:%S";

/// The format of a reboot time that stops at the minutes.
pub const FORMAT_WITHOUT_SECONDS: &'static str = "%H:%M";

/// What `chrono::NaiveTime::parse_from_str` makes of `text` under the
/// format `format`: the seconds since midnight and the nanosecond field of
/// the time it returns, or `None` where it reports an error.
pub uninterp spec fn chrono_time_of_day(text: Seq<char>, format: Seq<char>) -> Option<(u32, u32)>;

/// Calls `chrono::NaiveTime::parse_from_str` and hands back the two fields
/// of the parsed time. Trusted: the result is the one that the name
/// [`chrono_time_of_day`] stands for; nothing else is claimed of it.
#[verifier::external_body]
fn parse_naive_time(text: &str, format: &str) -> (r: Option<(u32, u32)>)
    ensures
        r == chrono_time_of_day(text@, format@),
{
    match chrono::NaiveTime::parse_from_str(text, format) {
        Ok(t) => Some((t.num_seconds_from_midnight(), t.nanosecond())),
        Err(_) => None,
    }
}

/// How reboots are spaced once the warning phase is over.
#[derive(Clone, Copy, Debug, PartialEq, Eq)]
pub enum RebootPolicy {
    /// Reboot once, at once.
    Immediate,
    /// Reboot every day at the given time of day.
    Daily(TimeOfDay),
}

/// The reboot time that two parses of one text select: the reading with
/// seconds where there is one, else the reading without.
pub open spec fn selected_time(
    with_seconds: Option<(u32, u32)>,
    without_seconds: Option<(u32, u32)>,
) -> Option<TimeOfDay> {
    match with_seconds {
        Some(parts) => Some(TimeOfDay::at(parts.0 * 1_000_000_000 + parts.1)),
        None => match without_seconds {
            Some(parts) => Some(TimeOfDay::at(parts.0 * 1_000_000_000 + parts.1)),
            None => None,
        },
    }
}

/// The time of day that `text` denotes as a reboot time, if any.
pub open spec fn reboot_time_of(text: Seq<char>) -> Option<TimeOfDay> {
    selected_time(
        chrono_time_of_day(text, FORMAT_WITH_SECONDS@),
        chrono_time_of_day(text, FORMAT_WITHOUT_SECONDS@),
    )
}

/// The policy that `config` selects, or the fault in its reboot time.
pub open spec fn policy_of(config: Config) -> Result<RebootPolicy, ConfigError> {
    if config.debug {
        Ok(RebootPolicy::Immediate)
    } else {
        match config.reboot_time {
            None => Ok(RebootPolicy::Immediate),
            Some(text) => match reboot_time_of(text@) {
                Some(t) => Ok(RebootPolicy::Daily(t)),
                None => Err(ConfigError::InvalidRebootTime(text)),
            },
        }
    }
}

/// The midnight at or before `now`.
pub open spec fn day_start(now: int) -> int {
    now - now % 86_400_000_000_000
}

/// The first instant strictly after `now` that falls on `time_of_day`:
/// today's occurrence where it is still to come, tomorrow's otherwise.
pub open spec fn next_occurrence(now: int, time_of_day: int) -> int {
    let today = day_start(now) + time_of_day;
    if today > now {
        today
    } else {
        today + 86_400_000_000_000
    }
}

/// Picks the reboot time out of the two readings of one text, each given
/// as seconds since midnight and nanoseconds beyond them.
pub fn select_time(
    with_seconds: Option<(u32, u32)>,
    without_seconds: Option<(u32, u32)>,
) -> (r: Option<TimeOfDay>)
    ensures
        r == selected_time(with_seconds, without_seconds),
        r is Some <==> with_seconds is Some || without_seconds is Some,
        r matches Some(t) ==> {
            let parts = if with_seconds is Some {
                with_seconds->0
            } else {
                without_seconds->0
            };
            t@ == (parts.0 * 1_000_000_000 + parts.1) % 86_400_000_000_000
        },
{
    match with_seconds {
        Some(parts) => Some(TimeOfDay::from_parts(parts.0, parts.1)),
        None => match without_seconds {
            Some(parts) => Some(TimeOfDay::from_parts(parts.0, parts.1)),
            None => None,
        },
    }
}

/// Reads a reboot time written as `HH:MM:SS` or `HH:MM`.
pub fn parse_reboot_time(text: &str) -> (r: Option<TimeOfDay>)
    ensures
        r == reboot_time_of(text@),
{
    let with_seconds = parse_naive_time(text, FORMAT_WITH_SECONDS);
    let without_seconds = if with_seconds.is_none() {
        parse_naive_time(text, FORMAT_WITHOUT_SECONDS)
    } else {
        None
    };
    select_time(with_seconds, without_seconds)
}

/// Selects the reboot policy: immediate in debug mode or without a reboot
/// time, daily at the configured time otherwise.
pub fn reboot_policy(config: &Config) -> (r: Result<RebootPolicy, ConfigError>)
    ensures
        r == policy_of(*config),
{
    if config.debug {
        return Ok(RebootPolicy::Immediate);
    }
    match &config.reboot_time {
        None => Ok(RebootPolicy::Immediate),
        Some(text) => match parse_reboot_time(text.as_str()) {
            Some(t) => Ok(RebootPolicy::Daily(t)),
            None => Err(ConfigError::InvalidRebootTime(text.clone())),
        },
    }
}

/// How long to stay suspended at `now` until the next occurrence of
/// `time_of_day`.
pub fn pause_until(now: Instant, time_of_day: TimeOfDay) -> (pause: Pause)
    ensures
        pause == Pause::lasting(next_occurrence(now@, time_of_day@) - now@),
        pause@ == next_occurrence(now@, time_of_day@) - now@,
        0 < pause@ <= 86_400_000_000_000,
        pause.nanos < 1_000_000_000,
{
    let target: u64 = time_of_day.nanos_from_midnight();
    let elapsed: u64 = match now.total_nanos().checked_rem_euclid(86_400_000_000_000) {
        Some(m) => m as u64,
        None => 0,
    };
    let wait: u64 = if target > elapsed {
        target - elapsed
    } else {
        target + 86_400_000_000_000 - elapsed
    };
    Pause::from_nanos(wait)
}

/// The next occurrence lies strictly after `now`, at most one day away,
/// and falls on the requested time of day.
pub proof fn next_occurrence_is_due(now: int, time_of_day: int)
    requires
        0 <= time_of_day < 86_400_000_000_000,
    ensures
        now < next_occurrence(now, time_of_day) <= now + 86_400_000_000_000,
        next_occurrence(now, time_of_day) % 86_400_000_000_000 == time_of_day,
{
}

/// No instant between `now` and the next occurrence falls on the
/// requested time of day: the next occurrence is the first.
pub proof fn next_occurrence_is_first(now: int, time_of_day: int, other: int)
    requires
        0 <= time_of_day < 86_400_000_000_000,
        now < other,
        other % 86_400_000_000_000 == time_of_day,
    ensures
        next_occurrence(now, time_of_day) <= other,
{
}

} // verus!
