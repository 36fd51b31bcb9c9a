//! The start record: the one persisted value of the service, written on
//! the first run and only read afterwards. A record is a JSON string that
//! holds an RFC 3339 timestamp.

use vstd::prelude::*;
use crate::errors::{RecordFault, ServiceError};
use crate::time::Instant;

verus! {

/// What `serde_json::from_str::<String>` makes of `text`: the string that
/// the JSON document holds, or `None` where it reports an error.
pub uninterp spec fn json_string_value(text: Seq<char>) -> Option<Seq<char>>;

/// What `serde_json::to_string` makes of the string `value`: the JSON
/// document, or `None` where it reports an error.
pub uninterp spec fn json_string_text(value: Seq<char>) -> Option<Seq<char>>;

/// What `chrono::DateTime::parse_from_rfc3339` makes of `text`: the Unix
/// seconds and the nanosecond field of the date and time it returns, or
/// `None` where it reports an error.
pub uninterp spec fn rfc3339_timestamp(text: Seq<char>) -> Option<(i64, u32)>;

/// What `chrono::DateTime::to_rfc3339` writes for the date and time that
/// `chrono::DateTime::from_timestamp` makes of `secs` and `nanos`, or
/// `None` where there is no such date and time.
pub uninterp spec fn rfc3339_text(secs: i64, nanos: u32) -> Option<Seq<char>>;

/// Calls `serde_json::from_str::<String>`. Trusted: the result is the one
/// that the name [`json_string_value`] stands for.
#[verifier::external_body]
fn json_decode_string(text: &str) -> (r: Option<String>)
    ensures
        r.deep_view() == json_string_value(text@),
{
    match serde_json::from_str::<String>(text) {
        Ok(value) => Some(value),
        Err(_) => None,
    }
}

/// Calls `serde_json::to_string` on a string. Trusted: the result is the
/// one that the name [`json_string_text`] stands for.
#[verifier::external_body]
fn json_encode_string(value: &str) -> (r: Option<String>)
    ensures
        r.deep_view() == json_string_text(value@),
{
    match serde_json::to_string(value) {
        Ok(text) => Some(text),
        Err(_) => None,
    }
}

/// Calls `chrono::DateTime::parse_from_rfc3339`, moves the result to UTC
/// and hands back its Unix seconds and nanosecond field. Trusted: the
/// result is the one that the name [`rfc3339_timestamp`] stands for.
#[verifier::external_body]
fn parse_rfc3339(text: &str) -> (r: Option<(i64, u32)>)
    ensures
        r == rfc3339_timestamp(text@),
{
    match chrono::DateTime::parse_from_rfc3339(text) {
        Ok(parsed) => {
            let utc = parsed.with_timezone(&chrono::Utc);
            Some((utc.timestamp(), utc.timestamp_subsec_nanos()))
        },
        Err(_) => None,
    }
}

/// Calls `chrono::DateTime::from_timestamp` and, where that yields a date
/// and time, `chrono::DateTime::to_rfc3339` on it. Trusted: the result is
/// the one that the name [`rfc3339_text`] stands for.
#[verifier::external_body]
fn format_rfc3339(secs: i64, nanos: u32) -> (r: Option<String>)
    ensures
        r.deep_view() == rfc3339_text(secs, nanos),
{
    match chrono::DateTime::from_timestamp(secs, nanos) {
        Some(t) => Some(t.to_rfc3339()),
        None => None,
    }
}

/// What the service remembers between runs.
#[derive(Clone, Copy, Debug, PartialEq, Eq)]
pub struct State {
    /// The instant of the first run.
    pub start_time: Instant,
}

/// The outcome of looking for the start record at startup.
#[derive(Clone, Debug, PartialEq, Eq)]
pub struct Startup {
    /// The state to run with.
    pub state: State,
    /// The record to persist, present exactly when none was found.
    pub record: Option<String>,
}

/// The instant that a parsed timestamp denotes, in nanoseconds since the
/// epoch, where [`Instant`] can hold it.
pub open spec fn timestamp_instant(parsed: Option<(i64, u32)>) -> Result<int, RecordFault> {
    match parsed {
        Some(parts) => {
            let nanos = parts.0 * 1_000_000_000 + parts.1;
            if Instant::in_range(nanos) {
                Ok(nanos)
            } else {
                Err(RecordFault::NotATimestamp)
            }
        },
        None => Err(RecordFault::NotATimestamp),
    }
}

/// The instant that the record `text` holds, in nanoseconds since the
/// epoch, or the reason why it holds none.
pub open spec fn record_instant(text: Seq<char>) -> Result<int, RecordFault> {
    match json_string_value(text) {
        Some(inner) => timestamp_instant(rfc3339_timestamp(inner)),
        None => Err(RecordFault::NotAString),
    }
}

/// The record that the instant `instant`, in nanoseconds since the epoch,
/// is written as, where it can be written.
pub open spec fn record_text(instant: int) -> Option<Seq<char>> {
    match rfc3339_text((instant / 1_000_000_000) as i64, (instant % 1_000_000_000) as u32) {
        Some(stamp) => json_string_text(stamp),
        None => None,
    }
}

/// The record to persist for a service first started at `instant`: its
/// written form, provided that this form reads back as the same instant.
pub open spec fn fresh_record(instant: int) -> Option<Seq<char>> {
    match record_text(instant) {
        Some(text) => if record_instant(text) == Ok::<int, RecordFault>(instant) {
            Some(text)
        } else {
            None
        },
        None => None,
    }
}

/// Whether `r` is what reading a record yields when the record holds
/// `expected`: the instant itself, or the fault as a corrupt-state error.
pub open spec fn reads_as(
    r: Result<Instant, ServiceError>,
    expected: Result<int, RecordFault>,
) -> bool {
    match r {
        Ok(t) => expected == Ok::<int, RecordFault>(t@),
        Err(e) => expected is Err && e == ServiceError::StateCorrupt(expected->Err_0),
    }
}

/// Turns a parsed timestamp into an instant.
pub fn instant_from_timestamp(parsed: Option<(i64, u32)>) -> (r: Result<Instant, ServiceError>)
    ensures
        reads_as(r, timestamp_instant(parsed)),
{
    match parsed {
        Some(parts) => match Instant::from_unix(parts.0, parts.1) {
            Some(t) => Ok(t),
            None => Err(ServiceError::StateCorrupt(RecordFault::NotATimestamp)),
        },
        None => Err(ServiceError::StateCorrupt(RecordFault::NotATimestamp)),
    }
}

/// Reads the instant out of a start record.
pub fn decode_record(text: &str) -> (r: Result<Instant, ServiceError>)
    ensures
        reads_as(r, record_instant(text@)),
{
    match json_decode_string(text) {
        Some(inner) => instant_from_timestamp(parse_rfc3339(inner.as_str())),
        None => Err(ServiceError::StateCorrupt(RecordFault::NotAString)),
    }
}

/// Writes `instant` as a start record.
pub fn encode_record(instant: Instant) -> (r: Option<String>)
    ensures
        r.deep_view() == record_text(instant@),
{
    match format_rfc3339(instant.unix_seconds(), instant.subsec_nanos()) {
        Some(stamp) => json_encode_string(stamp.as_str()),
        None => None,
    }
}

/// Whether `r` is what a startup yields that found a record holding
/// `held`: the instant of the record and nothing to persist, or the fault
/// as a corrupt-state error.
pub open spec fn loaded(r: Result<Startup, ServiceError>, held: Result<int, RecordFault>) -> bool {
    match r {
        Ok(startup) => startup.record is None && held == Ok::<int, RecordFault>(
            startup.state.start_time@,
        ),
        Err(e) => held is Err && e == ServiceError::StateCorrupt(held->Err_0),
    }
}

/// Whether `r` is what a startup at `now` yields that found no record,
/// where `written` is the record to persist for `now`: a start at `now`
/// with that record, or a write error where there is none.
pub open spec fn initialised(
    r: Result<Startup, ServiceError>,
    now: Instant,
    written: Option<Seq<char>>,
) -> bool {
    match r {
        Ok(startup) => startup.state.start_time == now && startup.record is Some
            && startup.record.deep_view() == written,
        Err(e) => e == ServiceError::StateWriteError && written is None,
    }
}

/// Settles the start of the service. An existing record is read, and a
/// record that cannot be read is an error: it is never replaced. Without
/// a record the service starts at `now`, and the record to persist is
/// handed back; a record that would not read back as `now` is refused as
/// a write error.
pub fn load_or_init_state(existing: Option<&str>, now: Instant) -> (r: Result<
    Startup,
    ServiceError,
>)
    ensures
        match existing {
            Some(text) => loaded(r, record_instant(text@)),
            None => initialised(r, now, fresh_record(now@)),
        },
{
    match existing {
        Some(text) => match decode_record(text) {
            Ok(start_time) => Ok(Startup { state: State { start_time }, record: None }),
            Err(e) => Err(e),
        },
        None => match encode_record(now) {
            Some(text) => match decode_record(text.as_str()) {
                Ok(read_back) => {
                    if read_back.total_nanos() == now.total_nanos() {
                        Ok(Startup { state: State { start_time: now }, record: Some(text) })
                    } else {
                        Err(ServiceError::StateWriteError)
                    }
                },
                Err(_) => Err(ServiceError::StateWriteError),
            },
            None => Err(ServiceError::StateWriteError),
        },
    }
}

/// The start record survives the round trip. Where a first run at `now`
/// finds no record and hands one out to be persisted, a later run that
/// finds this record starts at the very same instant, to the nanosecond,
/// and hands nothing out.
pub proof fn start_record_round_trip(
    now: Instant,
    first: Result<Startup, ServiceError>,
    second: Result<Startup, ServiceError>,
)
    requires
        initialised(first, now, fresh_record(now@)),
        first is Ok,
        loaded(second, record_instant(first->Ok_0.record->0@)),
    ensures
        second is Ok,
        second->Ok_0.state.start_time@ == now@,
        second->Ok_0.record is None,
{
}

} // verus!
