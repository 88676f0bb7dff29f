//! Instants in time, as seconds and nanoseconds since the Unix epoch.
use crate::duplicate::Duplicate;
use vstd::prelude::*;

verus! {

/// An instant in UTC: whole seconds since the Unix epoch and the nanoseconds past them.
#[derive(Clone, Copy, Debug, PartialEq, Eq, Structural)]
pub struct Timestamp {
    pub seconds: i64,
    pub nanos: u32,
}

impl DeepView for Timestamp {
    type V = Timestamp;

    open spec fn deep_view(&self) -> Timestamp {
        *self
    }
}

impl Duplicate for Timestamp {
    fn duplicate(&self) -> (r: Self) {
        *self
    }
}

/// Earliest second that a `chrono::DateTime<Utc>` can hold (1 January of year -262143).
pub const MIN_TIMESTAMP_SECONDS: i64 = -8334601315200;

/// Latest second that a `chrono::DateTime<Utc>` can hold (31 December of year 262142).
pub const MAX_TIMESTAMP_SECONDS: i64 = 8210266876799;

/// Whether an instant can be written as an RFC 3339 date-time: within chrono's range and
/// with a sub-second part below one second.
pub open spec fn timestamp_in_range(t: Timestamp) -> bool {
    MIN_TIMESTAMP_SECONDS <= t.seconds <= MAX_TIMESTAMP_SECONDS && t.nanos < 1_000_000_000
}

/// The system clock's time type.
#[verifier::external_type_specification]
#[verifier::external_body]
pub struct ExSystemTime(std::time::SystemTime);

/// Reads the system clock with `std::time::SystemTime::now`. Nothing is stated of the
/// reading: it depends on the machine.
#[verifier::external_body]
fn system_now() -> std::time::SystemTime {
    std::time::SystemTime::now()
}

/// The time elapsed from the Unix epoch to `t`, by
/// `SystemTime::duration_since(UNIX_EPOCH)`; none when `t` is before the epoch (the call's
/// error). Nothing is stated of the duration.
#[verifier::external_body]
fn since_epoch(t: &std::time::SystemTime) -> Option<std::time::Duration> {
    match t.duration_since(std::time::UNIX_EPOCH) {
        Ok(d) => Some(d),
        Err(_) => None,
    }
}

/// The whole seconds of a duration, by `Duration::as_secs`. Nothing is stated of them.
#[verifier::external_body]
fn whole_seconds(d: &std::time::Duration) -> u64 {
    d.as_secs()
}

/// The nanoseconds past the whole seconds of a duration, by `Duration::subsec_nanos`, which
/// its documentation says are always less than one billion.
#[verifier::external_body]
fn nanos_past_second(d: &std::time::Duration) -> (n: u32)
    ensures
        n < 1_000_000_000,
{
    d.subsec_nanos()
}

/// The current time, when the system clock reads an instant that an RFC 3339 date-time can
/// hold: not before the epoch and not after chrono's latest instant. Otherwise none.
pub(crate) fn utc_now() -> (r: Option<Timestamp>)
    ensures
        r matches Some(t) ==> 0 <= t.seconds && timestamp_in_range(t),
{
    let now = system_now();
    match since_epoch(&now) {
        Some(d) => {
            let seconds = whole_seconds(&d);
            let nanos = nanos_past_second(&d);
            if seconds <= MAX_TIMESTAMP_SECONDS as u64 {
                Some(Timestamp { seconds: seconds as i64, nanos })
            } else {
                None
            }
        },
        None => None,
    }
}

/// The RFC 3339 text that chrono writes for the instant `seconds`.`nanos` in UTC, with `Z`
/// and as many fraction digits as needed (how a `DateTime<Utc>` serializes).
pub uninterp spec fn rfc3339_text(seconds: i64, nanos: u32) -> Seq<char>;

/// Formats an instant with `chrono::DateTime::from_timestamp` and
/// `to_rfc3339_opts(SecondsFormat::AutoSi, true)`; the text is named, not described.
#[verifier::external_body]
pub(crate) fn format_rfc3339(t: Timestamp) -> (s: String)
    requires
        timestamp_in_range(t),
    ensures
        s@ == rfc3339_text(t.seconds, t.nanos),
{
    let dt = chrono::DateTime::from_timestamp(t.seconds, t.nanos).unwrap();
    dt.to_rfc3339_opts(chrono::SecondsFormat::AutoSi, true)
}

} // verus!
