//! Instants and durations: the current instant as verification sees it, and
//! the age of a timestamp.

use vstd::prelude::*;
use std::time::{Duration, SystemTime, SystemTimeError, UNIX_EPOCH};
use crate::error::AttestationError;

verus! {

/// The number of nanoseconds in a second.
pub const NANOS_PER_SEC: u32 = 1_000_000_000;

/// `std::time::SystemTime`, of which nothing is known.
#[verifier::external_type_specification]
#[verifier::external_body]
pub struct ExSystemTime(SystemTime);

/// `std::time::SystemTimeError`, of which nothing is read.
#[verifier::external_type_specification]
#[verifier::external_body]
pub struct ExSystemTimeError(SystemTimeError);

/// The length of a `Duration`, in nanoseconds.
pub uninterp spec fn duration_nanos(d: Duration) -> nat;

/// `SystemTime::now` reads the system clock; nothing is known of the
/// instant it returns.
pub assume_specification[ SystemTime::now ]() -> SystemTime;

/// Calls `SystemTime::duration_since` with the Unix epoch, which fails when
/// `instant` lies before the epoch. Nothing is claimed of the duration.
#[verifier::external_body]
fn since_unix_epoch(instant: &SystemTime) -> Result<Duration, SystemTimeError> {
    instant.duration_since(UNIX_EPOCH)
}

/// `Duration::from_secs` makes a duration of `secs` whole seconds.
pub assume_specification[ Duration::from_secs ](secs: u64) -> (d: Duration)
    ensures
        duration_nanos(d) == secs * NANOS_PER_SEC,
;

/// `Duration::as_secs` gives the whole seconds of a duration.
pub assume_specification[ Duration::as_secs ](d: &Duration) -> (secs: u64)
    ensures
        secs == duration_nanos(*d) / (NANOS_PER_SEC as nat),
;

/// `Duration::subsec_nanos` gives what a duration has beyond its whole
/// seconds, in nanoseconds.
pub assume_specification[ Duration::subsec_nanos ](d: &Duration) -> (nanos: u32)
    ensures
        nanos == duration_nanos(*d) % (NANOS_PER_SEC as nat),
;

/// An instant, counted from the Unix epoch, 1970-01-01T00:00:00Z.
#[derive(Clone, Copy, Debug, PartialEq, Eq, Structural)]
pub struct UnixTime {
    /// Whole seconds since the epoch.
    pub secs: u64,
    /// Nanoseconds beyond the whole seconds.
    pub nanos: u32,
}

impl UnixTime {
    /// Whether the instant can be used as the current instant: its
    /// nanoseconds stay below one second, and its seconds fit a signed
    /// 64-bit count.
    pub open spec fn is_representable(self) -> bool {
        self.nanos < NANOS_PER_SEC && self.secs <= i64::MAX
    }

    /// Nanoseconds since the epoch.
    pub open spec fn total_nanos(self) -> int {
        self.secs * NANOS_PER_SEC + self.nanos
    }

    /// The instant that lies `elapsed` after the epoch: the whole seconds
    /// of `elapsed`, and what it has beyond them.
    pub open spec fn after_epoch(elapsed: Duration) -> UnixTime {
        UnixTime {
            secs: (duration_nanos(elapsed) / (NANOS_PER_SEC as nat)) as u64,
            nanos: (duration_nanos(elapsed) % (NANOS_PER_SEC as nat)) as u32,
        }
    }

    /// What a clock reads that says how far it is from the epoch: the
    /// instant that lies so far after the epoch, and nothing where the clock
    /// is set before the epoch.
    pub open spec fn reading(since_epoch: Result<Duration, SystemTimeError>) -> Option<UnixTime> {
        match since_epoch {
            Ok(elapsed) => Some(Self::after_epoch(elapsed)),
            Err(_) => None,
        }
    }

    /// Turns the distance of a clock from the epoch into an instant.
    ///
    /// A clock that is set before the epoch gives no instant. An instant
    /// that a clock gives is as many nanoseconds after the epoch as the
    /// clock says, and its nanoseconds stay below one second.
    pub fn from_reading(since_epoch: Result<Duration, SystemTimeError>) -> (r: Option<UnixTime>)
        ensures
            r == Self::reading(since_epoch),
            since_epoch matches Ok(elapsed) ==> {
                &&& r matches Some(t)
                &&& t.total_nanos() == duration_nanos(elapsed)
                &&& t.nanos < NANOS_PER_SEC
            },
            since_epoch is Err ==> r is None,
    {
        match since_epoch {
            Ok(elapsed) => {
                let secs = elapsed.as_secs();
                let nanos = elapsed.subsec_nanos();
                proof {
                    let total = duration_nanos(elapsed) as int;
                    let unit = NANOS_PER_SEC as int;
                    assert(total == unit * (total / unit) + total % unit) by (nonlinear_arith)
                        requires
                            unit > 0,
                    ;
                    assert(0 <= total % unit < unit) by (nonlinear_arith)
                        requires
                            unit > 0,
                    ;
                }
                Some(UnixTime { secs, nanos })
            },
            Err(_) => None,
        }
    }

    /// The instant of the system clock, unless the clock is set before the
    /// epoch.
    ///
    /// The clock decides what comes back. Whatever it is, it is the
    /// [`reading`](Self::reading) of a distance from the epoch, and the
    /// nanoseconds of an instant stay below one second.
    pub fn now() -> (r: Option<UnixTime>)
        ensures
            exists|since_epoch: Result<Duration, SystemTimeError>|
                r == #[trigger] Self::reading(since_epoch),
            r matches Some(t) ==> t.nanos < NANOS_PER_SEC,
    {
        let instant = SystemTime::now();
        Self::from_reading(since_unix_epoch(&instant))
    }

    /// Tells whether the instant [`is_representable`](Self::is_representable).
    pub fn check_representable(&self) -> (ok: bool)
        ensures
            ok == self.is_representable(),
    {
        self.nanos < NANOS_PER_SEC && self.secs <= 0x7fff_ffff_ffff_ffff
    }
}

/// The instant that a timestamp names: seconds since the Unix epoch, which
/// are negative before it, and nanoseconds beyond them.
///
/// The nanoseconds reach one second or more where the timestamp names a
/// leap second; the instant is then counted on from the second before.
#[derive(Clone, Copy, Debug, PartialEq, Eq, Structural)]
pub struct Timestamp {
    /// Whole seconds since the epoch.
    pub secs: i64,
    /// Nanoseconds beyond the whole seconds.
    pub nanos: u32,
}

impl Timestamp {
    /// Nanoseconds since the epoch.
    pub open spec fn total_nanos(self) -> int {
        self.secs * NANOS_PER_SEC + self.nanos
    }
}

/// `chrono::ParseError`, of which nothing is read.
#[verifier::external_type_specification]
#[verifier::external_body]
pub struct ExChronoParseError(chrono::ParseError);

/// The instant that `chrono` reads from `text` by the format `format`, if
/// it accepts the text.
///
/// This is what `chrono` makes of the text; it is not defined here.
pub uninterp spec fn datetime_parsed(text: Seq<char>, format: Seq<char>) -> Option<Timestamp>;

/// The content of a parse outcome.
pub open spec fn parsed_view(r: Result<Timestamp, chrono::ParseError>) -> Option<Timestamp> {
    match r {
        Ok(t) => Some(t),
        Err(_) => None,
    }
}

/// Calls `chrono::DateTime::parse_from_str` and reads the instant off the
/// result with `DateTime::timestamp` and `DateTime::timestamp_subsec_nanos`.
///
/// The contract claims only that the outcome is a function of the text and
/// the format, named [`datetime_parsed`]: the text must carry its own offset
/// from UTC, so no time zone of the machine is read.
#[verifier::external_body]
pub(crate) fn parse_datetime(text: &str, format: &str) -> (r: Result<
    Timestamp,
    chrono::ParseError,
>)
    ensures
        parsed_view(r) == datetime_parsed(text@, format@),
{
    let instant = chrono::DateTime::parse_from_str(text, format)?;
    Ok(Timestamp { secs: instant.timestamp(), nanos: instant.timestamp_subsec_nanos() })
}

/// The instant that the timestamp `text` of a report names.
///
/// A report gives date and time without an offset and means UTC: the
/// offset `+0000` is appended, and the whole is read as year, month, day,
/// `T`, hour, minute, second, an optional fraction, and the offset.
pub open spec fn report_timestamp(text: Seq<char>) -> Option<Timestamp> {
    datetime_parsed(text + "+0000"@, "%Y-%m-%dT%H:%M:%S%.f%z"@)
}

/// Reads the timestamp of a report.
///
/// Fails with [`AttestationError::ReportError`] when the text is not a date
/// and time of the expected form.
pub fn parse_report_timestamp(text: &str) -> (r: Result<Timestamp, AttestationError>)
    ensures
        match report_timestamp(text@) {
            Some(t) => r == Ok::<Timestamp, AttestationError>(t),
            None => r == Err::<Timestamp, AttestationError>(AttestationError::ReportError),
        },
{
    let with_offset = String::from_str(text).concat("+0000");
    match parse_datetime(with_offset.as_str(), "%Y-%m-%dT%H:%M:%S%.f%z") {
        Ok(t) => Ok(t),
        Err(_) => Err(AttestationError::ReportError),
    }
}

/// The whole seconds in `nanos` nanoseconds, rounded towards zero.
pub open spec fn whole_seconds(nanos: int) -> int {
    if nanos >= 0 {
        nanos / (NANOS_PER_SEC as int)
    } else {
        -((-nanos) / (NANOS_PER_SEC as int))
    }
}

/// The age of `timestamp` at the instant `now`, in whole seconds, unless the
/// timestamp lies a second or more after `now`.
pub open spec fn age_seconds(now: UnixTime, timestamp: Timestamp) -> Option<nat> {
    let age = whole_seconds(now.total_nanos() - timestamp.total_nanos());
    if age < 0 {
        None
    } else {
        Some(age as nat)
    }
}

/// Moving the current instant on by `delta` whole seconds adds exactly
/// `delta` to the age of a timestamp that does not lie after the current
/// instant.
///
/// A timestamp that lies less than a second after the current instant has
/// the age zero, and then the age grows by less than `delta`.
pub proof fn lemma_age_advances(now: UnixTime, later: UnixTime, timestamp: Timestamp, delta: nat)
    requires
        later.secs == now.secs + delta,
        later.nanos == now.nanos,
        timestamp.total_nanos() <= now.total_nanos(),
    ensures
        age_seconds(now, timestamp) is Some,
        age_seconds(later, timestamp) == Some(age_seconds(now, timestamp).unwrap() + delta),
{
    let elapsed = now.total_nanos() - timestamp.total_nanos();
    let unit = NANOS_PER_SEC as int;
    let later_elapsed = later.total_nanos() - timestamp.total_nanos();
    assert(later_elapsed == elapsed + delta * unit) by (nonlinear_arith)
        requires
            later_elapsed == later.total_nanos() - timestamp.total_nanos(),
            later.secs == now.secs + delta,
            later.nanos == now.nanos,
            unit == NANOS_PER_SEC,
            elapsed == now.total_nanos() - timestamp.total_nanos(),
            now.total_nanos() == now.secs * NANOS_PER_SEC + now.nanos,
            later.total_nanos() == later.secs * NANOS_PER_SEC + later.nanos,
    ;
    assert((elapsed + delta * unit) / unit == elapsed / unit + delta) by (nonlinear_arith)
        requires
            unit > 0,
            elapsed >= 0,
    ;
    assert(elapsed / unit >= 0) by (nonlinear_arith)
        requires
            unit > 0,
            elapsed >= 0,
    ;
    assert(delta * unit >= 0) by (nonlinear_arith)
        requires
            unit > 0,
    ;
}

/// The outcome of computing an age: a current instant that is not
/// representable is a [`AttestationError::TimeError`], a timestamp that lies
/// a second or more after the current instant is a
/// [`AttestationError::ReportError`].
pub open spec fn age_outcome(now: UnixTime, timestamp: Timestamp) -> Result<u64, AttestationError> {
    if !now.is_representable() {
        Err(AttestationError::TimeError)
    } else {
        match age_seconds(now, timestamp) {
            Some(age) => Ok(age as u64),
            None => Err(AttestationError::ReportError),
        }
    }
}

/// The age of a timestamp at a representable instant fits 64 bits.
pub proof fn lemma_age_fits(now: UnixTime, timestamp: Timestamp)
    requires
        now.is_representable(),
    ensures
        age_seconds(now, timestamp) matches Some(age) ==> age <= u64::MAX,
{
    let elapsed = now.total_nanos() - timestamp.total_nanos();
    if elapsed >= 0 {
        assert(elapsed / 1_000_000_000 <= u64::MAX) by (nonlinear_arith)
            requires
                elapsed == now.secs * 1_000_000_000 + now.nanos - (timestamp.secs * 1_000_000_000
                    + timestamp.nanos),
                now.secs <= i64::MAX,
                now.nanos < 1_000_000_000,
                timestamp.secs >= i64::MIN,
                timestamp.nanos >= 0,
                elapsed >= 0,
        ;
    } else {
        assert(-((-elapsed) / 1_000_000_000) <= 0) by (nonlinear_arith)
            requires
                elapsed < 0,
        ;
    }
}

/// Computes the age of `timestamp` at the instant `now`, in whole seconds.
pub fn age_of(now: UnixTime, timestamp: Timestamp) -> (r: Result<u64, AttestationError>)
    ensures
        r == age_outcome(now, timestamp),
{
    if !now.check_representable() {
        return Err(AttestationError::TimeError);
    }
    let unit: i128 = 1_000_000_000;
    let now_nanos: i128 = (now.secs as i128) * unit + (now.nanos as i128);
    let then_nanos: i128 = (timestamp.secs as i128) * unit + (timestamp.nanos as i128);
    let elapsed: i128 = now_nanos - then_nanos;
    if elapsed <= -unit {
        assert(whole_seconds(elapsed as int) < 0) by (nonlinear_arith)
            requires
                elapsed <= -1_000_000_000,
        ;
        Err(AttestationError::ReportError)
    } else if elapsed < 0 {
        assert(whole_seconds(elapsed as int) == 0) by (nonlinear_arith)
            requires
                -1_000_000_000 < elapsed < 0,
        ;
        Ok(0)
    } else {
        let age: u128 = (elapsed as u128) / 1_000_000_000u128;
        proof {
            lemma_age_fits(now, timestamp);
        }
        Ok(age as u64)
    }
}

} // verus!
