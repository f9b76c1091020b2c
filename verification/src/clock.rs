use std::time::{Duration, Instant};
use vstd::prelude::*;

verus! {

#[verifier::external_type_specification]
#[verifier::external_body]
pub struct ExInstant(Instant);

/// Timestamp in microseconds.
pub type TimestampMicros = u64;

/// Function that monotonically produces a timestamp.
///
/// The timestamp must never go backwards, although it does not necessarily
/// always have to go forwards, either.
pub trait MonotonicTimestampProvider: Send {
    /// The microsecond timestamp that was read last (0 before any reading).
    spec fn last_timestamp_microseconds(&self) -> TimestampMicros;

    /// Get the timestamp in microseconds; it is never below the one read
    /// before.
    fn get_timestamp_microseconds(&mut self) -> (r: TimestampMicros)
        ensures
            final(self).last_timestamp_microseconds() == r,
            r >= old(self).last_timestamp_microseconds(),
    ;

    /// Get the timestamp in milliseconds: a microsecond timestamp is read and
    /// divided by 1000, so it never goes backwards either.
    fn get_timestamp_milliseconds(&mut self) -> (r: u64)
        ensures
            r == final(self).last_timestamp_microseconds() / 1000,
            final(self).last_timestamp_microseconds() >= old(self).last_timestamp_microseconds(),
    {
        let micros = self.get_timestamp_microseconds();
        micros / 1000
    }
}

/// `Instant::now`: the current instant (nothing is promised of its value).
#[verifier::external_body]
fn instant_now() -> Instant {
    Instant::now()
}

/// `Instant::elapsed`: the time passed since `since` (nothing is promised of
/// its value; it depends on the clock).
#[verifier::external_body]
fn instant_elapsed(since: &Instant) -> Duration {
    since.elapsed()
}

/// `Duration::as_micros`: whole microseconds of a duration (nothing is
/// promised of its value here, as durations come from the clock).
#[verifier::external_body]
fn duration_as_micros(d: &Duration) -> u128 {
    d.as_micros()
}

/// A timestamp provider backed by [`std::time::Instant`]: microseconds since
/// it was created. `Instant` is monotonic; the provider also keeps its last
/// reading, so that a reading is never below the one before it (which only
/// matters should the microsecond count ever exceed 64 bits).
pub struct StdTimestampProvider {
    reference_time: Instant,
    last_read: TimestampMicros,
}

/// The reading after `last` when the clock shows `elapsed_micros`
/// microseconds since the reference instant: the elapsed microseconds cut to
/// 64 bits, or `last` if that is smaller.
pub open spec fn spec_next_reading(last: u64, elapsed_micros: u128) -> u64 {
    if (elapsed_micros as u64) > last { elapsed_micros as u64 } else { last }
}

/// The reading after `last` when the clock shows `elapsed_micros`
/// microseconds since the reference instant.
pub fn next_reading(last: u64, elapsed_micros: u128) -> (r: u64)
    ensures
        r == spec_next_reading(last, elapsed_micros),
        r >= last,
{
    let micros = #[verifier::truncate] (elapsed_micros as u64);
    if micros > last { micros } else { last }
}

impl StdTimestampProvider {
    /// The instant from which the readings count.
    pub closed spec fn reference(&self) -> Instant {
        self.reference_time
    }

    /// A provider whose timestamps count from now; nothing is read yet.
    pub fn new() -> (r: Self)
        ensures
            r.last_timestamp_microseconds() == 0,
    {
        StdTimestampProvider { reference_time: instant_now(), last_read: 0 }
    }

    /// Take a reading for a clock that shows `elapsed_micros` microseconds
    /// since the reference instant.
    pub fn record_reading(&mut self, elapsed_micros: u128) -> (r: TimestampMicros)
        ensures
            r == spec_next_reading(old(self).last_timestamp_microseconds(), elapsed_micros),
            final(self).last_timestamp_microseconds() == r,
            final(self).reference() == old(self).reference(),
    {
        self.last_read = next_reading(self.last_read, elapsed_micros);
        self.last_read
    }
}

impl MonotonicTimestampProvider for StdTimestampProvider {
    closed spec fn last_timestamp_microseconds(&self) -> TimestampMicros {
        self.last_read
    }

    /// Read the microseconds elapsed since the reference instant (see
    /// [`StdTimestampProvider::record_reading`]); the reference stays.
    fn get_timestamp_microseconds(&mut self) -> (r: TimestampMicros)
        ensures
            final(self).reference() == old(self).reference(),
            exists|elapsed_micros: u128| r == spec_next_reading(old(self).last_timestamp_microseconds(), elapsed_micros),
    {
        let elapsed = instant_elapsed(&self.reference_time);
        self.record_reading(duration_as_micros(&elapsed))
    }
}

/// Generate a timestamp provider backed by [`std::time::Instant`]; nothing is
/// read yet (a fresh [`StdTimestampProvider`]).
pub fn std_timestamp_provider() -> Box<dyn MonotonicTimestampProvider> {
    Box::new(StdTimestampProvider::new())
}

} // verus!
