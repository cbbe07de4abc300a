//! Monotonic time, measured in nanoseconds since a fixed starting point.
use std::time::Duration;
use std::time::Instant;
use vstd::prelude::*;

verus! {

#[verifier::external_type_specification]
#[verifier::external_body]
pub struct ExInstant(Instant);

/// The whole number of nanoseconds that a `Duration` spans
/// (what `Duration::as_nanos` returns for it).
pub uninterp spec fn duration_nanos(d: Duration) -> u128;

/// Calls `Duration::as_nanos`.
///
/// Trusted: the result is `duration_nanos` of the argument.
#[verifier::external_body]
pub(crate) fn duration_as_nanos(d: &Duration) -> (nanos: u128)
    ensures
        nanos == duration_nanos(*d),
{
    d.as_nanos()
}

/// Calls `Duration::from_secs`.
///
/// Trusted: the resulting duration spans exactly `secs` seconds, that is
/// `secs * 10^9` nanoseconds (`from_secs` sets the whole seconds to `secs`
/// and the sub-second nanoseconds to zero).
#[verifier::external_body]
pub(crate) fn duration_from_secs(secs: u64) -> (d: Duration)
    ensures
        duration_nanos(d) == secs * 1_000_000_000,
{
    Duration::from_secs(secs)
}

/// Calls `Instant::now`.
///
/// Trusted with no postcondition: the reading depends on the clock.
#[verifier::external_body]
fn instant_now() -> Instant {
    Instant::now()
}

/// Calls `Instant::elapsed`.
///
/// Trusted with no postcondition: the result depends on the clock.
#[verifier::external_body]
fn instant_elapsed(start: &Instant) -> Duration {
    start.elapsed()
}

/// The reading of a clock whose last reading was `last` after it measures
/// `measured` nanoseconds of elapsed time: the larger of the two.
pub open spec fn spec_clock_reading(last: u128, measured: u128) -> u128 {
    if measured > last {
        measured
    } else {
        last
    }
}

/// A clock reads the elapsed time it has just measured, unless an earlier
/// reading was later: a reading is never below the fresh measurement nor below
/// the previous reading, and it is one of the two.
pub proof fn lemma_clock_reading(last: u128, measured: u128)
    ensures
        spec_clock_reading(last, measured) >= measured,
        spec_clock_reading(last, measured) >= last,
        spec_clock_reading(last, measured) == measured || spec_clock_reading(last, measured)
            == last,
        measured >= last ==> spec_clock_reading(last, measured) == measured,
{
}

/// A monotonic clock that reads the time elapsed since it was created.
///
/// It remembers its last reading and never reads less than that: `Instant` is
/// documented never to go backwards, and keeping the last reading is what lets
/// the readings be stated to never decrease. It also remembers its latest
/// measurement of the elapsed time and how many measurements it took.
pub struct Clock {
    start: Instant,
    last: u128,
    measured: u128,
    measurements: Ghost<nat>,
}

impl Clock {
    /// The last reading of the clock, in nanoseconds (0 before the first).
    pub closed spec fn last_reading(self) -> u128 {
        self.last
    }

    /// The elapsed time, in nanoseconds, that the clock measured last (0 before
    /// the first measurement).
    pub closed spec fn last_measurement(self) -> u128 {
        self.measured
    }

    /// How many times the clock measured the elapsed time.
    pub closed spec fn measurements(self) -> nat {
        self.measurements@
    }

    /// Starts a clock at the current instant.
    pub fn new() -> (c: Clock)
        ensures
            c.last_reading() == 0,
            c.last_measurement() == 0,
            c.measurements() == 0,
    {
        Clock { start: instant_now(), last: 0, measured: 0, measurements: Ghost(0) }
    }

    /// Nanoseconds elapsed since the clock was started.
    ///
    /// The call measures the elapsed time once; which value it measures
    /// depends on when the call is made. The clock then reads that
    /// measurement, or its previous reading if that was later, and the reading
    /// becomes the last one.
    pub fn now_nanos(&mut self) -> (nanos: u128)
        ensures
            final(self).measurements() == old(self).measurements() + 1,
            nanos == spec_clock_reading(old(self).last_reading(), final(self).last_measurement()),
            nanos >= old(self).last_reading(),
            nanos >= final(self).last_measurement(),
            final(self).last_reading() == nanos,
    {
        let elapsed = instant_elapsed(&self.start);
        let reading = duration_as_nanos(&elapsed);
        self.measured = reading;
        self.measurements = Ghost(self.measurements@ + 1);
        self.advance(reading)
    }

    /// Takes a new reading of the elapsed time: the clock reads the larger of
    /// it and the last reading, which becomes the last reading.
    pub fn advance(&mut self, reading: u128) -> (nanos: u128)
        ensures
            nanos == spec_clock_reading(old(self).last_reading(), reading),
            final(self).last_reading() == nanos,
            final(self).last_measurement() == old(self).last_measurement(),
            final(self).measurements() == old(self).measurements(),
    {
        if reading > self.last {
            self.last = reading;
        }
        self.last
    }
}

} // verus!
