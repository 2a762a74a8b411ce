//! Time bookkeeping of the sampling loop.
//!
//! Instants and durations are counts of ticks of a monotonic clock; the
//! caller chooses the unit, for instance nanoseconds, and uses it throughout.

use vstd::prelude::*;

verus! {

/// What a sample clock remembers.
pub struct ClockState {
    /// Time step substituted for the first sample, when no earlier sample
    /// exists to measure from.
    pub default_dt: u64,
    /// Instant of the previous successful sample, if there was one.
    pub last: Option<u64>,
}

/// The time step of a sample taken at `now`: the configured default for the
/// first sample, the time since the previous sample afterwards. There is
/// none if the clock has not advanced since the previous sample.
pub open spec fn dt_at(clock: ClockState, now: u64) -> Option<u64> {
    match clock.last {
        None => Some(clock.default_dt),
        Some(last) => if now > last {
            Some((now - last) as u64)
        } else {
            None
        },
    }
}

/// The clock after a sample at `now`: the instant is recorded if the sample
/// has a time step, and nothing changes if it has none.
pub open spec fn clock_after(clock: ClockState, now: u64) -> ClockState {
    if dt_at(clock, now) is Some {
        ClockState { default_dt: clock.default_dt, last: Some(now) }
    } else {
        clock
    }
}

/// Time that passed from `since` to `now`, zero if `now` is not later.
pub open spec fn elapsed_between(since: u64, now: u64) -> u64 {
    if now >= since {
        (now - since) as u64
    } else {
        0
    }
}

/// How long to sleep after a cycle that took `elapsed` of a period of
/// `period`: the rest of the period, nothing if the cycle overran it.
pub open spec fn remainder_of(period: u64, elapsed: u64) -> u64 {
    if elapsed < period {
        (period - elapsed) as u64
    } else {
        0
    }
}

/// Every time step that the clock hands out is strictly positive, provided
/// the default is.
pub proof fn lemma_dt_positive(clock: ClockState, now: u64)
    requires
        clock.default_dt > 0,
    ensures
        dt_at(clock, now) matches Some(dt) ==> dt > 0,
{
}

/// The first sample gets the default time step; a later one gets the time
/// measured since the sample before it.
pub proof fn lemma_first_then_measured(default_dt: u64, first: u64, second: u64)
    requires
        second > first,
    ensures
        dt_at(ClockState { default_dt, last: None }, first) == Some(default_dt),
        dt_at(clock_after(ClockState { default_dt, last: None }, first), second) == Some(
            (second - first) as u64,
        ),
{
}

/// A sample without a time step leaves the bookkeeping untouched, so the
/// next sample that has one is still measured from the last sample that had
/// one.
pub proof fn lemma_stalled_sample_is_not_recorded(clock: ClockState, stalled: u64, next: u64)
    requires
        dt_at(clock, stalled) is None,
    ensures
        clock_after(clock, stalled) == clock,
        dt_at(clock_after(clock, stalled), next) == dt_at(clock, next),
{
}

/// Sleeping for the remainder fills the period exactly when the cycle fit
/// into it, and adds no delay when it did not.
pub proof fn lemma_remainder_fills_period(period: u64, elapsed: u64)
    ensures
        elapsed <= period ==> elapsed + remainder_of(period, elapsed) == period,
        elapsed >= period ==> remainder_of(period, elapsed) == 0,
        remainder_of(period, elapsed) <= period,
{
}

/// Time that passed from `since` to `now`, zero if `now` is not later.
pub fn elapsed(since: u64, now: u64) -> (ticks: u64)
    ensures
        ticks == elapsed_between(since, now),
{
    if now >= since {
        now - since
    } else {
        0
    }
}

/// How long a fixed-interval loop sleeps after a cycle that took `elapsed`.
pub fn sleep_remainder(period: u64, elapsed: u64) -> (ticks: u64)
    ensures
        ticks == remainder_of(period, elapsed),
{
    if elapsed < period {
        period - elapsed
    } else {
        0
    }
}

/// Keeper of the instant of the previous sample.
#[derive(Clone, Copy, Debug, PartialEq, Eq)]
pub struct SampleClock {
    default_dt: u64,
    last: Option<u64>,
}

impl View for SampleClock {
    type V = ClockState;

    closed spec fn view(&self) -> ClockState {
        ClockState { default_dt: self.default_dt, last: self.last }
    }
}

impl SampleClock {
    #[verifier::type_invariant]
    spec fn valid(self) -> bool {
        self.default_dt > 0
    }

    /// A clock that has seen no sample. The default time step must be
    /// positive; there is no clock for a default of zero.
    pub fn new(default_dt: u64) -> (clock: Option<Self>)
        ensures
            clock is Some <==> default_dt > 0,
            clock matches Some(c) ==> c@ == (ClockState { default_dt, last: None }),
    {
        if default_dt > 0 {
            Some(SampleClock { default_dt, last: None })
        } else {
            None
        }
    }

    /// The configured default time step.
    pub fn default_dt(&self) -> (dt: u64)
        ensures
            dt == self@.default_dt,
            dt > 0,
    {
        proof {
            use_type_invariant(self);
        }
        self.default_dt
    }

    /// Instant of the previous successful sample, if there was one.
    pub fn last_sample_time(&self) -> (last: Option<u64>)
        ensures
            last == self@.last,
    {
        self.last
    }

    /// Records a sample taken at `now` and returns its time step: the default
    /// for the first sample, the time since the previous one afterwards,
    /// always positive. If the clock has not advanced since the previous
    /// sample there is no time step and nothing is recorded.
    pub fn tick(&mut self, now: u64) -> (dt: Option<u64>)
        ensures
            dt == dt_at(old(self)@, now),
            final(self)@ == clock_after(old(self)@, now),
            dt matches Some(ticks) ==> ticks > 0,
    {
        proof {
            use_type_invariant(&*self);
        }
        let dt = match self.last {
            None => Some(self.default_dt),
            Some(last) => if now > last {
                Some(now - last)
            } else {
                None
            },
        };
        if dt.is_some() {
            self.last = Some(now);
        }
        dt
    }
}

} // verus!
