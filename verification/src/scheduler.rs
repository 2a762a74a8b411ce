//! The sampling cycle: acquire, convert, estimate, publish.
//!
//! A scheduler is a state machine. It is told what happened (the loop woke
//! up, the step in progress completed or failed) and answers with the step to
//! perform next. It performs nothing itself, so it never holds a lock, sleeps
//! or blocks; the caller does that between two calls.
//!
//! Within a cycle the steps follow in one order: acquisition, conversion, the
//! estimator's predict, then its update, then the read of its state, publish.
//! A failure of any step ends the cycle; the scheduler reports it for logging
//! and is idle again for the next wake-up. Two cycles never overlap.

use crate::clock::clock_after;
use crate::clock::dt_at;
use crate::clock::elapsed;
use crate::clock::elapsed_between;
use crate::clock::remainder_of;
use crate::clock::sleep_remainder;
use crate::clock::ClockState;
use crate::clock::SampleClock;
use vstd::prelude::*;

verus! {

/// What starts a cycle.
#[derive(Clone, Copy, Debug, PartialEq, Eq)]
pub enum SchedulingPolicy {
    /// The loop wakes on a fixed period and sleeps for what the cycle left
    /// of it.
    FixedInterval { period: u64 },
    /// The loop waits until a new input sample is signalled.
    EventTriggered,
}

/// Whether the cycle runs the orientation estimator, and whether the
/// estimator has its resting attitude yet.
#[derive(Clone, Copy, Debug, PartialEq, Eq)]
pub enum Estimation {
    /// Samples are published as converted, without an estimate.
    Disabled,
    /// The estimator awaits its first accelerometer sample; until it has
    /// been seeded, it is neither advanced nor corrected.
    Unseeded,
    /// The estimator is seeded.
    Seeded,
}

/// The steps of the estimating phase, in the order in which they are taken.
#[derive(Clone, Copy, Debug, PartialEq, Eq)]
pub enum EstimatorStep {
    Seed,
    Predict,
    Update,
    ReadState,
}

/// Where in its cycle a scheduler is.
#[derive(Clone, Copy, Debug, PartialEq, Eq)]
pub enum CycleState {
    /// Between two cycles.
    Idle,
    /// A sample is being acquired. The cycle started at `started`.
    Sampling { started: u64 },
    /// The sample is being converted. Its time step is `dt`.
    Converting { started: u64, dt: u64 },
    /// The estimator is at `step`.
    Estimating { started: u64, dt: u64, step: EstimatorStep },
    /// The result is being published.
    Publishing { started: u64 },
}

/// Why a cycle was cut short.
#[derive(Clone, Copy, Debug, PartialEq, Eq)]
pub enum CycleFault {
    /// The sample could not be acquired.
    BusError,
    /// The clock had not advanced since the previous sample, so the sample
    /// has no positive time step.
    ClockStalled,
    /// The sample could not be converted.
    Conversion,
    /// The estimator refused a step.
    EstimatorPrecondition,
    /// The result could not be published.
    PublishFailed,
}

/// What is reported to the scheduler.
#[derive(Clone, Copy, Debug, PartialEq, Eq)]
pub enum EventKind {
    /// The period elapsed or a new input sample was signalled.
    Wake,
    /// The step that was asked for is done.
    Completed,
    /// The step that was asked for failed.
    Failed,
}

/// A report and the instant at which it is made.
#[derive(Clone, Copy, Debug, PartialEq, Eq)]
pub struct CycleEvent {
    pub kind: EventKind,
    pub now: u64,
}

/// How the loop spends the time until the next cycle.
#[derive(Clone, Copy, Debug, PartialEq, Eq)]
pub enum Wait {
    /// Sleep for this long, then wake.
    Sleep { duration: u64 },
    /// Wait for the signal of a new input sample, then wake.
    Trigger,
}

/// What the caller does next.
#[derive(Clone, Copy, Debug, PartialEq, Eq)]
pub enum CycleAction {
    /// Acquire a sample.
    Acquire,
    /// Convert the sample.
    Convert,
    /// Seed the estimator with the accelerometer sample.
    Seed,
    /// Advance the estimator by `dt` with the gyroscope sample.
    Predict { dt: u64 },
    /// Correct the estimator with the accelerometer sample.
    Update,
    /// Copy the estimator's state out.
    ReadState,
    /// Publish the result.
    Publish,
    /// The cycle is over. If it was cut short, log `skipped`. Then wait.
    Rest { wait: Wait, skipped: Option<CycleFault> },
    /// The report answers no step that was asked for. Nothing changed.
    Ignore,
}

/// Everything a scheduler knows.
pub struct SchedulerState {
    pub policy: SchedulingPolicy,
    pub estimation: Estimation,
    pub clock: ClockState,
    pub cycle: CycleState,
}

/// The states that a scheduler can be in: the default time step and every
/// time step in flight are positive, and the estimator is stepped only as
/// far as its seeding allows.
pub open spec fn scheduler_valid(s: SchedulerState) -> bool {
    &&& s.clock.default_dt > 0
    &&& s.cycle matches CycleState::Converting { dt, .. } ==> dt > 0
    &&& s.cycle matches CycleState::Estimating { dt, step, .. } ==> {
        &&& dt > 0
        &&& step is Seed ==> s.estimation is Unseeded
        &&& !(step is Seed) ==> s.estimation is Seeded
    }
}

/// How the loop waits after a cycle that started at `started` and ended at
/// `now`.
pub open spec fn wait_after(policy: SchedulingPolicy, started: u64, now: u64) -> Wait {
    match policy {
        SchedulingPolicy::FixedInterval { period } => Wait::Sleep {
            duration: remainder_of(period, elapsed_between(started, now)),
        },
        SchedulingPolicy::EventTriggered => Wait::Trigger,
    }
}

/// The fault that a failure during `cycle` stands for.
pub open spec fn fault_in(cycle: CycleState) -> CycleFault {
    match cycle {
        CycleState::Idle => CycleFault::BusError,
        CycleState::Sampling { .. } => CycleFault::BusError,
        CycleState::Converting { .. } => CycleFault::Conversion,
        CycleState::Estimating { .. } => CycleFault::EstimatorPrecondition,
        CycleState::Publishing { .. } => CycleFault::PublishFailed,
    }
}

/// The instant at which the cycle in progress started.
pub open spec fn started_at(cycle: CycleState) -> u64 {
    match cycle {
        CycleState::Idle => 0,
        CycleState::Sampling { started } => started,
        CycleState::Converting { started, .. } => started,
        CycleState::Estimating { started, .. } => started,
        CycleState::Publishing { started } => started,
    }
}

/// The end of the cycle in progress: the scheduler is idle again and the
/// caller rests.
pub open spec fn finish(s: SchedulerState, now: u64, skipped: Option<CycleFault>) -> (
    SchedulerState,
    CycleAction,
) {
    (
        SchedulerState { cycle: CycleState::Idle, ..s },
        CycleAction::Rest { wait: wait_after(s.policy, started_at(s.cycle), now), skipped },
    )
}

/// The step after the one that just completed.
pub open spec fn on_completed(s: SchedulerState, now: u64) -> (SchedulerState, CycleAction) {
    match s.cycle {
        CycleState::Idle => (s, CycleAction::Ignore),
        CycleState::Sampling { started } => match dt_at(s.clock, now) {
            Some(dt) => (
                SchedulerState {
                    clock: clock_after(s.clock, now),
                    cycle: CycleState::Converting { started, dt },
                    ..s
                },
                CycleAction::Convert,
            ),
            None => finish(s, now, Some(CycleFault::ClockStalled)),
        },
        CycleState::Converting { started, dt } => match s.estimation {
            Estimation::Disabled => (
                SchedulerState { cycle: CycleState::Publishing { started }, ..s },
                CycleAction::Publish,
            ),
            Estimation::Unseeded => (
                SchedulerState {
                    cycle: CycleState::Estimating { started, dt, step: EstimatorStep::Seed },
                    ..s
                },
                CycleAction::Seed,
            ),
            Estimation::Seeded => (
                SchedulerState {
                    cycle: CycleState::Estimating { started, dt, step: EstimatorStep::Predict },
                    ..s
                },
                CycleAction::Predict { dt },
            ),
        },
        CycleState::Estimating { started, dt, step } => match step {
            EstimatorStep::Seed => (
                SchedulerState {
                    estimation: Estimation::Seeded,
                    cycle: CycleState::Estimating { started, dt, step: EstimatorStep::Predict },
                    ..s
                },
                CycleAction::Predict { dt },
            ),
            EstimatorStep::Predict => (
                SchedulerState {
                    cycle: CycleState::Estimating { started, dt, step: EstimatorStep::Update },
                    ..s
                },
                CycleAction::Update,
            ),
            EstimatorStep::Update => (
                SchedulerState {
                    cycle: CycleState::Estimating { started, dt, step: EstimatorStep::ReadState },
                    ..s
                },
                CycleAction::ReadState,
            ),
            EstimatorStep::ReadState => (
                SchedulerState { cycle: CycleState::Publishing { started }, ..s },
                CycleAction::Publish,
            ),
        },
        CycleState::Publishing { .. } => finish(s, now, None),
    }
}

/// The scheduler after `event`, and what the caller does next.
///
/// A wake-up starts a cycle if none is in progress and is ignored otherwise.
/// A completed step leads to the next one; the completed acquisition fixes
/// the time step of the cycle and is recorded as the previous sample from
/// then on, whether or not the later steps succeed. A failed step ends the
/// cycle.
pub open spec fn cycle_step(s: SchedulerState, event: CycleEvent) -> (SchedulerState, CycleAction) {
    match event.kind {
        EventKind::Wake => if s.cycle is Idle {
            (
                SchedulerState { cycle: CycleState::Sampling { started: event.now }, ..s },
                CycleAction::Acquire,
            )
        } else {
            (s, CycleAction::Ignore)
        },
        EventKind::Completed => on_completed(s, event.now),
        EventKind::Failed => if s.cycle is Idle {
            (s, CycleAction::Ignore)
        } else {
            finish(s, event.now, Some(fault_in(s.cycle)))
        },
    }
}

/// The scheduler after a sequence of events, and everything that the caller
/// was asked to do on the way, in order.
pub open spec fn cycle_run(s: SchedulerState, events: Seq<CycleEvent>) -> (
    SchedulerState,
    Seq<CycleAction>,
)
    decreases events.len(),
{
    if events.len() == 0 {
        (s, Seq::empty())
    } else {
        let before = cycle_run(s, events.drop_last());
        let last = cycle_step(before.0, events.last());
        (last.0, before.1.push(last.1))
    }
}

/// The scheduler that drives the sampling cycle.
#[derive(Clone, Copy, Debug, PartialEq, Eq)]
pub struct Scheduler {
    policy: SchedulingPolicy,
    estimation: Estimation,
    clock: SampleClock,
    cycle: CycleState,
}

impl View for Scheduler {
    type V = SchedulerState;

    closed spec fn view(&self) -> SchedulerState {
        SchedulerState {
            policy: self.policy,
            estimation: self.estimation,
            clock: self.clock@,
            cycle: self.cycle,
        }
    }
}

impl Scheduler {
    #[verifier::type_invariant]
    spec fn valid(self) -> bool {
        scheduler_valid(self@)
    }

    /// An idle scheduler that has seen no sample. The default time step,
    /// used for the first sample, must be positive; there is no scheduler
    /// for a default of zero.
    pub fn new(policy: SchedulingPolicy, estimation: Estimation, default_dt: u64) -> (scheduler:
        Option<Self>)
        ensures
            scheduler is Some <==> default_dt > 0,
            scheduler matches Some(s) ==> s@ == (SchedulerState {
                policy,
                estimation,
                clock: ClockState { default_dt, last: None },
                cycle: CycleState::Idle,
            }),
    {
        match SampleClock::new(default_dt) {
            Some(clock) => Some(Scheduler { policy, estimation, clock, cycle: CycleState::Idle }),
            None => None,
        }
    }

    /// What starts a cycle.
    pub fn policy(&self) -> (policy: SchedulingPolicy)
        ensures
            policy == self@.policy,
    {
        self.policy
    }

    /// Whether the estimator runs and is seeded.
    pub fn estimation(&self) -> (estimation: Estimation)
        ensures
            estimation == self@.estimation,
    {
        self.estimation
    }

    /// Where in its cycle the scheduler is.
    pub fn cycle(&self) -> (cycle: CycleState)
        ensures
            cycle == self@.cycle,
    {
        self.cycle
    }

    /// Instant of the previous successful sample, if there was one.
    pub fn last_sample_time(&self) -> (last: Option<u64>)
        ensures
            last == self@.clock.last,
    {
        self.clock.last_sample_time()
    }

    /// The wait after a cycle that started at `started` and ended at `now`.
    fn wait(&self, started: u64, now: u64) -> (wait: Wait)
        ensures
            wait == wait_after(self@.policy, started, now),
    {
        match self.policy {
            SchedulingPolicy::FixedInterval { period } => Wait::Sleep {
                duration: sleep_remainder(period, elapsed(started, now)),
            },
            SchedulingPolicy::EventTriggered => Wait::Trigger,
        }
    }

    /// The instant at which the cycle in progress started.
    fn started(&self) -> (started: u64)
        ensures
            started == started_at(self@.cycle),
    {
        match self.cycle {
            CycleState::Idle => 0,
            CycleState::Sampling { started } => started,
            CycleState::Converting { started, .. } => started,
            CycleState::Estimating { started, .. } => started,
            CycleState::Publishing { started } => started,
        }
    }

    /// Ends the cycle in progress.
    fn finish(&mut self, now: u64, skipped: Option<CycleFault>) -> (action: CycleAction)
        ensures
            (final(self)@, action) == finish(old(self)@, now, skipped),
    {
        proof {
            use_type_invariant(&*self);
        }
        let wait = self.wait(self.started(), now);
        self.cycle = CycleState::Idle;
        CycleAction::Rest { wait, skipped }
    }

    /// Moves on from the step that just completed.
    fn completed(&mut self, now: u64) -> (action: CycleAction)
        ensures
            (final(self)@, action) == on_completed(old(self)@, now),
    {
        proof {
            use_type_invariant(&*self);
        }
        match self.cycle {
            CycleState::Idle => CycleAction::Ignore,
            CycleState::Sampling { started } => {
                let mut clock = self.clock;
                match clock.tick(now) {
                    Some(dt) => {
                        *self = Scheduler {
                            policy: self.policy,
                            estimation: self.estimation,
                            clock,
                            cycle: CycleState::Converting { started, dt },
                        };
                        CycleAction::Convert
                    },
                    None => self.finish(now, Some(CycleFault::ClockStalled)),
                }
            },
            CycleState::Converting { started, dt } => match self.estimation {
                Estimation::Disabled => {
                    self.cycle = CycleState::Publishing { started };
                    CycleAction::Publish
                },
                Estimation::Unseeded => {
                    self.cycle = CycleState::Estimating { started, dt, step: EstimatorStep::Seed };
                    CycleAction::Seed
                },
                Estimation::Seeded => {
                    self.cycle =
                    CycleState::Estimating { started, dt, step: EstimatorStep::Predict };
                    CycleAction::Predict { dt }
                },
            },
            CycleState::Estimating { started, dt, step } => match step {
                EstimatorStep::Seed => {
                    *self = Scheduler {
                        policy: self.policy,
                        estimation: Estimation::Seeded,
                        clock: self.clock,
                        cycle: CycleState::Estimating { started, dt, step: EstimatorStep::Predict },
                    };
                    CycleAction::Predict { dt }
                },
                EstimatorStep::Predict => {
                    self.cycle =
                    CycleState::Estimating { started, dt, step: EstimatorStep::Update };
                    CycleAction::Update
                },
                EstimatorStep::Update => {
                    self.cycle =
                    CycleState::Estimating { started, dt, step: EstimatorStep::ReadState };
                    CycleAction::ReadState
                },
                EstimatorStep::ReadState => {
                    self.cycle = CycleState::Publishing { started };
                    CycleAction::Publish
                },
            },
            CycleState::Publishing { .. } => self.finish(now, None),
        }
    }

    /// The fault that a failure of the step in progress stands for.
    fn fault(&self) -> (fault: CycleFault)
        ensures
            fault == fault_in(self@.cycle),
    {
        match self.cycle {
            CycleState::Idle => CycleFault::BusError,
            CycleState::Sampling { .. } => CycleFault::BusError,
            CycleState::Converting { .. } => CycleFault::Conversion,
            CycleState::Estimating { .. } => CycleFault::EstimatorPrecondition,
            CycleState::Publishing { .. } => CycleFault::PublishFailed,
        }
    }

    /// Takes a report and returns what the caller does next.
    pub fn step(&mut self, event: CycleEvent) -> (action: CycleAction)
        ensures
            (final(self)@, action) == cycle_step(old(self)@, event),
            scheduler_valid(old(self)@),
            scheduler_valid(final(self)@),
    {
        proof {
            use_type_invariant(&*self);
            lemma_step_keeps_valid(self@, event);
        }
        match event.kind {
            EventKind::Wake => match self.cycle {
                CycleState::Idle => {
                    self.cycle = CycleState::Sampling { started: event.now };
                    CycleAction::Acquire
                },
                _ => CycleAction::Ignore,
            },
            EventKind::Completed => self.completed(event.now),
            EventKind::Failed => match self.cycle {
                CycleState::Idle => CycleAction::Ignore,
                _ => {
                    let fault = self.fault();
                    self.finish(event.now, Some(fault))
                },
            },
        }
    }
}

/// A valid scheduler stays valid whatever is reported.
pub proof fn lemma_step_keeps_valid(s: SchedulerState, event: CycleEvent)
    requires
        scheduler_valid(s),
    ensures
        scheduler_valid(cycle_step(s, event).0),
{
}

/// The estimator is stepped only when it may be: it is seeded only while
/// unseeded, it is advanced, corrected and read only once seeded, and the
/// time step by which it is advanced is strictly positive. With estimation
/// disabled it is not stepped at all.
pub proof fn lemma_estimator_guarded(s: SchedulerState, event: CycleEvent)
    requires
        scheduler_valid(s),
    ensures
        ({
            let (after, action) = cycle_step(s, event);
            &&& action is Seed ==> s.estimation is Unseeded
            &&& action matches CycleAction::Predict { dt } ==> dt > 0 && after.estimation is Seeded
            &&& action is Update ==> s.estimation is Seeded
            &&& action is ReadState ==> s.estimation is Seeded
            &&& s.estimation is Disabled ==> !(action is Seed || action is Predict
                || action is Update || action is ReadState)
        }),
{
}

/// The time step of a cycle is fixed when its sample is acquired. For the
/// first sample of a scheduler it is the configured default. For every later
/// one it is the time since the previous sample, and if no time has passed
/// the cycle is skipped. The instant of a sample with a time step is the
/// previous sample from then on.
pub proof fn lemma_dt_of_cycle(s: SchedulerState, now: u64)
    requires
        scheduler_valid(s),
        s.cycle is Sampling,
    ensures
        ({
            let after = cycle_step(s, CycleEvent { kind: EventKind::Completed, now });
            let started = s.cycle->Sampling_started;
            match s.clock.last {
                None => after.0.cycle == (CycleState::Converting { started, dt: s.clock.default_dt })
                    && after.0.clock.last == Some(now) && after.1 is Convert,
                Some(last) => if now > last {
                    after.0.cycle == (CycleState::Converting { started, dt: (now - last) as u64 })
                        && after.0.clock.last == Some(now) && after.1 is Convert
                } else {
                    after.0.cycle is Idle && after.0.clock == s.clock && after.1
                        == (CycleAction::Rest {
                        wait: wait_after(s.policy, started, now),
                        skipped: Some(CycleFault::ClockStalled),
                    })
                },
            }
        }),
{
}

/// A failed step ends the cycle and only the cycle: the scheduler is idle
/// again, the failure is handed out for logging, and what was recorded of
/// earlier samples stays as it was. A report made while idle, other than a
/// wake-up, changes nothing.
pub proof fn lemma_failure_skips_cycle(s: SchedulerState, now: u64)
    requires
        scheduler_valid(s),
    ensures
        ({
            let after = cycle_step(s, CycleEvent { kind: EventKind::Failed, now });
            if s.cycle is Idle {
                after == (s, CycleAction::Ignore)
            } else {
                &&& after.0 == (SchedulerState { cycle: CycleState::Idle, ..s })
                &&& after.1 matches CycleAction::Rest { wait, skipped }
                &&& skipped == Some(fault_in(s.cycle))
                &&& wait == wait_after(s.policy, started_at(s.cycle), now)
            }
        }),
{
}

/// Two cycles never overlap: a wake-up during a cycle starts nothing and
/// changes nothing, and a wake-up while idle starts exactly one cycle.
pub proof fn lemma_no_overlap(s: SchedulerState, now: u64)
    requires
        scheduler_valid(s),
    ensures
        ({
            let after = cycle_step(s, CycleEvent { kind: EventKind::Wake, now });
            if s.cycle is Idle {
                after == (
                    SchedulerState { cycle: CycleState::Sampling { started: now }, ..s },
                    CycleAction::Acquire,
                )
            } else {
                after == (s, CycleAction::Ignore)
            }
        }),
{
}

/// A fixed-interval loop sleeps for what the cycle left of the period, and
/// not at all after a cycle that overran it; an event-triggered loop waits
/// for its signal.
pub proof fn lemma_wait_after_cycle(policy: SchedulingPolicy, started: u64, now: u64)
    ensures
        policy matches SchedulingPolicy::FixedInterval { period } ==> {
            &&& wait_after(policy, started, now) matches Wait::Sleep { duration }
            &&& duration <= period
            &&& started <= now && now - started <= period ==> now - started + duration == period
            &&& started <= now && now - started >= period ==> duration == 0
        },
        policy is EventTriggered ==> wait_after(policy, started, now) is Trigger,
{
}

/// The reports of a cycle in which every step succeeds: the wake-up, then
/// one completion for each step that the estimation setting calls for.
pub open spec fn clean_cycle_events(
    estimation: Estimation,
    woke: u64,
    sampled: u64,
    between: u64,
    published: u64,
) -> Seq<CycleEvent> {
    let wake = CycleEvent { kind: EventKind::Wake, now: woke };
    let acquired = CycleEvent { kind: EventKind::Completed, now: sampled };
    let done = CycleEvent { kind: EventKind::Completed, now: between };
    let last = CycleEvent { kind: EventKind::Completed, now: published };
    match estimation {
        Estimation::Disabled => seq![wake, acquired, done, last],
        Estimation::Unseeded => seq![wake, acquired, done, done, done, done, done, last],
        Estimation::Seeded => seq![wake, acquired, done, done, done, done, last],
    }
}

/// What the caller is asked to do in such a cycle, in order.
pub open spec fn clean_cycle_actions(estimation: Estimation, dt: u64, wait: Wait) -> Seq<
    CycleAction,
> {
    let rest = CycleAction::Rest { wait, skipped: None };
    match estimation {
        Estimation::Disabled => seq![
            CycleAction::Acquire,
            CycleAction::Convert,
            CycleAction::Publish,
            rest,
        ],
        Estimation::Unseeded => seq![
            CycleAction::Acquire,
            CycleAction::Convert,
            CycleAction::Seed,
            CycleAction::Predict { dt },
            CycleAction::Update,
            CycleAction::ReadState,
            CycleAction::Publish,
            rest,
        ],
        Estimation::Seeded => seq![
            CycleAction::Acquire,
            CycleAction::Convert,
            CycleAction::Predict { dt },
            CycleAction::Update,
            CycleAction::ReadState,
            CycleAction::Publish,
            rest,
        ],
    }
}

/// Running one more event after a sequence is one more step.
pub proof fn lemma_run_push(s: SchedulerState, events: Seq<CycleEvent>, event: CycleEvent)
    ensures
        cycle_run(s, events.push(event)) == ({
            let before = cycle_run(s, events);
            let last = cycle_step(before.0, event);
            (last.0, before.1.push(last.1))
        }),
{
    assert(events.push(event).drop_last() =~= events);
    assert(events.push(event).last() == event);
}

/// Within a cycle, acquisition comes before conversion, conversion before
/// the estimator's predict, predict before update, update before the read of
/// the state, and all of them before publish. A cycle in which every step
/// succeeds asks for exactly these steps in this order and ends idle, with
/// the sample recorded and the estimator seeded if it runs at all.
pub proof fn lemma_clean_cycle(
    s: SchedulerState,
    woke: u64,
    sampled: u64,
    between: u64,
    published: u64,
)
    requires
        scheduler_valid(s),
        s.cycle is Idle,
        dt_at(s.clock, sampled) is Some,
    ensures
        ({
            let run = cycle_run(
                s,
                clean_cycle_events(s.estimation, woke, sampled, between, published),
            );
            &&& run.1 == clean_cycle_actions(
                s.estimation,
                dt_at(s.clock, sampled)->0,
                wait_after(s.policy, woke, published),
            )
            &&& run.0.cycle is Idle
            &&& run.0.clock.last == Some(sampled)
            &&& run.0.clock.default_dt == s.clock.default_dt
            &&& run.0.policy == s.policy
            &&& run.0.estimation == if s.estimation is Disabled {
                Estimation::Disabled
            } else {
                Estimation::Seeded
            }
        }),
{
    let wake = CycleEvent { kind: EventKind::Wake, now: woke };
    let acquired = CycleEvent { kind: EventKind::Completed, now: sampled };
    let done = CycleEvent { kind: EventKind::Completed, now: between };
    let last = CycleEvent { kind: EventKind::Completed, now: published };
    let e0 = Seq::<CycleEvent>::empty();
    let e1 = e0.push(wake);
    let e2 = e1.push(acquired);
    let e3 = e2.push(done);
    lemma_run_push(s, e0, wake);
    lemma_run_push(s, e1, acquired);
    lemma_run_push(s, e2, done);
    let events = clean_cycle_events(s.estimation, woke, sampled, between, published);
    let actions = clean_cycle_actions(
        s.estimation,
        dt_at(s.clock, sampled)->0,
        wait_after(s.policy, woke, published),
    );
    match s.estimation {
        Estimation::Disabled => {
            let e4 = e3.push(last);
            lemma_run_push(s, e3, last);
            assert(events =~= e4);
            assert(cycle_run(s, e4).1 =~= actions);
        },
        Estimation::Unseeded => {
            let e4 = e3.push(done);
            let e5 = e4.push(done);
            let e6 = e5.push(done);
            let e7 = e6.push(done);
            let e8 = e7.push(last);
            lemma_run_push(s, e3, done);
            lemma_run_push(s, e4, done);
            lemma_run_push(s, e5, done);
            lemma_run_push(s, e6, done);
            lemma_run_push(s, e7, last);
            assert(events =~= e8);
            assert(cycle_run(s, e8).1 =~= actions);
        },
        Estimation::Seeded => {
            let e4 = e3.push(done);
            let e5 = e4.push(done);
            let e6 = e5.push(done);
            let e7 = e6.push(last);
            lemma_run_push(s, e3, done);
            lemma_run_push(s, e4, done);
            lemma_run_push(s, e5, done);
            lemma_run_push(s, e6, last);
            assert(events =~= e7);
            assert(cycle_run(s, e7).1 =~= actions);
        },
    }
}

/// The instant of a sample is recorded when the sample is acquired, whether
/// or not the steps after it succeed: a cycle that fails after acquisition
/// still leaves its sample as the previous one, so the next cycle measures
/// its time step from it.
pub proof fn lemma_sample_recorded_despite_failure(
    s: SchedulerState,
    woke: u64,
    sampled: u64,
    failed: u64,
)
    requires
        scheduler_valid(s),
        s.cycle is Idle,
        dt_at(s.clock, sampled) is Some,
    ensures
        ({
            let wake = CycleEvent { kind: EventKind::Wake, now: woke };
            let acquired = CycleEvent { kind: EventKind::Completed, now: sampled };
            let failure = CycleEvent { kind: EventKind::Failed, now: failed };
            let run = cycle_run(s, seq![wake, acquired, failure]);
            &&& run.0.cycle is Idle
            &&& run.0.clock.last == Some(sampled)
            &&& run.1 == seq![
                CycleAction::Acquire,
                CycleAction::Convert,
                CycleAction::Rest {
                    wait: wait_after(s.policy, woke, failed),
                    skipped: Some(CycleFault::Conversion),
                },
            ]
        }),
{
    let wake = CycleEvent { kind: EventKind::Wake, now: woke };
    let acquired = CycleEvent { kind: EventKind::Completed, now: sampled };
    let failure = CycleEvent { kind: EventKind::Failed, now: failed };
    let e0 = Seq::<CycleEvent>::empty();
    let e1 = e0.push(wake);
    let e2 = e1.push(acquired);
    let e3 = e2.push(failure);
    lemma_run_push(s, e0, wake);
    lemma_run_push(s, e1, acquired);
    lemma_run_push(s, e2, failure);
    assert(seq![wake, acquired, failure] =~= e3);
    assert(cycle_run(s, e3).1 =~= seq![
        CycleAction::Acquire,
        CycleAction::Convert,
        CycleAction::Rest {
            wait: wait_after(s.policy, woke, failed),
            skipped: Some(CycleFault::Conversion),
        },
    ]);
}

/// A failed acquisition records nothing: the next sample is measured from
/// the last one that was acquired, so its time step is positive all the
/// same.
pub proof fn lemma_failed_acquisition_records_nothing(s: SchedulerState, woke: u64, failed: u64)
    requires
        scheduler_valid(s),
        s.cycle is Idle,
    ensures
        ({
            let wake = CycleEvent { kind: EventKind::Wake, now: woke };
            let failure = CycleEvent { kind: EventKind::Failed, now: failed };
            let run = cycle_run(s, seq![wake, failure]);
            &&& run.0 == s
            &&& run.1 == seq![
                CycleAction::Acquire,
                CycleAction::Rest {
                    wait: wait_after(s.policy, woke, failed),
                    skipped: Some(CycleFault::BusError),
                },
            ]
        }),
{
    let wake = CycleEvent { kind: EventKind::Wake, now: woke };
    let failure = CycleEvent { kind: EventKind::Failed, now: failed };
    let e0 = Seq::<CycleEvent>::empty();
    let e1 = e0.push(wake);
    let e2 = e1.push(failure);
    lemma_run_push(s, e0, wake);
    lemma_run_push(s, e1, failure);
    assert(seq![wake, failure] =~= e2);
    assert(cycle_run(s, e2).1 =~= seq![
        CycleAction::Acquire,
        CycleAction::Rest {
            wait: wait_after(s.policy, woke, failed),
            skipped: Some(CycleFault::BusError),
        },
    ]);
}

} // verus!
