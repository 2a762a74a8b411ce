use imu_pipeline::clock::elapsed;
use imu_pipeline::clock::sleep_remainder;
use imu_pipeline::clock::SampleClock;
use imu_pipeline::scheduler::CycleAction;
use imu_pipeline::scheduler::CycleEvent;
use imu_pipeline::scheduler::CycleFault;
use imu_pipeline::scheduler::CycleState;
use imu_pipeline::scheduler::Estimation;
use imu_pipeline::scheduler::EstimatorStep;
use imu_pipeline::scheduler::EventKind;
use imu_pipeline::scheduler::Scheduler;
use imu_pipeline::scheduler::SchedulingPolicy;
use imu_pipeline::scheduler::Wait;

const MILLISECOND: u64 = 1_000_000;

fn wake(now: u64) -> CycleEvent {
    CycleEvent { kind: EventKind::Wake, now }
}

fn done(now: u64) -> CycleEvent {
    CycleEvent { kind: EventKind::Completed, now }
}

fn failed(now: u64) -> CycleEvent {
    CycleEvent { kind: EventKind::Failed, now }
}

#[test]
fn first_dt_is_the_configured_default() {
    let mut clock = SampleClock::new(MILLISECOND).unwrap();
    assert_eq!(clock.default_dt(), MILLISECOND);
    assert_eq!(clock.last_sample_time(), None);
    assert_eq!(clock.tick(5_000_000_000), Some(MILLISECOND));
    assert_eq!(clock.last_sample_time(), Some(5_000_000_000));
}

#[test]
fn later_dt_is_the_time_since_the_previous_sample() {
    let mut clock = SampleClock::new(MILLISECOND).unwrap();
    clock.tick(100);
    assert_eq!(clock.tick(2_000_100), Some(2_000_000));
    assert_eq!(clock.tick(2_000_101), Some(1));
    assert_eq!(clock.tick(u64::MAX), Some(u64::MAX - 2_000_101));
    assert_eq!(clock.last_sample_time(), Some(u64::MAX));
}

#[test]
fn first_sample_at_instant_zero_gets_the_default() {
    let mut clock = SampleClock::new(7).unwrap();
    assert_eq!(clock.tick(0), Some(7));
    assert_eq!(clock.tick(1), Some(1));
}

#[test]
fn stalled_clock_gives_no_dt_and_records_nothing() {
    let mut clock = SampleClock::new(MILLISECOND).unwrap();
    clock.tick(500);
    assert_eq!(clock.tick(500), None);
    assert_eq!(clock.last_sample_time(), Some(500));
    assert_eq!(clock.tick(499), None);
    assert_eq!(clock.last_sample_time(), Some(500));
    assert_eq!(clock.tick(501), Some(1));
}

#[test]
fn zero_default_dt_is_refused() {
    assert!(SampleClock::new(0).is_none());
    assert!(SampleClock::new(1).is_some());
    assert!(Scheduler::new(SchedulingPolicy::EventTriggered, Estimation::Unseeded, 0).is_none());
}

#[test]
fn sleep_is_the_rest_of_the_period() {
    assert_eq!(sleep_remainder(2500, 400), 2100);
    assert_eq!(sleep_remainder(2500, 0), 2500);
    assert_eq!(sleep_remainder(2500, 2499), 1);
}

#[test]
fn overrun_cycle_adds_no_delay() {
    assert_eq!(sleep_remainder(2500, 2500), 0);
    assert_eq!(sleep_remainder(2500, 9000), 0);
    assert_eq!(sleep_remainder(0, 0), 0);
}

#[test]
fn elapsed_is_never_negative() {
    assert_eq!(elapsed(10, 25), 15);
    assert_eq!(elapsed(25, 25), 0);
    assert_eq!(elapsed(25, 10), 0);
}

#[test]
fn new_scheduler_is_idle_and_has_seen_no_sample() {
    let policy = SchedulingPolicy::FixedInterval { period: 10 * MILLISECOND };
    let scheduler = Scheduler::new(policy, Estimation::Seeded, MILLISECOND).unwrap();
    assert_eq!(scheduler.cycle(), CycleState::Idle);
    assert_eq!(scheduler.policy(), policy);
    assert_eq!(scheduler.estimation(), Estimation::Seeded);
    assert_eq!(scheduler.last_sample_time(), None);
}

#[test]
fn first_cycle_seeds_then_estimates_with_the_default_dt() {
    let mut s = Scheduler::new(SchedulingPolicy::EventTriggered, Estimation::Unseeded, MILLISECOND)
        .unwrap();
    assert_eq!(s.step(wake(100)), CycleAction::Acquire);
    assert_eq!(s.cycle(), CycleState::Sampling { started: 100 });
    assert_eq!(s.step(done(150)), CycleAction::Convert);
    assert_eq!(s.cycle(), CycleState::Converting { started: 100, dt: MILLISECOND });
    assert_eq!(s.last_sample_time(), Some(150));
    assert_eq!(s.step(done(160)), CycleAction::Seed);
    assert_eq!(s.estimation(), Estimation::Unseeded);
    assert_eq!(s.step(done(170)), CycleAction::Predict { dt: MILLISECOND });
    assert_eq!(s.estimation(), Estimation::Seeded);
    assert_eq!(
        s.cycle(),
        CycleState::Estimating { started: 100, dt: MILLISECOND, step: EstimatorStep::Predict }
    );
    assert_eq!(s.step(done(180)), CycleAction::Update);
    assert_eq!(s.step(done(190)), CycleAction::ReadState);
    assert_eq!(s.step(done(200)), CycleAction::Publish);
    assert_eq!(s.cycle(), CycleState::Publishing { started: 100 });
    assert_eq!(s.step(done(210)), CycleAction::Rest { wait: Wait::Trigger, skipped: None });
    assert_eq!(s.cycle(), CycleState::Idle);
}

#[test]
fn second_cycle_measures_dt_and_does_not_seed_again() {
    let mut s = Scheduler::new(SchedulingPolicy::EventTriggered, Estimation::Unseeded, MILLISECOND)
        .unwrap();
    s.step(wake(100));
    for now in [150, 160, 170, 180, 190, 200, 210] {
        s.step(done(now));
    }
    assert_eq!(s.cycle(), CycleState::Idle);
    assert_eq!(s.step(wake(2_000_100)), CycleAction::Acquire);
    assert_eq!(s.step(done(2_000_150)), CycleAction::Convert);
    assert_eq!(s.step(done(2_000_160)), CycleAction::Predict { dt: 2_000_000 });
    assert_eq!(s.step(done(2_000_170)), CycleAction::Update);
    assert_eq!(s.step(done(2_000_180)), CycleAction::ReadState);
    assert_eq!(s.step(done(2_000_190)), CycleAction::Publish);
    assert_eq!(s.step(done(2_000_200)), CycleAction::Rest { wait: Wait::Trigger, skipped: None });
}

#[test]
fn fixed_interval_cycle_sleeps_for_the_rest_of_the_period() {
    let policy = SchedulingPolicy::FixedInterval { period: 2_500_000 };
    let mut s = Scheduler::new(policy, Estimation::Seeded, MILLISECOND).unwrap();
    s.step(wake(1_000));
    for now in [2_000, 3_000, 4_000, 5_000, 6_000] {
        s.step(done(now));
    }
    assert_eq!(
        s.step(done(401_000)),
        CycleAction::Rest { wait: Wait::Sleep { duration: 2_100_000 }, skipped: None }
    );
}

#[test]
fn fixed_interval_cycle_that_overruns_does_not_sleep() {
    let policy = SchedulingPolicy::FixedInterval { period: 2_500_000 };
    let mut s = Scheduler::new(policy, Estimation::Seeded, MILLISECOND).unwrap();
    s.step(wake(1_000));
    for now in [2_000, 3_000, 4_000, 5_000, 6_000] {
        s.step(done(now));
    }
    assert_eq!(
        s.step(done(3_000_000)),
        CycleAction::Rest { wait: Wait::Sleep { duration: 0 }, skipped: None }
    );
    assert_eq!(s.step(wake(3_000_000)), CycleAction::Acquire);
}

#[test]
fn cycle_without_estimator_goes_from_conversion_to_publish() {
    let policy = SchedulingPolicy::FixedInterval { period: 2 * MILLISECOND };
    let mut s = Scheduler::new(policy, Estimation::Disabled, MILLISECOND).unwrap();
    assert_eq!(s.step(wake(0)), CycleAction::Acquire);
    assert_eq!(s.step(done(10)), CycleAction::Convert);
    assert_eq!(s.step(done(20)), CycleAction::Publish);
    assert_eq!(
        s.step(done(500_000)),
        CycleAction::Rest { wait: Wait::Sleep { duration: 1_500_000 }, skipped: None }
    );
    assert_eq!(s.estimation(), Estimation::Disabled);
}

#[test]
fn failed_acquisition_skips_the_cycle_and_records_nothing() {
    let mut s = Scheduler::new(SchedulingPolicy::EventTriggered, Estimation::Seeded, MILLISECOND)
        .unwrap();
    s.step(wake(0));
    for now in [10, 20, 30, 40, 50, 60] {
        s.step(done(now));
    }
    assert_eq!(s.last_sample_time(), Some(10));
    assert_eq!(s.step(wake(1_000)), CycleAction::Acquire);
    assert_eq!(
        s.step(failed(1_010)),
        CycleAction::Rest { wait: Wait::Trigger, skipped: Some(CycleFault::BusError) }
    );
    assert_eq!(s.cycle(), CycleState::Idle);
    assert_eq!(s.last_sample_time(), Some(10));
    assert_eq!(s.step(wake(2_000)), CycleAction::Acquire);
    assert_eq!(s.step(done(2_010)), CycleAction::Convert);
    assert_eq!(s.step(done(2_020)), CycleAction::Predict { dt: 2_000 });
}

#[test]
fn failure_after_acquisition_keeps_the_sample_time() {
    let mut s = Scheduler::new(SchedulingPolicy::EventTriggered, Estimation::Seeded, MILLISECOND)
        .unwrap();
    s.step(wake(0));
    s.step(done(10));
    s.step(done(20));
    assert_eq!(
        s.step(failed(30)),
        CycleAction::Rest { wait: Wait::Trigger, skipped: Some(CycleFault::EstimatorPrecondition) }
    );
    assert_eq!(s.cycle(), CycleState::Idle);
    assert_eq!(s.last_sample_time(), Some(10));
    s.step(wake(100));
    s.step(done(110));
    assert_eq!(s.step(done(120)), CycleAction::Predict { dt: 100 });
}

#[test]
fn each_phase_reports_its_own_fault() {
    let policy = SchedulingPolicy::FixedInterval { period: 100 };
    let fresh = Scheduler::new(policy, Estimation::Seeded, 1).unwrap();
    let rest = |skipped| CycleAction::Rest { wait: Wait::Sleep { duration: 90 }, skipped };

    let mut s = fresh;
    s.step(wake(0));
    assert_eq!(s.step(failed(10)), rest(Some(CycleFault::BusError)));

    let mut s = fresh;
    s.step(wake(0));
    s.step(done(1));
    assert_eq!(s.step(failed(10)), rest(Some(CycleFault::Conversion)));

    let mut s = fresh;
    s.step(wake(0));
    for now in [1, 2, 3] {
        s.step(done(now));
    }
    assert_eq!(s.step(failed(10)), rest(Some(CycleFault::EstimatorPrecondition)));

    let mut s = fresh;
    s.step(wake(0));
    for now in [1, 2, 3, 4, 5] {
        s.step(done(now));
    }
    assert_eq!(s.cycle(), CycleState::Publishing { started: 0 });
    assert_eq!(s.step(failed(10)), rest(Some(CycleFault::PublishFailed)));
    assert_eq!(s.cycle(), CycleState::Idle);
}

#[test]
fn failed_seeding_leaves_the_estimator_unseeded() {
    let mut s = Scheduler::new(SchedulingPolicy::EventTriggered, Estimation::Unseeded, MILLISECOND)
        .unwrap();
    s.step(wake(0));
    s.step(done(10));
    assert_eq!(s.step(done(20)), CycleAction::Seed);
    s.step(failed(30));
    assert_eq!(s.estimation(), Estimation::Unseeded);
    s.step(wake(100));
    s.step(done(110));
    assert_eq!(s.step(done(120)), CycleAction::Seed);
}

#[test]
fn stalled_clock_skips_the_cycle() {
    let mut s = Scheduler::new(SchedulingPolicy::EventTriggered, Estimation::Seeded, MILLISECOND)
        .unwrap();
    s.step(wake(0));
    for now in [50, 51, 52, 53, 54, 55] {
        s.step(done(now));
    }
    assert_eq!(s.step(wake(50)), CycleAction::Acquire);
    assert_eq!(
        s.step(done(50)),
        CycleAction::Rest { wait: Wait::Trigger, skipped: Some(CycleFault::ClockStalled) }
    );
    assert_eq!(s.cycle(), CycleState::Idle);
    assert_eq!(s.last_sample_time(), Some(50));
}

#[test]
fn wake_during_a_cycle_starts_no_second_cycle() {
    let mut s = Scheduler::new(SchedulingPolicy::EventTriggered, Estimation::Seeded, MILLISECOND)
        .unwrap();
    s.step(wake(0));
    assert_eq!(s.step(wake(5)), CycleAction::Ignore);
    assert_eq!(s.cycle(), CycleState::Sampling { started: 0 });
    s.step(done(10));
    assert_eq!(s.step(wake(15)), CycleAction::Ignore);
    assert_eq!(s.cycle(), CycleState::Converting { started: 0, dt: MILLISECOND });
}

#[test]
fn reports_while_idle_are_ignored() {
    let mut s = Scheduler::new(SchedulingPolicy::EventTriggered, Estimation::Seeded, MILLISECOND)
        .unwrap();
    assert_eq!(s.step(done(5)), CycleAction::Ignore);
    assert_eq!(s.step(failed(6)), CycleAction::Ignore);
    assert_eq!(s.cycle(), CycleState::Idle);
    assert_eq!(s.last_sample_time(), None);
}
