use rayge::time_stepper::{frequency_to_micros, TimeStepInfo, TimeStepper};

const MS: u128 = 1_000_000;

fn drain<const P: u64, const S: u64>(stepper: &mut TimeStepper<P, S>) -> Vec<TimeStepInfo> {
    let mut steps = Vec::new();
    let mut iter = stepper.into_iter();
    while let Some(step) = iter.next() {
        steps.push(step);
        assert!(steps.len() < 10_000);
    }
    steps
}

#[test]
fn frequency_to_micros_of_common_rates() {
    assert_eq!(frequency_to_micros(1), 1_000_000);
    assert_eq!(frequency_to_micros(60), 16_666);
    assert_eq!(frequency_to_micros(100), 10_000);
    assert_eq!(frequency_to_micros(1_000_000), 1);
    assert_eq!(frequency_to_micros(1_000_001), 0);
}

#[test]
fn fresh_stepper_is_empty() {
    let mut stepper = TimeStepper::<10_000, 10_000>::default();
    assert_eq!(stepper.processed_time(), 0);
    assert_eq!(stepper.pending_time(), 0);
    assert!(drain(&mut stepper).is_empty());
}

#[test]
fn one_shot_backlog_is_drained_in_whole_steps() {
    let mut stepper = TimeStepper::<10_000, 10_000>::default();
    stepper.add_assign(35 * MS);
    let steps = drain(&mut stepper);
    assert_eq!(
        steps,
        vec![
            TimeStepInfo { now: 0, delta: 10 * MS },
            TimeStepInfo { now: 10 * MS, delta: 10 * MS },
            TimeStepInfo { now: 20 * MS, delta: 10 * MS },
        ]
    );
    assert_eq!(stepper.pending_time(), 5 * MS);
    assert_eq!(stepper.processed_time(), 30 * MS);

    stepper.add_assign(6 * MS);
    let steps = drain(&mut stepper);
    assert_eq!(steps, vec![TimeStepInfo { now: 30 * MS, delta: 10 * MS }]);
    assert_eq!(stepper.pending_time(), MS);
    assert_eq!(stepper.processed_time(), 40 * MS);
}

#[test]
fn no_step_for_a_partial_period() {
    let mut stepper = TimeStepper::<10_000, 10_000>::default();
    stepper.add_assign(10 * MS - 1);
    assert!(stepper.into_iter().next().is_none());
    assert_eq!(stepper.pending_time(), 10 * MS - 1);
    assert_eq!(stepper.processed_time(), 0);
    stepper.add_assign(1);
    assert_eq!(
        stepper.into_iter().next(),
        Some(TimeStepInfo { now: 0, delta: 10 * MS })
    );
    assert_eq!(stepper.pending_time(), 0);
}

#[test]
fn iteration_can_be_taken_up_again() {
    let mut stepper = TimeStepper::<10_000, 10_000>::default();
    stepper.add_assign(25 * MS);
    assert_eq!(
        stepper.into_iter().next(),
        Some(TimeStepInfo { now: 0, delta: 10 * MS })
    );
    assert_eq!(
        stepper.into_iter().next(),
        Some(TimeStepInfo { now: 10 * MS, delta: 10 * MS })
    );
    assert_eq!(stepper.into_iter().next(), None);
    assert_eq!(stepper.pending_time(), 5 * MS);
}

#[test]
fn step_larger_than_period_takes_what_is_pending() {
    // A step is due from 10 ms on and covers up to 25 ms.
    let mut stepper = TimeStepper::<10_000, 25_000>::default();
    stepper.add_assign(40 * MS);
    let steps = drain(&mut stepper);
    assert_eq!(
        steps,
        vec![
            TimeStepInfo { now: 0, delta: 25 * MS },
            TimeStepInfo { now: 25 * MS, delta: 15 * MS },
        ]
    );
    assert_eq!(stepper.pending_time(), 0);
    assert_eq!(stepper.processed_time(), 40 * MS);
}

#[test]
fn step_smaller_than_period_leaves_less_than_a_period() {
    // A step is due from 10 ms on and covers 4 ms.
    let mut stepper = TimeStepper::<10_000, 4_000>::default();
    stepper.add_assign(13 * MS);
    let steps = drain(&mut stepper);
    assert_eq!(steps, vec![TimeStepInfo { now: 0, delta: 4 * MS }]);
    assert_eq!(stepper.pending_time(), 9 * MS);
}

#[test]
fn processed_and_pending_add_up_to_what_was_added() {
    let mut stepper = TimeStepper::<7_000, 7_000>::default();
    let mut added: u128 = 0;
    for delta in [3 * MS, 11 * MS, 0, 29 * MS, 1, 6 * MS] {
        stepper.add_assign(delta);
        added += delta;
        let before = stepper.processed_time();
        let steps = drain(&mut stepper);
        let covered: u128 = steps.iter().map(|s| s.delta).sum();
        assert_eq!(stepper.processed_time(), before + covered);
        assert_eq!(stepper.processed_time() + stepper.pending_time(), added);
        assert!(stepper.pending_time() < 7 * MS);
    }
}

#[test]
fn sub_microsecond_time_is_kept() {
    let mut stepper = TimeStepper::<1, 1>::default();
    stepper.add_assign(999);
    assert!(stepper.into_iter().next().is_none());
    stepper.add_assign(1);
    assert_eq!(
        stepper.into_iter().next(),
        Some(TimeStepInfo { now: 0, delta: 1_000 })
    );
}
