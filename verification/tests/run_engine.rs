use hw::run::{RunError, RunPhase, TestParams, TestRun, TickEvent, TickStep, Verdict};
use hw::sensor::Sensor;
use hw::sensor::SensorType;
use hw::stats::{is_value_out_of_range, round_div, TestResults};

fn reading(value: i64) -> Sensor {
    Sensor {
        name: "CPU Clock".to_string(),
        identifier: "/cpu/0/clock".to_string(),
        sensor_type: SensorType::Clock,
        parent: "/cpu/0".to_string(),
        value,
        min: 0,
        max: 0,
        index: 0,
        data: String::new(),
    }
}

fn check_run(secs: usize, target: i64, tolerance: i64) -> TestRun {
    let params = TestParams {
        test_secs: secs,
        v1: target,
        v2: tolerance,
        v3: 50,
    };
    let mut run = TestRun::new(params, true);
    run.start();
    run
}

#[test]
fn stats_accumulate_min_max_avg() {
    let mut r = TestResults::new();
    r.update(5, 10);
    r.update(1, 20);
    r.update(9, 30);
    assert_eq!(r.min(), 1);
    assert_eq!(r.max(), 9);
    assert_eq!(r.total(), 15);
    assert_eq!(r.avg(), 5);
    assert_eq!(r.sample_count(), 3);
    assert_eq!(r.samples(), &vec![5, 1, 9]);
    assert_eq!(r.load_total(), 60);
    assert_eq!(r.load_avg(), 30);
}

#[test]
fn first_sample_sets_min_unconditionally() {
    let mut r = TestResults::new();
    r.update(5, 0);
    assert_eq!(r.min(), 5);
    r.update(0, 0);
    assert_eq!(r.min(), 0);
    r.update(7, 0);
    assert_eq!(r.min(), 0);
}

#[test]
fn average_rounds_half_away_from_zero() {
    let mut r = TestResults::new();
    r.update(1, 0);
    r.update(2, 0);
    assert_eq!(r.avg(), 2);

    let mut neg = TestResults::new();
    neg.update(-1, 0);
    neg.update(-2, 0);
    assert_eq!(neg.avg(), -2);

    assert_eq!(round_div(3, 2), 2);
    assert_eq!(round_div(-3, 2), -2);
    assert_eq!(round_div(5, 3), 2);
    assert_eq!(round_div(1, 3), 0);
    assert_eq!(round_div(-1, 3), 0);
}

#[test]
fn single_sample_deviation_is_zero() {
    let mut r = TestResults::new();
    r.update(3000, 0);
    let (num, dof) = r.variance_parts();
    assert_eq!(num, 0);
    assert_eq!(dof, 0);
    let std_dev = if dof == 0 {
        0.0f64
    } else {
        ((num as f64) / (dof as f64)).sqrt()
    };
    assert_eq!(std_dev, 0.0);
}

#[test]
fn deviation_is_order_invariant() {
    let mut a = TestResults::new();
    for v in [3, 1, 2] {
        a.update(v, 0);
    }
    let mut b = TestResults::new();
    for v in [1, 2, 3] {
        b.update(v, 0);
    }
    assert_eq!(a.variance_parts(), b.variance_parts());
    let (num, dof) = a.variance_parts();
    assert_eq!(num, 2);
    assert_eq!(dof, 2);
    let std_dev = ((num as f64) / (dof as f64)).sqrt();
    assert_eq!(std_dev, 1.0);
}

#[test]
fn out_of_range_band_is_inclusive() {
    assert!(is_value_out_of_range(5500, 3000, 2000));
    assert!(!is_value_out_of_range(5000, 3000, 2000));
    assert!(!is_value_out_of_range(1000, 3000, 2000));
    assert!(is_value_out_of_range(999, 3000, 2000));
    assert!(!is_value_out_of_range(3000, 3000, 2000));
}

#[test]
fn third_violation_aborts_the_run() {
    let mut run = check_run(10, 3000, 2000);
    assert_eq!(
        run.on_tick(TickEvent::Readings(vec![reading(5500)]), 0),
        TickStep::Continue
    );
    assert_eq!(
        run.on_tick(TickEvent::Readings(vec![reading(5500)]), 0),
        TickStep::Continue
    );
    assert_eq!(run.results().error_count(), 2);
    assert_eq!(run.phase(), RunPhase::Running);
    assert_eq!(
        run.on_tick(TickEvent::Readings(vec![reading(5500)]), 0),
        TickStep::Abort
    );
    assert_eq!(run.phase(), RunPhase::Aborted);
    assert_eq!(run.verdict(), Verdict::Fail);
    assert_eq!(run.error(), Some(RunError::ThresholdExceeded));
    assert_eq!(run.results().error_count(), 3);
    assert_eq!(run.results().sample_count(), 3);
}

#[test]
fn two_violations_do_not_abort() {
    let mut run = check_run(10, 3000, 2000);
    run.on_tick(TickEvent::Readings(vec![reading(5500)]), 0);
    run.on_tick(TickEvent::Readings(vec![reading(5500)]), 0);
    assert_eq!(run.phase(), RunPhase::Running);
    assert_eq!(run.verdict(), Verdict::Pending);
    assert_eq!(run.error(), None);
}

#[test]
fn one_batch_of_three_violations_aborts_at_once() {
    let mut run = check_run(10, 3000, 2000);
    let batch = vec![reading(5500), reading(5500), reading(5500)];
    assert_eq!(run.on_tick(TickEvent::Readings(batch), 0), TickStep::Abort);
    assert_eq!(run.phase(), RunPhase::Aborted);
    assert_eq!(run.error(), Some(RunError::ThresholdExceeded));
    assert_eq!(run.results().sample_count(), 3);
}

#[test]
fn steady_readings_pass_after_three_seconds() {
    let mut run = check_run(3, 3000, 2000);
    assert_eq!(
        run.on_tick(TickEvent::Readings(vec![reading(3000)]), 40),
        TickStep::Continue
    );
    assert_eq!(
        run.on_tick(TickEvent::Readings(vec![reading(3000)]), 45),
        TickStep::Continue
    );
    assert_eq!(
        run.on_tick(TickEvent::Readings(vec![reading(3000)]), 50),
        TickStep::Finished
    );
    assert_eq!(run.phase(), RunPhase::Completed);
    assert_eq!(run.verdict(), Verdict::Pass);
    assert_eq!(run.results().sample_count(), 3);
    assert_eq!(run.results().min(), 3000);
    assert_eq!(run.results().max(), 3000);
    assert_eq!(run.results().avg(), 3000);
    assert_eq!(run.results().error_count(), 0);
    assert_eq!(run.ticks_done(), 3);
}

#[test]
fn query_error_aborts_only_in_check_mode() {
    let mut checked = check_run(5, 3000, 2000);
    assert_eq!(checked.on_tick(TickEvent::QueryError, 0), TickStep::Abort);
    assert_eq!(checked.phase(), RunPhase::Aborted);
    assert_eq!(checked.error(), Some(RunError::DataUnavailable));
    assert_eq!(checked.verdict(), Verdict::Fail);
}

#[test]
fn query_error_is_skipped_outside_check_mode() {
    let params = TestParams {
        test_secs: 3,
        v1: 3000,
        v2: 2000,
        v3: 0,
    };
    let mut run = TestRun::new(params, false);
    run.start();
    assert_eq!(run.on_tick(TickEvent::QueryError, 0), TickStep::Continue);
    assert_eq!(run.phase(), RunPhase::Running);
    assert_eq!(run.results().sample_count(), 0);
    assert_eq!(
        run.on_tick(TickEvent::Readings(vec![reading(3000)]), 0),
        TickStep::Continue
    );
    assert_eq!(run.results().sample_count(), 1);
    assert_eq!(run.on_tick(TickEvent::QueryError, 0), TickStep::Finished);
    assert_eq!(run.phase(), RunPhase::Completed);
    assert_eq!(run.verdict(), Verdict::Pass);
    assert_eq!(run.results().sample_count(), 1);
    assert_eq!(run.results().avg(), 3000);
}

#[test]
fn check_run_without_samples_fails() {
    let mut run = check_run(2, 3000, 2000);
    assert_eq!(
        run.on_tick(TickEvent::Readings(vec![]), 0),
        TickStep::Continue
    );
    assert_eq!(
        run.on_tick(TickEvent::Readings(vec![]), 0),
        TickStep::Finished
    );
    assert_eq!(run.phase(), RunPhase::Completed);
    assert_eq!(run.verdict(), Verdict::Fail);
    assert_eq!(run.error(), Some(RunError::NoSamplesCollected));
}

#[test]
fn zero_duration_run_completes_at_start() {
    let mut checked = check_run(0, 3000, 2000);
    assert_eq!(checked.phase(), RunPhase::Completed);
    assert_eq!(checked.verdict(), Verdict::Fail);

    let params = TestParams {
        test_secs: 0,
        v1: 0,
        v2: 0,
        v3: 0,
    };
    let mut plain = TestRun::new(params, false);
    plain.start();
    assert_eq!(plain.phase(), RunPhase::Completed);
    assert_eq!(plain.verdict(), Verdict::Pass);
}

#[test]
fn data_payload_prefers_the_readings_own() {
    let mut run = check_run(3, 3000, 2000);
    let mut with_data = reading(3000);
    with_data.data = "3001".to_string();
    run.on_tick(TickEvent::Readings(vec![with_data]), 0);
    assert_eq!(run.results().data(), "3001");
    // A payload-less reading overwrites it with the average as text.
    run.on_tick(TickEvent::Readings(vec![reading(3000)]), 0);
    assert_eq!(run.results().data(), "3000");
}

#[test]
fn load_statistics_follow_measurements() {
    let mut run = check_run(2, 3000, 2000);
    run.on_tick(TickEvent::Readings(vec![reading(3000)]), 42);
    assert_eq!(run.results().load_avg(), 42);
    run.on_tick(TickEvent::Readings(vec![reading(3000)]), 58);
    assert_eq!(run.results().load_avg(), 58);
    assert_eq!(run.results().load_total(), 100);
}

#[test]
fn empty_payload_falls_back_to_average_text() {
    let mut run = check_run(5, 3000, 2000);
    let mut with_data = reading(4);
    with_data.data = "X".to_string();
    run.on_tick(TickEvent::Readings(vec![with_data]), 0);
    assert_eq!(run.results().data(), "X");
    // The next reading has no payload: the payload becomes the
    // rounded average over both readings, rendered as text.
    run.on_tick(TickEvent::Readings(vec![reading(5)]), 0);
    assert_eq!(run.results().avg(), 5);
    assert_eq!(run.results().data(), "5");
}

#[test]
fn payload_is_never_empty_after_a_sample() {
    let mut run = check_run(5, 3000, 2000);
    assert_eq!(run.results().data(), "");
    run.on_tick(TickEvent::Readings(vec![reading(3000)]), 0);
    assert_eq!(run.results().data(), "3000");
    run.on_tick(TickEvent::Readings(vec![reading(-8)]), 0);
    assert_eq!(run.results().avg(), 1496);
    assert_eq!(run.results().data(), "1496");
}

#[test]
fn integer_text_rendering() {
    assert_eq!(hw::text::i64_text(0), "0");
    assert_eq!(hw::text::i64_text(5), "5");
    assert_eq!(hw::text::i64_text(3000), "3000");
    assert_eq!(hw::text::i64_text(-42), "-42");
    assert_eq!(hw::text::i64_text(1_000_000_000_000), "1000000000000");
    assert_eq!(hw::text::i64_text(i64::MIN), "-9223372036854775808");
    assert_eq!(hw::text::i64_text(i64::MAX), "9223372036854775807");
}

#[test]
fn join_failure_aborts_and_fails_the_run() {
    let mut run = check_run(3, 3000, 2000);
    run.on_tick(TickEvent::Readings(vec![reading(3000)]), 0);
    run.abort_with(RunError::WorkerJoinFailure);
    assert_eq!(run.phase(), RunPhase::Aborted);
    assert_eq!(run.verdict(), Verdict::Fail);
    assert_eq!(run.error(), Some(RunError::WorkerJoinFailure));
    // The statistics recorded before the failure are kept.
    assert_eq!(run.results().sample_count(), 1);

    let mut done = check_run(1, 3000, 2000);
    done.on_tick(TickEvent::Readings(vec![reading(3000)]), 0);
    assert_eq!(done.phase(), RunPhase::Completed);
    done.abort_with(RunError::WorkerJoinFailure);
    assert_eq!(done.verdict(), Verdict::Fail);
    assert_eq!(done.error(), Some(RunError::WorkerJoinFailure));
}
