use hw::load::LoadController;
use hw::sensor::{HardwareType, SensorType};
use hw::worker::{
    plan_load_spawn, should_adjust, sleep_remainder_ms, too_many_overflows, worker_step, SpawnPlan,
    WorkerStep,
};

#[test]
fn new_controller_clamps_and_defaults() {
    let ctl = LoadController::new(50);
    assert_eq!(ctl.get_loaded(), 50);
    assert_eq!(ctl.get_current_load(), 0);
    assert_eq!(ctl.get_iterations(), 100_000);
    assert!(!ctl.is_running());
    assert_eq!(ctl.get_total_work_done(), 0);

    let high = LoadController::new(250);
    assert_eq!(high.get_loaded(), 100);
}

#[test]
fn set_loaded_clamps_to_percentage() {
    let mut ctl = LoadController::new(50);
    ctl.set_loaded(80);
    assert_eq!(ctl.get_loaded(), 80);
    ctl.set_loaded(1000);
    assert_eq!(ctl.get_loaded(), 100);
    ctl.set_loaded(0);
    assert_eq!(ctl.get_loaded(), 0);
}

#[test]
fn retune_scales_up_when_under_target() {
    let mut ctl = LoadController::new(50);
    ctl.auto_fix_load(30);
    assert_eq!(ctl.get_current_load(), 30);
    assert_eq!(ctl.get_iterations(), 110_000);
}

#[test]
fn retune_scales_down_when_over_target() {
    let mut ctl = LoadController::new(50);
    ctl.auto_fix_load(80);
    assert_eq!(ctl.get_current_load(), 80);
    assert_eq!(ctl.get_iterations(), 90_000);
}

#[test]
fn retune_dead_band_leaves_work_units() {
    let mut ctl = LoadController::new(50);
    ctl.auto_fix_load(52);
    assert_eq!(ctl.get_iterations(), 100_000);
    ctl.auto_fix_load(45);
    assert_eq!(ctl.get_iterations(), 100_000);
    ctl.auto_fix_load(55);
    assert_eq!(ctl.get_iterations(), 100_000);
    ctl.auto_fix_load(56);
    assert_eq!(ctl.get_iterations(), 90_000);
}

#[test]
fn bounds_hold_for_all_percent_inputs() {
    for target in 0..=100u64 {
        for measured in (0..=100u64).step_by(10) {
            let mut ctl = LoadController::new(0);
            ctl.set_loaded(target);
            ctl.auto_fix_load(measured);
            assert!(ctl.get_loaded() <= 100);
            assert!(ctl.get_current_load() <= 100);
        }
    }
}

#[test]
fn saturated_measurements_never_retune() {
    let mut ctl = LoadController::new(10);
    for _ in 0..20 {
        ctl.auto_fix_load(100);
        assert_eq!(ctl.get_iterations(), 100_000);
        assert_eq!(ctl.get_current_load(), 100);
    }
}

#[test]
fn measured_above_full_is_clamped_but_retunes() {
    let mut ctl = LoadController::new(10);
    ctl.auto_fix_load(150);
    assert_eq!(ctl.get_current_load(), 100);
    assert_eq!(ctl.get_iterations(), 90_000);
}

#[test]
fn start_stop_flip_running_flag() {
    let mut ctl = LoadController::new(50);
    ctl.start_running();
    assert!(ctl.is_running());
    ctl.stop_running();
    assert!(!ctl.is_running());
}

#[test]
fn work_done_counter_saturates() {
    let mut ctl = LoadController::new(50);
    ctl.add_work_done(7);
    assert_eq!(ctl.get_total_work_done(), 7);
    ctl.add_work_done(u64::MAX);
    assert_eq!(ctl.get_total_work_done(), u64::MAX);
}

#[test]
fn stopped_controller_makes_worker_exit() {
    let mut ctl = LoadController::new(50);
    ctl.start_running();
    assert_eq!(worker_step(&ctl), WorkerStep::Work(100_000));
    ctl.stop_running();
    assert_eq!(worker_step(&ctl), WorkerStep::Exit);
}

#[test]
fn overflow_guard_trips_past_half() {
    assert!(!too_many_overflows(0, 100));
    assert!(!too_many_overflows(50, 100));
    assert!(too_many_overflows(51, 100));
    assert!(!too_many_overflows(0, 0));
}

#[test]
fn tick_timing_decisions() {
    assert!(!should_adjust(99));
    assert!(should_adjust(100));
    assert!(should_adjust(250));
    assert_eq!(sleep_remainder_ms(30), 70);
    assert_eq!(sleep_remainder_ms(0), 100);
    assert_eq!(sleep_remainder_ms(100), 0);
    assert_eq!(sleep_remainder_ms(500), 0);
}

#[test]
fn spawn_plan_matches_combination() {
    assert_eq!(
        plan_load_spawn(4, &HardwareType::CPU, &SensorType::Load, 50),
        SpawnPlan::Spawn(4)
    );
    assert_eq!(
        plan_load_spawn(8, &HardwareType::CPU, &SensorType::Clock, 30),
        SpawnPlan::Spawn(8)
    );
    assert_eq!(
        plan_load_spawn(8, &HardwareType::CPU, &SensorType::ClockAverage, 30),
        SpawnPlan::Spawn(8)
    );
    assert_eq!(
        plan_load_spawn(4, &HardwareType::CPU, &SensorType::Load, 0),
        SpawnPlan::RejectZeroLoad
    );
    assert_eq!(
        plan_load_spawn(4, &HardwareType::CPU, &SensorType::Temperature, 50),
        SpawnPlan::SkipLoad
    );
    assert_eq!(
        plan_load_spawn(4, &HardwareType::RAM, &SensorType::Load, 50),
        SpawnPlan::SkipLoad
    );
}
