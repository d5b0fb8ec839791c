//! Per-core load worker decisions. The busy-work itself (a chaotic
//! floating-point transform) and the thread machinery live outside
//! the library; every decision a worker takes in its 100 ms tick —
//! whether to exit, how much work to do, whether a tick degenerated
//! into overflow, when to re-measure, how long to sleep — is made
//! here, from plain values to plain values.
use vstd::prelude::*;

verus! {

use crate::load::LoadController;
use crate::sensor::{HardwareType, SensorType, spec_needs_load};

/// Length of one worker cycle in milliseconds: the worker re-measures
/// the system load and retunes at most once per such tick, and sleeps
/// the remainder of it.
pub const WORKER_TICK_MS: u64 = 100;

/// What a worker does at the top of a cycle.
#[derive(Clone, Copy, Debug, PartialEq, Eq, Structural)]
pub enum WorkerStep {
    /// The controller stopped running: return from the thread now,
    /// performing no further work.
    Exit,
    /// Perform this many busy-work iterations, then finish the tick.
    Work(u64),
}

/// The cooperative-cancellation decision: a worker polls the
/// controller once per tick and exits as soon as the running flag is
/// off, so a stop is observed within one tick of busy work.
pub fn worker_step(ctl: &LoadController) -> (r: WorkerStep)
    ensures
        !ctl@.running ==> r == WorkerStep::Exit,
        ctl@.running ==> r == WorkerStep::Work(ctl@.work_units as u64),
{
    if ctl.is_running() {
        WorkerStep::Work(ctl.get_iterations())
    } else {
        WorkerStep::Exit
    }
}

/// Whether a tick's busy work degenerated: more than half of the
/// iterations performed so far overflowed, so the tick is abandoned
/// early to keep the timing stable.
pub fn too_many_overflows(overflow_count: u64, iterations: u64) -> (r: bool)
    ensures
        r == (overflow_count > iterations / 2),
{
    overflow_count > iterations / 2
}

/// Whether enough of the tick has passed to re-measure the system
/// load and retune.
pub fn should_adjust(elapsed_since_adjust_ms: u64) -> (r: bool)
    ensures
        r == (elapsed_since_adjust_ms >= WORKER_TICK_MS),
{
    elapsed_since_adjust_ms >= WORKER_TICK_MS
}

/// How long to sleep after the busy work: the remainder of the tick,
/// or nothing when the work alone exceeded it.
pub fn sleep_remainder_ms(elapsed_ms: u64) -> (r: u64)
    ensures
        r == if elapsed_ms < WORKER_TICK_MS {
            WORKER_TICK_MS - elapsed_ms
        } else {
            0int
        },
{
    if elapsed_ms < WORKER_TICK_MS {
        WORKER_TICK_MS - elapsed_ms
    } else {
        0
    }
}

/// How a run sets up its synthetic load.
#[derive(Clone, Copy, Debug, PartialEq, Eq, Structural)]
pub enum SpawnPlan {
    /// Spawn one worker per logical core (this many) after starting
    /// the controller.
    Spawn(usize),
    /// This hardware/sensor combination takes no synthetic load: run
    /// without workers.
    SkipLoad,
    /// The combination needs load but the requested level is zero:
    /// reject the run.
    RejectZeroLoad,
}

/// Decides the worker-pool setup for a run: one worker per logical
/// core when the combination needs synthetic load, none otherwise,
/// and a rejection when load is needed but the requested level is
/// zero.
pub fn plan_load_spawn(core_count: usize, hw: &HardwareType, st: &SensorType, loaded: u64) -> (r:
    SpawnPlan)
    ensures
        r == if spec_needs_load(*hw, *st) {
            if loaded == 0 {
                SpawnPlan::RejectZeroLoad
            } else {
                SpawnPlan::Spawn(core_count)
            }
        } else {
            SpawnPlan::SkipLoad
        },
{
    if crate::sensor::needs_load(hw, st) {
        if loaded == 0 {
            SpawnPlan::RejectZeroLoad
        } else {
            SpawnPlan::Spawn(core_count)
        }
    } else {
        SpawnPlan::SkipLoad
    }
}

} // verus!
