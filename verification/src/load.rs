//! Feedback state for the synthetic CPU load: a target level, the last
//! measured level, and the busy-work iteration count that the workers
//! perform per tick. The count is the single feedback-controlled
//! variable; it is only ever scaled, never set to an absolute value
//! after construction.
//!
//! The surrounding program shares one controller between the test-run
//! task and the worker threads (behind its own synchronisation); the
//! logic here is the sequential transition that every such update makes.
use vstd::prelude::*;

verus! {

use crate::LOAD_FULL;

/// Busy-work iterations a worker starts with, before any retuning.
pub const DEFAULT_WORK_UNITS: u64 = 100_000;

/// Retuning only happens when target and measured load differ by more
/// than this many percentage points.
pub const LOAD_DEAD_BAND: u64 = 5;

/// Mathematical model of the controller's five fields.
pub ghost struct LoadModel {
    /// Operator-requested synthetic CPU load, a percentage.
    pub target_load: int,
    /// Last observed whole-system CPU usage, a percentage.
    pub measured_load: int,
    /// Busy-work iterations per worker cycle.
    pub work_units: int,
    /// Lifecycle flag that workers poll to know when to exit.
    pub running: bool,
    /// Cumulative iterations across all workers, diagnostic only.
    pub total_work_done: int,
}

impl LoadModel {
    /// Both percentages stay clamped and the counters fit the machine
    /// words that carry them.
    pub open spec fn valid(self) -> bool {
        &&& 0 <= self.target_load <= LOAD_FULL
        &&& 0 <= self.measured_load <= LOAD_FULL
        &&& 0 <= self.work_units <= u64::MAX
        &&& 0 <= self.total_work_done <= u64::MAX
    }
}

/// A percentage pushed into `0..=LOAD_FULL`.
pub open spec fn spec_clamp_load(v: int) -> int {
    if v > LOAD_FULL {
        LOAD_FULL as int
    } else if v < 0 {
        0
    } else {
        v
    }
}

/// One scaling step up: a tenth more work, saturating at the largest
/// representable count.
pub open spec fn spec_scale_up(w: int) -> int {
    if w + w / 10 <= u64::MAX {
        w + w / 10
    } else {
        u64::MAX as int
    }
}

/// One scaling step down: a tenth less work.
pub open spec fn spec_scale_down(w: int) -> int {
    w - w / 10
}

/// The transition `auto_fix_load` makes: store the measured load; at
/// full saturation change nothing else; otherwise scale the work-unit
/// count when the measurement sits outside the dead band around the
/// target.
pub open spec fn spec_retune(m: LoadModel, measured: int) -> LoadModel {
    let stored = LoadModel { measured_load: spec_clamp_load(measured), ..m };
    if measured == LOAD_FULL {
        stored
    } else {
        let diff = if stored.measured_load <= m.target_load {
            m.target_load - stored.measured_load
        } else {
            stored.measured_load - m.target_load
        };
        if diff > LOAD_DEAD_BAND {
            if stored.measured_load < m.target_load {
                LoadModel { work_units: spec_scale_up(m.work_units), ..stored }
            } else {
                LoadModel { work_units: spec_scale_down(m.work_units), ..stored }
            }
        } else {
            stored
        }
    }
}

/// The controller's state. The surrounding program keeps one instance
/// per test invocation and tears it down (flag flipped, worker threads
/// joined) before the verdict is computed.
pub struct LoadController {
    target_load: u64,
    measured_load: u64,
    work_units: u64,
    running: bool,
    total_work_done: u64,
}

impl View for LoadController {
    type V = LoadModel;

    closed spec fn view(&self) -> LoadModel {
        LoadModel {
            target_load: self.target_load as int,
            measured_load: self.measured_load as int,
            work_units: self.work_units as int,
            running: self.running,
            total_work_done: self.total_work_done as int,
        }
    }
}

impl LoadController {
    /// A fresh controller: requested load clamped, nothing measured,
    /// the default work-unit count, not yet running.
    pub fn new(load: u64) -> (r: LoadController)
        ensures
            r@ == (LoadModel {
                target_load: spec_clamp_load(load as int),
                measured_load: 0,
                work_units: DEFAULT_WORK_UNITS as int,
                running: false,
                total_work_done: 0,
            }),
            r@.valid(),
    {
        LoadController {
            target_load: crate::clamp_load(load),
            measured_load: 0,
            work_units: DEFAULT_WORK_UNITS,
            running: false,
            total_work_done: 0,
        }
    }

    /// Stores the desired load level, clamped to a percentage. Called
    /// once at test setup.
    pub fn set_loaded(&mut self, load: u64)
        ensures
            final(self)@ == (LoadModel { target_load: spec_clamp_load(load as int), ..old(self)@ }),
            old(self)@.valid() ==> final(self)@.valid(),
    {
        self.target_load = crate::clamp_load(load);
    }

    /// Records a whole-system usage measurement and retunes the
    /// work-unit count: nothing further at full saturation, a tenth
    /// more work when more than the dead band under target, a tenth
    /// less when more than the dead band over it.
    pub fn auto_fix_load(&mut self, load: u64)
        ensures
            final(self)@ == spec_retune(old(self)@, load as int),
            old(self)@.valid() ==> final(self)@.valid(),
    {
        let measured = crate::clamp_load(load);
        self.measured_load = measured;
        if load == LOAD_FULL {
            return;
        }
        let diff = if measured <= self.target_load {
            self.target_load - measured
        } else {
            measured - self.target_load
        };
        if diff > LOAD_DEAD_BAND {
            if measured < self.target_load {
                self.work_units = match self.work_units.checked_add(self.work_units / 10) {
                    Some(w) => w,
                    None => u64::MAX,
                };
            } else {
                self.work_units = self.work_units - self.work_units / 10;
            }
        }
    }

    /// Flips the lifecycle flag on; workers may begin their ticks.
    pub fn start_running(&mut self)
        ensures
            final(self)@ == (LoadModel { running: true, ..old(self)@ }),
    {
        self.running = true;
    }

    /// Flips the lifecycle flag off; every worker exits at its next
    /// poll. This is the only stop signal: cancellation is cooperative.
    pub fn stop_running(&mut self)
        ensures
            final(self)@ == (LoadModel { running: false, ..old(self)@ }),
    {
        self.running = false;
    }

    /// The busy-work iteration count a worker should perform this tick.
    pub fn get_iterations(&self) -> (r: u64)
        ensures
            r == self@.work_units,
    {
        self.work_units
    }

    /// Whether workers should keep going.
    pub fn is_running(&self) -> (r: bool)
        ensures
            r == self@.running,
    {
        self.running
    }

    /// The last recorded whole-system usage, a percentage.
    pub fn get_current_load(&self) -> (r: u64)
        ensures
            r == self@.measured_load,
    {
        self.measured_load
    }

    /// The operator-requested load level, a percentage.
    pub fn get_loaded(&self) -> (r: u64)
        ensures
            r == self@.target_load,
    {
        self.target_load
    }

    /// Folds one worker cycle's iterations into the lifetime counter,
    /// saturating so the diagnostic total never wraps backwards.
    pub fn add_work_done(&mut self, n: u64)
        ensures
            final(self)@ == (LoadModel {
                total_work_done: if old(self)@.total_work_done + n <= u64::MAX {
                    old(self)@.total_work_done + n
                } else {
                    u64::MAX as int
                },
                ..old(self)@
            }),
    {
        self.total_work_done = match self.total_work_done.checked_add(n) {
            Some(t) => t,
            None => u64::MAX,
        };
    }

    /// The lifetime iteration counter.
    pub fn get_total_work_done(&self) -> (r: u64)
        ensures
            r == self@.total_work_done,
    {
        self.total_work_done
    }
}

/// Setting any target in `0..=LOAD_FULL` and then recording any
/// measurement in that range leaves every field of the controller
/// within its bounds: the load percentages stay clamped and the
/// work-unit count remains a valid non-negative machine count.
pub proof fn lemma_set_then_retune_stays_bounded(m: LoadModel, target: int, measured: int)
    requires
        m.valid(),
        0 <= target <= LOAD_FULL,
        0 <= measured <= LOAD_FULL,
    ensures
        ({
            let after = spec_retune(LoadModel { target_load: target, ..m }, measured);
            &&& after.valid()
            &&& 0 <= after.target_load <= LOAD_FULL
            &&& 0 <= after.measured_load <= LOAD_FULL
            &&& after.work_units >= 0
        }),
{
}

/// Applying `auto_fix_load` once for each measurement in a sequence.
pub open spec fn spec_retune_seq(m: LoadModel, ms: Seq<int>) -> LoadModel
    decreases ms.len(),
{
    if ms.len() == 0 {
        m
    } else {
        spec_retune_seq(spec_retune(m, ms[0]), ms.drop_first())
    }
}

/// The saturation guard: a run of measurements that all read full
/// load never changes the work-unit count, however long it is.
pub proof fn lemma_saturated_run_keeps_work_units(m: LoadModel, ms: Seq<int>)
    requires
        forall|i: int| 0 <= i < ms.len() ==> ms[i] == LOAD_FULL,
    ensures
        spec_retune_seq(m, ms).work_units == m.work_units,
    decreases ms.len(),
{
    if ms.len() > 0 {
        lemma_saturated_run_keeps_work_units(spec_retune(m, ms[0]), ms.drop_first());
    }
}

} // verus!
