//! The test-run state machine: one cooperative task drives the whole
//! test, sampling the sensor source once per second, feeding the
//! statistics accumulator, and deciding when the run completes,
//! aborts, and with which verdict.
//!
//! The surrounding program performs the waiting, the provider query
//! and the worker teardown; every decision in between is made here,
//! from plain values to plain values.
use vstd::prelude::*;

verus! {

use crate::stats::{
    StatsModel, TestResults, MAX_TOLERATED_VIOLATIONS, SAMPLE_LIMIT, VALUE_LIMIT,
    is_value_out_of_range,
};
use crate::sensor::{Sensor, SensorModel, spec_sensor_views};
use crate::stats::spec_avg;
use crate::stats::spec_running_min;
use crate::stats::spec_running_max;
use crate::text::spec_int_text;
use crate::LOAD_FULL;

/// Immutable parameters of one run: its duration, the expected
/// reading, the tolerated deviation, and the synthetic load level.
#[derive(Clone, Copy, Debug)]
pub struct TestParams {
    /// How many one-second sampling iterations the run performs.
    pub test_secs: usize,
    /// Expected sensor reading, in integer sensor units.
    pub v1: i64,
    /// Tolerated deviation around the expected reading.
    pub v2: i64,
    /// Synthetic CPU load percentage to hold during the run.
    pub v3: u64,
}

impl TestParams {
    /// The target and tolerance fit the bounds the statistics
    /// arithmetic is proved under.
    pub open spec fn valid(self) -> bool {
        &&& -VALUE_LIMIT <= self.v1 <= VALUE_LIMIT
        &&& -VALUE_LIMIT <= self.v2 <= VALUE_LIMIT
    }
}

/// Lifecycle of the run loop.
#[derive(Clone, Copy, Debug, PartialEq, Eq, Structural)]
pub enum RunPhase {
    /// Created, not yet started.
    Idle,
    /// Sampling iterations are in progress.
    Running,
    /// All iterations finished and a verdict was computed.
    Completed,
    /// The run stopped early on a fatal error.
    Aborted,
}

/// The run's conclusion.
#[derive(Clone, Copy, Debug, PartialEq, Eq, Structural)]
pub enum Verdict {
    /// No conclusion yet.
    Pending,
    /// The run completed acceptably.
    Pass,
    /// The run failed.
    Fail,
}

/// Why a run failed.
#[derive(Clone, Copy, Debug, PartialEq, Eq, Structural)]
pub enum RunError {
    /// The sensor query returned no data; fatal only in check mode.
    DataUnavailable,
    /// A reading fell outside the allowed band more often than
    /// tolerated.
    ThresholdExceeded,
    /// A load worker thread could not be joined cleanly.
    WorkerJoinFailure,
    /// A check-mode run finished without recording a single sample.
    NoSamplesCollected,
}

/// What happened during one one-second iteration, handed in by the
/// driver after it performed the provider query.
pub enum TickEvent {
    /// The query succeeded with these readings.
    Readings(Vec<Sensor>),
    /// The query failed.
    QueryError,
}

/// What the driver must do after an iteration.
#[derive(Clone, Copy, Debug, PartialEq, Eq, Structural)]
pub enum TickStep {
    /// Sleep one second and sample again.
    Continue,
    /// All iterations are done; stop the load pool and report.
    Finished,
    /// Fatal error; stop the load pool, then surface the error.
    Abort,
}

/// Mathematical state of a run.
pub ghost struct RunModel {
    pub phase: RunPhase,
    pub ticks_done: int,
    pub stats: StatsModel,
    pub verdict: Verdict,
    pub error: Option<RunError>,
}

/// Statistics effect of recording one reading (`TestResults::update`
/// together with the data payload it carries): the payload becomes
/// the reading's own when it has one, and otherwise the decimal
/// rendering of the rounded average over the readings recorded so
/// far, this one included — so after any recorded reading the
/// payload is never empty.
pub open spec fn spec_record(stats: StatsModel, s: SensorModel, load: int) -> StatsModel {
    StatsModel {
        values: stats.values.push(s.value),
        load_total: stats.load_total + load,
        load_avg: load,
        data: if s.data.len() > 0 {
            s.data
        } else {
            spec_int_text(spec_avg(stats.values.push(s.value)))
        },
        ..stats
    }
}

/// Feeding one batch of readings in order: each reading is recorded;
/// in check mode an out-of-band reading also counts a violation, and
/// the violation after the tolerated number stops the batch at once.
/// Returns the statistics afterwards and whether the threshold was
/// breached.
pub open spec fn spec_feed(
    stats: StatsModel,
    sensors: Seq<SensorModel>,
    load: int,
    check: bool,
    target: int,
    range: int,
) -> (StatsModel, bool)
    decreases sensors.len(),
{
    if sensors.len() == 0 {
        (stats, false)
    } else {
        let s0 = sensors[0];
        let recorded = spec_record(stats, s0, load);
        if check && (s0.value > target + range || s0.value < target - range) {
            let counted = StatsModel { errors: recorded.errors + 1, ..recorded };
            if counted.errors > MAX_TOLERATED_VIOLATIONS {
                (counted, true)
            } else {
                spec_feed(counted, sensors.drop_first(), load, check, target, range)
            }
        } else {
            spec_feed(recorded, sensors.drop_first(), load, check, target, range)
        }
    }
}

/// The verdict owed at normal completion: failure exactly when a
/// check-mode run never recorded a sample.
pub open spec fn spec_completion_verdict(check: bool, samples: int) -> Verdict {
    if check && samples == 0 {
        Verdict::Fail
    } else {
        Verdict::Pass
    }
}

/// One test invocation. Created idle, started once, then driven by
/// `on_tick` once per second until it reports `Finished` or `Abort`.
pub struct TestRun {
    params: TestParams,
    is_check: bool,
    phase: RunPhase,
    ticks_done: usize,
    results: TestResults,
    verdict: Verdict,
    error: Option<RunError>,
}

impl View for TestRun {
    type V = RunModel;

    closed spec fn view(&self) -> RunModel {
        RunModel {
            phase: self.phase,
            ticks_done: self.ticks_done as int,
            stats: self.results@,
            verdict: self.verdict,
            error: self.error,
        }
    }
}

impl TestRun {
    /// The run's internal coherence: the accumulator is well-formed,
    /// iterations never overrun the duration, violations stay within
    /// the tolerated number while sampling goes on, and verdict and
    /// error agree with the phase.
    pub open spec fn wf(&self) -> bool {
        &&& self.results_wf()
        &&& self.spec_params().valid()
        &&& self@.ticks_done <= self.spec_params().test_secs
        &&& self@.phase == RunPhase::Running ==> self@.ticks_done < self.spec_params().test_secs
        &&& self@.phase == RunPhase::Running ==> self@.stats.errors <= MAX_TOLERATED_VIOLATIONS
        &&& self@.phase == RunPhase::Idle ==> self@.stats.errors <= MAX_TOLERATED_VIOLATIONS
        &&& self@.phase == RunPhase::Idle ==> self@.ticks_done == 0
        &&& (self@.phase == RunPhase::Idle || self@.phase == RunPhase::Running) ==> (self@.verdict
            == Verdict::Pending && self@.error is None)
        &&& self@.phase == RunPhase::Completed ==> (self@.verdict
            == spec_completion_verdict(self.spec_is_check(), self@.stats.values.len() as int))
        &&& self@.phase == RunPhase::Aborted ==> (self@.verdict == Verdict::Fail
            && self@.error is Some)
    }

    /// Well-formedness of the owned accumulator (kept opaque here).
    pub closed spec fn results_wf(&self) -> bool {
        self.results.wf()
    }

    /// The immutable parameters this run was created with.
    pub closed spec fn spec_params(&self) -> TestParams {
        self.params
    }

    /// Whether this run is in check mode.
    pub closed spec fn spec_is_check(&self) -> bool {
        self.is_check
    }

    /// A fresh idle run with zeroed statistics.
    pub fn new(params: TestParams, is_check: bool) -> (r: TestRun)
        requires
            params.valid(),
        ensures
            r.wf(),
            r.spec_params() == params,
            r.spec_is_check() == is_check,
            r@.phase == RunPhase::Idle,
            r@.ticks_done == 0,
            r@.stats.values =~= Seq::<i64>::empty(),
            r@.stats.errors == 0,
            r@.verdict == Verdict::Pending,
            r@.error is None,
    {
        TestRun {
            params,
            is_check,
            phase: RunPhase::Idle,
            ticks_done: 0,
            results: TestResults::new(),
            verdict: Verdict::Pending,
            error: None,
        }
    }

    /// Begins sampling. A zero-duration run completes immediately,
    /// with the verdict normal completion owes it.
    pub fn start(&mut self)
        requires
            old(self).wf(),
            old(self)@.phase == RunPhase::Idle,
        ensures
            final(self).wf(),
            final(self).spec_params() == old(self).spec_params(),
            final(self).spec_is_check() == old(self).spec_is_check(),
            final(self)@.stats == old(self)@.stats,
            final(self)@.ticks_done == 0,
            old(self).spec_params().test_secs == 0 ==> final(self)@.phase == RunPhase::Completed
                && final(self)@.verdict == spec_completion_verdict(
                old(self).spec_is_check(),
                old(self)@.stats.values.len() as int,
            ) && final(self)@.error == (if final(self)@.verdict == Verdict::Fail {
                Some(RunError::NoSamplesCollected)
            } else {
                Option::<RunError>::None
            }),
            old(self).spec_params().test_secs > 0 ==> final(self)@.phase == RunPhase::Running
                && final(self)@.verdict == Verdict::Pending,
    {
        if self.params.test_secs == 0 {
            self.phase = RunPhase::Completed;
            if self.is_check && self.results.sample_count() == 0 {
                self.verdict = Verdict::Fail;
                self.error = Some(RunError::NoSamplesCollected);
            } else {
                self.verdict = Verdict::Pass;
            }
        } else {
            self.phase = RunPhase::Running;
        }
    }

    /// Consumes one one-second iteration: feeds the readings (or
    /// handles the query failure), counts the iteration, and decides
    /// whether the run continues, finishes, or aborts.
    ///
    /// `measured_load` is the load controller's current measurement
    /// at this instant, folded into the load statistics of every
    /// reading of the batch.
    pub fn on_tick(&mut self, event: TickEvent, measured_load: u64) -> (step: TickStep)
        requires
            old(self).wf(),
            old(self)@.phase == RunPhase::Running,
            measured_load <= LOAD_FULL,
            event matches TickEvent::Readings(sensors) ==> old(self)@.stats.values.len()
                + sensors@.len() <= SAMPLE_LIMIT,
            event matches TickEvent::Readings(sensors) ==> forall|i: int|
                0 <= i < sensors@.len() ==> -VALUE_LIMIT <= (#[trigger] sensors@[i])@.value
                    <= VALUE_LIMIT,
        ensures
            final(self).wf(),
            final(self).spec_params() == old(self).spec_params(),
            final(self).spec_is_check() == old(self).spec_is_check(),
            final(self)@.ticks_done == old(self)@.ticks_done + 1,
            (match event {
                TickEvent::Readings(sensors) => {
                    let (fed, breached) = spec_feed(
                        old(self)@.stats,
                        spec_sensor_views(sensors@),
                        measured_load as int,
                        old(self).spec_is_check(),
                        old(self).spec_params().v1 as int,
                        old(self).spec_params().v2 as int,
                    );
                    &&& final(self)@.stats == fed
                    &&& breached ==> final(self)@.phase == RunPhase::Aborted && final(self)@.error
                        == Some(RunError::ThresholdExceeded) && final(self)@.verdict
                        == Verdict::Fail && step == TickStep::Abort
                    &&& !breached ==> final(self).spec_continue_or_complete(old(self)@.ticks_done + 1, fed)
                        && (step == if final(self)@.phase == RunPhase::Completed {
                        TickStep::Finished
                    } else {
                        TickStep::Continue
                    })
                },
                TickEvent::QueryError => {
                    &&& old(self).spec_is_check() ==> final(self)@.phase == RunPhase::Aborted
                        && final(self)@.error == Some(RunError::DataUnavailable)
                        && final(self)@.verdict == Verdict::Fail && final(self)@.stats == old(
                        self,
                    )@.stats && step == TickStep::Abort
                    &&& !old(self).spec_is_check() ==> final(self)@.stats == old(self)@.stats
                        && final(self).spec_continue_or_complete(
                        old(self)@.ticks_done + 1,
                        old(self)@.stats,
                    ) && (step == if final(self)@.phase == RunPhase::Completed {
                        TickStep::Finished
                    } else {
                        TickStep::Continue
                    })
                },
            }),
    {
        self.ticks_done = self.ticks_done + 1;
        match event {
            TickEvent::Readings(sensors) => {
                let breached = self.feed_readings(&sensors, measured_load);
                if breached {
                    self.phase = RunPhase::Aborted;
                    self.verdict = Verdict::Fail;
                    self.error = Some(RunError::ThresholdExceeded);
                    TickStep::Abort
                } else {
                    self.continue_or_complete()
                }
            },
            TickEvent::QueryError => {
                if self.is_check {
                    self.phase = RunPhase::Aborted;
                    self.verdict = Verdict::Fail;
                    self.error = Some(RunError::DataUnavailable);
                    TickStep::Abort
                } else {
                    self.continue_or_complete()
                }
            },
        }
    }

    /// After a non-fatal iteration: still running if iterations
    /// remain, otherwise completed with the owed verdict.
    pub open spec fn spec_continue_or_complete(&self, ticks: int, stats: StatsModel) -> bool {
        &&& self@.ticks_done == ticks
        &&& self@.stats == stats
        &&& if ticks == self.spec_params().test_secs {
            &&& self@.phase == RunPhase::Completed
            &&& self@.verdict == spec_completion_verdict(
                self.spec_is_check(),
                stats.values.len() as int,
            )
            &&& self@.error == if self@.verdict == Verdict::Fail {
                Some(RunError::NoSamplesCollected)
            } else {
                Option::<RunError>::None
            }
        } else {
            &&& self@.phase == RunPhase::Running
            &&& self@.verdict == Verdict::Pending
            &&& self@.error is None
        }
    }

    fn continue_or_complete(&mut self) -> (step: TickStep)
        requires
            old(self).results_wf(),
            old(self).spec_params().valid(),
            old(self)@.phase == RunPhase::Running,
            old(self)@.verdict == Verdict::Pending,
            old(self)@.error is None,
            old(self)@.ticks_done <= old(self).spec_params().test_secs,
            old(self)@.stats.errors <= MAX_TOLERATED_VIOLATIONS,
        ensures
            final(self).wf(),
            final(self).spec_params() == old(self).spec_params(),
            final(self).spec_is_check() == old(self).spec_is_check(),
            final(self)@.stats == old(self)@.stats,
            final(self)@.ticks_done == old(self)@.ticks_done,
            final(self).spec_continue_or_complete(old(self)@.ticks_done, old(self)@.stats),
            step == if final(self)@.phase == RunPhase::Completed {
                TickStep::Finished
            } else {
                TickStep::Continue
            },
    {
        if self.ticks_done == self.params.test_secs {
            self.phase = RunPhase::Completed;
            if self.is_check && self.results.sample_count() == 0 {
                self.verdict = Verdict::Fail;
                self.error = Some(RunError::NoSamplesCollected);
            } else {
                self.verdict = Verdict::Pass;
            }
            TickStep::Finished
        } else {
            TickStep::Continue
        }
    }

    /// Feeds one batch of readings into the accumulator, counting
    /// check-mode violations; reports whether the threshold was
    /// breached (which stops the batch at the breaching reading).
    fn feed_readings(&mut self, sensors: &Vec<Sensor>, measured_load: u64) -> (breached: bool)
        requires
            old(self).results_wf(),
            old(self).spec_params().valid(),
            old(self)@.stats.errors <= MAX_TOLERATED_VIOLATIONS,
            measured_load <= LOAD_FULL,
            old(self)@.stats.values.len() + sensors@.len() <= SAMPLE_LIMIT,
            forall|i: int|
                0 <= i < sensors@.len() ==> -VALUE_LIMIT <= (#[trigger] sensors@[i])@.value
                    <= VALUE_LIMIT,
        ensures
            final(self).results_wf(),
            final(self).spec_params() == old(self).spec_params(),
            final(self).spec_is_check() == old(self).spec_is_check(),
            final(self)@.phase == old(self)@.phase,
            final(self)@.ticks_done == old(self)@.ticks_done,
            final(self)@.verdict == old(self)@.verdict,
            final(self)@.error == old(self)@.error,
            ({
                let (fed, br) = spec_feed(
                    old(self)@.stats,
                    spec_sensor_views(sensors@),
                    measured_load as int,
                    old(self).spec_is_check(),
                    old(self).spec_params().v1 as int,
                    old(self).spec_params().v2 as int,
                );
                final(self)@.stats == fed && breached == br
            }),
            !breached ==> final(self)@.stats.errors <= MAX_TOLERATED_VIOLATIONS,
    {
        let ghost all = spec_sensor_views(sensors@);
        let ghost load = measured_load as int;
        let ghost check = self.is_check;
        let ghost target = self.params.v1 as int;
        let ghost range = self.params.v2 as int;
        let ghost orig = self@.stats;
        let mut i: usize = 0;
        proof {
            assert(all.skip(0) =~= all);
        }
        while i < sensors.len()
            invariant
                self.wf_feed_frame(*old(self)),
                self.results_wf(),
                0 <= i <= sensors@.len(),
                all =~= spec_sensor_views(sensors@),
                load == measured_load as int,
                orig == old(self)@.stats,
                check == self.spec_is_check(),
                check == old(self).spec_is_check(),
                target == self.spec_params().v1 as int,
                range == self.spec_params().v2 as int,
                target == old(self).spec_params().v1 as int,
                range == old(self).spec_params().v2 as int,
                measured_load <= LOAD_FULL,
                -VALUE_LIMIT <= target <= VALUE_LIMIT,
                -VALUE_LIMIT <= range <= VALUE_LIMIT,
                forall|k: int|
                    0 <= k < sensors@.len() ==> -VALUE_LIMIT <= (#[trigger] sensors@[k])@.value
                        <= VALUE_LIMIT,
                self@.stats.values.len() + (sensors@.len() - i) <= SAMPLE_LIMIT,
                self@.stats.errors <= MAX_TOLERATED_VIOLATIONS,
                spec_feed(orig, all, load, check, target, range) == spec_feed(
                    self@.stats,
                    all.skip(i as int),
                    load,
                    check,
                    target,
                    range,
                ),
            decreases sensors@.len() - i,
        {
            let ghost pre = self@.stats;
            let sensor = &sensors[i];
            proof {
                assert(all.skip(i as int)[0] == sensor@);
                assert(all.skip(i as int).drop_first() =~= all.skip(i + 1));
            }
            self.results.update(sensor.value, measured_load);
            if !sensor.data.as_str().is_empty() {
                let d = sensor.data.clone();
                self.results.set_data(d);
            } else {
                let avg_text = crate::text::i64_text(self.results.avg());
                self.results.set_data(avg_text);
            }
            let ghost recorded = spec_record(pre, sensor@, load);
            proof {
                assert(self@.stats.values =~= recorded.values);
                assert(self@.stats.data =~= recorded.data);
                assert(self@.stats == recorded);
            }
            if self.is_check && is_value_out_of_range(sensor.value, self.params.v1, self.params.v2)
            {
                let breached = self.results.record_violation();
                let ghost counted = StatsModel { errors: recorded.errors + 1, ..recorded };
                proof {
                    assert(self@.stats.values =~= counted.values);
                    assert(self@.stats.data =~= counted.data);
                    assert(self@.stats == counted);
                }
                if breached {
                    proof {
                        assert(all.skip(i as int).len() > 0);
                        assert(spec_feed(pre, all.skip(i as int), load, check, target, range) == (
                        counted,
                        true,
                        ));
                        assert(spec_feed(orig, all, load, check, target, range) == (counted, true));
                    }
                    return true;
                }
            }
            i = i + 1;
        }
        proof {
            assert(all.skip(sensors@.len() as int) =~= Seq::<SensorModel>::empty());
        }
        false
    }

    /// Fields `feed_readings` leaves untouched.
    pub open spec fn wf_feed_frame(&self, prior: TestRun) -> bool {
        &&& self.spec_params() == prior.spec_params()
        &&& self.spec_params().valid()
        &&& self.spec_is_check() == prior.spec_is_check()
        &&& self@.phase == prior@.phase
        &&& self@.ticks_done == prior@.ticks_done
        &&& self@.verdict == prior@.verdict
        &&& self@.error == prior@.error
    }

    /// Folds a fatal teardown failure into the run: whatever point
    /// the run had reached, it is aborted and failed with that error.
    /// The driver calls this when joining a worker thread fails —
    /// a silently dead load thread invalidates the run's load
    /// assumptions, so the failure must never be swallowed.
    pub fn abort_with(&mut self, error: RunError)
        requires
            old(self).wf(),
        ensures
            final(self).wf(),
            final(self).spec_params() == old(self).spec_params(),
            final(self).spec_is_check() == old(self).spec_is_check(),
            final(self)@ == (RunModel {
                phase: RunPhase::Aborted,
                verdict: Verdict::Fail,
                error: Some(error),
                ..old(self)@
            }),
    {
        self.phase = RunPhase::Aborted;
        self.verdict = Verdict::Fail;
        self.error = Some(error);
    }

    /// Current lifecycle phase.
    pub fn phase(&self) -> (r: RunPhase)
        ensures
            r == self@.phase,
    {
        self.phase
    }

    /// Current verdict.
    pub fn verdict(&self) -> (r: Verdict)
        ensures
            r == self@.verdict,
    {
        self.verdict
    }

    /// The fatal error, after an abort.
    pub fn error(&self) -> (r: Option<RunError>)
        ensures
            r == self@.error,
    {
        self.error
    }

    /// Iterations consumed so far.
    pub fn ticks_done(&self) -> (r: usize)
        ensures
            r == self@.ticks_done,
    {
        self.ticks_done
    }

    /// Whether this run is in check mode.
    pub fn is_check(&self) -> (r: bool)
        ensures
            r == self.spec_is_check(),
    {
        self.is_check
    }

    /// The run's parameters.
    pub fn params(&self) -> (r: TestParams)
        ensures
            r == self.spec_params(),
    {
        self.params
    }

    /// The statistics accumulated so far.
    pub fn results(&self) -> (r: &TestResults)
        ensures
            r@ == self@.stats,
            self.results_wf() ==> r.wf(),
    {
        &self.results
    }
}

/// The readings of a batch, in order.
pub open spec fn spec_batch_values(sensors: Seq<SensorModel>) -> Seq<i64> {
    sensors.map_values(|s: SensorModel| s.value)
}

/// Feeding a batch whose readings all sit inside the allowed band
/// never breaches: every reading is recorded in order and the
/// violation count does not move, in or out of check mode.
pub proof fn lemma_in_band_batch_never_breaches(
    stats: StatsModel,
    sensors: Seq<SensorModel>,
    load: int,
    check: bool,
    target: int,
    range: int,
)
    requires
        forall|i: int|
            0 <= i < sensors.len() ==> !((#[trigger] sensors[i]).value > target + range
                || sensors[i].value < target - range),
    ensures
        ({
            let (st, breached) = spec_feed(stats, sensors, load, check, target, range);
            &&& !breached
            &&& st.errors == stats.errors
            &&& st.values =~= stats.values + spec_batch_values(sensors)
        }),
    decreases sensors.len(),
{
    if sensors.len() == 0 {
        assert(stats.values + spec_batch_values(sensors) =~= stats.values);
    } else {
        let s0 = sensors[0];
        let recorded = spec_record(stats, s0, load);
        lemma_in_band_batch_never_breaches(recorded, sensors.drop_first(), load, check, target,
        range);
        assert(recorded.values + spec_batch_values(sensors.drop_first()) =~= stats.values
            + spec_batch_values(sensors));
    }
}

/// The exact off-by-one hysteresis: feeding a batch whose readings
/// all fall outside the allowed band in check mode breaches exactly
/// when the batch takes the violation count past the tolerated
/// number — the violation after the tolerated number, not any
/// earlier one, aborts — and the abort stops the batch at the
/// breaching reading.
pub proof fn lemma_out_of_band_batch_hysteresis(
    stats: StatsModel,
    sensors: Seq<SensorModel>,
    load: int,
    target: int,
    range: int,
)
    requires
        0 <= stats.errors <= MAX_TOLERATED_VIOLATIONS,
        forall|i: int|
            0 <= i < sensors.len() ==> ((#[trigger] sensors[i]).value > target + range
                || sensors[i].value < target - range),
    ensures
        ({
            let (st, breached) = spec_feed(stats, sensors, load, true, target, range);
            &&& breached == (stats.errors + sensors.len() > MAX_TOLERATED_VIOLATIONS)
            &&& breached ==> st.errors == MAX_TOLERATED_VIOLATIONS + 1 && st.values.len()
                == stats.values.len() + (MAX_TOLERATED_VIOLATIONS + 1 - stats.errors)
            &&& !breached ==> st.errors == stats.errors + sensors.len() && st.values.len()
                == stats.values.len() + sensors.len()
        }),
    decreases sensors.len(),
{
    if sensors.len() > 0 {
        let s0 = sensors[0];
        let recorded = spec_record(stats, s0, load);
        let counted = StatsModel { errors: recorded.errors + 1, ..recorded };
        if counted.errors <= MAX_TOLERATED_VIOLATIONS {
            lemma_out_of_band_batch_hysteresis(counted, sensors.drop_first(), load, target, range);
        }
    }
}

/// The steady-run outcome: a run that records only copies of one
/// non-negative reading value — as successive ticks of a steady
/// in-band sensor do — reports that value as minimum, maximum and
/// average, and normal completion then owes PASS, in or out of
/// check mode.
pub proof fn lemma_steady_run_outcome(values: Seq<i64>, v: i64, check: bool)
    requires
        values.len() > 0,
        v >= 0,
        forall|i: int| 0 <= i < values.len() ==> values[i] == v,
    ensures
        spec_running_min(values) == v,
        spec_running_max(values) == v,
        spec_avg(values) == v,
        spec_completion_verdict(check, values.len() as int) == Verdict::Pass,
{
    crate::stats::lemma_constant_samples_pin_stats(values, v);
}

} // verus!
