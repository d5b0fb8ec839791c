//! Statistics accumulator for the sampled sensor readings: running
//! minimum, maximum, total and rounded average, the ordered sample
//! list, the violation counter, and the exact ingredients of the
//! sample standard deviation.
//!
//! Readings are carried as integer sensor units. The bounds
//! [`VALUE_LIMIT`] and [`SAMPLE_LIMIT`] are forced by fixed-width
//! arithmetic: they keep every total and every squared deviation
//! inside 128 bits, far beyond any physical reading or test duration.
use vstd::prelude::*;

verus! {

use vstd::seq_lib::lemma_fold_right_permutation;
use vstd::seq_lib::commutative_foldr;
use crate::LOAD_FULL;

/// Largest magnitude a recorded reading may have, in sensor units.
pub const VALUE_LIMIT: i64 = 1_000_000_000_000;

/// Largest number of samples one run may record (one per second for
/// over thirty years).
pub const SAMPLE_LIMIT: usize = 1_000_000_000;

/// Violations tolerated before a check-mode run fails: the abort
/// comes on the violation after this many.
pub const MAX_TOLERATED_VIOLATIONS: u64 = 2;

/// Sum of a sample sequence.
pub open spec fn spec_sum(s: Seq<i64>) -> int {
    s.fold_right(|x: i64, acc: int| acc + x, 0)
}

/// Sum of squared deviations of a sample sequence from a fixed mean.
pub open spec fn spec_sum_sq_dev(s: Seq<i64>, m: int) -> int {
    s.fold_right(|x: i64, acc: int| acc + (x - m) * (x - m), 0)
}

/// Running minimum: the first sample sets it unconditionally, later
/// samples lower it.
pub open spec fn spec_running_min(s: Seq<i64>) -> int
    decreases s.len(),
{
    if s.len() == 0 {
        0
    } else if s.len() == 1 {
        s[0] as int
    } else {
        let p = spec_running_min(s.drop_last());
        if s.last() < p {
            s.last() as int
        } else {
            p
        }
    }
}

/// Running maximum, starting from zero as the accumulator does.
pub open spec fn spec_running_max(s: Seq<i64>) -> int
    decreases s.len(),
{
    if s.len() == 0 {
        0
    } else {
        let p = spec_running_max(s.drop_last());
        if s.last() > p {
            s.last() as int
        } else {
            p
        }
    }
}

/// Quotient rounded to the nearest integer, halves away from zero,
/// as the accumulator's average is rounded.
pub open spec fn spec_round_div(total: int, count: int) -> int
    recommends
        count > 0,
{
    if total >= 0 {
        (2 * total + count) / (2 * count)
    } else {
        -((2 * (-total) + count) / (2 * count))
    }
}

/// Average of a sample sequence: the rounded quotient of its sum by
/// its length, zero for the empty sequence.
pub open spec fn spec_avg(s: Seq<i64>) -> int {
    if s.len() == 0 {
        0
    } else {
        spec_round_div(spec_sum(s), s.len() as int)
    }
}

proof fn lemma_sum_shift_base(s: Seq<i64>, b: int)
    ensures
        s.fold_right(|x: i64, acc: int| acc + x, b) == spec_sum(s) + b,
    decreases s.len(),
{
    if s.len() > 0 {
        lemma_sum_shift_base(s.drop_last(), b + s.last());
        lemma_sum_shift_base(s.drop_last(), 0 + s.last());
    }
}

/// Appending a sample adds it to the sum.
pub proof fn lemma_sum_push(s: Seq<i64>, v: i64)
    ensures
        spec_sum(s.push(v)) == spec_sum(s) + v,
{
    assert(s.push(v).drop_last() =~= s);
    lemma_sum_shift_base(s, 0 + v);
}

proof fn lemma_sq_dev_shift_base(s: Seq<i64>, m: int, b: int)
    ensures
        s.fold_right(|x: i64, acc: int| acc + (x - m) * (x - m), b) == spec_sum_sq_dev(s, m) + b,
    decreases s.len(),
{
    if s.len() > 0 {
        let l = s.last();
        lemma_sq_dev_shift_base(s.drop_last(), m, b + (l - m) * (l - m));
        lemma_sq_dev_shift_base(s.drop_last(), m, 0 + (l - m) * (l - m));
    }
}

/// Appending a sample adds its squared deviation.
pub proof fn lemma_sum_sq_dev_push(s: Seq<i64>, m: int, v: i64)
    ensures
        spec_sum_sq_dev(s.push(v), m) == spec_sum_sq_dev(s, m) + (v - m) * (v - m),
{
    assert(s.push(v).drop_last() =~= s);
    lemma_sq_dev_shift_base(s, m, 0 + (v - m) * (v - m));
}

/// The standard-deviation ingredients depend only on which samples
/// were recorded, not on their order: sample total and the sum of
/// squared deviations from any fixed mean agree on any two sample
/// sequences holding the same readings.
pub proof fn lemma_deviation_order_invariant(s: Seq<i64>, t: Seq<i64>, m: int)
    requires
        s.to_multiset() == t.to_multiset(),
    ensures
        spec_sum(s) == spec_sum(t),
        spec_sum_sq_dev(s, m) == spec_sum_sq_dev(t, m),
{
    let add = |x: i64, acc: int| acc + x;
    let sq = |x: i64, acc: int| acc + (x - m) * (x - m);
    assert(commutative_foldr(add));
    assert(commutative_foldr(sq));
    lemma_fold_right_permutation(s, t, add, 0);
    lemma_fold_right_permutation(s, t, sq, 0);
}

/// The standard deviation is invariant to sample order: two sample
/// sequences holding the same readings share the average, the
/// degrees of freedom, and the sum of squared deviations from that
/// average — so also the standard deviation, their quotient's square
/// root.
pub proof fn lemma_std_deviation_order_invariant(s: Seq<i64>, t: Seq<i64>)
    requires
        s.to_multiset() == t.to_multiset(),
    ensures
        s.len() == t.len(),
        spec_avg(s) == spec_avg(t),
        spec_sum_sq_dev(s, spec_avg(s)) == spec_sum_sq_dev(t, spec_avg(t)),
{
    broadcast use vstd::seq_lib::group_to_multiset_ensures;

    assert(s.len() == s.to_multiset().len());
    assert(t.len() == t.to_multiset().len());
    lemma_deviation_order_invariant(s, t, spec_avg(s));
}

/// A single sample deviates from its own average by nothing: the
/// squared-deviation sum of a one-sample run is exactly zero.
pub proof fn lemma_single_sample_deviation_zero(s: Seq<i64>)
    requires
        s.len() == 1,
    ensures
        spec_sum_sq_dev(s, spec_avg(s)) == 0,
{
    assert(s.drop_last() =~= Seq::<i64>::empty());
    assert(spec_sum(s) == s[0]) by {
        lemma_sum_shift_base(s.drop_last(), 0 + s[0]);
    }
    assert(spec_avg(s) == s[0]) by {
        let v = s[0] as int;
        if v >= 0 {
            assert((2 * v + 1) / 2 == v);
        } else {
            assert((2 * (-v) + 1) / 2 == -v);
        }
    }
    assert(spec_sum_sq_dev(s, spec_avg(s)) == 0) by {
        lemma_sq_dev_shift_base(s.drop_last(), s[0] as int, 0);
    }
}

/// A rounded quotient of a bounded total stays within the bound of
/// the values that formed it.
pub proof fn lemma_round_div_bounded(total: int, count: int, bound: int)
    requires
        count > 0,
        bound >= 0,
        -bound * count <= total <= bound * count,
    ensures
        -bound <= spec_round_div(total, count) <= bound,
{
    if total >= 0 {
        assert(2 * total + count <= 2 * count * bound + count) by (nonlinear_arith)
            requires
                total <= bound * count,
        ;
        assert((2 * total + count) / (2 * count) <= bound) by (nonlinear_arith)
            requires
                count > 0,
                bound >= 0,
                0 <= 2 * total + count <= 2 * count * bound + count,
        ;
        assert((2 * total + count) / (2 * count) >= 0) by (nonlinear_arith)
            requires
                count > 0,
                2 * total + count >= 0,
        ;
    } else {
        let neg = -total;
        assert((-bound) * count == -(bound * count)) by (nonlinear_arith);
        assert(2 * neg + count <= 2 * count * bound + count) by (nonlinear_arith)
            requires
                neg <= bound * count,
        ;
        assert((2 * neg + count) / (2 * count) <= bound) by (nonlinear_arith)
            requires
                count > 0,
                bound >= 0,
                0 <= 2 * neg + count <= 2 * count * bound + count,
        ;
        assert((2 * neg + count) / (2 * count) >= 0) by (nonlinear_arith)
            requires
                count > 0,
                2 * neg + count >= 0,
        ;
    }
}

/// Rounded division, halves away from zero, on machine integers.
pub fn round_div(total: i128, count: u64) -> (r: i64)
    requires
        count > 0,
        -(VALUE_LIMIT as int) * count <= total <= (VALUE_LIMIT as int) * count,
    ensures
        r == spec_round_div(total as int, count as int),
        -VALUE_LIMIT <= r <= VALUE_LIMIT,
{
    proof {
        lemma_round_div_bounded(total as int, count as int, VALUE_LIMIT as int);
    }
    if total >= 0 {
        let t = total as u128;
        proof {
            assert(2 * t + count <= u128::MAX) by (nonlinear_arith)
                requires
                    t <= (VALUE_LIMIT as int) * count,
                    count <= u64::MAX,
            ;
        }
        let q = (2 * t + count as u128) / (2 * (count as u128));
        q as i64
    } else {
        proof {
            assert((-(VALUE_LIMIT as int)) * count == -((VALUE_LIMIT as int) * count))
                by (nonlinear_arith);
            assert(-total <= (VALUE_LIMIT as int) * count);
            assert((VALUE_LIMIT as int) * count <= (VALUE_LIMIT as int) * (u64::MAX as int))
                by (nonlinear_arith)
                requires
                    0 <= count <= u64::MAX,
            ;
        }
        let t = (-total) as u128;
        proof {
            assert(2 * t + count <= u128::MAX) by (nonlinear_arith)
                requires
                    t <= (VALUE_LIMIT as int) * (u64::MAX as int),
            ;
        }
        let q = (2 * t + count as u128) / (2 * (count as u128));
        -(q as i64)
    }
}

/// Whether a reading falls outside the allowed band around a target.
pub fn is_value_out_of_range(value: i64, target: i64, range: i64) -> (r: bool)
    requires
        -VALUE_LIMIT <= value <= VALUE_LIMIT,
        -VALUE_LIMIT <= target <= VALUE_LIMIT,
        -VALUE_LIMIT <= range <= VALUE_LIMIT,
    ensures
        r == (value > target + range || value < target - range),
{
    value > target + range || value < target - range
}

/// Mathematical content of the accumulator: the recorded readings in
/// arrival order, the folded load measurements, the violation count,
/// and the sensor-supplied data payload.
pub ghost struct StatsModel {
    /// Every recorded reading, in arrival order.
    pub values: Seq<i64>,
    /// Sum of the whole-system load measured at each sample.
    pub load_total: int,
    /// Load measured at the most recent sample.
    pub load_avg: int,
    /// Out-of-tolerance readings seen so far.
    pub errors: int,
    /// Last non-empty data payload a sensor supplied.
    pub data: Seq<char>,
}

/// The statistics accumulator. Owned by the test-run loop alone and
/// never shared across threads; one instance per run.
pub struct TestResults {
    min: i64,
    max: i64,
    avg: i64,
    total: i128,
    samples: usize,
    status: Vec<i64>,
    load_total: u64,
    load_avg: u64,
    error_count: u64,
    data: String,
}

impl View for TestResults {
    type V = StatsModel;

    closed spec fn view(&self) -> StatsModel {
        StatsModel {
            values: self.status@,
            load_total: self.load_total as int,
            load_avg: self.load_avg as int,
            errors: self.error_count as int,
            data: self.data@,
        }
    }
}

impl TestResults {
    /// The derived fields hold exactly what the recorded readings
    /// dictate, and everything stays within its machine word.
    pub closed spec fn wf(&self) -> bool {
        &&& self.status@.len() == self.samples
        &&& self.samples <= SAMPLE_LIMIT
        &&& (forall|i: int|
            0 <= i < self.status@.len() ==> -VALUE_LIMIT <= #[trigger] self.status@[i]
                <= VALUE_LIMIT)
        &&& self.total == spec_sum(self.status@)
        &&& self.min == spec_running_min(self.status@)
        &&& self.max == spec_running_max(self.status@)
        &&& self.avg == spec_avg(self.status@)
        &&& self.load_total <= LOAD_FULL * self.status@.len()
        &&& self.load_avg <= LOAD_FULL
    }

    /// An empty accumulator.
    pub fn new() -> (r: TestResults)
        ensures
            r.wf(),
            r@.values =~= Seq::<i64>::empty(),
            r@.load_total == 0,
            r@.load_avg == 0,
            r@.errors == 0,
            r@.data =~= Seq::<char>::empty(),
    {
        TestResults {
            min: 0,
            max: 0,
            avg: 0,
            total: 0,
            samples: 0,
            status: Vec::new(),
            load_total: 0,
            load_avg: 0,
            error_count: 0,
            data: String::new(),
        }
    }

    /// Records one reading together with the load level measured at
    /// that moment: appends the reading, refreshes minimum, maximum,
    /// total and rounded average, and folds the load measurement in.
    pub fn update(&mut self, value: i64, measured_load: u64)
        requires
            old(self).wf(),
            old(self)@.values.len() < SAMPLE_LIMIT,
            -VALUE_LIMIT <= value <= VALUE_LIMIT,
            measured_load <= LOAD_FULL,
        ensures
            final(self).wf(),
            final(self)@.values =~= old(self)@.values.push(value),
            final(self)@.load_total == old(self)@.load_total + measured_load,
            final(self)@.load_avg == measured_load,
            final(self)@.errors == old(self)@.errors,
            final(self)@.data =~= old(self)@.data,
    {
        proof {
            lemma_sum_push(self.status@, value);
            assert(self.status@.push(value).drop_last() =~= self.status@);
            lemma_value_bound_gives_sum_bound(self.status@, value);
            lemma_sum_bounded(self.status@);
            let n = self.status@.len() as int;
            assert((VALUE_LIMIT as int) * n <= (VALUE_LIMIT as int) * (SAMPLE_LIMIT as int)
                && -(VALUE_LIMIT as int) * n >= -(VALUE_LIMIT as int) * (SAMPLE_LIMIT as int))
                by (nonlinear_arith)
                requires
                    0 <= n <= SAMPLE_LIMIT,
            ;
            assert((VALUE_LIMIT as int) * (n + 1) <= (VALUE_LIMIT as int) * (SAMPLE_LIMIT as int)
                && -(VALUE_LIMIT as int) * (n + 1) >= -(VALUE_LIMIT as int) * (
            SAMPLE_LIMIT as int)) by (nonlinear_arith)
                requires
                    0 <= n + 1 <= SAMPLE_LIMIT,
            ;
        }
        if self.samples == 0 {
            self.min = value;
        } else if value < self.min {
            self.min = value;
        }
        if value > self.max {
            self.max = value;
        }
        self.total = self.total + value as i128;
        self.samples = self.samples + 1;
        self.status.push(value);
        self.avg = round_div(self.total, self.samples as u64);
        self.load_total = self.load_total + measured_load;
        self.load_avg = measured_load;
    }

    /// Counts one out-of-tolerance reading and reports whether the
    /// tolerated number has now been exceeded.
    pub fn record_violation(&mut self) -> (breached: bool)
        requires
            old(self)@.errors < u64::MAX,
        ensures
            final(self)@ == (StatsModel { errors: old(self)@.errors + 1, ..old(self)@ }),
            final(self).wf() == old(self).wf(),
            breached == (old(self)@.errors + 1 > MAX_TOLERATED_VIOLATIONS),
    {
        self.error_count = self.error_count + 1;
        self.error_count > MAX_TOLERATED_VIOLATIONS
    }

    /// Stores the data payload a sensor supplied alongside a reading.
    pub fn set_data(&mut self, data: String)
        ensures
            final(self)@ == (StatsModel { data: data@, ..old(self)@ }),
            final(self).wf() == old(self).wf(),
    {
        self.data = data;
    }

    /// Smallest recorded reading; zero before any sample.
    pub fn min(&self) -> (r: i64)
        requires
            self.wf(),
        ensures
            r == spec_running_min(self@.values),
    {
        self.min
    }

    /// Largest recorded reading (never below zero, where the running
    /// maximum starts).
    pub fn max(&self) -> (r: i64)
        requires
            self.wf(),
        ensures
            r == spec_running_max(self@.values),
    {
        self.max
    }

    /// Rounded average of the recorded readings; zero before any
    /// sample.
    pub fn avg(&self) -> (r: i64)
        requires
            self.wf(),
        ensures
            r == spec_avg(self@.values),
    {
        self.avg
    }

    /// Exact total of the recorded readings.
    pub fn total(&self) -> (r: i128)
        requires
            self.wf(),
        ensures
            r == spec_sum(self@.values),
    {
        self.total
    }

    /// How many readings have been recorded.
    pub fn sample_count(&self) -> (r: usize)
        requires
            self.wf(),
        ensures
            r == self@.values.len(),
    {
        self.samples
    }

    /// The recorded readings, in arrival order.
    pub fn samples(&self) -> (r: &Vec<i64>)
        ensures
            r@ =~= self@.values,
    {
        &self.status
    }

    /// Out-of-tolerance readings counted so far.
    pub fn error_count(&self) -> (r: u64)
        ensures
            r == self@.errors,
    {
        self.error_count
    }

    /// Sum of the load measurements folded in so far.
    pub fn load_total(&self) -> (r: u64)
        ensures
            r == self@.load_total,
    {
        self.load_total
    }

    /// Load measured at the most recent sample.
    pub fn load_avg(&self) -> (r: u64)
        ensures
            r == self@.load_avg,
    {
        self.load_avg
    }

    /// The stored data payload.
    pub fn data(&self) -> (r: &String)
        ensures
            r@ =~= self@.data,
    {
        &self.data
    }

    /// The exact ingredients of the sample standard deviation: the
    /// sum of squared deviations from the rounded average, and the
    /// number of degrees of freedom (one less than the sample count).
    /// The standard deviation is the square root of their quotient,
    /// and zero when fewer than two samples were recorded — for a
    /// single sample the numerator itself is exactly zero.
    pub fn variance_parts(&self) -> (r: (i128, usize))
        requires
            self.wf(),
        ensures
            r.0 == spec_sum_sq_dev(self@.values, spec_avg(self@.values)),
            r.1 == if self@.values.len() < 2 {
                0int
            } else {
                self@.values.len() - 1
            },
            self@.values.len() < 2 ==> r.0 == 0,
    {
        let ghost vs = self.status@;
        let ghost m = spec_avg(vs);
        let mean = self.avg;
        let mut acc: i128 = 0;
        let mut i: usize = 0;
        proof {
            assert(vs.take(0) =~= Seq::<i64>::empty());
        }
        while i < self.status.len()
            invariant
                self.wf(),
                0 <= i <= self.status@.len(),
                vs =~= self.status@,
                m == spec_avg(vs),
                mean == spec_avg(vs),
                acc == spec_sum_sq_dev(vs.take(i as int), m),
                0 <= acc <= (i as int) * 4 * (VALUE_LIMIT as int) * (VALUE_LIMIT as int),
            decreases self.status@.len() - i,
        {
            let v = self.status[i];
            proof {
                assert(vs.take(i + 1).drop_last() =~= vs.take(i as int));
                lemma_sum_sq_dev_push(vs.take(i as int), m, v);
                assert(vs.take(i + 1) =~= vs.take(i as int).push(v));
                lemma_avg_bounded(vs);
                assert(0 <= (v - m) * (v - m) <= 4 * (VALUE_LIMIT as int) * (VALUE_LIMIT as int))
                    by (nonlinear_arith)
                    requires
                        -VALUE_LIMIT <= v <= VALUE_LIMIT,
                        -VALUE_LIMIT <= m <= VALUE_LIMIT,
                ;
                assert((i + 1) * 4 * (VALUE_LIMIT as int) * (VALUE_LIMIT as int) == (i as int) * 4
                    * (VALUE_LIMIT as int) * (VALUE_LIMIT as int) + 4 * (VALUE_LIMIT as int) * (
                VALUE_LIMIT as int)) by (nonlinear_arith);
                assert((i as int) * 4 * (VALUE_LIMIT as int) * (VALUE_LIMIT as int) <= (
                SAMPLE_LIMIT as int) * 4 * (VALUE_LIMIT as int) * (VALUE_LIMIT as int))
                    by (nonlinear_arith)
                    requires
                        0 <= i <= SAMPLE_LIMIT,
                ;
            }
            let d = v as i128 - mean as i128;
            acc = acc + d * d;
            i = i + 1;
        }
        proof {
            assert(vs.take(vs.len() as int) =~= vs);
            if vs.len() == 1 {
                lemma_single_sample_deviation_zero(vs);
            }
        }
        let dof = if self.samples < 2 {
            0
        } else {
            self.samples - 1
        };
        (acc, dof)
    }
}

/// A bounded reading pushed onto a boundedly-summed sequence keeps
/// the sum bounded by the new length.
proof fn lemma_value_bound_gives_sum_bound(s: Seq<i64>, v: i64)
    requires
        forall|i: int| 0 <= i < s.len() ==> -VALUE_LIMIT <= #[trigger] s[i] <= VALUE_LIMIT,
        -VALUE_LIMIT <= v <= VALUE_LIMIT,
    ensures
        -(VALUE_LIMIT as int) * (s.len() + 1) <= spec_sum(s) + v <= (VALUE_LIMIT as int) * (s.len()
            + 1),
{
    lemma_sum_bounded(s);
    let n = s.len() as int;
    assert((VALUE_LIMIT as int) * (n + 1) == (VALUE_LIMIT as int) * n + VALUE_LIMIT)
        by (nonlinear_arith);
    assert(-(VALUE_LIMIT as int) * (n + 1) == -(VALUE_LIMIT as int) * n - VALUE_LIMIT)
        by (nonlinear_arith);
}

/// The sum of bounded readings is bounded by the length.
pub proof fn lemma_sum_bounded(s: Seq<i64>)
    requires
        forall|i: int| 0 <= i < s.len() ==> -VALUE_LIMIT <= #[trigger] s[i] <= VALUE_LIMIT,
    ensures
        -(VALUE_LIMIT as int) * s.len() <= spec_sum(s) <= (VALUE_LIMIT as int) * s.len(),
    decreases s.len(),
{
    if s.len() == 0 {
    } else {
        lemma_sum_bounded(s.drop_last());
        lemma_sum_push(s.drop_last(), s.last());
        assert(s.drop_last().push(s.last()) =~= s);
        assert((VALUE_LIMIT as int) * s.len() == (VALUE_LIMIT as int) * (s.len() - 1) + VALUE_LIMIT)
            by (nonlinear_arith);
    }
}

/// The rounded average of bounded readings is itself bounded.
pub proof fn lemma_avg_bounded(s: Seq<i64>)
    requires
        forall|i: int| 0 <= i < s.len() ==> -VALUE_LIMIT <= #[trigger] s[i] <= VALUE_LIMIT,
    ensures
        -VALUE_LIMIT <= spec_avg(s) <= VALUE_LIMIT,
{
    if s.len() > 0 {
        lemma_sum_bounded(s);
        lemma_round_div_bounded(spec_sum(s), s.len() as int, VALUE_LIMIT as int);
    }
}

/// A run of identical readings pins the derived statistics: the
/// minimum and the rounded average equal the reading, and so does
/// the maximum when the reading is not negative (the running
/// maximum starts at zero).
pub proof fn lemma_constant_samples_pin_stats(s: Seq<i64>, v: i64)
    requires
        s.len() > 0,
        forall|i: int| 0 <= i < s.len() ==> s[i] == v,
    ensures
        spec_running_min(s) == v,
        v >= 0 ==> spec_running_max(s) == v,
        v < 0 ==> spec_running_max(s) == 0,
        spec_sum(s) == v * s.len(),
        spec_avg(s) == v,
    decreases s.len(),
{
    let n = s.len() as int;
    if s.len() == 1 {
        assert(s.drop_last() =~= Seq::<i64>::empty());
        assert(spec_running_max(s.drop_last()) == 0);
        lemma_sum_push(Seq::<i64>::empty(), v);
        assert(Seq::<i64>::empty().push(v) =~= s);
        assert(v * 1 == v) by (nonlinear_arith);
    } else {
        assert(forall|i: int|
            0 <= i < s.drop_last().len() ==> #[trigger] s.drop_last()[i] == s[i]);
        lemma_constant_samples_pin_stats(s.drop_last(), v);
        lemma_sum_push(s.drop_last(), v);
        assert(s.drop_last().push(v) =~= s);
        assert(s.last() == v);
        assert(v * (n - 1) + v == v * n) by (nonlinear_arith);
    }
    lemma_round_div_of_constant(v as int, n);
    assert(spec_avg(s) == v);
}

/// Rounding the quotient of an exact multiple gives the factor
/// back.
proof fn lemma_round_div_of_constant(v: int, n: int)
    requires
        n > 0,
    ensures
        spec_round_div(v * n, n) == v,
{
    if v >= 0 {
        assert(v * n >= 0) by (nonlinear_arith)
            requires
                v >= 0,
                n > 0,
        ;
        assert(2 * (v * n) + n == v * (2 * n) + n) by (nonlinear_arith);
        vstd::arithmetic::div_mod::lemma_fundamental_div_mod_converse(
            2 * (v * n) + n,
            2 * n,
            v,
            n,
        );
    } else {
        assert(v * n < 0) by (nonlinear_arith)
            requires
                v < 0,
                n > 0,
        ;
        assert(-(v * n) == (-v) * n) by (nonlinear_arith);
        assert(2 * ((-v) * n) + n == (-v) * (2 * n) + n) by (nonlinear_arith);
        vstd::arithmetic::div_mod::lemma_fundamental_div_mod_converse(
            2 * ((-v) * n) + n,
            2 * n,
            -v,
            n,
        );
    }
}

} // verus!
