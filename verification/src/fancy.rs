//! The adaptive cadence policy.
//!
//! The policy holds a ladder of intervals, longest first, and a bounded
//! history of recent readings. A reading whose jump from its
//! predecessor exceeds the mean of the recent jumps steps one rung down
//! the ladder (faster sampling); a run of calm readings, as long as the
//! dampening threshold, steps one rung back up.

use vstd::prelude::*;

use crate::measurement::MAX_ABS_MILLI;
use crate::measurement::Measurement;
use crate::sampler::Sampler;

verus! {

/// How many recent readings the policy keeps.
pub const HISTORY_LIMIT: usize = 16;

/// The state of the adaptive policy, as mathematics: the interval
/// ladder in seconds, the dampening threshold, the count of calm
/// readings since the last change, the recent readings in thousandths,
/// and the current rung.
#[verifier::ext_equal]
pub struct FancyView {
    pub intervals: Seq<u64>,
    pub threshold: int,
    pub counter: int,
    pub history: Seq<int>,
    pub index: int,
}

/// The magnitude of an integer.
pub open spec fn abs_int(x: int) -> int {
    if x >= 0 {
        x
    } else {
        -x
    }
}

/// The sum of the absolute differences of successive readings.
pub open spec fn deltas_sum(h: Seq<int>) -> int
    decreases h.len(),
{
    if h.len() < 2 {
        0
    } else {
        deltas_sum(h.drop_last()) + abs_int(h[h.len() - 1] - h[h.len() - 2])
    }
}

/// The absolute difference of the two most recent readings.
pub open spec fn latest_delta(h: Seq<int>) -> int
    recommends
        h.len() >= 2,
{
    abs_int(h[h.len() - 1] - h[h.len() - 2])
}

/// The history after one more reading: the reading is appended, and
/// the oldest entry leaves once the bound is reached.
pub open spec fn push_history(h: Seq<int>, m: int) -> Seq<int> {
    let h2 = h.push(m);
    if h2.len() > HISTORY_LIMIT {
        h2.subrange(1, h2.len() as int)
    } else {
        h2
    }
}

/// One rung down the ladder (faster sampling), clamped to the bottom.
pub open spec fn step_down(index: int, len: int) -> int {
    if index + 1 < len {
        index + 1
    } else {
        len - 1
    }
}

/// One rung up the ladder (slower sampling), clamped to the top.
pub open spec fn step_up(index: int) -> int {
    if index > 0 {
        index - 1
    } else {
        0
    }
}

/// One observation of the adaptive policy. With fewer than two
/// readings in the history only the history changes. Otherwise, a
/// jump above the mean of the recent jumps steps one rung down and
/// resets the calm counter; a calm reading raises the counter, and a
/// counter that reaches the dampening threshold steps one rung up and
/// resets. The jump-versus-mean comparison is exact:
/// `latest > sum / count` is taken as `latest * count > sum`.
pub open spec fn fancy_step(v: FancyView, m: int) -> FancyView {
    let h = push_history(v.history, m);
    if h.len() < 2 {
        FancyView { history: h, ..v }
    } else if latest_delta(h) * (h.len() - 1) > deltas_sum(h) {
        FancyView { history: h, index: step_down(v.index, v.intervals.len() as int), counter: 0, ..v }
    } else if v.counter + 1 >= v.threshold {
        FancyView { history: h, index: step_up(v.index), counter: 0, ..v }
    } else {
        FancyView { history: h, counter: v.counter + 1, ..v }
    }
}

/// The interval, in seconds, the policy charges in a state.
pub open spec fn fancy_interval(v: FancyView) -> u64 {
    v.intervals[v.index]
}

/// The consistency condition of a policy state: a non-empty ladder,
/// longest interval first; the rung within the ladder; the calm
/// counter within the threshold; and a bounded history of bounded
/// readings.
pub open spec fn fancy_inv(v: FancyView) -> bool {
    &&& 1 <= v.intervals.len()
    &&& (forall|i: int, j: int|
        0 <= i <= j < v.intervals.len() ==> v.intervals[i] >= v.intervals[j])
    &&& 0 <= v.index < v.intervals.len()
    &&& 0 <= v.counter <= v.threshold
    &&& v.history.len() <= HISTORY_LIMIT
    &&& (forall|i: int|
        0 <= i < v.history.len() ==> -MAX_ABS_MILLI <= #[trigger] v.history[i] <= MAX_ABS_MILLI)
}

/// The mean of the absolute differences of successive readings, in
/// thousandths, rounded toward zero; `None` with fewer than two
/// readings.
pub fn measurements_mean_delta(m: &Vec<Measurement>) -> (r: Option<i64>)
    requires
        forall|i: int| 0 <= i < m@.len() ==> (#[trigger] m@[i]).valid(),
    ensures
        m@.len() < 2 ==> r is None,
        m@.len() >= 2 ==> (r matches Some(v) && v == deltas_sum(
            m@.map_values(|mm: Measurement| mm.milli as int),
        ) / (m@.len() - 1)),
{
    let n = m.len();
    if n < 2 {
        return None;
    }
    let ghost h = m@.map_values(|mm: Measurement| mm.milli as int);
    let mut sum: u128 = 0;
    let mut i: usize = 1;
    while i < n
        invariant
            1 <= i <= n,
            2 <= n,
            n == m@.len(),
            h == m@.map_values(|mm: Measurement| mm.milli as int),
            forall|j: int| 0 <= j < m@.len() ==> (#[trigger] m@[j]).valid(),
            sum == deltas_sum(h.subrange(0, i as int)),
            sum <= 2 * MAX_ABS_MILLI * (i - 1),
        decreases n - i,
    {
        let jump = m[i].abs_delta(m[i - 1]);
        proof {
            assert(h.subrange(0, i + 1 as int).drop_last() =~= h.subrange(0, i as int));
            assert(h[i as int] == m@[i as int].milli as int);
            assert(h[i - 1 as int] == m@[i - 1 as int].milli as int);
            assert(0 <= jump <= 2 * MAX_ABS_MILLI);
            assert(sum + jump <= 2 * MAX_ABS_MILLI * (i as int)) by (nonlinear_arith)
                requires
                    sum <= 2 * MAX_ABS_MILLI * (i - 1),
                    jump <= 2 * MAX_ABS_MILLI,
                    1 <= i,
            ;
            assert(2 * MAX_ABS_MILLI * (i as int) <= 2 * MAX_ABS_MILLI
                * 0xffff_ffff_ffff_ffff) by (nonlinear_arith)
                requires
                    1 <= i <= 0xffff_ffff_ffff_ffff,
            ;
        }
        sum = sum + (jump as u128);
        i = i + 1;
    }
    proof {
        assert(h.subrange(0, n as int) =~= h);
    }
    let count = (n - 1) as u128;
    let mean = sum / count;
    proof {
        assert(mean <= 2 * MAX_ABS_MILLI) by (nonlinear_arith)
            requires
                sum <= 2 * MAX_ABS_MILLI * (count as int),
                1 <= count,
                mean == sum as int / count as int,
        ;
    }
    Some(mean as i64)
}

/// The adaptive cadence policy.
pub struct FancySampler {
    pub possible_intervals: Vec<u64>,
    pub dampening: u16,
    pub damp_counter: u16,
    pub previous_measurements: Vec<Measurement>,
    pub current_interval_index: usize,
}

impl View for FancySampler {
    type V = FancyView;

    open spec fn view(&self) -> FancyView {
        FancyView {
            intervals: self.possible_intervals@,
            threshold: self.dampening as int,
            counter: self.damp_counter as int,
            history: self.previous_measurements@.map_values(|mm: Measurement| mm.milli as int),
            index: self.current_interval_index as int,
        }
    }
}

impl FancySampler {
    /// A fresh policy: the default ladder of 60, 30, 20, 15, 10, 5, 3
    /// and 1 seconds, no dampening, an empty history, and the longest
    /// interval charged first.
    pub fn new() -> (s: FancySampler)
        ensures
            s.inv(),
            s@.intervals =~= seq![60u64, 30u64, 20u64, 15u64, 10u64, 5u64, 3u64, 1u64],
            s@.threshold == 0,
            s@.counter == 0,
            s@.history =~= Seq::<int>::empty(),
            s@.index == 0,
            s.max_spec() == 60,
    {
        let mut possible_intervals: Vec<u64> = Vec::new();
        possible_intervals.push(60);
        possible_intervals.push(30);
        possible_intervals.push(20);
        possible_intervals.push(15);
        possible_intervals.push(10);
        possible_intervals.push(5);
        possible_intervals.push(3);
        possible_intervals.push(1);
        let s = FancySampler {
            possible_intervals,
            dampening: 0,
            damp_counter: 0,
            previous_measurements: Vec::new(),
            current_interval_index: 0,
        };
        proof {
            assert(s@.intervals =~= seq![60u64, 30u64, 20u64, 15u64, 10u64, 5u64, 3u64, 1u64]);
            assert(s@.history =~= Seq::<int>::empty());
        }
        s
    }
}

impl Sampler for FancySampler {
    open spec fn inv(&self) -> bool {
        fancy_inv(self@)
    }

    open spec fn max_spec(&self) -> u64 {
        self.possible_intervals@[0]
    }

    open spec fn next_ensures(&self, m: Measurement, post: Self, d: u64) -> bool {
        post@ == fancy_step(self@, m.milli as int) && d == fancy_interval(post@)
    }

    /// Records the reading, applies the policy, and returns the
    /// seconds to wait before the next reading.
    fn next(&mut self, measurement: Measurement) -> (d: u64) {
        let ghost pre = self@;
        let ghost mref = measurement.milli as int;
        self.previous_measurements.push(measurement);
        if self.previous_measurements.len() > HISTORY_LIMIT {
            let _ = self.previous_measurements.remove(0);
        }
        let ghost h = self.previous_measurements@.map_values(|mm: Measurement| mm.milli as int);
        proof {
            assert(h =~= push_history(pre.history, mref));
            let p = pre.history.push(mref);
            assert forall|j: int|
                0 <= j < h.len() implies -MAX_ABS_MILLI <= #[trigger] h[j]
                <= MAX_ABS_MILLI by {
                if p.len() > HISTORY_LIMIT {
                    assert(h[j] == p[j + 1]);
                } else {
                    assert(h[j] == p[j]);
                }
            };
            assert forall|j: int|
                0 <= j < h.len() implies (#[trigger] self.previous_measurements@[j]).valid() by {
                assert(h[j] == self.previous_measurements@[j].milli as int);
            };
        }
        let n = self.previous_measurements.len();
        if n < 2 {
            proof {
                assert(self@ =~= fancy_step(pre, mref));
            }
            return self.possible_intervals[self.current_interval_index];
        }
        let mut sum: i64 = 0;
        let mut i: usize = 1;
        while i < n
            invariant
                1 <= i <= n,
                2 <= n <= HISTORY_LIMIT,
                n == self.previous_measurements@.len(),
                h == self.previous_measurements@.map_values(|mm: Measurement| mm.milli as int),
                forall|j: int|
                    0 <= j < n ==> (#[trigger] self.previous_measurements@[j]).valid(),
                sum == deltas_sum(h.subrange(0, i as int)),
                0 <= sum <= 2 * MAX_ABS_MILLI * (i - 1),
            decreases n - i,
        {
            let jump = self.previous_measurements[i].abs_delta(self.previous_measurements[i - 1]);
            proof {
                assert(h.subrange(0, i + 1 as int).drop_last() =~= h.subrange(0, i as int));
                assert(h[i as int] == self.previous_measurements@[i as int].milli as int);
                assert(h[i - 1 as int] == self.previous_measurements@[i - 1 as int].milli as int);
                assert(0 <= jump <= 2 * MAX_ABS_MILLI);
                assert(sum + jump <= 2 * MAX_ABS_MILLI * (i as int)) by (nonlinear_arith)
                    requires
                        sum <= 2 * MAX_ABS_MILLI * (i - 1),
                        jump <= 2 * MAX_ABS_MILLI,
                        1 <= i,
                ;
                assert(2 * MAX_ABS_MILLI * (i as int) <= 2 * MAX_ABS_MILLI * 15)
                    by (nonlinear_arith)
                    requires
                        1 <= i <= 15,
                ;
            }
            sum = sum + jump;
            i = i + 1;
        }
        proof {
            assert(h.subrange(0, n as int) =~= h);
        }
        let latest = self.previous_measurements[n - 1].abs_delta(self.previous_measurements[n - 2]);
        proof {
            assert(h[n - 1 as int] == self.previous_measurements@[n - 1 as int].milli as int);
            assert(h[n - 2 as int] == self.previous_measurements@[n - 2 as int].milli as int);
            assert(latest == latest_delta(h));
        }
        let count: i64 = n as i64 - 1;
        proof {
            assert(0 <= latest as int * count as int <= 2 * MAX_ABS_MILLI * 15)
                by (nonlinear_arith)
                requires
                    0 <= latest <= 2 * MAX_ABS_MILLI,
                    1 <= count <= 15,
            ;
        }
        let ladder_len = self.possible_intervals.len();
        if latest * count > sum {
            if self.current_interval_index + 1 < ladder_len {
                self.current_interval_index = self.current_interval_index + 1;
            }
            self.damp_counter = 0;
        } else {
            let calm: u32 = self.damp_counter as u32 + 1;
            if calm >= self.dampening as u32 {
                if self.current_interval_index > 0 {
                    self.current_interval_index = self.current_interval_index - 1;
                }
                self.damp_counter = 0;
            } else {
                self.damp_counter = calm as u16;
            }
        }
        proof {
            assert(self@ =~= fancy_step(pre, mref));
        }
        self.possible_intervals[self.current_interval_index]
    }

    /// The longest ladder interval; with the ladder ordered longest
    /// first, the first entry.
    fn max(&self) -> (d: u64) {
        let mut best = self.possible_intervals[0];
        let mut i: usize = 1;
        while i < self.possible_intervals.len()
            invariant
                fancy_inv(self@),
                1 <= i <= self.possible_intervals@.len(),
                best == self.possible_intervals@[0],
            decreases self.possible_intervals@.len() - i,
        {
            if self.possible_intervals[i] > best {
                best = self.possible_intervals[i];
            }
            i = i + 1;
        }
        best
    }
}

/// The sum of absolute differences is never negative.
pub proof fn lemma_deltas_sum_nonneg(h: Seq<int>)
    ensures
        deltas_sum(h) >= 0,
    decreases h.len(),
{
    if h.len() >= 2 {
        lemma_deltas_sum_nonneg(h.drop_last());
    }
}

/// The policy state after `n` observations of the same reading `m`.
pub open spec fn fancy_iter(v: FancyView, m: int, n: nat) -> FancyView
    decreases n,
{
    if n == 0 {
        v
    } else {
        fancy_step(fancy_iter(v, m, (n - 1) as nat), m)
    }
}

/// Iterating `n` times is one step and then `n - 1` iterations.
pub proof fn lemma_iter_unfold_front(v: FancyView, m: int, n: nat)
    requires
        n >= 1,
    ensures
        fancy_iter(v, m, n) == fancy_iter(fancy_step(v, m), m, (n - 1) as nat),
    decreases n,
{
    if n == 1 {
        assert(fancy_iter(v, m, 1) == fancy_step(fancy_iter(v, m, 0), m));
        assert(fancy_iter(fancy_step(v, m), m, 0) == fancy_step(v, m));
    } else {
        lemma_iter_unfold_front(v, m, (n - 1) as nat);
        assert(fancy_iter(v, m, n) == fancy_step(fancy_iter(v, m, (n - 1) as nat), m));
        assert(fancy_iter(fancy_step(v, m), m, (n - 1) as nat) == fancy_step(
            fancy_iter(fancy_step(v, m), m, (n - 2) as nat),
            m,
        ));
    }
}

/// One step from a consistent state: the state stays consistent, the
/// ladder and the threshold never change, the reading just observed is
/// the last of the history, and the rung moves down by at most one.
pub proof fn lemma_step_basic(v: FancyView, m: int)
    requires
        fancy_inv(v),
        -MAX_ABS_MILLI <= m <= MAX_ABS_MILLI,
    ensures
        fancy_inv(fancy_step(v, m)),
        fancy_step(v, m).intervals == v.intervals,
        fancy_step(v, m).threshold == v.threshold,
        1 <= fancy_step(v, m).history.len(),
        fancy_step(v, m).history.last() == m,
        fancy_step(v, m).index <= v.index + 1,
{
    let h = push_history(v.history, m);
    let p = v.history.push(m);
    assert(h.last() == m);
    assert forall|i: int| 0 <= i < h.len() implies -MAX_ABS_MILLI <= #[trigger] h[i]
        <= MAX_ABS_MILLI by {
        if p.len() > HISTORY_LIMIT {
            assert(h[i] == p[i + 1]);
        } else {
            assert(h[i] == p[i]);
        }
    };
}

/// One step where the reading observed equals the last of the history:
/// the latest jump is zero, so the policy never speeds up; it slows
/// down exactly when the calm counter reaches the threshold.
pub proof fn lemma_step_calm(v: FancyView, m: int)
    requires
        fancy_inv(v),
        -MAX_ABS_MILLI <= m <= MAX_ABS_MILLI,
        1 <= v.history.len(),
        v.history.last() == m,
    ensures
        fancy_step(v, m).index <= v.index,
        v.index == 0 ==> fancy_step(v, m).index == 0,
        v.index > 0 && v.counter + 1 >= v.threshold ==> fancy_step(v, m).index == v.index - 1,
        v.counter + 1 < v.threshold ==> fancy_step(v, m).index == v.index && fancy_step(
            v,
            m,
        ).counter == v.counter + 1,
        v.counter + 1 >= v.threshold ==> fancy_step(v, m).counter == 0,
{
    let h = push_history(v.history, m);
    let p = v.history.push(m);
    assert(h.len() >= 2);
    if p.len() > HISTORY_LIMIT {
        assert(h[h.len() - 2] == p[p.len() - 2]);
    }
    assert(h[h.len() - 2] == v.history[v.history.len() - 1]);
    assert(latest_delta(h) == 0);
    lemma_deltas_sum_nonneg(h);
    assert(latest_delta(h) * (h.len() - 1) == 0) by (nonlinear_arith)
        requires
            latest_delta(h) == 0,
    ;
}

/// Once the policy charges the longest interval and keeps observing
/// the same reading, it stays there.
pub proof fn lemma_stay_zero(v: FancyView, m: int, n: nat)
    requires
        fancy_inv(v),
        -MAX_ABS_MILLI <= m <= MAX_ABS_MILLI,
        1 <= v.history.len(),
        v.history.last() == m,
        v.index == 0,
    ensures
        fancy_iter(v, m, n).index == 0,
        fancy_iter(v, m, n).intervals == v.intervals,
        fancy_inv(fancy_iter(v, m, n)),
    decreases n,
{
    if n >= 1 {
        let w = fancy_step(v, m);
        lemma_step_basic(v, m);
        lemma_step_calm(v, m);
        lemma_iter_unfold_front(v, m, n);
        lemma_stay_zero(w, m, (n - 1) as nat);
    }
}

/// How many observations of an unchanged reading are certainly enough
/// to bring this state to the longest interval: one rung up costs at
/// most `threshold + 1` calm observations.
pub open spec fn settle_bound(v: FancyView) -> int {
    v.index * (v.threshold + 1) + (v.threshold + 1 - v.counter)
}

/// Observing the same reading again and again from a state whose
/// history already ends in that reading: after `settle_bound` steps
/// the policy charges the longest interval, and keeps doing so.
pub proof fn lemma_settle_calm(v: FancyView, m: int, n: nat)
    requires
        fancy_inv(v),
        -MAX_ABS_MILLI <= m <= MAX_ABS_MILLI,
        1 <= v.history.len(),
        v.history.last() == m,
        v.index > 0 ==> n >= settle_bound(v),
    ensures
        fancy_iter(v, m, n).index == 0,
        fancy_iter(v, m, n).intervals == v.intervals,
        fancy_inv(fancy_iter(v, m, n)),
    decreases n,
{
    if v.index == 0 {
        lemma_stay_zero(v, m, n);
    } else {
        assert(v.threshold + 1 - v.counter >= 1);
        assert(v.index * (v.threshold + 1) >= v.threshold + 1) by (nonlinear_arith)
            requires
                v.index >= 1,
                v.threshold + 1 >= 1,
        ;
        assert(n >= 1);
        let w = fancy_step(v, m);
        lemma_step_basic(v, m);
        lemma_step_calm(v, m);
        lemma_iter_unfold_front(v, m, n);
        if v.counter + 1 >= v.threshold {
            assert(w.index == v.index - 1 && w.counter == 0);
            assert((v.index - 1) * (v.threshold + 1) + (v.threshold + 1) == v.index * (
            v.threshold + 1)) by (nonlinear_arith);
            assert(settle_bound(w) <= settle_bound(v) - 1);
        } else {
            assert(w.index == v.index && w.counter == v.counter + 1);
            assert(settle_bound(w) == settle_bound(v) - 1);
        }
        lemma_settle_calm(w, m, (n - 1) as nat);
    }
}

/// Fed the same reading over and over, the adaptive policy eventually
/// charges the longest interval of its ladder — the policy's maximum —
/// and stays there: after enough observations the rung is the top one
/// at every later step, and the interval charged there is at least
/// every interval of the ladder.
pub proof fn lemma_fancy_settles(v: FancyView, m: int, n: nat)
    requires
        fancy_inv(v),
        -MAX_ABS_MILLI <= m <= MAX_ABS_MILLI,
        n >= 1 + (v.index + 2) * (v.threshold + 1),
    ensures
        fancy_iter(v, m, n).index == 0,
        fancy_interval(fancy_iter(v, m, n)) == v.intervals[0],
        forall|i: int| 0 <= i < v.intervals.len() ==> #[trigger] v.intervals[i] <= v.intervals[0],
{
    let w = fancy_step(v, m);
    lemma_step_basic(v, m);
    lemma_iter_unfold_front(v, m, n);
    assert(w.index * (v.threshold + 1) <= (v.index + 1) * (v.threshold + 1))
        by (nonlinear_arith)
        requires
            w.index <= v.index + 1,
            v.threshold + 1 >= 1,
    ;
    assert((v.index + 1) * (v.threshold + 1) + (v.threshold + 1) == (v.index + 2) * (
    v.threshold + 1)) by (nonlinear_arith);
    assert(settle_bound(w) <= (v.index + 2) * (v.threshold + 1));
    lemma_settle_calm(w, m, (n - 1) as nat);
}

} // verus!
