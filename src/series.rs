//! Time-stamped series shared between the loop that appends and the renderer
//! that reads them, with a sliding time window.
//!
//! `prune` evicts at most one point per call: the renderer calls it once per
//! frame, which runs far more often than points arrive, so eviction catches up
//! one point per frame. A burst of old points (after a pause) therefore leaves
//! over several frames rather than at once.
use vstd::prelude::*;

verus! {

/// One sample: its time in milliseconds and the sampled values.
#[derive(Debug)]
pub struct SeriesPoint {
    pub time_ms: u64,
    pub values: Vec<i64>,
}

/// The times of a sequence of points.
pub open spec fn times_of(points: Seq<SeriesPoint>) -> Seq<int> {
    points.map_values(|p: SeriesPoint| p.time_ms as int)
}

/// Times that never decrease from front to back.
pub open spec fn non_decreasing(s: Seq<int>) -> bool {
    forall|i: int, j: int| 0 <= i <= j < s.len() ==> s[i] <= s[j]
}

/// A time older than the window that ends at `latest`.
pub open spec fn is_stale(t: int, latest: int, window: int) -> bool {
    t + window < latest
}

/// Some time of `s` is older than the window that ends at its last time.
pub open spec fn has_stale(s: Seq<int>, window: int) -> bool {
    s.len() > 0 && exists|i: int| 0 <= i < s.len() && #[trigger] is_stale(s[i], s.last(), window)
}

/// The times left by one prune: the front time goes when some time is stale.
pub open spec fn prune_times(s: Seq<int>, window: int) -> Seq<int> {
    if has_stale(s, window) {
        s.drop_first()
    } else {
        s
    }
}

/// The times that a buffer holds after a steady run: a point at `start`, then
/// one point every `period` milliseconds, each append followed by one prune.
pub open spec fn steady_run(start: int, period: int, window: int, ticks: nat) -> Seq<int>
    decreases ticks,
{
    if ticks == 0 {
        prune_times(seq![start], window)
    } else {
        prune_times(
            steady_run(start, period, window, (ticks - 1) as nat).push(start + ticks * period),
            window,
        )
    }
}

/// Ticks `lo..=ticks` of a steady run, as times.
spec fn tick_times(start: int, period: int, lo: int, ticks: int) -> Seq<int> {
    Seq::new((ticks - lo + 1) as nat, |i: int| start + (lo + i) * period)
}

/// The first tick still held after `ticks` ticks, when `k` whole periods fit in the window.
spec fn first_kept(ticks: int, k: int) -> int {
    if ticks > k {
        ticks - k
    } else {
        0
    }
}

proof fn lemma_periods_in_window(m: int, period: int, window: int)
    requires
        period > 0,
        window >= 0,
    ensures
        (m * period > window) == (m > window / period),
        (window / period) * period <= window < (window / period) * period + period,
{
    let k = window / period;
    vstd::arithmetic::div_mod::lemma_fundamental_div_mod(window, period);
    assert(window == period * k + window % period);
    assert(0 <= window % period < period);
    if m > k {
        assert(m * period >= (k + 1) * period) by (nonlinear_arith)
            requires
                m >= k + 1,
                period > 0,
        ;
        assert((k + 1) * period == k * period + period) by (nonlinear_arith);
        assert(k * period == period * k) by (nonlinear_arith);
    } else {
        assert(m * period <= k * period) by (nonlinear_arith)
            requires
                m <= k,
                period > 0,
        ;
        assert(k * period == period * k) by (nonlinear_arith);
    }
    assert(k * period == period * k) by (nonlinear_arith);
}

proof fn lemma_steady_run_shape(start: int, period: int, window: int, ticks: nat)
    requires
        period > 0,
        window >= 0,
    ensures
        steady_run(start, period, window, ticks)
            == tick_times(start, period, first_kept(ticks as int, window / period), ticks as int),
    decreases ticks,
{
    let k = window / period;
    let n = ticks as int;
    let lo = first_kept(n, k);
    if ticks == 0 {
        let s = seq![start];
        assert forall|i: int| 0 <= i < s.len() implies !#[trigger] is_stale(s[i], s.last(), window) by {}
        assert(s =~= tick_times(start, period, 0, 0));
    } else {
        lemma_steady_run_shape(start, period, window, (ticks - 1) as nat);
        let plo = first_kept(n - 1, k);
        let prev = tick_times(start, period, plo, n - 1);
        let s = prev.push(start + n * period);
        let full = tick_times(start, period, plo, n);
        assert(s =~= full);
        // time of tick `j` is stale at tick `n` exactly when more than `k` ticks lie between
        assert forall|i: int| 0 <= i < s.len() implies
            #[trigger] is_stale(s[i], s.last(), window) == (n - (plo + i) > k) by {
            lemma_periods_in_window(n - (plo + i), period, window);
            assert(s[i] == start + (plo + i) * period);
            assert(s.last() == start + n * period);
            assert(s.last() - s[i] == (n - (plo + i)) * period) by (nonlinear_arith)
                requires
                    s[i] == start + (plo + i) * period,
                    s.last() == start + n * period,
            ;
        }
        if n - plo > k {
            assert(is_stale(s[0], s.last(), window));
            assert(lo == plo + 1);
            assert(s.drop_first() =~= tick_times(start, period, lo, n));
        } else {
            assert(lo == plo);
            assert forall|i: int| 0 <= i < s.len() implies !#[trigger] is_stale(s[i], s.last(), window) by {
                assert(n - (plo + i) <= n - plo);
            }
        }
    }
}

/// Steady window: after a steady run of one point every `period` milliseconds,
/// each append followed by one prune, that has lasted longer than twice the
/// window, the oldest point held is no older than the window that ends at the
/// newest point, and is less than one period younger than its start.
pub proof fn lemma_steady_run_window(start: int, period: int, window: int, ticks: nat)
    requires
        period > 0,
        window >= 0,
        ticks * period > 2 * window,
    ensures
        steady_run(start, period, window, ticks).len() > 0,
        steady_run(start, period, window, ticks).last() == start + ticks * period,
        steady_run(start, period, window, ticks)[0] >= start + ticks * period - window,
        steady_run(start, period, window, ticks)[0] < start + ticks * period - window + period,
{
    let k = window / period;
    let n = ticks as int;
    lemma_steady_run_shape(start, period, window, ticks);
    lemma_periods_in_window(n, period, window);
    assert(n > k);
    let s = steady_run(start, period, window, ticks);
    assert(s[0] == start + (n - k) * period);
    assert(s[0] == start + n * period - k * period) by (nonlinear_arith)
        requires
            s[0] == start + (n - k) * period,
    ;
}

/// Pruning a series that holds no stale time leaves it as it is.
pub proof fn lemma_prune_fresh_unchanged(s: Seq<int>, window: int)
    requires
        !has_stale(s, window),
    ensures
        prune_times(s, window) == s,
{
}

/// A series of points in time order with its window length.
pub struct SeriesBuffer {
    points: Vec<SeriesPoint>,
    window_ms: u64,
}

impl View for SeriesBuffer {
    type V = Seq<SeriesPoint>;

    closed spec fn view(&self) -> Seq<SeriesPoint> {
        self.points@
    }
}

impl SeriesBuffer {
    /// The window length in milliseconds.
    pub closed spec fn window(&self) -> int {
        self.window_ms as int
    }

    /// The points are in time order.
    pub open spec fn wf(&self) -> bool {
        non_decreasing(times_of(self@))
    }

    pub fn new(window_ms: u64) -> (r: SeriesBuffer)
        ensures
            r.wf(),
            r@ == Seq::<SeriesPoint>::empty(),
            r.window() == window_ms,
    {
        let r = SeriesBuffer { points: Vec::new(), window_ms };
        assert(times_of(r@) =~= Seq::<int>::empty());
        r
    }

    pub fn window_ms(&self) -> (r: u64)
        ensures
            r == self.window(),
    {
        self.window_ms
    }

    pub fn len(&self) -> (r: usize)
        ensures
            r == self@.len(),
    {
        self.points.len()
    }

    /// The points, oldest first, for a reader.
    pub fn points(&self) -> (r: &Vec<SeriesPoint>)
        ensures
            r@ == self@,
    {
        &self.points
    }

    /// The time of the newest point.
    pub fn latest_time(&self) -> (r: Option<u64>)
        ensures
            r == (if self@.len() == 0 {
                None::<u64>
            } else {
                Some(self@.last().time_ms)
            }),
    {
        if self.points.len() == 0 {
            None
        } else {
            Some(self.points[self.points.len() - 1].time_ms)
        }
    }

    /// The time of the oldest point.
    pub fn oldest_time(&self) -> (r: Option<u64>)
        ensures
            r == (if self@.len() == 0 {
                None::<u64>
            } else {
                Some(self@[0].time_ms)
            }),
    {
        if self.points.len() == 0 {
            None
        } else {
            Some(self.points[0].time_ms)
        }
    }

    /// Appends `point` when it is not older than the newest point; a point
    /// that would break the time order is refused and `false` returned.
    pub fn append(&mut self, point: SeriesPoint) -> (accepted: bool)
        requires
            old(self).wf(),
        ensures
            final(self).wf(),
            final(self).window() == old(self).window(),
            accepted == (old(self)@.len() == 0 || old(self)@.last().time_ms <= point.time_ms),
            accepted ==> final(self)@ == old(self)@.push(point),
            accepted ==> times_of(final(self)@) == times_of(old(self)@).push(point.time_ms as int),
            !accepted ==> final(self)@ == old(self)@,
    {
        let n = self.points.len();
        if n == 0 || self.points[n - 1].time_ms <= point.time_ms {
            let ghost t = point.time_ms as int;
            let ghost before = times_of(self@);
            self.points.push(point);
            assert(times_of(self@) =~= before.push(t));
            assert forall|i: int, j: int| 0 <= i <= j < before.len() + 1 implies
                #[trigger] before.push(t)[i] <= #[trigger] before.push(t)[j] by {
                if j == before.len() && i < j {
                    assert(before[i] <= before[before.len() - 1]);
                }
            }
            true
        } else {
            false
        }
    }

    /// Removes the oldest point when some point is older than the window
    /// that ends at the newest point, and returns it. At most one point goes
    /// per call. Since the points are in time order, the oldest point is then
    /// the first stale one from the front.
    pub fn prune(&mut self) -> (removed: Option<SeriesPoint>)
        requires
            old(self).wf(),
        ensures
            final(self).wf(),
            final(self).window() == old(self).window(),
            times_of(final(self)@) == prune_times(times_of(old(self)@), old(self).window()),
            has_stale(times_of(old(self)@), old(self).window()) ==> {
                &&& removed == Some(old(self)@[0])
                &&& is_stale(old(self)@[0].time_ms as int, old(self)@.last().time_ms as int, old(self).window())
                &&& final(self)@ == old(self)@.drop_first()
            },
            !has_stale(times_of(old(self)@), old(self).window()) ==> {
                &&& removed is None
                &&& final(self)@ == old(self)@
            },
    {
        let ghost s = times_of(self@);
        let ghost w = self.window();
        let n = self.points.len();
        if n == 0 {
            return None;
        }
        let latest = self.points[n - 1].time_ms;
        let oldest = self.points[0].time_ms;
        if latest > self.window_ms && oldest < latest - self.window_ms {
            assert(is_stale(s[0], s.last(), w));
            let p = self.points.remove(0);
            assert(times_of(self@) =~= s.drop_first());
            Some(p)
        } else {
            assert forall|i: int| 0 <= i < s.len() implies !is_stale(s[i], s.last(), w) by {
                assert(s[0] <= s[i]);
            }
            None
        }
    }
}

} // verus!
