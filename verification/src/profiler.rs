//! Rolling frame-time statistics.
//!
//! The profiler keeps a bounded window of the most recent frame durations,
//! measured in whole nanoseconds, and reports aggregate statistics over that
//! window: mean, minimum, maximum, the 95th and 99th percentile, and how many
//! frames exceeded the drop threshold of 20 ms (the budget of a 50 fps
//! frame). Percentiles are read from the window sorted in ascending order,
//! so they depend only on which samples are present, never on the order the
//! frames arrived in.

use vstd::prelude::*;
use vstd::relations::{sorted_by, total_ordering};
use vstd::seq_lib::{group_to_multiset_ensures, lemma_sorted_unique, to_multiset_update};
use vstd::arithmetic::div_mod::{
    lemma_div_by_multiple, lemma_div_is_ordered, lemma_div_pos_is_pos, lemma_multiply_divide_lt,
};

verus! {

/// A frame longer than this many nanoseconds (20 ms) counts as a dropped frame.
pub const DROP_THRESHOLD_NANOS: u64 = 20_000_000;

/// A statistics report is due every this many recorded frames
/// (about two seconds at a 60 fps cadence).
pub const FRAMES_PER_REPORT: u64 = 120;

/// Ascending order on frame times.
pub open spec fn nanos_leq() -> spec_fn(u64, u64) -> bool {
    |a: u64, b: u64| a <= b
}

/// The window rearranged in ascending order.
pub open spec fn sorted_window(s: Seq<u64>) -> Seq<u64> {
    s.sort_by(nanos_leq())
}

/// Total of all frame times in the window.
pub open spec fn window_sum(s: Seq<u64>) -> int
    decreases s.len(),
{
    if s.len() == 0 {
        0
    } else {
        window_sum(s.drop_last()) + s.last()
    }
}

/// Index of the p-th percentile sample within a window of length `len`.
pub open spec fn percentile_index(len: int, p: int) -> int {
    len * p / 100
}

/// The p-th percentile of a window: the sample found at the percentile index
/// once the window is in ascending order.
pub open spec fn window_percentile(s: Seq<u64>, p: int) -> u64 {
    sorted_window(s)[percentile_index(s.len() as int, p)]
}

/// Number of dropped frames (frame time above the threshold) in the window.
pub open spec fn window_drops(s: Seq<u64>) -> int {
    s.filter(|t: u64| t > DROP_THRESHOLD_NANOS).len() as int
}

/// Frames per second that a frame time corresponds to: one second divided by
/// the frame time, taken to the nearest whole number. A zero frame time
/// saturates.
pub open spec fn fps_of_frame_time(nanos: u64) -> u64 {
    if nanos == 0 {
        u64::MAX
    } else {
        ((1_000_000_000 + nanos as int / 2) / nanos as int) as u64
    }
}

/// One aggregate statistics report over the current window.
pub struct FrameStats {
    /// Frame rate derived from the most recent frame alone.
    pub fps: u64,
    /// Mean frame time over the window, in nanoseconds (rounded down).
    pub avg_nanos: u64,
    /// Shortest frame time in the window.
    pub min_nanos: u64,
    /// Longest frame time in the window.
    pub max_nanos: u64,
    /// 95th percentile frame time.
    pub p95_nanos: u64,
    /// 99th percentile frame time.
    pub p99_nanos: u64,
    /// How many frames in the window exceeded the drop threshold.
    pub drops: u64,
    /// How many frames the window holds.
    pub samples: u64,
}

/// Measures frame times and aggregates them over a bounded rolling window.
pub struct FrameProfiler {
    frame_times: Vec<u64>,
    max_samples: usize,
    frames_recorded: u64,
    current_fps: u64,
}

impl View for FrameProfiler {
    type V = Seq<u64>;

    /// A profiler is abstractly the window of recent frame times, oldest first.
    closed spec fn view(&self) -> Seq<u64> {
        self.frame_times@
    }
}

impl FrameProfiler {
    /// The window never grows beyond the configured bound.
    pub closed spec fn wf(&self) -> bool {
        self.frame_times@.len() <= self.max_samples
    }

    /// The configured bound on the window length.
    pub closed spec fn max_samples(&self) -> int {
        self.max_samples as int
    }

    /// How many frames have been recorded since construction.
    pub closed spec fn spec_frames_recorded(&self) -> u64 {
        self.frames_recorded
    }

    /// How many frames have been recorded since construction.
    #[verifier::when_used_as_spec(spec_frames_recorded)]
    pub fn frames_recorded(&self) -> (r: u64)
        ensures
            r == self.spec_frames_recorded(),
    {
        self.frames_recorded
    }

    /// Frame rate derived from the most recently recorded frame.
    pub closed spec fn current_fps(&self) -> u64 {
        self.current_fps
    }

    /// Creates a profiler with an empty window bounded at `max_samples`.
    pub fn new(max_samples: usize) -> (r: Self)
        ensures
            r.wf(),
            r@ == Seq::<u64>::empty(),
            r.max_samples() == max_samples,
            r.frames_recorded() == 0,
            r.current_fps() == 0,
    {
        FrameProfiler {
            frame_times: Vec::with_capacity(max_samples),
            max_samples,
            frames_recorded: 0,
            current_fps: 0,
        }
    }

    /// Records one frame's duration: the sample joins the window, the oldest
    /// sample leaves once the window is full, and the instantaneous frame
    /// rate is refreshed from this sample alone.
    pub fn record(&mut self, frame_time_nanos: u64)
        requires
            old(self).wf(),
            old(self).frames_recorded() < u64::MAX,
        ensures
            final(self).wf(),
            final(self)@ == if old(self)@.len() < old(self).max_samples() {
                old(self)@.push(frame_time_nanos)
            } else {
                old(self)@.push(frame_time_nanos).drop_first()
            },
            final(self).max_samples() == old(self).max_samples(),
            final(self).frames_recorded() == old(self).frames_recorded() + 1,
            final(self).current_fps() == fps_of_frame_time(frame_time_nanos),
    {
        self.frame_times.push(frame_time_nanos);
        if self.frame_times.len() > self.max_samples {
            self.frame_times.remove(0);
            proof {
                assert(self.frame_times@ =~= old(self)@.push(frame_time_nanos).drop_first());
            }
        }
        self.frames_recorded = self.frames_recorded + 1;
        self.current_fps = if frame_time_nanos == 0 {
            u64::MAX
        } else {
            (1_000_000_000 + frame_time_nanos / 2) / frame_time_nanos
        };
    }

    /// True when a statistics report is due: every `FRAMES_PER_REPORT`
    /// recorded frames.
    pub fn should_log(&self) -> (r: bool)
        ensures
            r == (self.frames_recorded() % FRAMES_PER_REPORT == 0),
    {
        self.frames_recorded % FRAMES_PER_REPORT == 0
    }

    /// Aggregates the window into one report, or nothing while the window is
    /// empty. The mean is the window total divided by the window length; the
    /// minimum, maximum and percentiles are read from the window in ascending
    /// order; drops counts the samples above the threshold.
    pub fn log(&self) -> (r: Option<FrameStats>)
        requires
            self.wf(),
        ensures
            r is Some <==> self@.len() > 0,
            match r {
                Some(stats) => {
                    &&& stats.fps == self.current_fps()
                    &&& stats.avg_nanos == window_sum(self@) / self@.len() as int
                    &&& stats.min_nanos == sorted_window(self@).first()
                    &&& stats.max_nanos == sorted_window(self@).last()
                    &&& stats.p95_nanos == window_percentile(self@, 95)
                    &&& stats.p99_nanos == window_percentile(self@, 99)
                    &&& stats.drops == window_drops(self@)
                    &&& stats.samples == self@.len()
                },
                None => true,
            },
    {
        if self.frame_times.len() == 0 {
            return None;
        }

        let len = self.frame_times.len();
        let total = sum_frame_times(&self.frame_times);
        proof {
            lemma_window_sum_bounded(self.frame_times@);
            lemma_div_is_ordered(
                window_sum(self.frame_times@),
                len as int * u64::MAX as int,
                len as int,
            );
            lemma_div_by_multiple(u64::MAX as int, len as int);
        }
        let avg_nanos = (total / (len as u128)) as u64;

        let sorted = sort_frame_times(&self.frame_times);
        proof {
            broadcast use group_to_multiset_ensures;

            self.frame_times@.lemma_sort_by_ensures(nanos_leq());
            assert(sorted@.to_multiset() == self.frame_times@.to_multiset());
            assert(sorted@.len() == sorted@.to_multiset().len());
            assert(self.frame_times@.len() == self.frame_times@.to_multiset().len());
            lemma_multiply_divide_lt(len as int * 95, 100, len as int);
            lemma_multiply_divide_lt(len as int * 99, 100, len as int);
        }
        let p95 = sorted[(((len as u128) * 95) / 100) as usize];
        let p99 = sorted[(((len as u128) * 99) / 100) as usize];

        let drops = count_drops(&self.frame_times);

        Some(FrameStats {
            fps: self.current_fps,
            avg_nanos,
            min_nanos: sorted[0],
            max_nanos: sorted[len - 1],
            p95_nanos: p95,
            p99_nanos: p99,
            drops,
            samples: len as u64,
        })
    }

    /// Mean frame time over the window in nanoseconds, rounded down, or zero
    /// while the window is empty.
    pub fn avg_frame_time_nanos(&self) -> (r: u64)
        requires
            self.wf(),
        ensures
            self@.len() == 0 ==> r == 0,
            self@.len() > 0 ==> r == window_sum(self@) / self@.len() as int,
    {
        if self.frame_times.len() == 0 {
            return 0;
        }
        let len = self.frame_times.len();
        let total = sum_frame_times(&self.frame_times);
        proof {
            lemma_window_sum_bounded(self.frame_times@);
            lemma_div_is_ordered(
                window_sum(self.frame_times@),
                len as int * u64::MAX as int,
                len as int,
            );
            lemma_div_by_multiple(u64::MAX as int, len as int);
        }
        (total / (len as u128)) as u64
    }
}

/// The window total never exceeds the window length times the largest sample value.
proof fn lemma_window_sum_bounded(s: Seq<u64>)
    ensures
        0 <= window_sum(s) <= s.len() * u64::MAX,
    decreases s.len(),
{
    if s.len() == 0 {
    } else {
        lemma_window_sum_bounded(s.drop_last());
        assert(s.drop_last().len() * u64::MAX + u64::MAX == s.len() * u64::MAX) by (nonlinear_arith)
            requires s.len() >= 1;
    }
}

/// Adds up the window. The total fits in a 128-bit integer because the window
/// length and every sample are 64-bit values.
fn sum_frame_times(v: &Vec<u64>) -> (r: u128)
    ensures
        r == window_sum(v@),
{
    let mut total: u128 = 0;
    let mut i: usize = 0;
    while i < v.len()
        invariant
            i <= v@.len(),
            total == window_sum(v@.subrange(0, i as int)),
            total <= i * u64::MAX,
        decreases v@.len() - i,
    {
        proof {
            lemma_window_sum_bounded(v@.subrange(0, i as int));
            assert(v@.subrange(0, i as int + 1).drop_last() =~= v@.subrange(0, i as int));
            assert((i + 1) * u64::MAX == i * u64::MAX + u64::MAX) by (nonlinear_arith);
        }
        total = total + v[i] as u128;
        i = i + 1;
    }
    proof {
        assert(v@.subrange(0, v@.len() as int) =~= v@);
    }
    total
}

/// Counts the samples above the drop threshold.
fn count_drops(v: &Vec<u64>) -> (r: u64)
    ensures
        r == window_drops(v@),
{
    let mut drops: u64 = 0;
    let mut i: usize = 0;
    proof {
        assert(v@.subrange(0, 0).filter(|t: u64| t > DROP_THRESHOLD_NANOS) =~= Seq::<u64>::empty());
    }
    while i < v.len()
        invariant
            i <= v@.len(),
            drops == window_drops(v@.subrange(0, i as int)),
            drops <= i,
        decreases v@.len() - i,
    {
        proof {
            let prefix = v@.subrange(0, i as int);
            let next = v@.subrange(0, i as int + 1);
            assert(next.drop_last() =~= prefix);
            reveal_with_fuel(Seq::filter, 2);
            lemma_filter_len_bounded(prefix);
        }
        if v[i] > DROP_THRESHOLD_NANOS {
            drops = drops + 1;
        }
        i = i + 1;
    }
    proof {
        assert(v@.subrange(0, v@.len() as int) =~= v@);
    }
    drops
}

/// A filtered window is no longer than the window itself.
proof fn lemma_filter_len_bounded(s: Seq<u64>)
    ensures
        s.filter(|t: u64| t > DROP_THRESHOLD_NANOS).len() <= s.len(),
    decreases s.len(),
{
    reveal_with_fuel(Seq::filter, 2);
    if s.len() != 0 {
        lemma_filter_len_bounded(s.drop_last());
    }
}

/// The ascending order on frame times is a total order.
proof fn lemma_nanos_leq_total()
    ensures
        total_ordering(nanos_leq()),
{
}

/// Rearranges the window into ascending order by insertion sort.
fn sort_frame_times(v: &Vec<u64>) -> (r: Vec<u64>)
    ensures
        r@ == sorted_window(v@),
{
    let mut r: Vec<u64> = Vec::new();
    let mut i: usize = 0;
    proof {
        assert(r@ =~= v@.subrange(0, 0));
    }
    while i < v.len()
        invariant
            i <= v@.len(),
            r@.len() == i,
            r@.to_multiset() == v@.subrange(0, i as int).to_multiset(),
            sorted_by(r@, nanos_leq()),
        decreases v@.len() - i,
    {
        proof {
            broadcast use group_to_multiset_ensures;
            assert(v@.subrange(0, i as int + 1).drop_last() =~= v@.subrange(0, i as int));
            assert(v@.subrange(0, i as int + 1) =~=
                v@.subrange(0, i as int).push(v@[i as int]));
        }
        r.push(v[i]);
        let mut j: usize = r.len() - 1;
        while j > 0 && r[j - 1] > r[j]
            invariant
                j < r@.len(),
                r@.len() == i + 1,
                i < v@.len(),
                r@.to_multiset() == v@.subrange(0, i as int + 1).to_multiset(),
                forall|a: int, b: int|
                    0 <= a < b < r@.len() && b != j ==> nanos_leq()(r@[a], r@[b]),
                forall|a: int| j < a < r@.len() ==> nanos_leq()(r@[j as int], r@[a]),
            decreases j,
        {
            proof {
                broadcast use to_multiset_update;
                broadcast use group_to_multiset_ensures;
            }
            let lo = r[j - 1];
            let hi = r[j];
            let ghost before = r@;
            r.set(j - 1, hi);
            r.set(j, lo);
            proof {
                assert(r@.to_multiset() =~= before.to_multiset());
            }
            j = j - 1;
        }
        i = i + 1;
    }
    proof {
        broadcast use group_to_multiset_ensures;
        assert(v@.subrange(0, v@.len() as int) =~= v@);
        v@.lemma_sort_by_ensures(nanos_leq());
        lemma_nanos_leq_total();
        lemma_sorted_unique(r@, sorted_window(v@), nanos_leq());
    }
    r
}

/// A report's order statistics are consistent: the 95th percentile lies
/// between the shortest frame time and the 99th percentile, which lies below
/// the longest frame time.
pub proof fn lemma_percentiles_ordered(s: Seq<u64>)
    requires
        s.len() > 0,
    ensures
        sorted_window(s).first() <= window_percentile(s, 95),
        window_percentile(s, 95) <= window_percentile(s, 99),
        window_percentile(s, 99) <= sorted_window(s).last(),
{
    broadcast use group_to_multiset_ensures;

    s.lemma_sort_by_ensures(nanos_leq());
    let w = sorted_window(s);
    assert(w.len() == w.to_multiset().len());
    assert(s.len() == s.to_multiset().len());
    let len = s.len() as int;
    lemma_div_pos_is_pos(len * 95, 100);
    lemma_div_is_ordered(len * 95, len * 99, 100);
    lemma_multiply_divide_lt(len * 99, 100, len);
    assert(nanos_leq()(w[0], w[percentile_index(len, 95)]));
    assert(nanos_leq()(w[percentile_index(len, 95)], w[percentile_index(len, 99)]));
    assert(nanos_leq()(w[percentile_index(len, 99)], w[len - 1]));
}

/// The report's minimum and maximum really bound the window: every sample
/// lies between the first and the last value of the ascending ordering.
pub proof fn lemma_window_bounds(s: Seq<u64>, k: int)
    requires
        0 <= k < s.len(),
    ensures
        sorted_window(s).first() <= s[k],
        s[k] <= sorted_window(s).last(),
{
    broadcast use group_to_multiset_ensures;

    s.lemma_sort_by_ensures(nanos_leq());
    let w = sorted_window(s);
    assert(w.len() == w.to_multiset().len());
    assert(s.len() == s.to_multiset().len());
    assert(s.contains(s[k]));
    assert(w.to_multiset().count(s[k]) > 0);
    assert(w.contains(s[k]));
    let j = choose|j: int| 0 <= j < w.len() && w[j] == s[k];
    assert(nanos_leq()(w[0], w[j]));
    assert(nanos_leq()(w[j], w[w.len() - 1]));
}

/// A percentile is an observed value, not an interpolation: the window
/// contains every percentile it reports.
pub proof fn lemma_percentile_is_a_sample(s: Seq<u64>, p: int)
    requires
        s.len() > 0,
        0 <= p < 100,
    ensures
        s.contains(window_percentile(s, p)),
{
    broadcast use group_to_multiset_ensures;

    s.lemma_sort_by_ensures(nanos_leq());
    let w = sorted_window(s);
    assert(w.len() == w.to_multiset().len());
    assert(s.len() == s.to_multiset().len());
    let len = s.len() as int;
    let i = percentile_index(len, p);
    lemma_div_pos_is_pos(len * p, 100);
    assert(len * p < 100 * len) by (nonlinear_arith)
        requires
            0 <= p < 100,
            len > 0,
    ;
    lemma_multiply_divide_lt(len * p, 100, len);
    assert(w.contains(w[i]));
    assert(s.to_multiset().count(w[i]) > 0);
}

/// The percentiles of a window depend only on which samples it holds, never
/// on the order they were recorded in: two windows with the same samples
/// report the same percentile values.
pub proof fn lemma_percentile_order_independent(s1: Seq<u64>, s2: Seq<u64>, p: int)
    requires
        s1.to_multiset() == s2.to_multiset(),
    ensures
        window_percentile(s1, p) == window_percentile(s2, p),
{
    broadcast use group_to_multiset_ensures;

    s1.lemma_sort_by_ensures(nanos_leq());
    s2.lemma_sort_by_ensures(nanos_leq());
    lemma_nanos_leq_total();
    assert(s1.len() == s1.to_multiset().len());
    assert(s2.len() == s2.to_multiset().len());
    lemma_sorted_unique(sorted_window(s1), sorted_window(s2), nanos_leq());
}

} // verus!
