use vstd::prelude::*;

verus! {

// A throughput estimator over a fixed window of the most recent samples.
//
// Each sample is a pair (bytes, elapsed_ms). The estimator keeps the 60 most
// recent samples in a circular buffer; the average throughput is the sum of
// bytes over the recorded samples divided by the sum of their elapsed times.

/// One recorded sample: bytes transferred, and the milliseconds they took.
pub type Sample = (u64, u64);

/// The samples an estimator currently remembers: the most recent
/// `min(n, 60)` of the `n` samples ever added, oldest first.
pub open spec fn recent(h: Seq<Sample>) -> Seq<Sample> {
    if h.len() <= 60 {
        h
    } else {
        h.subrange(h.len() - 60, h.len() as int)
    }
}

/// Sum of the byte counts of a sequence of samples.
pub open spec fn sum_bytes(h: Seq<Sample>) -> int
    decreases h.len(),
{
    if h.len() == 0 {
        0
    } else {
        sum_bytes(h.drop_last()) + h.last().0
    }
}

/// Sum of the elapsed times of a sequence of samples.
pub open spec fn sum_time(h: Seq<Sample>) -> int
    decreases h.len(),
{
    if h.len() == 0 {
        0
    } else {
        sum_time(h.drop_last()) + h.last().1
    }
}

/// Sum of the first `n` elements of a sequence of words.
spec fn sum_prefix(s: Seq<u64>, n: int) -> int
    decreases n,
{
    if n <= 0 {
        0
    } else {
        sum_prefix(s, n - 1) + s[n - 1]
    }
}

/// After `len` samples, buffer slot `j` holds the sample with this position
/// in the full history.
spec fn slot_src(len: int, j: int) -> int {
    if len <= 60 {
        j
    } else {
        let r = len % 60;
        if j < r {
            len - r + j
        } else {
            len - r - 60 + j
        }
    }
}

proof fn lemma_sum_prefix_congruent(s: Seq<u64>, t: Seq<u64>, n: int)
    requires
        forall|j: int| 0 <= j < n ==> s[j] == t[j],
    ensures
        sum_prefix(s, n) == sum_prefix(t, n),
    decreases n,
{
    if n > 0 {
        lemma_sum_prefix_congruent(s, t, n - 1);
    }
}

proof fn lemma_sum_prefix_update(s: Seq<u64>, n: int, k: int, v: u64)
    requires
        0 <= k < n <= s.len(),
    ensures
        sum_prefix(s.update(k, v), n) == sum_prefix(s, n) - s[k] + v,
    decreases n,
{
    if k == n - 1 {
        assert forall|j: int| 0 <= j < n - 1 implies s.update(k, v)[j] == s[j] by {}
        lemma_sum_prefix_congruent(s.update(k, v), s, n - 1);
    } else {
        lemma_sum_prefix_update(s, n - 1, k, v);
        assert(s.update(k, v)[n - 1] == s[n - 1]);
    }
}

proof fn lemma_sum_push(h: Seq<Sample>, x: Sample)
    ensures
        sum_bytes(h.push(x)) == sum_bytes(h) + x.0,
        sum_time(h.push(x)) == sum_time(h) + x.1,
{
    assert(h.push(x).drop_last() =~= h);
}

proof fn lemma_sum_drop_first(h: Seq<Sample>)
    requires
        h.len() > 0,
    ensures
        sum_bytes(h.subrange(1, h.len() as int)) == sum_bytes(h) - h[0].0,
        sum_time(h.subrange(1, h.len() as int)) == sum_time(h) - h[0].1,
    decreases h.len(),
{
    let n = h.len() as int;
    let t = h.subrange(1, n);
    if h.len() == 1 {
        assert(t =~= Seq::<Sample>::empty());
        assert(h.drop_last() =~= Seq::<Sample>::empty());
    } else {
        lemma_sum_drop_first(h.drop_last());
        assert(t.drop_last() =~= h.drop_last().subrange(1, n - 1));
        assert(t.last() == h.last());
    }
}

/// A fixed-capacity circular buffer of throughput samples. The most recent
/// 60 samples are kept; older ones are overwritten in first-in, first-out
/// order. The abstract value (the view) is the full sequence of samples ever
/// added; only the `recent` part of it influences the sums reported.
pub struct MovingAverage {
    window_bytes: Vec<u64>,
    window_time: Vec<u64>,
    index: usize,
    high_water: usize,
    history: Ghost<Seq<Sample>>,
}

impl View for MovingAverage {
    type V = Seq<Sample>;

    closed spec fn view(&self) -> Seq<Sample> {
        self.history@
    }
}

impl MovingAverage {
    /// The buffer's slots mirror the most recent samples of the history.
    pub closed spec fn wf(&self) -> bool {
        let h = self.history@;
        let len = h.len() as int;
        &&& self.window_bytes@.len() == 60
        &&& self.window_time@.len() == 60
        &&& self.high_water == if len <= 60 {
            len
        } else {
            60
        }
        &&& self.index == len % 60
        &&& forall|j: int|
            0 <= j < self.high_water ==> (#[trigger] self.window_bytes@[j])
                == h[slot_src(len, j)].0 && self.window_time@[j] == h[slot_src(len, j)].1
        &&& sum_prefix(self.window_bytes@, self.high_water as int) == sum_bytes(recent(h))
        &&& sum_prefix(self.window_time@, self.high_water as int) == sum_time(recent(h))
    }

    /// A fresh estimator with no samples recorded.
    pub fn new() -> (r: MovingAverage)
        ensures
            r.wf(),
            r@ == Seq::<Sample>::empty(),
    {
        let mut wb: Vec<u64> = Vec::new();
        let mut wt: Vec<u64> = Vec::new();
        let mut i: usize = 0;
        while i < 60
            invariant
                wb@.len() == i,
                wt@.len() == i,
                i <= 60,
            decreases 60 - i,
        {
            wb.push(0);
            wt.push(0);
            i = i + 1;
        }
        MovingAverage { window_bytes: wb, window_time: wt, index: 0, high_water: 0, history: Ghost(
            Seq::empty(),
        ) }
    }

    /// Record one sample, overwriting the oldest one once 60 are held.
    pub fn add(&mut self, bytes: u64, time: u64)
        requires
            old(self).wf(),
        ensures
            final(self).wf(),
            final(self)@ == old(self)@.push((bytes, time)),
    {
        let ghost h = self.history@;
        let ghost len = h.len() as int;
        let ghost x: Sample = (bytes, time);
        let idx = self.index;
        self.window_bytes.set(idx, bytes);
        self.window_time.set(idx, time);
        self.index = (idx + 1) % 60;
        if self.high_water < 60 {
            self.high_water = self.high_water + 1;
        }
        proof {
            self.history@ = h.push(x);
            let h2 = h.push(x);
            let r = len % 60;
            lemma_sum_push(h, x);
            assert(0 <= r < 60) by (nonlinear_arith)
                requires
                    len >= 0,
                    r == len % 60,
            ;
            assert((len + 1) % 60 == if r == 59 {
                0int
            } else {
                r + 1
            }) by (nonlinear_arith)
                requires
                    len >= 0,
                    r == len % 60,
            ;
            if len < 60 {
                assert(r == len);
                assert(recent(h2) == h2);
                assert(h2.drop_last() =~= h);
                assert(self.window_bytes@ == old(self).window_bytes@.update(len, bytes));
                lemma_sum_prefix_congruent(self.window_bytes@, old(self).window_bytes@, len);
                lemma_sum_prefix_congruent(self.window_time@, old(self).window_time@, len);
                assert forall|j: int|
                    0 <= j < len + 1 implies (#[trigger] self.window_bytes@[j]) == h2[slot_src(
                    len + 1,
                    j,
                )].0 && self.window_time@[j] == h2[slot_src(len + 1, j)].1 by {
                    assert(slot_src(len + 1, j) == j);
                    if j < len {
                        assert(self.window_bytes@[j] == old(self).window_bytes@[j]);
                        assert(self.window_time@[j] == old(self).window_time@[j]);
                        assert(old(self).window_bytes@[j] == h[slot_src(len, j)].0);
                        assert(slot_src(len, j) == j);
                        assert(h2[j] == h[j]);
                    } else {
                        assert(self.window_bytes@[j] == bytes);
                        assert(h2[len] == x);
                    }
                }
            } else {
                let old_recent = recent(h);
                let new_recent = recent(h2);
                assert(slot_src(len, r) == len - 60);
                assert(old(self).window_bytes@[r] == h[len - 60].0);
                assert(old(self).window_time@[r] == h[len - 60].1);
                lemma_sum_prefix_update(old(self).window_bytes@, 60, r, bytes);
                lemma_sum_prefix_update(old(self).window_time@, 60, r, time);
                assert(old_recent[0] == h[len - 60]);
                lemma_sum_drop_first(old_recent);
                assert(old_recent.subrange(1, 60).push(x) =~= new_recent);
                lemma_sum_push(old_recent.subrange(1, 60), x);
                assert forall|j: int|
                    0 <= j < 60 implies (#[trigger] self.window_bytes@[j]) == h2[slot_src(
                    len + 1,
                    j,
                )].0 && self.window_time@[j] == h2[slot_src(len + 1, j)].1 by {
                    if j != r {
                        assert(self.window_bytes@[j] == old(self).window_bytes@[j]);
                        assert(self.window_time@[j] == old(self).window_time@[j]);
                        assert(old(self).window_bytes@[j] == h[slot_src(len, j)].0);
                        assert(old(self).window_time@[j] == h[slot_src(len, j)].1);
                        assert(slot_src(len + 1, j) == slot_src(len, j));
                        assert(0 <= slot_src(len, j) < len);
                        assert(h2[slot_src(len, j)] == h[slot_src(len, j)]);
                    } else {
                        assert(self.window_bytes@[j] == bytes);
                        assert(self.window_time@[j] == time);
                        assert(slot_src(len + 1, r) == len);
                        assert(h2[len] == x);
                    }
                }
            }
        }
    }

    /// The sums over the samples currently remembered: the most recent
    /// `min(n, 60)` of the `n` samples ever added — never any overwritten
    /// one. The average throughput in bytes per millisecond is the ratio of
    /// the two sums; with no samples recorded both sums are zero.
    pub fn totals(&self) -> (r: (u128, u128))
        requires
            self.wf(),
        ensures
            r.0 == sum_bytes(recent(self@)),
            r.1 == sum_time(recent(self@)),
            r.0 <= 60 * (u64::MAX as int),
            r.1 <= 60 * (u64::MAX as int),
    {
        let mut sb: u128 = 0;
        let mut st: u128 = 0;
        let mut i: usize = 0;
        while i < self.high_water
            invariant
                self.wf(),
                i <= self.high_water,
                sb == sum_prefix(self.window_bytes@, i as int),
                st == sum_prefix(self.window_time@, i as int),
                sb <= i * (u64::MAX as int),
                st <= i * (u64::MAX as int),
            decreases self.high_water - i,
        {
            sb = sb + (self.window_bytes[i] as u128);
            st = st + (self.window_time[i] as u128);
            i = i + 1;
        }
        (sb, st)
    }
}

} // verus!
