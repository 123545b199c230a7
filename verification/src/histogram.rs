//! Histogram engine: bucketed sum/count aggregation with an implicit
//! catch-all bucket at the top of the range.
//!
//! Levels and recorded values are fixed-point integers; the caller picks
//! the scale. The greatest representable level stands for the catch-all
//! (`+infinity`) bucket, so every recordable value falls into exactly one
//! bucket: the first whose level is at least the value.

use vstd::prelude::*;
use crate::arith::{add_sat, inc_sat, sat_add_i64, sat_inc_u64};
use crate::metric::{fold_events, Metric, TimedEvent};

verus! {

/// The level of the catch-all bucket: no value lies above it.
pub const INF_LEVEL: i64 = i64::MAX;

/// Sum and count of the recordings that one bucket (or the whole
/// histogram) has absorbed.
#[derive(Debug, Clone, Copy, PartialEq, Eq, Structural)]
pub struct Stat {
    pub sum: i64,
    pub count: u64,
}

impl Default for Stat {
    /// A fresh statistic: nothing recorded yet.
    fn default() -> (r: Stat)
        ensures
            r == (Stat { sum: 0, count: 0 }),
    {
        Stat { sum: 0, count: 0 }
    }
}

/// What absorbing one value does to a statistic.
pub open spec fn stat_plus(s: Stat, value: i64) -> Stat {
    Stat {
        sum: sat_add_i64(s.sum as int, value as int) as i64,
        count: sat_inc_u64(s.count as int) as u64,
    }
}

impl Stat {
    /// Absorbs one recorded value.
    fn add(&mut self, value: i64)
        ensures
            *final(self) == stat_plus(*old(self), value),
    {
        self.sum = add_sat(self.sum, value);
        self.count = inc_sat(self.count);
    }
}

/// The histogram aggregate: buckets in ascending level order, and the
/// total over all recordings.
#[derive(Debug)]
pub struct HistogramState {
    pub buckets: Vec<(i64, Stat)>,
    pub total: Stat,
}

/// The mathematical shape of a histogram.
pub ghost struct HistogramStateV {
    pub buckets: Seq<(i64, Stat)>,
    pub total: Stat,
}

impl View for HistogramState {
    type V = HistogramStateV;

    open spec fn view(&self) -> HistogramStateV {
        HistogramStateV { buckets: self.buckets@, total: self.total }
    }
}

impl HistogramStateV {
    /// Well-formed: at least one bucket, strictly ascending levels, and
    /// the catch-all bucket last.
    pub open spec fn wf(self) -> bool {
        &&& self.buckets.len() > 0
        &&& (forall|i: int, j: int|
            0 <= i < j < self.buckets.len() ==> self.buckets[i].0 < self.buckets[j].0)
        &&& self.buckets[self.buckets.len() - 1].0 == INF_LEVEL
    }

    /// The bucket statistics partition the total: every recording went
    /// to exactly one bucket, so the bucket sums add up to the total
    /// sum (none negative) and the bucket counts add up to the total
    /// count.
    pub open spec fn consistent(self) -> bool {
        &&& buckets_sum(self.buckets) == self.total.sum
        &&& (forall|i: int| 0 <= i < self.buckets.len() ==> self.buckets[i].1.sum >= 0)
        &&& self.total.sum >= 0
        &&& buckets_count(self.buckets) == self.total.count
    }
}

/// Whether some bucket carries the given level.
pub open spec fn has_level(buckets: Seq<(i64, Stat)>, level: i64) -> bool {
    exists|i: int| 0 <= i < buckets.len() && buckets[i].0 == level
}

/// The index of the first bucket whose level is at least `value`
/// (`buckets.len()` when none is).
pub open spec fn bucket_index(buckets: Seq<(i64, Stat)>, value: i64) -> int
    decreases buckets.len(),
{
    if buckets.len() == 0 {
        0
    } else if value <= buckets[0].0 {
        0
    } else {
        1 + bucket_index(buckets.drop_first(), value)
    }
}

/// `bucket_index` really is the first matching position: everything
/// before it lies below the value, and the position itself (when it
/// exists) does not.
pub proof fn lemma_bucket_index_char(buckets: Seq<(i64, Stat)>, value: i64)
    ensures
        0 <= bucket_index(buckets, value) <= buckets.len(),
        forall|k: int| 0 <= k < bucket_index(buckets, value) ==> buckets[k].0 < value,
        bucket_index(buckets, value) < buckets.len() ==> value <= buckets[bucket_index(
            buckets,
            value,
        )].0,
    decreases buckets.len(),
{
    if buckets.len() == 0 {
    } else if value <= buckets[0].0 {
    } else {
        lemma_bucket_index_char(buckets.drop_first(), value);
        assert forall|k: int| 0 <= k < bucket_index(buckets, value) implies buckets[k].0
            < value by {
            if k >= 1 {
                assert(buckets[k] == buckets.drop_first()[k - 1]);
            }
        }
    }
}

/// A position that matches and has no match before it is `bucket_index`.
pub proof fn lemma_bucket_index_unique(buckets: Seq<(i64, Stat)>, value: i64, i: int)
    requires
        0 <= i <= buckets.len(),
        forall|k: int| 0 <= k < i ==> buckets[k].0 < value,
        i < buckets.len() ==> value <= buckets[i].0,
    ensures
        bucket_index(buckets, value) == i,
    decreases buckets.len(),
{
    if i == 0 {
    } else {
        assert(buckets[0].0 < value);
        assert forall|k: int| 0 <= k < i - 1 implies buckets.drop_first()[k].0 < value by {
            assert(buckets.drop_first()[k] == buckets[k + 1]);
        }
        if i < buckets.len() {
            assert(buckets.drop_first()[i - 1] == buckets[i]);
        }
        lemma_bucket_index_unique(buckets.drop_first(), value, i - 1);
    }
}

/// What recording one value does to a histogram: the total absorbs it,
/// and so does the first bucket whose level is at least the value.
pub open spec fn hist_apply(state: HistogramStateV, value: i64) -> HistogramStateV {
    let j = bucket_index(state.buckets, value);
    let total = stat_plus(state.total, value);
    if j < state.buckets.len() {
        HistogramStateV {
            buckets: state.buckets.update(
                j,
                (state.buckets[j].0, stat_plus(state.buckets[j].1, value)),
            ),
            total,
        }
    } else {
        HistogramStateV { buckets: state.buckets, total }
    }
}

/// A histogram event: one observed value.
#[derive(Debug, Clone, Copy, PartialEq, Eq, Structural)]
pub enum HistogramEvent {
    Add(i64),
}

impl View for HistogramEvent {
    type V = HistogramEvent;

    open spec fn view(&self) -> HistogramEvent {
        *self
    }
}

/// The histogram's metric definition.
#[derive(Debug)]
pub struct HistogramMetric;

impl Metric for HistogramMetric {
    type State = HistogramState;

    type Event = HistogramEvent;

    open spec fn stream_type_spec() -> Seq<char> {
        "rillrate.histogram.v0"@
    }

    fn stream_type() -> (r: String) {
        "rillrate.histogram.v0".to_owned()
    }

    open spec fn apply_spec(
        state: HistogramStateV,
        event: TimedEvent<HistogramEvent>,
    ) -> HistogramStateV {
        match event.event {
            HistogramEvent::Add(amount) => hist_apply(state, amount),
        }
    }

    fn apply(state: &mut HistogramState, event: TimedEvent<HistogramEvent>) {
        match event.event {
            HistogramEvent::Add(amount) => {
                state.total.add(amount);
                let ghost bks = state.buckets@;
                let n = state.buckets.len();
                let mut i: usize = 0;
                while i < n && state.buckets[i].0 < amount
                    invariant
                        state.buckets@ == bks,
                        n == bks.len(),
                        0 <= i <= n,
                        forall|k: int| 0 <= k < i ==> bks[k].0 < amount,
                    decreases n - i,
                {
                    i = i + 1;
                }
                proof {
                    lemma_bucket_index_unique(bks, amount, i as int);
                }
                if i < n {
                    let pair = state.buckets[i];
                    let mut stat = pair.1;
                    stat.add(amount);
                    state.buckets.set(i, (pair.0, stat));
                }
            },
        }
    }
}

impl HistogramState {
    /// Builds a histogram over the given levels (in any order, duplicates
    /// collapsed), with the catch-all bucket always present and every
    /// statistic at zero.
    pub fn new(levels: &Vec<i64>) -> (r: HistogramState)
        ensures
            r@.wf(),
            r@.total == (Stat { sum: 0, count: 0 }),
            forall|i: int|
                0 <= i < r@.buckets.len() ==> r@.buckets[i].1 == (Stat { sum: 0, count: 0 }),
            forall|l: i64|
                has_level(r@.buckets, l) <==> (levels@.contains(l) || l == INF_LEVEL),
    {
        let mut buckets: Vec<(i64, Stat)> = Vec::new();
        buckets.push((INF_LEVEL, Stat::default()));
        let mut idx: usize = 0;
        while idx < levels.len()
            invariant
                buckets@.len() > 0,
                forall|i: int, j: int|
                    0 <= i < j < buckets@.len() ==> buckets@[i].0 < buckets@[j].0,
                buckets@[buckets@.len() - 1].0 == INF_LEVEL,
                forall|i: int|
                    0 <= i < buckets@.len() ==> buckets@[i].1 == (Stat { sum: 0, count: 0 }),
                0 <= idx <= levels@.len(),
                forall|l: i64|
                    has_level(buckets@, l) <==> (levels@.subrange(0, idx as int).contains(l)
                        || l == INF_LEVEL),
            decreases levels.len() - idx,
        {
            let ghost before = buckets@;
            let level = levels[idx];
            insert_level(&mut buckets, level);
            idx = idx + 1;
            proof {
                assert forall|l: i64|
                    has_level(buckets@, l) <==> (levels@.subrange(0, idx as int).contains(l)
                        || l == INF_LEVEL) by {
                    let prefix = levels@.subrange(0, idx as int);
                    assert(prefix.drop_last() =~= levels@.subrange(0, idx - 1));
                    assert(prefix.last() == level);
                    if prefix.contains(l) {
                        let w = choose|w: int| 0 <= w < prefix.len() && prefix[w] == l;
                        if w < prefix.len() - 1 {
                            assert(levels@.subrange(0, idx - 1).contains(l));
                        }
                    }
                    if levels@.subrange(0, idx - 1).contains(l) {
                        let w = choose|w: int|
                            0 <= w < idx - 1 && #[trigger] levels@.subrange(0, idx - 1)[w] == l;
                        assert(prefix[w] == l);
                    }
                    if l == level {
                        assert(prefix[idx - 1] == l);
                    }
                }
            }
        }
        proof {
            assert(levels@.subrange(0, levels@.len() as int) =~= levels@);
        }
        HistogramState { buckets, total: Stat::default() }
    }
}

/// Inserts one level into a sorted bucket list, keeping levels unique and
/// every statistic at zero.
fn insert_level(buckets: &mut Vec<(i64, Stat)>, level: i64)
    requires
        old(buckets)@.len() > 0,
        forall|i: int, j: int|
            0 <= i < j < old(buckets)@.len() ==> old(buckets)@[i].0 < old(buckets)@[j].0,
        old(buckets)@[old(buckets)@.len() - 1].0 == INF_LEVEL,
        forall|i: int|
            0 <= i < old(buckets)@.len() ==> old(buckets)@[i].1 == (Stat { sum: 0, count: 0 }),
    ensures
        final(buckets)@.len() > 0,
        forall|i: int, j: int|
            0 <= i < j < final(buckets)@.len() ==> final(buckets)@[i].0 < final(buckets)@[j].0,
        final(buckets)@[final(buckets)@.len() - 1].0 == INF_LEVEL,
        forall|i: int|
            0 <= i < final(buckets)@.len() ==> final(buckets)@[i].1 == (Stat { sum: 0, count: 0 }),
        forall|l: i64|
            has_level(final(buckets)@, l) <==> (has_level(old(buckets)@, l) || l == level),
{
    let ghost bks = buckets@;
    let n = buckets.len();
    let mut i: usize = 0;
    while i < n && buckets[i].0 < level
        invariant
            buckets@ == bks,
            n == bks.len(),
            0 <= i <= n,
            forall|k: int| 0 <= k < i ==> bks[k].0 < level,
        decreases n - i,
    {
        i = i + 1;
    }
    if i == n {
        // the catch-all level is the largest representable value, so the
        // scan always stops at or before it
        proof {
            assert(bks[n - 1].0 < level);
            assert(bks[n - 1].0 == INF_LEVEL);
        }
        // unreachable: level <= INF_LEVEL always; nothing to insert
    } else if buckets[i].0 == level {
        proof {
            assert(has_level(bks, level));
            assert forall|l: i64|
                has_level(buckets@, l) <==> (has_level(bks, l) || l == level) by {}
        }
    } else {
        buckets.insert(i, (level, Stat::default()));
        proof {
            let now = buckets@;
            assert(now.len() == bks.len() + 1);
            assert forall|i2: int, j2: int| 0 <= i2 < j2 < now.len() implies now[i2].0
                < now[j2].0 by {
                if j2 < i {
                    assert(now[i2] == bks[i2] && now[j2] == bks[j2]);
                } else if i2 > i {
                    assert(now[i2] == bks[i2 - 1] && now[j2] == bks[j2 - 1]);
                } else if i2 < i && j2 == i {
                    assert(now[i2] == bks[i2]);
                } else if i2 == i && j2 > i {
                    assert(now[j2] == bks[j2 - 1]);
                    assert(level <= bks[i as int].0);
                    assert(bks[i as int].0 != level);
                    if j2 - 1 > i {
                        assert(bks[i as int].0 < bks[j2 - 1].0);
                    }
                } else if i2 < i && j2 > i {
                    assert(now[i2] == bks[i2] && now[j2] == bks[j2 - 1]);
                    assert(bks[i2].0 < level);
                }
            }
            assert(now[now.len() - 1] == bks[bks.len() - 1]);
            assert forall|l: i64|
                has_level(now, l) <==> (has_level(bks, l) || l == level) by {
                if has_level(now, l) {
                    let w = choose|w: int| 0 <= w < now.len() && now[w].0 == l;
                    if w < i {
                        assert(bks[w].0 == l);
                    } else if w > i {
                        assert(bks[w - 1].0 == l);
                    }
                }
                if has_level(bks, l) {
                    let w = choose|w: int| 0 <= w < bks.len() && bks[w].0 == l;
                    if w < i {
                        assert(now[w].0 == l);
                    } else {
                        assert(now[w + 1].0 == l);
                    }
                }
                if l == level {
                    assert(now[i as int].0 == l);
                }
            }
        }
    }
}

impl Default for HistogramState {
    /// A histogram with only the catch-all bucket and nothing recorded.
    fn default() -> (r: HistogramState)
        ensures
            r@.wf(),
            r@.total == (Stat { sum: 0, count: 0 }),
            r@.buckets =~= seq![(INF_LEVEL, Stat { sum: 0, count: 0 })],
    {
        let levels: Vec<i64> = Vec::new();
        let state = HistogramState::new(&levels);
        proof {
            assert(levels@.len() == 0);
            assert(state@.buckets.len() == 1) by {
                if state@.buckets.len() > 1 {
                    let l0 = state@.buckets[0].0;
                    assert(state@.buckets[0].0 < state@.buckets[state@.buckets.len() - 1].0);
                    assert(l0 != INF_LEVEL);
                    assert(has_level(state@.buckets, l0)) by {
                        assert(0 < state@.buckets.len() && state@.buckets[0].0 == l0);
                    }
                    assert(levels@.contains(l0) || l0 == INF_LEVEL);
                }
            }
            assert(state@.buckets[0] == (INF_LEVEL, Stat { sum: 0, count: 0 }));
        }
        state
    }
}

/// A rendered bucket: its level, how many values it absorbed, and its
/// share of the total sum.
#[derive(Debug, Clone, Copy, PartialEq, Eq, Structural)]
pub struct Bar {
    pub level: i64,
    pub count: u64,
    pub pct: Pct,
}

/// An exact share `num / den`; zero (never a division error) when the
/// whole is zero.
#[derive(Debug, Clone, Copy, PartialEq, Eq, Structural)]
pub struct Pct {
    pub num: i64,
    pub den: i64,
}

/// The share of `num` in `den`, with a zero whole mapped to a zero share.
pub open spec fn pct_from_div_spec(num: i64, den: i64) -> Pct {
    if den == 0 {
        Pct { num: 0, den: 1 }
    } else {
        Pct { num, den }
    }
}

impl Pct {
    /// Builds the share of `num` in `den` without ever dividing by zero.
    pub fn from_div(num: i64, den: i64) -> (r: Pct)
        ensures
            r == pct_from_div_spec(num, den),
    {
        if den == 0 {
            Pct { num: 0, den: 1 }
        } else {
            Pct { num, den }
        }
    }
}

impl HistogramState {
    /// Renders every bucket with its share of the total sum.
    pub fn bars(&self) -> (r: Vec<Bar>)
        ensures
            r@.len() == self@.buckets.len(),
            forall|i: int|
                0 <= i < r@.len() ==> r@[i] == (Bar {
                    level: self@.buckets[i].0,
                    count: self@.buckets[i].1.count,
                    pct: pct_from_div_spec(self@.buckets[i].1.sum, self@.total.sum),
                }),
    {
        let total = self.total.sum;
        let mut out: Vec<Bar> = Vec::new();
        let mut i: usize = 0;
        while i < self.buckets.len()
            invariant
                0 <= i <= self@.buckets.len(),
                out@.len() == i,
                total == self@.total.sum,
                forall|k: int|
                    0 <= k < i ==> out@[k] == (Bar {
                        level: self@.buckets[k].0,
                        count: self@.buckets[k].1.count,
                        pct: pct_from_div_spec(self@.buckets[k].1.sum, self@.total.sum),
                    }),
            decreases self@.buckets.len() - i,
        {
            let pair = self.buckets[i];
            out.push(Bar { level: pair.0, count: pair.1.count, pct: Pct::from_div(pair.1.sum, total) });
            i = i + 1;
        }
        out
    }
}

/// The sum of all bucket sums.
pub open spec fn buckets_sum(buckets: Seq<(i64, Stat)>) -> int
    decreases buckets.len(),
{
    if buckets.len() == 0 {
        0
    } else {
        buckets[0].1.sum + buckets_sum(buckets.drop_first())
    }
}

/// The sum of all bucket counts.
pub open spec fn buckets_count(buckets: Seq<(i64, Stat)>) -> int
    decreases buckets.len(),
{
    if buckets.len() == 0 {
        0
    } else {
        buckets[0].1.count + buckets_count(buckets.drop_first())
    }
}

/// Each bucket's count is bounded by the count over all buckets.
pub proof fn lemma_bucket_le_count(buckets: Seq<(i64, Stat)>, i: int)
    requires
        0 <= i < buckets.len(),
    ensures
        buckets[i].1.count <= buckets_count(buckets),
        buckets_count(buckets) >= 0,
    decreases buckets.len(),
{
    if i == 0 {
        if buckets.len() > 1 {
            lemma_bucket_le_count(buckets.drop_first(), 0);
        } else {
            assert(buckets_count(buckets.drop_first()) == 0);
        }
    } else {
        lemma_bucket_le_count(buckets.drop_first(), i - 1);
        assert(buckets.drop_first()[i - 1] == buckets[i]);
    }
}

/// Each bucket's sum is bounded by the sum over all buckets, when none is
/// negative.
pub proof fn lemma_bucket_le_sum(buckets: Seq<(i64, Stat)>, i: int)
    requires
        0 <= i < buckets.len(),
        forall|k: int| 0 <= k < buckets.len() ==> buckets[k].1.sum >= 0,
    ensures
        buckets[i].1.sum <= buckets_sum(buckets),
        buckets_sum(buckets) >= 0,
    decreases buckets.len(),
{
    assert forall|k: int| 0 <= k < buckets.drop_first().len() implies buckets.drop_first()[k].1.sum
        >= 0 by {
        assert(buckets.drop_first()[k] == buckets[k + 1]);
    }
    if i == 0 {
        if buckets.len() > 1 {
            lemma_bucket_le_sum(buckets.drop_first(), 0);
        } else {
            assert(buckets_sum(buckets.drop_first()) == 0);
        }
    } else {
        lemma_bucket_le_sum(buckets.drop_first(), i - 1);
        assert(buckets.drop_first()[i - 1] == buckets[i]);
    }
}

/// Replacing one bucket changes the sums over all buckets by exactly
/// the differences at that position.
pub proof fn lemma_buckets_sum_update(buckets: Seq<(i64, Stat)>, j: int, p: (i64, Stat))
    requires
        0 <= j < buckets.len(),
    ensures
        buckets_sum(buckets.update(j, p)) == buckets_sum(buckets) - buckets[j].1.sum + p.1.sum,
        buckets_count(buckets.update(j, p)) == buckets_count(buckets) - buckets[j].1.count
            + p.1.count,
    decreases buckets.len(),
{
    if j == 0 {
        assert(buckets.update(0, p).drop_first() =~= buckets.drop_first());
    } else {
        assert(buckets.update(j, p)[0] == buckets[0]);
        assert(buckets.update(j, p).drop_first() =~= buckets.drop_first().update(j - 1, p));
        lemma_buckets_sum_update(buckets.drop_first(), j - 1, p);
    }
}

/// An all-zero bucket list sums to zero, in sums and in counts.
pub proof fn lemma_zero_buckets_sum(buckets: Seq<(i64, Stat)>)
    requires
        forall|i: int| 0 <= i < buckets.len() ==> buckets[i].1 == (Stat { sum: 0, count: 0 }),
    ensures
        buckets_sum(buckets) == 0,
        buckets_count(buckets) == 0,
    decreases buckets.len(),
{
    if buckets.len() > 0 {
        assert forall|i: int| 0 <= i < buckets.drop_first().len() implies buckets.drop_first()[i].1
            == (Stat { sum: 0, count: 0 }) by {
            assert(buckets.drop_first()[i] == buckets[i + 1]);
        }
        lemma_zero_buckets_sum(buckets.drop_first());
    }
}

/// A histogram whose statistics are all zero (as `new` builds it) is
/// consistent: the bucket sums partition the (zero) total.
pub proof fn lemma_fresh_consistent(state: HistogramStateV)
    requires
        state.total == (Stat { sum: 0, count: 0 }),
        forall|i: int|
            0 <= i < state.buckets.len() ==> state.buckets[i].1 == (Stat { sum: 0, count: 0 }),
    ensures
        state.consistent(),
{
    lemma_zero_buckets_sum(state.buckets);
}

/// Bucket placement: on a well-formed histogram, each recorded value
/// lands in exactly one bucket - the first whose level is at least the
/// value - every other bucket is untouched, the catch-all stays in
/// place, and the total absorbs the value.
pub proof fn lemma_histogram_one_bucket(state: HistogramStateV, value: i64)
    requires
        state.wf(),
    ensures
        ({
            let j = bucket_index(state.buckets, value);
            let next = hist_apply(state, value);
            &&& 0 <= j < state.buckets.len()
            &&& value <= state.buckets[j].0
            &&& (forall|k: int| 0 <= k < j ==> state.buckets[k].0 < value)
            &&& next.buckets.len() == state.buckets.len()
            &&& next.buckets[j] == (state.buckets[j].0, stat_plus(state.buckets[j].1, value))
            &&& (forall|k: int|
                0 <= k < state.buckets.len() && k != j ==> next.buckets[k] == state.buckets[k])
            &&& next.total == stat_plus(state.total, value)
            &&& next.wf()
        }),
{
    lemma_bucket_index_char(state.buckets, value);
    let j = bucket_index(state.buckets, value);
    let n = state.buckets.len() as int;
    if j == n {
        assert(state.buckets[n - 1].0 < value);
        assert(false);
    }
}

/// Recording n values grows the total count by n, as long as the count
/// stays representable.
pub proof fn lemma_histogram_total_count(
    state: HistogramStateV,
    events: Seq<TimedEvent<HistogramEvent>>,
)
    requires
        state.total.count + events.len() <= u64::MAX,
    ensures
        fold_events::<HistogramMetric>(state, events).total.count == state.total.count
            + events.len(),
    decreases events.len(),
{
    if events.len() > 0 {
        let next = HistogramMetric::apply_spec(state, events[0]);
        assert(next.total.count == state.total.count + 1);
        lemma_histogram_total_count(next, events.drop_first());
    }
}

/// Consistency (bucket sums and counts partition the totals) is
/// preserved by recording a nonnegative value whose addition does not
/// saturate the sum, while the total count is still representable.
pub proof fn lemma_histogram_consistent(state: HistogramStateV, value: i64)
    requires
        state.wf(),
        state.consistent(),
        value >= 0,
        state.total.sum + value <= i64::MAX,
        state.total.count < u64::MAX,
    ensures
        hist_apply(state, value).consistent(),
        hist_apply(state, value).wf(),
{
    lemma_histogram_one_bucket(state, value);
    let j = bucket_index(state.buckets, value);
    lemma_bucket_le_sum(state.buckets, j);
    lemma_bucket_le_count(state.buckets, j);
    let p = (state.buckets[j].0, stat_plus(state.buckets[j].1, value));
    lemma_buckets_sum_update(state.buckets, j, p);
    let next = hist_apply(state, value);
    assert forall|i: int| 0 <= i < next.buckets.len() implies next.buckets[i].1.sum >= 0 by {
        if i != j {
            assert(next.buckets[i] == state.buckets[i]);
        }
    }
}

/// Rendered shares: on a consistent histogram the bucket sums add up to
/// the total sum, and every bar's share lies between zero and one (a
/// zero total renders as all-zero shares, never a division error).
pub proof fn lemma_bars_shares(state: HistogramStateV)
    requires
        state.wf(),
        state.consistent(),
    ensures
        buckets_sum(state.buckets) == state.total.sum,
        forall|i: int|
            0 <= i < state.buckets.len() ==> ({
                let p = pct_from_div_spec(#[trigger] state.buckets[i].1.sum, state.total.sum);
                0 <= p.num <= p.den
            }),
{
    assert forall|i: int| 0 <= i < state.buckets.len() implies ({
        let p = pct_from_div_spec(#[trigger] state.buckets[i].1.sum, state.total.sum);
        0 <= p.num <= p.den
    }) by {
        lemma_bucket_le_sum(state.buckets, i);
    }
}

} // verus!
