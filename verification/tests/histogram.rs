use rillrate::histogram::{
    HistogramEvent, HistogramMetric, HistogramState, Pct, Stat, INF_LEVEL,
};
use rillrate::metric::{Metric, TimedEvent};
use rillrate::provider::Timestamp;

fn add(state: &mut HistogramState, value: i64, millis: u64) {
    HistogramMetric::apply(
        state,
        TimedEvent {
            timestamp: Timestamp::from_millis(millis),
            event: HistogramEvent::Add(value),
        },
    );
}

/// Levels 1.0 and 5.0, values 0.5, 3.0 and 100.0, all in tenths: each
/// value lands in the first bucket at or above it, and the total sums
/// every recording.
#[test]
fn histogram_concrete_scenario() {
    let levels = vec![10, 50];
    let mut state = HistogramState::new(&levels);
    add(&mut state, 5, 1);
    add(&mut state, 30, 2);
    add(&mut state, 1000, 3);
    assert_eq!(state.buckets.len(), 3);
    assert_eq!(state.buckets[0], (10, Stat { sum: 5, count: 1 }));
    assert_eq!(state.buckets[1], (50, Stat { sum: 30, count: 1 }));
    assert_eq!(state.buckets[2], (INF_LEVEL, Stat { sum: 1000, count: 1 }));
    assert_eq!(state.total, Stat { sum: 1035, count: 3 });
}

/// A value equal to a bucket's level lands in that bucket, not the next:
/// the bound is inclusive.
#[test]
fn histogram_boundary_is_inclusive() {
    let mut state = HistogramState::new(&vec![10, 50]);
    add(&mut state, 10, 1);
    assert_eq!(state.buckets[0].1, Stat { sum: 10, count: 1 });
    assert_eq!(state.buckets[1].1, Stat { sum: 0, count: 0 });
    assert_eq!(state.buckets[2].1, Stat { sum: 0, count: 0 });
}

/// Levels arrive unsorted and with duplicates; the histogram keeps one
/// ascending bucket per distinct level, plus the catch-all.
#[test]
fn histogram_levels_sorted_and_deduplicated() {
    let state = HistogramState::new(&vec![50, 10, 50, 10]);
    let levels: Vec<i64> = state.buckets.iter().map(|b| b.0).collect();
    assert_eq!(levels, vec![10, 50, INF_LEVEL]);
    assert_eq!(state.total, Stat { sum: 0, count: 0 });
}

/// With nothing recorded, every bar reports a zero share and no
/// division error occurs.
#[test]
fn bars_zero_total() {
    let state = HistogramState::new(&vec![10, 50]);
    let bars = state.bars();
    assert_eq!(bars.len(), 3);
    for bar in bars {
        assert_eq!(bar.count, 0);
        assert_eq!(bar.pct, Pct { num: 0, den: 1 });
    }
}

/// Bars carry each bucket's exact share of the total.
#[test]
fn bars_exact_shares() {
    let mut state = HistogramState::new(&vec![10, 50]);
    add(&mut state, 5, 1);
    add(&mut state, 30, 2);
    add(&mut state, 1000, 3);
    let bars = state.bars();
    assert_eq!(bars[0].pct, Pct { num: 5, den: 1035 });
    assert_eq!(bars[1].pct, Pct { num: 30, den: 1035 });
    assert_eq!(bars[2].pct, Pct { num: 1000, den: 1035 });
    let sum: i64 = bars.iter().map(|b| b.pct.num).sum();
    assert_eq!(sum, state.total.sum);
}

/// The accumulators clip instead of overflowing: recording never panics.
#[test]
fn histogram_saturates_instead_of_overflowing() {
    let mut state = HistogramState::new(&vec![]);
    add(&mut state, i64::MAX, 1);
    add(&mut state, i64::MAX, 2);
    assert_eq!(state.total, Stat { sum: i64::MAX, count: 2 });
    assert_eq!(state.buckets[0].1, Stat { sum: i64::MAX, count: 2 });
}

/// The stream-type token is stable.
#[test]
fn histogram_stream_type_token() {
    assert_eq!(HistogramMetric::stream_type(), "rillrate.histogram.v0");
}
