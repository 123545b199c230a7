use rillrate::counter::{CounterEvent, CounterMetric, CounterState};
use rillrate::metric::{fold_batch, Metric, TimedEvent};
use rillrate::provider::Timestamp;
use rillrate::tracer::DataEnvelope;

fn delta(value: i64, millis: u64) -> TimedEvent<CounterEvent> {
    TimedEvent {
        timestamp: Timestamp::from_millis(millis),
        event: CounterEvent::Inc(value),
    }
}

/// Replay determinism: applying events one at a time reaches the same
/// state as folding them as one batch, in the same order.
#[test]
fn one_at_a_time_equals_batch() {
    let mut stepped = CounterState::default();
    for (i, v) in [4i64, -1, 9, 0, -7].iter().enumerate() {
        CounterMetric::apply(&mut stepped, delta(*v, i as u64));
    }

    let batch: Vec<TimedEvent<CounterEvent>> = [4i64, -1, 9, 0, -7]
        .iter()
        .enumerate()
        .map(|(i, v)| delta(*v, i as u64))
        .collect();
    let mut folded = CounterState::default();
    fold_batch::<CounterMetric>(&mut folded, batch);

    assert_eq!(stepped, folded);
    assert_eq!(folded.value, 5);
}

/// The counter clips at the ends of its range instead of overflowing.
#[test]
fn counter_saturates() {
    let mut state = CounterState::default();
    CounterMetric::apply(&mut state, delta(i64::MAX, 1));
    CounterMetric::apply(&mut state, delta(i64::MAX, 2));
    assert_eq!(state.value, i64::MAX);
    CounterMetric::apply(&mut state, delta(i64::MIN, 3));
    assert_eq!(state.value, -1);
}

/// The envelope hands back exactly the event it carried.
#[test]
fn envelope_into_inner() {
    let envelope: DataEnvelope<CounterMetric> = DataEnvelope::Event(delta(11, 42));
    let event = envelope.into_inner();
    assert_eq!(event.timestamp.millis, 42);
    assert_eq!(event.event, CounterEvent::Inc(11));
}

/// The stream-type token is stable.
#[test]
fn counter_stream_type_token() {
    assert_eq!(CounterMetric::stream_type(), "rillrate.counter.v0");
}
