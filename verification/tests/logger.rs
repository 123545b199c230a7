use rillrate::logger::{LogMetric, LogRecord, LogState, LogTracer, FRAME_SIZE};
use rillrate::metric::{fold_batch, Metric, TimedEvent};
use rillrate::provider::{Path, Timestamp};
use rillrate::tracer::{drain_events, TracerMode};
use std::time::{Duration, SystemTime};

fn message(state: &mut LogState, text: String, millis: u64) {
    LogMetric::apply(
        state,
        TimedEvent {
            timestamp: Timestamp::from_millis(millis),
            event: LogRecord::Message(text),
        },
    );
}

/// Inserting more messages than the bound keeps exactly the most recent
/// ones, oldest first.
#[test]
fn log_window_keeps_most_recent() {
    let mut state = LogState::default();
    for k in 0..25u64 {
        message(&mut state, format!("message {}", k), k);
    }
    let snapshot = state.snapshot();
    assert_eq!(snapshot.len(), FRAME_SIZE);
    for (i, entry) in snapshot.iter().enumerate() {
        assert_eq!(entry.event, format!("message {}", i + 5));
        assert_eq!(entry.timestamp.millis, (i + 5) as u64);
    }
}

/// Below the bound, the snapshot is everything, in insertion order.
#[test]
fn log_snapshot_in_insertion_order() {
    let mut state = LogState::with_capacity(4);
    message(&mut state, "first".to_string(), 1);
    message(&mut state, "second".to_string(), 2);
    let snapshot = state.snapshot();
    assert_eq!(snapshot.len(), 2);
    assert_eq!(snapshot[0].event, "first");
    assert_eq!(snapshot[1].event, "second");
}

/// A log tracer's drained messages fold into the same window the
/// aggregate would have built in place.
#[test]
fn log_tracer_end_to_end() {
    let (tracer, mode, _switch) = LogTracer::new(Path::new("app.log".to_string()));
    let stamp = |millis: u64| SystemTime::UNIX_EPOCH + Duration::from_millis(millis);
    tracer.log("one".to_string(), Some(stamp(1)));
    tracer.log("two".to_string(), Some(stamp(2)));
    tracer.log("three".to_string(), Some(stamp(3)));
    assert_eq!(tracer.tracer().path().as_str(), "app.log");
    match mode {
        TracerMode::Push { state, receiver } => {
            let mut rx = receiver.expect("push mode carries its receiver");
            let events = drain_events(&mut rx, 16);
            assert_eq!(events.len(), 3);
            let mut folded = state;
            fold_batch::<LogMetric>(&mut folded, events);
            let snapshot = folded.snapshot();
            assert_eq!(snapshot.len(), 3);
            assert_eq!(snapshot[0].event, "one");
            assert_eq!(snapshot[1].event, "two");
            assert_eq!(snapshot[2].event, "three");
            assert_eq!(snapshot[2].timestamp.millis, 3);
        }
        TracerMode::Pull { .. } => panic!("a log tracer is push-mode"),
    }
}

/// The stream-type token is stable.
#[test]
fn log_stream_type_token() {
    assert_eq!(LogMetric::stream_type(), "rillrate.log.v0");
}
