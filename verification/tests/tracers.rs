use std::time::{Duration, SystemTime};

use rillrate::counter::{CounterEvent, CounterMetric, CounterState, CounterTracer};
use rillrate::metric::fold_batch;
use rillrate::provider::Path;
use rillrate::tracer::{drain_events, poll_state, Tracer, TracerMode};

fn stamp(millis: u64) -> SystemTime {
    SystemTime::UNIX_EPOCH + Duration::from_millis(millis)
}

/// Tracers must stay fully functional, as silent local sinks, when no
/// collecting engine ever takes their consumption half.
#[test]
fn test_provider_without_tracer() {
    let counter_path: Path = "counter".parse().unwrap();
    let (counter, _mode, _switch) = CounterTracer::new(counter_path);
    let active_path: Path = "active_counter".parse().unwrap();
    let (active_counter, _active_mode, _active_switch) = CounterTracer::new(active_path);
    for _ in 0..1_000_000 {
        counter.inc(1, None);
        active_counter.inc(1, None);
    }
}

/// Push mode: recorded deltas drain in order and fold to the running sum.
#[test]
fn push_counter_drains_and_folds() {
    let (counter, mode, _switch) = CounterTracer::new(Path::new("app.counter".to_string()));
    counter.inc(1, Some(stamp(1)));
    counter.inc(3, Some(stamp(2)));
    counter.inc(-2, Some(stamp(3)));
    assert!(poll_state(&mode).is_none());
    match mode {
        TracerMode::Push { state, receiver } => {
            let mut rx = receiver.expect("push mode carries its receiver");
            let events = drain_events(&mut rx, 16);
            assert_eq!(events.len(), 3);
            assert_eq!(events[0].timestamp.millis, 1);
            assert_eq!(events[1].timestamp.millis, 2);
            assert_eq!(events[2].timestamp.millis, 3);
            let mut folded = state;
            fold_batch::<CounterMetric>(&mut folded, events);
            assert_eq!(folded.value, 2);
        }
        TracerMode::Pull { .. } => panic!("a counter tracer without an interval is push-mode"),
    }
}

/// The activation gate: once switched off, recording changes nothing and
/// the channel does not grow.
#[test]
fn inactive_tracer_records_nothing() {
    let (counter, mode, switch) = CounterTracer::new(Path::new("gated.counter".to_string()));
    assert!(counter.tracer().is_active());
    assert!(switch.set_active(false));
    assert!(!counter.tracer().is_active());
    for _ in 0..1_000_000 {
        counter.inc(1, None);
    }
    match mode {
        TracerMode::Push { state, receiver } => {
            let mut rx = receiver.expect("push mode carries its receiver");
            let events = drain_events(&mut rx, 8);
            assert_eq!(events.len(), 0);
            let mut folded = state;
            fold_batch::<CounterMetric>(&mut folded, events);
            assert_eq!(folded.value, 0);
        }
        TracerMode::Pull { .. } => panic!("a counter tracer without an interval is push-mode"),
    }
    assert!(switch.set_active(true));
    assert!(counter.tracer().is_active());
}

/// Pull mode: recording applies in place under the lock, and once the
/// engine drops its strong state handle, recording degrades to a no-op
/// without panicking.
#[test]
fn pull_record_after_engine_drop_is_noop() {
    let (tracer, mode, _switch) = Tracer::<CounterMetric>::new(
        CounterState::default(),
        Path::new("pull.counter".to_string()),
        Some(250),
    );
    match &mode {
        TracerMode::Pull { interval_millis, .. } => assert_eq!(*interval_millis, 250),
        TracerMode::Push { .. } => panic!("an interval selects pull mode"),
    }
    tracer.send(CounterEvent::Inc(5), Some(stamp(7)));
    let snapshot = poll_state(&mode).expect("a healthy pull lock yields a snapshot");
    assert_eq!(snapshot.value, 5);
    drop(mode);
    tracer.send(CounterEvent::Inc(7), Some(stamp(8)));
    tracer.send(CounterEvent::Inc(9), None);
    assert!(tracer.is_active());
    assert_eq!(tracer.path().as_str(), "pull.counter");
}

/// Swallowed hot-path failures stay observable: a released pull state
/// and a clock sample from before the epoch each count one dropped
/// event, on a counter shared with every clone.
#[test]
fn dropped_events_are_counted() {
    let (tracer, mode, _switch) = Tracer::<CounterMetric>::new(
        CounterState::default(),
        Path::new("drop.counter".to_string()),
        Some(50),
    );
    assert_eq!(tracer.dropped_events(), 0);
    tracer.send(CounterEvent::Inc(1), Some(stamp(1)));
    assert_eq!(tracer.dropped_events(), 0);
    drop(mode);
    tracer.send(CounterEvent::Inc(2), Some(stamp(2)));
    let twin = tracer.clone();
    twin.send(CounterEvent::Inc(3), Some(stamp(3)));
    assert_eq!(tracer.dropped_events(), 2);
    let before_epoch = SystemTime::UNIX_EPOCH - Duration::from_secs(1);
    tracer.send(CounterEvent::Inc(4), Some(before_epoch));
    assert_eq!(tracer.dropped_events(), 3);
    assert_eq!(twin.dropped_events(), 3);
}

/// Clones share the channel, the flag and the description.
#[test]
fn clones_share_the_stream() {
    let (counter, mode, _switch) = CounterTracer::new(Path::new("cloned.counter".to_string()));
    let twin = counter.tracer().clone();
    assert_eq!(twin.path().as_str(), "cloned.counter");
    counter.inc(2, Some(stamp(1)));
    twin.send(CounterEvent::Inc(4), Some(stamp(2)));
    match mode {
        TracerMode::Push { state, receiver } => {
            let mut rx = receiver.expect("push mode carries its receiver");
            let events = drain_events(&mut rx, 8);
            assert_eq!(events.len(), 2);
            let mut folded = state;
            fold_batch::<CounterMetric>(&mut folded, events);
            assert_eq!(folded.value, 6);
        }
        TracerMode::Pull { .. } => panic!("a counter tracer without an interval is push-mode"),
    }
}
