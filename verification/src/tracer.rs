//! The generic tracer: the per-instrumentation-point handle with its
//! activation gate and its push or pull transport, plus the consumption
//! half handed to the collecting engine.

use vstd::prelude::*;
use std::sync::atomic::{AtomicU64, Ordering};
use std::sync::{Arc, Mutex};
use std::time::SystemTime;
use futures::channel::mpsc::{UnboundedReceiver, UnboundedSender};
use tokio::sync::watch;
use crate::metric::{Metric, TimedEvent};
use crate::provider::{Description, Path, Timestamp};
use crate::trusted::{
    arc_clone, chan_send, chan_sender_clone, chan_try_next, chan_unbounded, clock_now,
    duration_as_millis, duration_since_epoch, lock_clone, mutex_new, state_downgrade,
    state_upgrade, state_weak_clone, watch_channel, watch_get, watch_rx_clone, watch_set,
    with_lock, WeakState,
};

verus! {

/// An envelope carrying one recorded event through the push channel.
#[derive(Debug)]
#[verifier::reject_recursive_types(T)]
pub enum DataEnvelope<T: Metric> {
    Event(TimedEvent<T::Event>),
}

impl<T: Metric> DataEnvelope<T> {
    /// Unwraps the carried event.
    pub fn into_inner(self) -> (r: TimedEvent<T::Event>)
        ensures
            self == DataEnvelope::<T>::Event(r),
    {
        match self {
            Self::Event(event) => event,
        }
    }
}

/// The producing half of a push-mode stream.
pub type DataSender<T> = UnboundedSender<DataEnvelope<T>>;

/// The consuming half of a push-mode stream.
pub type DataReceiver<T> = UnboundedReceiver<DataEnvelope<T>>;

/// What the collecting engine consumes for one tracer: the baseline
/// state and the event stream (push), or the shared state it polls on a
/// schedule (pull). Dropping this is what makes a tracer a local no-op
/// sink: a push channel nobody drains, or a weak handle that no longer
/// resolves.
#[verifier::reject_recursive_types(T)]
pub enum TracerMode<T: Metric> {
    Push { state: T::State, receiver: Option<DataReceiver<T>> },
    Pull { state: Arc<Mutex<T::State>>, interval_millis: u64 },
}

#[verifier::reject_recursive_types(T)]
enum InnerMode<T: Metric> {
    Push { sender: DataSender<T> },
    Pull { state: WeakState<T::State> },
}

impl<T: Metric> Clone for InnerMode<T> {
    fn clone(&self) -> (r: Self)
        ensures
            (r is Push) == (*self is Push),
    {
        match self {
            Self::Push { sender } => Self::Push { sender: chan_sender_clone(sender) },
            Self::Pull { state } => Self::Pull { state: state_weak_clone(state) },
        }
    }
}

/// The controlling half of the activation flag: one writer outside the
/// hot path, read by every clone of the tracer.
pub struct ActivationHandle {
    switch: watch::Sender<bool>,
}

impl ActivationHandle {
    /// Turns the stream on or off; readers see the new value at their
    /// next activity probe. Reports whether any reader is still alive.
    pub fn set_active(&self, on: bool) -> bool {
        watch_set(&self.switch, on)
    }
}

/// The generic provider handle that applications record through: an
/// activation flag, a shared immutable description, and the transport
/// fixed at construction.
#[verifier::reject_recursive_types(T)]
pub struct Tracer<T: Metric> {
    active: watch::Receiver<bool>,
    description: Arc<Description>,
    dropped: Arc<AtomicU64>,
    mode: InnerMode<T>,
}

impl<T: Metric> Clone for Tracer<T> {
    fn clone(&self) -> (r: Self)
        ensures
            r.spec_description() == self.spec_description(),
            r.spec_is_push() == self.spec_is_push(),
    {
        Self {
            active: watch_rx_clone(&self.active),
            description: arc_clone(&self.description),
            dropped: arc_clone(&self.dropped),
            mode: self.mode.clone(),
        }
    }
}

impl<T: Metric> Tracer<T> {
    /// The description this tracer announces itself under.
    pub closed spec fn spec_description(self) -> Description {
        *self.description
    }

    /// Whether this tracer pushes events (rather than sharing pull
    /// state).
    pub closed spec fn spec_is_push(self) -> bool {
        self.mode is Push
    }

    /// Builds a tracer for `path`: pull mode when a polling interval is
    /// given, push mode otherwise. Returns the tracer, the consumption
    /// half meant for the collecting engine, and the activation
    /// controller. The stream starts active. Losing the consumption
    /// half is harmless: the tracer then degrades to a local no-op
    /// sink, by design.
    pub fn new(state: T::State, path: Path, pull_interval_millis: Option<u64>) -> (r: (
        Tracer<T>,
        TracerMode<T>,
        ActivationHandle,
    ))
        ensures
            r.0.spec_description().path.name@ == path.name@,
            r.0.spec_description().stream_type@ == T::stream_type_spec(),
            r.0.spec_description().info@ == path.name@ + " - "@ + T::stream_type_spec(),
            (match pull_interval_millis {
                Some(interval) => {
                    &&& !r.0.spec_is_push()
                    &&& r.1 matches TracerMode::Pull { interval_millis, .. }
                        && interval_millis == interval
                },
                None => {
                    &&& r.0.spec_is_push()
                    &&& r.1 matches TracerMode::Push { state: baseline, receiver }
                        && baseline == state && receiver is Some
                },
            }),
    {
        let stream_type = T::stream_type();
        let description = Description::new(path, stream_type);
        let (switch, active_rx) = watch_channel(true);
        let description = Arc::new(description);
        let inner_mode: InnerMode<T>;
        let mode: TracerMode<T>;
        if let Some(interval_millis) = pull_interval_millis {
            let shared = Arc::new(mutex_new(state));
            inner_mode = InnerMode::Pull { state: state_downgrade(&shared) };
            mode = TracerMode::Pull { state: shared, interval_millis };
        } else {
            let (tx, rx) = chan_unbounded::<DataEnvelope<T>>();
            mode = TracerMode::Push { state, receiver: Some(rx) };
            inner_mode = InnerMode::Push { sender: tx };
        }
        let dropped = Arc::new(AtomicU64::new(0));
        let this = Tracer { active: active_rx, description, dropped, mode: inner_mode };
        (this, mode, ActivationHandle { switch })
    }

    /// A reference to the `Path` of the tracer's stream.
    pub fn path(&self) -> (r: &Path)
        ensures
            r.name@ == self.spec_description().path.name@,
    {
        &self.description.path
    }

    /// Whether anyone is watching: the hot path's activation gate. The
    /// value is whatever the controller last published.
    pub fn is_active(&self) -> bool {
        watch_get(&self.active)
    }

    /// How many events this tracer and its clones have dropped on a
    /// failed clock reading, a gone receiver, a poisoned lock or a
    /// released pull state. Swallowed hot-path failures stay observable
    /// through this side channel; the exact value depends on thread
    /// timing, and the counter wraps at the end of its range.
    pub fn dropped_events(&self) -> u64 {
        self.dropped.load(Ordering::Relaxed)
    }

    /// Counts one lost event on the shared drop counter.
    fn note_drop(&self) {
        let _previous = self.dropped.fetch_add(1, Ordering::Relaxed);
    }

    /// Records one event. When the activation gate is off, the call
    /// returns immediately. Otherwise the event takes a timestamp,
    /// either from the supplied instant or from the clock, and goes
    /// out by the tracer's transport: push enqueues it on the
    /// unbounded channel; pull locks the shared aggregate and folds
    /// the event in. A failed clock reading, a dropped receiver, a
    /// poisoned lock or a released pull state each cost only this one
    /// event, counted on the drop counter (`dropped_events`): recording
    /// never panics, never blocks and surfaces no error to the caller.
    pub fn send(&self, data: T::Event, opt_system_time: Option<SystemTime>) {
        if self.is_active() {
            let sample = match opt_system_time {
                Some(instant) => instant,
                None => clock_now(),
            };
            let timestamp = match duration_since_epoch(&sample) {
                Some(elapsed) => Some(Timestamp::from_millis(duration_as_millis(&elapsed))),
                None => None,
            };
            match timestamp {
                Some(timestamp) => {
                    let timed_event = TimedEvent { timestamp, event: data };
                    match &self.mode {
                        InnerMode::Push { sender } => {
                            let envelope = DataEnvelope::Event(timed_event);
                            let delivered = chan_send(sender, envelope);
                            if !delivered {
                                self.note_drop();
                            }
                        },
                        InnerMode::Pull { state } => {
                            match state_upgrade(state) {
                                Some(strong) => {
                                    let action = move |aggregate: T::State| -> T::State
                                        {
                                            let mut updated = aggregate;
                                            T::apply(&mut updated, timed_event);
                                            updated
                                        };
                                    let updated = with_lock(&strong, action);
                                    if !updated {
                                        self.note_drop();
                                    }
                                },
                                None => {
                                    self.note_drop();
                                },
                            }
                        },
                    }
                },
                None => {
                    self.note_drop();
                },
            }
        }
    }
}

/// Drains up to `max` queued events from a push-mode stream, in arrival
/// order, without ever suspending. How many arrive, and which, depends
/// on the recording threads; the batch is meant to be folded over the
/// stream's baseline state with `fold_batch`.
pub fn drain_events<T: Metric>(receiver: &mut DataReceiver<T>, max: usize) -> (r: Vec<
    TimedEvent<T::Event>,
>)
    ensures
        r@.len() <= max,
{
    let mut out: Vec<TimedEvent<T::Event>> = Vec::new();
    let mut i: usize = 0;
    while i < max
        invariant
            out@.len() <= i <= max,
        decreases max - i,
    {
        match chan_try_next(receiver) {
            Some(envelope) => {
                out.push(envelope.into_inner());
            },
            None => {
                return out;
            },
        }
        i = i + 1;
    }
    out
}

/// A point-in-time copy of a pull-mode stream's aggregate: the snapshot
/// half of the consumption contract. A push-mode handle yields `None`,
/// always; a pull-mode handle yields a snapshot unless the lock is
/// poisoned (which value depends on the recording threads).
pub fn poll_state<T: Metric>(mode: &TracerMode<T>) -> (r: Option<T::State>) where
    T::State: Clone,
    ensures
        r is Some ==> mode matches TracerMode::Pull { .. },
        mode matches TracerMode::Push { .. } ==> r is None,
{
    match mode {
        TracerMode::Pull { state, .. } => lock_clone(state),
        TracerMode::Push { .. } => None,
    }
}

} // verus!
