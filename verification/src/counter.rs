//! Counter engine: a running signed sum of recorded deltas.

use vstd::prelude::*;
use std::time::SystemTime;
use crate::arith::{add_sat, sat_add_i64};
use crate::metric::{fold_events, Metric, TimedEvent};
use crate::provider::Path;
use crate::tracer::{ActivationHandle, Tracer, TracerMode};

verus! {

/// The counter aggregate: a scalar accumulator.
#[derive(Debug, Clone, Copy, PartialEq, Eq, Structural)]
pub struct CounterState {
    pub value: i64,
}

impl View for CounterState {
    type V = CounterState;

    open spec fn view(&self) -> CounterState {
        *self
    }
}

impl Default for CounterState {
    /// A counter starts at zero.
    fn default() -> (r: CounterState)
        ensures
            r.value == 0,
    {
        CounterState { value: 0 }
    }
}

/// A counter event: a signed delta.
#[derive(Debug, Clone, Copy, PartialEq, Eq, Structural)]
pub enum CounterEvent {
    Inc(i64),
}

impl View for CounterEvent {
    type V = CounterEvent;

    open spec fn view(&self) -> CounterEvent {
        *self
    }
}

/// The counter's metric definition.
#[derive(Debug)]
pub struct CounterMetric;

impl Metric for CounterMetric {
    type State = CounterState;

    type Event = CounterEvent;

    open spec fn stream_type_spec() -> Seq<char> {
        "rillrate.counter.v0"@
    }

    fn stream_type() -> (r: String) {
        "rillrate.counter.v0".to_owned()
    }

    open spec fn apply_spec(
        state: CounterState,
        event: TimedEvent<CounterEvent>,
    ) -> CounterState {
        match event.event {
            CounterEvent::Inc(delta) => (CounterState {
                value: sat_add_i64(state.value as int, delta as int) as i64,
            }),
        }
    }

    fn apply(state: &mut CounterState, event: TimedEvent<CounterEvent>) {
        match event.event {
            CounterEvent::Inc(delta) => {
                state.value = add_sat(state.value, delta);
            },
        }
    }
}

/// The sum of a batch of deltas, as an unbounded integer.
pub open spec fn deltas_sum(events: Seq<TimedEvent<CounterEvent>>) -> int
    decreases events.len(),
{
    if events.len() == 0 {
        0
    } else {
        (match events[0].event {
            CounterEvent::Inc(delta) => delta as int,
        }) + deltas_sum(events.drop_first())
    }
}

/// Folding a batch of deltas moves the accumulator by exactly their
/// sum, as long as no intermediate total leaves the representable
/// range (outside it, the accumulator clips instead).
pub proof fn lemma_counter_fold_sum(state: CounterState, events: Seq<TimedEvent<CounterEvent>>)
    requires
        forall|k: int|
            0 <= k <= events.len() ==> i64::MIN <= state.value + deltas_sum(#[trigger] events.take(
                k,
            )) <= i64::MAX,
    ensures
        fold_events::<CounterMetric>(state, events).value == state.value + deltas_sum(events),
    decreases events.len(),
{
    if events.len() > 0 {
        let first = events[0];
        let rest = events.drop_first();
        let d0 = (match first.event {
            CounterEvent::Inc(delta) => delta as int,
        });
        assert(events.take(0) =~= Seq::<TimedEvent<CounterEvent>>::empty());
        assert(events.take(1) =~= seq![first]);
        assert(deltas_sum(seq![first]) == d0) by {
            assert(seq![first].drop_first() =~= Seq::<TimedEvent<CounterEvent>>::empty());
        }
        let next = CounterMetric::apply_spec(state, first);
        assert(next.value == state.value + d0);
        assert forall|k: int|
            0 <= k <= rest.len() implies i64::MIN <= next.value + deltas_sum(
            #[trigger] rest.take(k),
        ) <= i64::MAX by {
            assert(events.take(k + 1)[0] == first);
            assert(events.take(k + 1).drop_first() =~= rest.take(k));
            assert(deltas_sum(events.take(k + 1)) == d0 + deltas_sum(rest.take(k)));
        }
        lemma_counter_fold_sum(next, rest);
        assert(events.take(events.len() as int) =~= events);
        assert(deltas_sum(events) == d0 + deltas_sum(rest));
    } else {
        assert(events.take(0) =~= events);
    }
}

/// The counter's per-call-site handle: a push-mode stream of deltas.
pub struct CounterTracer {
    tracer: Tracer<CounterMetric>,
}

impl CounterTracer {
    /// The wrapped generic tracer, for contracts.
    pub closed spec fn spec_tracer(self) -> Tracer<CounterMetric> {
        self.tracer
    }

    /// Opens a push-mode counter stream at `path`, starting from zero.
    /// The second half of the pair is for the collecting engine;
    /// dropping it leaves a fully functional local no-op tracer.
    pub fn new(path: Path) -> (r: (CounterTracer, TracerMode<CounterMetric>, ActivationHandle))
        ensures
            r.0.spec_tracer().spec_description().path.name@ == path.name@,
            r.0.spec_tracer().spec_description().stream_type@ == CounterMetric::stream_type_spec(),
            r.0.spec_tracer().spec_description().info@ == path.name@ + " - "@
                + CounterMetric::stream_type_spec(),
            r.0.spec_tracer().spec_is_push(),
            r.1 matches TracerMode::Push { state, receiver } && state.value == 0
                && receiver is Some,
    {
        let (tracer, mode, handle) = Tracer::new(CounterState::default(), path, None);
        (CounterTracer { tracer }, mode, handle)
    }

    /// Records a signed delta, stamped with the given instant or the
    /// clock's.
    pub fn inc(&self, delta: i64, timestamp: Option<SystemTime>) {
        self.tracer.send(CounterEvent::Inc(delta), timestamp);
    }

    /// The underlying generic tracer.
    pub fn tracer(&self) -> (r: &Tracer<CounterMetric>)
        ensures
            r == self.spec_tracer(),
    {
        &self.tracer
    }
}

} // verus!
