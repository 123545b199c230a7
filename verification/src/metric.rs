//! The metric definition contract: a closed algebra per metric kind,
//! `(State, Event) -> State`, deterministic and total, plus the stream-type
//! token used for wire negotiation.

use vstd::prelude::*;
use crate::provider::Timestamp;

verus! {

/// An immutable fact together with the instant at which it was recorded.
#[derive(Debug)]
pub struct TimedEvent<E> {
    pub timestamp: Timestamp,
    pub event: E,
}

impl<E: View> View for TimedEvent<E> {
    type V = TimedEvent<E::V>;

    open spec fn view(&self) -> TimedEvent<E::V> {
        TimedEvent { timestamp: self.timestamp, event: self.event@ }
    }
}

/// The per-kind metric definition: initial state is supplied by the
/// concrete engine, `apply` is its deterministic transition rule, and
/// `stream_type` is a stable identifier for wire/schema negotiation.
pub trait Metric: Sized {
    /// The mutable aggregate; its default value is the kind's initial
    /// state.
    type State: View + Default;

    /// The immutable recorded fact.
    type Event: View;

    /// The token that names this stream's shape, as a sequence of characters.
    spec fn stream_type_spec() -> Seq<char>;

    /// The versioned stream-type token.
    fn stream_type() -> (r: String)
        ensures
            r@ == Self::stream_type_spec(),
    ;

    /// The transition rule, stated over views: what `apply` does to the
    /// aggregate for one timed event.
    spec fn apply_spec(
        state: <Self::State as View>::V,
        event: TimedEvent<<Self::Event as View>::V>,
    ) -> <Self::State as View>::V;

    /// Folds one timed event into the aggregate, exactly as `apply_spec`
    /// says. Total: no input panics.
    fn apply(state: &mut Self::State, event: TimedEvent<Self::Event>)
        ensures
            final(state)@ == Self::apply_spec(old(state)@, event@),
    ;
}

/// The views of a sequence of recorded events.
pub open spec fn events_view<E: View>(events: Seq<TimedEvent<E>>) -> Seq<TimedEvent<E::V>> {
    events.map_values(|e: TimedEvent<E>| e@)
}

/// The state reached by replaying `events` in order from `init`.
pub open spec fn fold_events<M: Metric>(
    init: <M::State as View>::V,
    events: Seq<TimedEvent<<M::Event as View>::V>>,
) -> <M::State as View>::V
    decreases events.len(),
{
    if events.len() == 0 {
        init
    } else {
        fold_events::<M>(M::apply_spec(init, events[0]), events.drop_first())
    }
}

/// Replay determinism: replaying two batches one after the other reaches
/// the same state as replaying their concatenation, so a drained batch
/// folded in order reproduces exactly the state that one-at-a-time
/// application would have produced.
pub proof fn lemma_replay_determinism<M: Metric>(
    init: <M::State as View>::V,
    a: Seq<TimedEvent<<M::Event as View>::V>>,
    b: Seq<TimedEvent<<M::Event as View>::V>>,
)
    ensures
        fold_events::<M>(init, a + b) == fold_events::<M>(fold_events::<M>(init, a), b),
    decreases a.len(),
{
    if a.len() == 0 {
        assert(a + b =~= b);
    } else {
        assert((a + b)[0] == a[0]);
        assert((a + b).drop_first() =~= a.drop_first() + b);
        lemma_replay_determinism::<M>(M::apply_spec(init, a[0]), a.drop_first(), b);
    }
}

/// Replaying a single event is one application of the transition rule.
pub proof fn lemma_fold_one<M: Metric>(
    init: <M::State as View>::V,
    e: TimedEvent<<M::Event as View>::V>,
)
    ensures
        fold_events::<M>(init, seq![e]) == M::apply_spec(init, e),
{
    let s = seq![e];
    assert(s.len() == 1 && s[0] == e);
    assert(s.drop_first() =~= Seq::<TimedEvent<<M::Event as View>::V>>::empty());
    assert(fold_events::<M>(init, s) == fold_events::<M>(M::apply_spec(init, e), s.drop_first()));
}

/// Replays a drained batch of events over a baseline state, in order.
/// This is the pull side of the snapshot contract: a baseline plus the
/// drained deltas reconstruct the current aggregate.
pub fn fold_batch<M: Metric>(state: &mut M::State, events: Vec<TimedEvent<M::Event>>)
    ensures
        final(state)@ == fold_events::<M>(old(state)@, events_view(events@)),
{
    let ghost init_v = (*state)@;
    let ghost all = events_view(events@);
    let mut rest = events;
    while rest.len() > 0
        invariant
            fold_events::<M>(init_v, all) == fold_events::<M>((*state)@, events_view(rest@)),
        decreases rest.len(),
    {
        let ghost before = rest@;
        let e = rest.remove(0);
        proof {
            assert(events_view(before)[0] == e@);
            assert(events_view(before).drop_first() =~= events_view(rest@));
        }
        M::apply(state, e);
    }
    proof {
        assert(events_view(rest@) =~= Seq::<TimedEvent<<M::Event as View>::V>>::empty());
    }
}

} // verus!
