//! Log engine: a bounded FIFO of the most recent timestamped messages.
//! Insertion evicts the oldest entry once the bound is reached.

use vstd::prelude::*;
use std::collections::VecDeque;
use std::time::SystemTime;
use crate::metric::{events_view, fold_events, Metric, TimedEvent};
use crate::provider::Path;
use crate::tracer::{ActivationHandle, Tracer, TracerMode};

verus! {

/// Default bound on the number of retained records.
pub const FRAME_SIZE: usize = 20;

/// A log event: one text message.
#[derive(Debug)]
pub enum LogRecord {
    Message(String),
}

impl View for LogRecord {
    type V = Seq<char>;

    open spec fn view(&self) -> Seq<char> {
        match self {
            LogRecord::Message(m) => m@,
        }
    }
}

/// The log aggregate: the most recent messages, oldest first.
#[derive(Debug)]
pub struct LogState {
    records: VecDeque<TimedEvent<String>>,
    capacity: usize,
}

/// The mathematical shape of a log buffer.
pub ghost struct LogStateV {
    pub records: Seq<TimedEvent<Seq<char>>>,
    pub capacity: int,
}

impl View for LogState {
    type V = LogStateV;

    closed spec fn view(&self) -> LogStateV {
        LogStateV { records: events_view(self.records@), capacity: self.capacity as int }
    }
}

impl LogState {
    /// An empty buffer retaining at most `capacity` messages.
    pub fn with_capacity(capacity: usize) -> (r: LogState)
        ensures
            r@.records.len() == 0,
            r@.capacity == capacity as int,
    {
        LogState { records: VecDeque::new(), capacity }
    }

    /// The retained messages, oldest first.
    pub fn snapshot(&self) -> (r: Vec<TimedEvent<String>>)
        ensures
            events_view(r@) == self@.records,
    {
        let mut out: Vec<TimedEvent<String>> = Vec::new();
        let mut i: usize = 0;
        while i < self.records.len()
            invariant
                0 <= i <= self.records@.len(),
                out@.len() == i,
                forall|k: int| 0 <= k < i ==> #[trigger] out@[k]@ == self.records@[k]@,
            decreases self.records@.len() - i,
        {
            let e = &self.records[i];
            let copy = TimedEvent { timestamp: e.timestamp, event: e.event.clone() };
            proof {
                assert(copy@ == self.records@[i as int]@);
            }
            out.push(copy);
            i = i + 1;
        }
        proof {
            assert forall|k: int| 0 <= k < out@.len() implies events_view(out@)[k]
                == self@.records[k] by {
                assert(events_view(out@)[k] == out@[k]@);
                assert(self@.records[k] == self.records@[k]@);
            }
            assert(events_view(out@) =~= self@.records);
        }
        out
    }
}

impl Default for LogState {
    /// An empty buffer with the default bound.
    fn default() -> (r: LogState)
        ensures
            r@.records.len() == 0,
            r@.capacity == FRAME_SIZE as int,
    {
        LogState::with_capacity(FRAME_SIZE)
    }
}

/// What appending one timed message does to the buffer: the oldest
/// entry leaves first whenever the bound is already reached.
pub open spec fn log_apply(state: LogStateV, te: TimedEvent<Seq<char>>) -> LogStateV {
    let kept = if state.records.len() >= state.capacity && state.records.len() > 0 {
        state.records.drop_first()
    } else {
        state.records
    };
    LogStateV { records: kept.push(te), capacity: state.capacity }
}

/// The log's metric definition.
#[derive(Debug)]
pub struct LogMetric;

impl Metric for LogMetric {
    type State = LogState;

    type Event = LogRecord;

    open spec fn stream_type_spec() -> Seq<char> {
        "rillrate.log.v0"@
    }

    fn stream_type() -> (r: String) {
        "rillrate.log.v0".to_owned()
    }

    open spec fn apply_spec(state: LogStateV, event: TimedEvent<Seq<char>>) -> LogStateV {
        log_apply(state, event)
    }

    fn apply(state: &mut LogState, event: TimedEvent<LogRecord>) {
        match event.event {
            LogRecord::Message(message) => {
                if state.records.len() >= state.capacity {
                    let _evicted = state.records.pop_front();
                }
                state.records.push_back(
                    TimedEvent { timestamp: event.timestamp, event: message },
                );
                proof {
                    assert(final(state)@.records =~= Self::apply_spec(
                        old(state)@,
                        event@,
                    ).records);
                }
            },
        }
    }
}

/// The `n` most recent elements of `s` (all of them when fewer).
pub open spec fn last_n<T>(s: Seq<T>, n: int) -> Seq<T> {
    if s.len() <= n {
        s
    } else {
        s.skip(s.len() - n)
    }
}

/// Keeping only the last `n` before appending more never changes what
/// the last `n` of the whole are.
pub proof fn lemma_last_n_absorb<T>(a: Seq<T>, b: Seq<T>, n: int)
    requires
        n >= 0,
    ensures
        last_n(last_n(a, n) + b, n) == last_n(a + b, n),
{
    if a.len() <= n {
        assert(last_n(a, n) + b =~= a + b);
    } else {
        let la = a.skip(a.len() - n);
        assert(la.len() == n);
        let l1 = last_n(la + b, n);
        let l2 = last_n(a + b, n);
        assert(l1.len() == n && l2.len() == n);
        assert forall|i: int| 0 <= i < n implies l1[i] == l2[i] by {
            if b.len() == 0 {
                assert(l1[i] == la[i]);
                assert(l2[i] == (a + b)[a.len() + b.len() - n + i]);
                assert((a + b)[a.len() - n + i] == a[a.len() - n + i]);
            } else {
                assert(l1[i] == (la + b)[b.len() + i]);
                assert(l2[i] == (a + b)[a.len() + b.len() - n + i]);
                if b.len() + i < n {
                    assert((la + b)[b.len() + i] == la[b.len() + i]);
                    assert(la[b.len() + i] == a[a.len() - n + b.len() + i]);
                    assert((a + b)[a.len() + b.len() - n + i] == a[a.len() + b.len() - n + i]);
                } else {
                    assert((la + b)[b.len() + i] == b[b.len() + i - n]);
                    assert((a + b)[a.len() + b.len() - n + i] == b[b.len() - n + i]);
                }
            }
        }
        assert(l1 =~= l2);
    }
}

/// The log window: replaying any batch of messages over a buffer that
/// is within its bound leaves exactly the most recent `capacity` of all
/// messages, in insertion order, oldest first.
pub proof fn lemma_log_window(state: LogStateV, events: Seq<TimedEvent<Seq<char>>>)
    requires
        state.capacity >= 1,
        state.records.len() <= state.capacity,
    ensures
        ({
            let out = fold_events::<LogMetric>(state, events);
            &&& out.capacity == state.capacity
            &&& out.records == last_n(state.records + events, state.capacity)
            &&& out.records.len() <= state.capacity
        }),
    decreases events.len(),
{
    let cap = state.capacity;
    if events.len() == 0 {
        assert(state.records + events =~= state.records);
    } else {
        let e0 = events[0];
        let next = log_apply(state, e0);
        if state.records.len() >= cap {
            assert(next.records =~= (state.records + seq![e0]).skip(1));
            assert((state.records + seq![e0]).len() == cap + 1);
            assert(next.records == last_n(state.records + seq![e0], cap));
        } else {
            assert(next.records =~= state.records + seq![e0]);
            assert(next.records == last_n(state.records + seq![e0], cap));
        }
        lemma_log_window(next, events.drop_first());
        lemma_last_n_absorb(state.records + seq![e0], events.drop_first(), cap);
        assert((state.records + seq![e0]) + events.drop_first() =~= state.records + events);
        let out = fold_events::<LogMetric>(state, events);
        assert(out == fold_events::<LogMetric>(next, events.drop_first()));
    }
}

/// The log tracer: a push-mode stream of text messages.
pub struct LogTracer {
    tracer: Tracer<LogMetric>,
}

impl LogTracer {
    /// The wrapped generic tracer, for contracts.
    pub closed spec fn spec_tracer(self) -> Tracer<LogMetric> {
        self.tracer
    }

    /// Opens a push-mode log stream at `path`, with an empty buffer of
    /// the default bound as its baseline; its label is the path
    /// followed by the stream-type token, as every description is
    /// built. The second half of the pair is for the collecting
    /// engine; dropping it leaves a fully functional local no-op
    /// tracer.
    pub fn new(path: Path) -> (r: (LogTracer, TracerMode<LogMetric>, ActivationHandle))
        ensures
            r.0.spec_tracer().spec_description().path.name@ == path.name@,
            r.0.spec_tracer().spec_description().stream_type@ == LogMetric::stream_type_spec(),
            r.0.spec_tracer().spec_description().info@ == path.name@ + " - "@
                + LogMetric::stream_type_spec(),
            r.0.spec_tracer().spec_is_push(),
            r.1 matches TracerMode::Push { state, receiver } && state@.records.len() == 0
                && state@.capacity == FRAME_SIZE as int && receiver is Some,
    {
        let (tracer, mode, handle) = Tracer::new(LogState::default(), path, None);
        (LogTracer { tracer }, mode, handle)
    }

    /// Writes a message, stamped with the given instant or the clock's.
    pub fn log(&self, message: String, timestamp: Option<SystemTime>) {
        self.tracer.send(LogRecord::Message(message), timestamp);
    }

    /// The underlying generic tracer.
    pub fn tracer(&self) -> (r: &Tracer<LogMetric>)
        ensures
            r == self.spec_tracer(),
    {
        &self.tracer
    }
}

} // verus!
