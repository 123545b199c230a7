//! Declarations and wrappers for the outside primitives the tracers
//! share state through: the unbounded event channel, the activation
//! watch channel, the mutex-guarded pull state, and the system clock.
//!
//! Every result here depends on other threads, the clock or the machine,
//! so the contracts only say what holds of every outcome; the verified
//! aggregation logic takes these results as arguments.

use vstd::prelude::*;
use futures::channel::mpsc::{UnboundedReceiver, UnboundedSender};
use std::sync::{Arc, Mutex, Weak};
use std::time::{Duration, SystemTime};
use tokio::sync::watch;

verus! {

#[verifier::external_type_specification]
#[verifier::external_body]
#[verifier::reject_recursive_types(T)]
pub struct ExUnboundedSender<T>(UnboundedSender<T>);

#[verifier::external_type_specification]
#[verifier::external_body]
#[verifier::reject_recursive_types(T)]
pub struct ExUnboundedReceiver<T>(UnboundedReceiver<T>);

#[verifier::external_type_specification]
#[verifier::external_body]
#[verifier::reject_recursive_types(T)]
pub struct ExWatchSender<T>(watch::Sender<T>);

#[verifier::external_type_specification]
#[verifier::external_body]
#[verifier::reject_recursive_types(T)]
pub struct ExWatchReceiver<T>(watch::Receiver<T>);

#[verifier::external_type_specification]
#[verifier::external_body]
#[verifier::reject_recursive_types(T)]
pub struct ExMutex<T: ?Sized>(Mutex<T>);

#[verifier::external_type_specification]
#[verifier::external_body]
pub struct ExSystemTime(SystemTime);

/// Relies on futures' `mpsc::unbounded`: a fresh multi-producer channel
/// whose senders never block.
#[verifier::external_body]
pub(crate) fn chan_unbounded<T>() -> (UnboundedSender<T>, UnboundedReceiver<T>) {
    futures::channel::mpsc::unbounded()
}

/// Relies on `UnboundedSender::unbounded_send`: enqueues without
/// blocking; fails (returning false here) only once the receiver is
/// gone or has closed the channel.
#[verifier::external_body]
pub(crate) fn chan_send<T>(sender: &UnboundedSender<T>, item: T) -> bool {
    sender.unbounded_send(item).is_ok()
}

/// Relies on `UnboundedSender::clone`: a new handle onto the same
/// channel.
#[verifier::external_body]
pub(crate) fn chan_sender_clone<T>(sender: &UnboundedSender<T>) -> UnboundedSender<T> {
    sender.clone()
}

/// Relies on `UnboundedReceiver::try_recv`: takes the next queued
/// message without suspending; `None` when nothing is ready or the
/// channel is closed and drained.
#[verifier::external_body]
pub(crate) fn chan_try_next<T>(receiver: &mut UnboundedReceiver<T>) -> Option<T> {
    receiver.try_recv().ok()
}

/// Relies on tokio's `watch::channel`: one writer, any number of
/// readers, each reader seeing the most recent value.
#[verifier::external_body]
pub(crate) fn watch_channel(initial: bool) -> (watch::Sender<bool>, watch::Receiver<bool>) {
    watch::channel(initial)
}

/// Relies on `watch::Receiver::borrow`: the most recently sent value;
/// which value that is depends on the controller's timing.
#[verifier::external_body]
pub(crate) fn watch_get(receiver: &watch::Receiver<bool>) -> bool {
    *receiver.borrow()
}

/// Relies on `watch::Sender::send`: publishes a new value; fails
/// (returning false here) only once every receiver is gone.
#[verifier::external_body]
pub(crate) fn watch_set(sender: &watch::Sender<bool>, value: bool) -> bool {
    sender.send(value).is_ok()
}

/// Relies on `watch::Receiver::clone`: a new reader of the same flag.
#[verifier::external_body]
pub(crate) fn watch_rx_clone(receiver: &watch::Receiver<bool>) -> watch::Receiver<bool> {
    receiver.clone()
}

/// Relies on `Mutex::new`: a lock guarding the given value.
#[verifier::external_body]
pub(crate) fn mutex_new<S>(value: S) -> Mutex<S> {
    Mutex::new(value)
}

/// Relies on `Arc::clone`: a new strong handle onto the same value.
#[verifier::external_body]
pub(crate) fn arc_clone<T>(strong: &Arc<T>) -> (r: Arc<T>)
    ensures
        r == *strong,
{
    Arc::clone(strong)
}

/// A non-owning handle onto mutex-guarded pull state: it resolves only
/// while the collecting engine still holds its strong handle.
#[verifier::external_body]
#[verifier::reject_recursive_types(S)]
pub(crate) struct WeakState<S> {
    weak: Weak<Mutex<S>>,
}

/// Relies on `Arc::downgrade`: a non-owning handle onto the same state.
#[verifier::external_body]
pub(crate) fn state_downgrade<S>(strong: &Arc<Mutex<S>>) -> WeakState<S> {
    WeakState { weak: Arc::downgrade(strong) }
}

/// Relies on `Weak::clone`: a new non-owning handle onto the same state.
#[verifier::external_body]
pub(crate) fn state_weak_clone<S>(weak: &WeakState<S>) -> WeakState<S> {
    WeakState { weak: weak.weak.clone() }
}

/// Relies on `Weak::upgrade`: a strong handle while the state is still
/// alive, `None` once the last strong handle was dropped.
#[verifier::external_body]
pub(crate) fn state_upgrade<S>(weak: &WeakState<S>) -> Option<Arc<Mutex<S>>> {
    weak.weak.upgrade()
}

/// Relies on `Mutex::lock` (and `mem::take` to move the value through
/// the guard): runs the given action on the guarded value, holding the
/// lock just for its duration; false when the lock is poisoned (the
/// action then never ran). The action must be callable on every state,
/// so nothing the lock hands it can make it panic. Crate-private on
/// purpose: no caller outside this crate can supply an action, because
/// an action that touched any lock would deadlock or panic (std
/// documents re-entry so), and that cannot be said in a `requires`.
/// Every in-crate caller must pass an action that touches no lock; the
/// single one passes a closure that only applies a metric's transition
/// rule.
#[verifier::external_body]
pub(crate) fn with_lock<S: Default, F: FnOnce(S) -> S>(shared: &Arc<Mutex<S>>, action: F) -> bool
    requires
        forall|s: S| call_requires(action, (s,)),
{
    match shared.lock() {
        Ok(mut guard) => {
            let current = std::mem::take(&mut *guard);
            *guard = action(current);
            true
        },
        Err(_) => false,
    }
}

/// Relies on `Mutex::lock`: a point-in-time copy of the guarded value,
/// `None` when the lock is poisoned.
#[verifier::external_body]
pub(crate) fn lock_clone<S: Clone>(shared: &Arc<Mutex<S>>) -> Option<S> {
    match shared.lock() {
        Ok(guard) => Some(guard.clone()),
        Err(_) => None,
    }
}

/// Relies on `SystemTime::now`: a sample of the system clock.
#[verifier::external_body]
pub(crate) fn clock_now() -> SystemTime {
    SystemTime::now()
}

/// Relies on `SystemTime::duration_since`: the distance from the Unix
/// epoch, `None` when the sampled instant lies before it.
#[verifier::external_body]
pub(crate) fn duration_since_epoch(sample: &SystemTime) -> Option<Duration> {
    sample.duration_since(SystemTime::UNIX_EPOCH).ok()
}

/// Relies on `Duration::as_millis`, truncated to 64 bits.
#[verifier::external_body]
pub(crate) fn duration_as_millis(duration: &Duration) -> u64 {
    duration.as_millis() as u64
}

} // verus!
