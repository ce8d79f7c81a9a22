//! Trusted declarations of the channel ends the solver communicates over:
//! one-shot stop signals between the coordinator and each worker, the
//! single-slot shared result channel the workers publish to, and the
//! one-shot promise the consumer awaits.
//!
//! What a channel operation observes depends on the other end's thread, so
//! none of these contracts pins a result: the verified callers state what
//! holds whichever way each call goes.

use vstd::prelude::*;

verus! {

/// The receiving end of a futures one-shot channel.
#[verifier::external_type_specification]
#[verifier::external_body]
#[verifier::reject_recursive_types(T)]
pub struct ExOneshotReceiver<T>(futures::channel::oneshot::Receiver<T>);

/// The error a one-shot receiver reports when its sender was dropped.
#[verifier::external_type_specification]
#[verifier::external_body]
pub struct ExCanceled(futures::channel::oneshot::Canceled);

/// The sending end of a futures one-shot channel.
#[verifier::external_type_specification]
#[verifier::external_body]
#[verifier::reject_recursive_types(T)]
pub struct ExOneshotSender<T>(futures::channel::oneshot::Sender<T>);

/// The sending end of a futures bounded multi-producer channel.
#[verifier::external_type_specification]
#[verifier::external_body]
#[verifier::reject_recursive_types(T)]
pub struct ExMpscSender<T>(futures::channel::mpsc::Sender<T>);

/// Relies on oneshot's `Receiver::try_recv`: a non-blocking poll of the stop
/// channel. Reports true when a stop signal has been received or the sender
/// was dropped; another thread owns the sender, so nothing is promised of
/// the outcome.
#[verifier::external_body]
pub(crate) fn stop_requested(stop: &mut futures::channel::oneshot::Receiver<()>) -> bool {
    match stop.try_recv() {
        Ok(Some(())) => true,
        Ok(None) => false,
        Err(_) => true,
    }
}

/// Relies on oneshot's `Sender::send`: consumes the sender, so a second
/// signal over the same handle is impossible; returns `Err` without any
/// other effect when the receiver is already gone, and never panics.
#[verifier::external_body]
pub(crate) fn signal_stop(handle: futures::channel::oneshot::Sender<()>) {
    let _ = handle.send(());
}

/// Relies on mpsc's `Sender::try_send`: a non-blocking publish attempt that
/// enqueues the pair or fails without enqueuing when the channel is full,
/// closed, or disconnected. Reports whether the pair was enqueued; the
/// channel is shared with racing workers, so nothing is promised of which.
#[verifier::external_body]
pub(crate) fn try_publish(
    out: &mut futures::channel::mpsc::Sender<(u64, u64)>,
    trial_value: u64,
    nonce: u64,
) -> bool {
    out.try_send((trial_value, nonce)).is_ok()
}

/// Relies on oneshot's `Sender::send`: moves the pair to the consumer's end
/// of the promise; returns `Err` without delivering when the consumer is
/// already gone, and never panics. The sender is consumed, so the promise
/// can resolve at most once.
#[verifier::external_body]
pub(crate) fn resolve_promise(
    promise: futures::channel::oneshot::Sender<(u64, u64)>,
    trial_value: u64,
    nonce: u64,
) -> bool {
    promise.send((trial_value, nonce)).is_ok()
}

} // verus!
