//! The result aggregator: once the race between the first published result
//! and consumer-side cancellation has been decided, it broadcasts stop to
//! every worker handle and forwards the winning pair — if there is one —
//! through the consumer-facing promise.

use vstd::prelude::*;

verus! {

/// What the coordinator's race observed first: the consumer abandoned its
/// promise, the shared result channel closed with nothing in it, or a
/// worker's `(trial value, nonce)` pair arrived.
pub enum RaceOutcome {
    /// The consumer cancelled before any result arrived.
    Cancelled,
    /// The shared result channel yielded nothing and closed.
    ChannelClosed,
    /// The first published `(trial value, nonce)` pair.
    Solved(u64, u64),
}

/// The pair the consumer is owed for a given race outcome: the winning pair
/// exactly when a worker's result won the race, nothing otherwise.
pub open spec fn owed_result(outcome: RaceOutcome) -> Option<(u64, u64)> {
    match outcome {
        RaceOutcome::Solved(v, n) => Some((v, n)),
        _ => None,
    }
}

impl crate::AsyncPoW {
    /// Signals stop to every worker handle. Each handle is consumed, so no
    /// handle can be signalled twice; a handle whose worker has already
    /// exited absorbs the signal with no effect.
    pub fn stop_all_workers(handles: Vec<futures::channel::oneshot::Sender<()>>)
    {
        let mut handles = handles;
        loop
            decreases handles@.len(),
        {
            match handles.pop() {
                Some(h) => {
                    crate::channel::signal_stop(h);
                },
                None => {
                    return;
                },
            }
        }
    }

    /// Settles the race: stops every worker, then resolves the consumer's
    /// promise with the winning pair exactly when the outcome carries one.
    ///
    /// Returns the pair that was handed to the promise, or `None` when
    /// nothing was owed or the consumer was already gone (which is treated
    /// as cancellation, not as a failure). The promise is consumed here, so
    /// it can never resolve a second time.
    pub fn settle(
        promise: futures::channel::oneshot::Sender<(u64, u64)>,
        handles: Vec<futures::channel::oneshot::Sender<()>>,
        outcome: RaceOutcome,
    ) -> (delivered: Option<(u64, u64)>)
        ensures
            match delivered {
                Some(p) => owed_result(outcome) == Some::<(u64, u64)>(p),
                None => true,
            },
    {
        Self::stop_all_workers(handles);
        match outcome {
            RaceOutcome::Solved(v, n) => {
                if crate::channel::resolve_promise(promise, v, n) {
                    Some((v, n))
                } else {
                    None
                }
            },
            _ => None,
        }
    }
}

} // verus!
