//! A ghost model of the arbitration protocol: the workers, the single-slot
//! shared result channel, the stop handles and the consumer-facing promise,
//! as a transition system. The laws of the solver — at most one delivery,
//! every delivered pair a solution, stop broadcast to every worker once the
//! race settles, and the harmlessness of stopping an exited worker — are
//! stated and proved of every run of this system.

use vstd::prelude::*;

use crate::worker::is_solution;

verus! {

/// The phase of one search worker.
pub enum WorkerPhase {
    /// Still searching its slice of the nonce space.
    Running,
    /// Exited: it found a solution, lost the race, or observed a stop.
    Exited,
}

/// One worker and its stop handle, as the coordinator sees them.
pub struct WorkerView {
    pub phase: WorkerPhase,
    /// Whether the stop signal has been sent over this worker's handle.
    pub stop_sent: bool,
    /// Whether this worker has made its single publish attempt.
    pub published: bool,
}

/// The coordinator's phase: still racing the first result against
/// cancellation, or settled on one of the two.
pub enum CoordinatorPhase {
    Waiting,
    Settled,
}

/// The whole solver, one instant in time.
pub struct SolverState {
    /// The inclusive upper bound a winning trial value must not exceed.
    pub target: u64,
    /// The fixed payload hash mixed into every trial.
    pub initial_hash: Seq<u8>,
    /// The workers, one per slice of the nonce space.
    pub workers: Seq<WorkerView>,
    /// The content of the single-slot shared result channel.
    pub slot: Option<(u64, u64)>,
    /// Whether the shared result channel has been closed.
    pub slot_closed: bool,
    pub coordinator: CoordinatorPhase,
    /// What the consumer-facing promise has resolved to, if anything.
    pub delivered: Option<(u64, u64)>,
}

/// The state the solver entry point constructs: every worker running with
/// its stop handle unused, the shared channel empty and open, the
/// coordinator waiting, and nothing delivered.
pub open spec fn init(s: SolverState, target: u64, initial_hash: Seq<u8>, count: nat) -> bool {
    &&& s.target == target
    &&& s.initial_hash == initial_hash
    &&& s.workers.len() == count
    &&& forall|i: int|
        0 <= i < s.workers.len() ==> s.workers[i]
            == (WorkerView { phase: WorkerPhase::Running, stop_sent: false, published: false })
    &&& s.slot is None
    &&& !s.slot_closed
    &&& s.coordinator is Waiting
    &&& s.delivered is None
}

/// One atomic event of the protocol.
pub enum ProtocolStep {
    /// Worker `i` found `(trial value, nonce)` and attempts its publish.
    Publish(int, u64, u64),
    /// Worker `i` observed its stop signal at loop-top and exits.
    ObserveStop(int),
    /// The first published pair won the race; `delivery_ok` is false when
    /// the consumer was already gone, which counts as cancellation.
    Take(bool),
    /// Consumer-side cancellation won the race.
    Cancel,
}

/// Worker `i` exits after its at-most-one publish attempt. The pair it
/// publishes solves the search — the worker's own contract guarantees it —
/// and lands in the slot only if the slot is empty and open; otherwise the
/// attempt is dropped silently.
pub open spec fn step_publish(pre: SolverState, post: SolverState, i: int, v: u64, n: u64) -> bool {
    &&& 0 <= i < pre.workers.len()
    &&& pre.workers[i].phase is Running
    &&& !pre.workers[i].published
    &&& is_solution(v, n, pre.target, pre.initial_hash)
    &&& post == (SolverState {
        workers: pre.workers.update(
            i,
            WorkerView { phase: WorkerPhase::Exited, stop_sent: pre.workers[i].stop_sent, published: true },
        ),
        slot: if pre.slot is None && !pre.slot_closed {
            Some((v, n))
        } else {
            pre.slot
        },
        ..pre
    })
}

/// Worker `i` observes that its stop signal was sent and exits without
/// publishing.
pub open spec fn step_observe_stop(pre: SolverState, post: SolverState, i: int) -> bool {
    &&& 0 <= i < pre.workers.len()
    &&& pre.workers[i].phase is Running
    &&& pre.workers[i].stop_sent
    &&& post == (SolverState {
        workers: pre.workers.update(
            i,
            WorkerView {
                phase: WorkerPhase::Exited,
                stop_sent: true,
                published: pre.workers[i].published,
            },
        ),
        ..pre
    })
}

/// Every worker's stop handle fires; a handle whose worker already exited
/// absorbs the signal, changing nothing else about that worker.
pub open spec fn stop_broadcast(workers: Seq<WorkerView>) -> Seq<WorkerView> {
    workers.map_values(
        |w: WorkerView| WorkerView { phase: w.phase, stop_sent: true, published: w.published },
    )
}

/// The first published pair wins the race: the coordinator stops every
/// worker, closes the shared channel, and resolves the promise with exactly
/// that pair — unless the consumer is already gone (`!delivery_ok`), which
/// delivers nothing.
pub open spec fn step_take(pre: SolverState, post: SolverState, delivery_ok: bool) -> bool {
    &&& pre.coordinator is Waiting
    &&& pre.slot is Some
    &&& post == (SolverState {
        workers: stop_broadcast(pre.workers),
        slot: None,
        slot_closed: true,
        coordinator: CoordinatorPhase::Settled,
        delivered: if delivery_ok {
            pre.slot
        } else {
            None
        },
        ..pre
    })
}

/// Consumer-side cancellation wins the race: the coordinator stops every
/// worker, closes the shared channel, and delivers nothing.
pub open spec fn step_cancel(pre: SolverState, post: SolverState) -> bool {
    &&& pre.coordinator is Waiting
    &&& post == (SolverState {
        workers: stop_broadcast(pre.workers),
        slot: None,
        slot_closed: true,
        coordinator: CoordinatorPhase::Settled,
        delivered: None,
        ..pre
    })
}

/// The protocol's transition relation.
pub open spec fn next(pre: SolverState, post: SolverState, step: ProtocolStep) -> bool {
    match step {
        ProtocolStep::Publish(i, v, n) => step_publish(pre, post, i, v, n),
        ProtocolStep::ObserveStop(i) => step_observe_stop(pre, post, i),
        ProtocolStep::Take(delivery_ok) => step_take(pre, post, delivery_ok),
        ProtocolStep::Cancel => step_cancel(pre, post),
    }
}

/// The inductive invariant: the slot and the promise only ever hold
/// solutions; nothing is delivered while the race is open; and a settled
/// race has closed the channel and signalled stop to every worker.
pub open spec fn inv(s: SolverState) -> bool {
    &&& (match s.slot {
        Some(p) => is_solution(p.0, p.1, s.target, s.initial_hash),
        None => true,
    })
    &&& (match s.delivered {
        Some(p) => is_solution(p.0, p.1, s.target, s.initial_hash),
        None => true,
    })
    &&& (s.coordinator is Waiting ==> s.delivered is None && !s.slot_closed)
    &&& (s.coordinator is Settled ==> s.slot_closed && forall|i: int|
        0 <= i < s.workers.len() ==> s.workers[i].stop_sent)
    &&& (s.delivered is Some ==> s.coordinator is Settled)
}

/// The initial state satisfies the invariant.
pub proof fn lemma_init_inv(s: SolverState, target: u64, initial_hash: Seq<u8>, count: nat)
    requires
        init(s, target, initial_hash, count),
    ensures
        inv(s),
{
}

/// Every step preserves the invariant.
pub proof fn lemma_next_inv(pre: SolverState, post: SolverState, step: ProtocolStep)
    requires
        inv(pre),
        next(pre, post, step),
    ensures
        inv(post),
{
}

/// Once the promise has resolved, no step changes what it resolved to: the
/// promise never resolves a second time, with the same pair or another.
pub proof fn lemma_delivery_final(pre: SolverState, post: SolverState, step: ProtocolStep)
    requires
        inv(pre),
        next(pre, post, step),
        pre.delivered is Some,
    ensures
        post.delivered == pre.delivered,
{
}

/// A run of the protocol: a sequence of states joined by steps, starting
/// from the state the solver entry point constructs.
pub open spec fn valid_run(
    states: Seq<SolverState>,
    steps: Seq<ProtocolStep>,
    target: u64,
    initial_hash: Seq<u8>,
    count: nat,
) -> bool {
    &&& states.len() == steps.len() + 1
    &&& init(states[0], target, initial_hash, count)
    &&& forall|i: int| 0 <= i < steps.len() ==> next(states[i], states[i + 1], steps[i])
}

/// Every state of a run satisfies the invariant.
pub proof fn lemma_run_inv(
    states: Seq<SolverState>,
    steps: Seq<ProtocolStep>,
    target: u64,
    initial_hash: Seq<u8>,
    count: nat,
    j: int,
)
    requires
        valid_run(states, steps, target, initial_hash, count),
        0 <= j < states.len(),
    ensures
        inv(states[j]),
    decreases j,
{
    if j == 0 {
        lemma_init_inv(states[0], target, initial_hash, count);
    } else {
        lemma_run_inv(states, steps, target, initial_hash, count, j - 1);
        lemma_next_inv(states[j - 1], states[j], steps[j - 1]);
    }
}

/// The target and the initial hash are fixed at invocation: no step of a
/// run changes either.
pub proof fn lemma_run_constants(
    states: Seq<SolverState>,
    steps: Seq<ProtocolStep>,
    target: u64,
    initial_hash: Seq<u8>,
    count: nat,
    j: int,
)
    requires
        valid_run(states, steps, target, initial_hash, count),
        0 <= j < states.len(),
    ensures
        states[j].target == target,
        states[j].initial_hash == initial_hash,
    decreases j,
{
    if j > 0 {
        lemma_run_constants(states, steps, target, initial_hash, count, j - 1);
        assert(next(states[j - 1], states[j], steps[j - 1]));
    }
}

/// At-most-one delivery: in any run, whatever the number of workers and
/// however their publishes race, once the promise has resolved to a pair it
/// stays resolved to that pair — taken with the initial unresolved state,
/// the promise resolves at most once, never twice.
pub proof fn lemma_at_most_one_delivery(
    states: Seq<SolverState>,
    steps: Seq<ProtocolStep>,
    target: u64,
    initial_hash: Seq<u8>,
    count: nat,
    i: int,
    j: int,
)
    requires
        valid_run(states, steps, target, initial_hash, count),
        0 <= i <= j < states.len(),
        states[i].delivered is Some,
    ensures
        states[j].delivered == states[i].delivered,
    decreases j - i,
{
    if i < j {
        lemma_run_inv(states, steps, target, initial_hash, count, i);
        lemma_delivery_final(states[i], states[i + 1], steps[i]);
        lemma_at_most_one_delivery(states, steps, target, initial_hash, count, i + 1, j);
    }
}

/// Correctness of every delivery: in any reachable state of any run, a
/// resolved promise holds a pair `(v, n)` whose trial value under the run's
/// initial hash is `v`, at or below the run's target.
pub proof fn lemma_delivered_pair_solves(
    states: Seq<SolverState>,
    steps: Seq<ProtocolStep>,
    target: u64,
    initial_hash: Seq<u8>,
    count: nat,
    j: int,
)
    requires
        valid_run(states, steps, target, initial_hash, count),
        0 <= j < states.len(),
        states[j].delivered is Some,
    ensures
        is_solution(
            (states[j].delivered->0).0,
            (states[j].delivered->0).1,
            target,
            initial_hash,
        ),
    decreases j,
{
    lemma_run_inv(states, steps, target, initial_hash, count, j);
    lemma_run_constants(states, steps, target, initial_hash, count, j);
}

/// Shutdown broadcast: in any reachable state of any run, once the race has
/// settled — whether a result or cancellation won — every worker's stop
/// signal has been sent.
pub proof fn lemma_settled_stops_all(
    states: Seq<SolverState>,
    steps: Seq<ProtocolStep>,
    target: u64,
    initial_hash: Seq<u8>,
    count: nat,
    j: int,
)
    requires
        valid_run(states, steps, target, initial_hash, count),
        0 <= j < states.len(),
        states[j].coordinator is Settled,
    ensures
        forall|w: int| 0 <= w < states[j].workers.len() ==> states[j].workers[w].stop_sent,
{
    lemma_run_inv(states, steps, target, initial_hash, count, j);
}

/// The state after worker `w` observes its stop signal and exits.
pub open spec fn after_observe_stop(s: SolverState, w: int) -> SolverState {
    SolverState {
        workers: s.workers.update(
            w,
            WorkerView {
                phase: WorkerPhase::Exited,
                stop_sent: true,
                published: s.workers[w].published,
            },
        ),
        ..s
    }
}

/// Prompt shutdown: once the race has settled — by a result or by
/// cancellation — every still-running worker's stop signal has been sent,
/// so the observe-stop step is enabled for it: its very next loop-top poll
/// sees the signal and the worker exits.
pub proof fn lemma_shutdown_enabled(s: SolverState, w: int)
    requires
        inv(s),
        s.coordinator is Settled,
        0 <= w < s.workers.len(),
        s.workers[w].phase is Running,
    ensures
        step_observe_stop(s, after_observe_stop(s, w), w),
{
}

/// Idempotent stop: the stop broadcast leaves every worker that has already
/// exited exactly as it was, but for the spent signal — stopping an exited
/// worker has no observable effect.
pub proof fn lemma_stop_broadcast_harmless(pre: SolverState, post: SolverState, step: ProtocolStep)
    requires
        next(pre, post, step),
        step is Take || step is Cancel,
    ensures
        post.workers.len() == pre.workers.len(),
        forall|w: int|
            0 <= w < pre.workers.len() ==> post.workers[w].phase == pre.workers[w].phase
                && post.workers[w].published == pre.workers[w].published,
{
}

} // verus!
