//! The search worker: walks its own arithmetic progression of the nonce
//! space, recomputing the trial value until it satisfies the target or a
//! stop signal is observed, then attempts at most one publish of its result
//! to the shared channel.

use vstd::arithmetic::div_mod::{
    lemma_fundamental_div_mod, lemma_mod_add_multiples_vanish, lemma_mod_multiples_vanish,
    lemma_small_mod,
};
use vstd::prelude::*;

use crate::digest::trial_value_of;

verus! {

/// Whether `(v, n)` solves the search for `target` under `initial_hash`:
/// the nonce's trial value is `v`, and it is at or below the target.
pub open spec fn is_solution(v: u64, n: u64, target: u64, initial_hash: Seq<u8>) -> bool {
    &&& v as nat == trial_value_of(n, initial_hash)
    &&& v <= target
}

/// Whether nonce `n` belongs to the slice of the nonce space owned by the
/// worker with index `index` out of `count`: the arithmetic progression
/// `index, index + count, index + 2 * count, ...`.
pub open spec fn in_stride(n: u64, index: u64, count: u64) -> bool {
    n % count == index
}

/// The slice owned by worker `index` out of `count` is exactly the set
/// `{index, index + count, index + 2 * count, ...}`.
pub proof fn lemma_stride_members(n: u64, index: u64, count: u64)
    requires
        count >= 1,
        index < count,
    ensures
        in_stride(n, index, count) <==> exists|j: int| 0 <= j && n == index + #[trigger] (j * count),
{
    if in_stride(n, index, count) {
        lemma_fundamental_div_mod(n as int, count as int);
        let j = n as int / count as int;
        assert(0 <= j && n == index + j * count);
    }
    if exists|j: int| 0 <= j && n == index + #[trigger] (j * count) {
        let j = choose|j: int| 0 <= j && n == index + #[trigger] (j * count);
        assert(0 <= j && n == index + j * count);
        lemma_mod_multiples_vanish(j, index as int, count as int);
        lemma_small_mod(index as nat, count as nat);
    }
}

/// Disjoint coverage: no nonce lies in the slices of two distinct workers,
/// so no nonce is ever visited twice.
pub proof fn lemma_disjoint_coverage(n: u64, i1: u64, i2: u64, count: u64)
    requires
        count >= 1,
        i1 < count,
        i2 < count,
        in_stride(n, i1, count),
        in_stride(n, i2, count),
    ensures
        i1 == i2,
{
}

/// Two numbers congruent modulo `k` that differ, differ by at least `k`.
proof fn lemma_congruent_gap(a: int, b: int, k: int)
    requires
        k >= 1,
        0 <= a < b,
        a % k == b % k,
    ensures
        a + k <= b,
{
    lemma_fundamental_div_mod(a, k);
    lemma_fundamental_div_mod(b, k);
    let qa = a / k;
    let qb = b / k;
    assert(a + k <= b) by (nonlinear_arith)
        requires
            k >= 1,
            a < b,
            a == k * qa + a % k,
            b == k * qb + b % k,
            a % k == b % k,
    ;
}

impl crate::AsyncPoW {
    /// One worker's whole search. Starting at its own index and striding by
    /// the worker count, it visits the nonces `index, index + count, ...` in
    /// order, polling the stop channel at the top of every iteration, until
    /// the trial value satisfies the target or a stop is observed.
    ///
    /// Returns the result it would publish: `Some((v, n))` only when `v` is
    /// the trial value of `n`, `v` is at or below the target, `n` lies in
    /// this worker's own slice of the nonce space, and no earlier nonce of
    /// that slice satisfies the target — and only when no stop signal had
    /// arrived by the late re-check that follows the find. `None` when a
    /// stop was observed first (or the nonce space was exhausted).
    pub fn search(
        index: u64,
        count: u64,
        target: u64,
        initial_hash: &Vec<u8>,
        stop: &mut futures::channel::oneshot::Receiver<()>,
    ) -> (r: Option<(u64, u64)>)
        requires
            count >= 1,
            index < count,
        ensures
            match r {
                Some(p) => is_solution(p.0, p.1, target, initial_hash@)
                    && in_stride(p.1, index, count)
                    && forall|m: u64|
                        in_stride(m, index, count) && m < p.1
                            ==> trial_value_of(m, initial_hash@) > target,
                None => true,
            },
    {
        let mut nonce: u64 = index;
        proof {
            lemma_small_mod(index as nat, count as nat);
            assert forall|m: u64| in_stride(m, index, count) && m < nonce implies
                trial_value_of(m, initial_hash@) > target by {
                lemma_small_mod(m as nat, count as nat);
            }
        }
        loop
            invariant
                count >= 1,
                index < count,
                nonce % count == index,
                forall|m: u64|
                    in_stride(m, index, count) && m < nonce
                        ==> trial_value_of(m, initial_hash@) > target,
            decreases u64::MAX - nonce,
        {
            if crate::channel::stop_requested(stop) {
                return None;
            }
            let v = Self::digest(nonce, initial_hash);
            if v <= target {
                if crate::channel::stop_requested(stop) {
                    return None;
                }
                return Some((v, nonce));
            }
            proof {
                assert forall|m: u64| in_stride(m, index, count) && m < nonce + count implies
                    trial_value_of(m, initial_hash@) > target by {
                    if m > nonce {
                        lemma_congruent_gap(nonce as int, m as int, count as int);
                    }
                }
            }
            if nonce > u64::MAX - count {
                // The worker's slice of the nonce space is exhausted.
                return None;
            }
            proof {
                lemma_mod_add_multiples_vanish(nonce as int, count as int);
            }
            nonce = nonce + count;
        }
    }

    /// One worker's whole task: search, then publish the result, if any, to
    /// the shared result channel.
    ///
    /// Returns the pair it offered to the channel: at most one publish
    /// attempt is ever made, and only with a pair that solves the search —
    /// the first one of this worker's own slice of the nonce space. A
    /// publish that the channel refuses (full or closed: the race is
    /// already decided) is dropped silently.
    pub fn run_worker(
        index: u64,
        count: u64,
        target: u64,
        initial_hash: &Vec<u8>,
        stop: &mut futures::channel::oneshot::Receiver<()>,
        out: &mut futures::channel::mpsc::Sender<(u64, u64)>,
    ) -> (published: Option<(u64, u64)>)
        requires
            count >= 1,
            index < count,
        ensures
            match published {
                Some(p) => is_solution(p.0, p.1, target, initial_hash@)
                    && in_stride(p.1, index, count)
                    && forall|m: u64|
                        in_stride(m, index, count) && m < p.1
                            ==> trial_value_of(m, initial_hash@) > target,
                None => true,
            },
    {
        let found = Self::search(index, count, target, initial_hash, stop);
        match found {
            Some(p) => {
                let _ = crate::channel::try_publish(out, p.0, p.1);
                Some(p)
            },
            None => None,
        }
    }
}

} // verus!
