//! A transition model of the whole server: two process-wide counters and
//! one local counter per worker. Each handled request names the worker it
//! was routed to; a run is a sequence of such requests. The laws here pin
//! down what the counters read after any run, however the requests were
//! interleaved across workers.

use vstd::prelude::*;

use crate::state::AppCounters;

verus! {

/// The counters of the whole server: the two globals, and one local
/// counter per worker, keyed by worker identifier.
pub struct SystemState {
    pub shared_mutex: nat,
    pub shared_atomic: nat,
    pub locals: Map<nat, nat>,
}

/// Worker `w`'s local counter; a worker that has not handled anything yet
/// reads zero.
pub open spec fn local_of(s: SystemState, w: nat) -> nat {
    if s.locals.dom().contains(w) {
        s.locals[w]
    } else {
        0
    }
}

/// A freshly started server: every counter reads zero.
pub open spec fn fresh(s: SystemState) -> bool {
    &&& s.shared_mutex == 0
    &&& s.shared_atomic == 0
    &&& forall|w: nat| #[trigger] local_of(s, w) == 0
}

/// One request handled by worker `w`: both globals and that worker's local
/// counter go up by one; every other local counter is untouched.
pub open spec fn handle_one(s: SystemState, w: nat) -> SystemState {
    SystemState {
        shared_mutex: s.shared_mutex + 1,
        shared_atomic: s.shared_atomic + 1,
        locals: s.locals.insert(w, local_of(s, w) + 1),
    }
}

/// The state after handling a whole run of requests, `ws` naming the
/// worker each was routed to, in order.
pub open spec fn run(s: SystemState, ws: Seq<nat>) -> SystemState
    decreases ws.len(),
{
    if ws.len() == 0 {
        s
    } else {
        run(handle_one(s, ws[0]), ws.subrange(1, ws.len() as int))
    }
}

/// How many of the requests in `ws` were routed to worker `w`.
pub open spec fn occurrences(ws: Seq<nat>, w: nat) -> nat
    decreases ws.len(),
{
    if ws.len() == 0 {
        0
    } else {
        occurrences(ws.subrange(1, ws.len() as int), w) + if ws[0] == w {
            1nat
        } else {
            0nat
        }
    }
}

/// Law: after any run, the mutex counter and the atomic counter have both
/// grown by exactly the number of requests handled, regardless of how the
/// requests were interleaved across workers.
pub proof fn lemma_shared_counters_total(s: SystemState, ws: Seq<nat>)
    ensures
        run(s, ws).shared_mutex == s.shared_mutex + ws.len(),
        run(s, ws).shared_atomic == s.shared_atomic + ws.len(),
    decreases ws.len(),
{
    if ws.len() > 0 {
        lemma_shared_counters_total(handle_one(s, ws[0]), ws.subrange(1, ws.len() as int));
    }
}

/// Law: after any run, a worker's local counter has grown by exactly the
/// number of requests that were routed to that worker.
pub proof fn lemma_local_counter_counts_own(s: SystemState, ws: Seq<nat>, w: nat)
    ensures
        local_of(run(s, ws), w) == local_of(s, w) + occurrences(ws, w),
    decreases ws.len(),
{
    if ws.len() > 0 {
        lemma_local_counter_counts_own(
            handle_one(s, ws[0]),
            ws.subrange(1, ws.len() as int),
            w,
        );
    }
}

/// Law: after a run handled entirely by one worker, that worker's local
/// counter has grown by exactly the number of requests in the run.
pub proof fn lemma_single_worker_local_count(s: SystemState, ws: Seq<nat>, w: nat)
    requires
        forall|i: int| 0 <= i < ws.len() ==> ws[i] == w,
    ensures
        local_of(run(s, ws), w) == local_of(s, w) + ws.len(),
    decreases ws.len(),
{
    lemma_local_counter_counts_own(s, ws, w);
    lemma_occurrences_all(ws, w);
}

/// Every request of a run routed to `w` counts towards `w`.
proof fn lemma_occurrences_all(ws: Seq<nat>, w: nat)
    requires
        forall|i: int| 0 <= i < ws.len() ==> ws[i] == w,
    ensures
        occurrences(ws, w) == ws.len(),
    decreases ws.len(),
{
    if ws.len() > 0 {
        lemma_occurrences_all(ws.subrange(1, ws.len() as int), w);
    }
}

/// Law: two requests against a fresh server leave both globals at two; the
/// local counter of the worker that handled the second request reads two
/// when it also handled the first, and one — a fresh worker's first
/// request — when it did not, in which case the first worker's local
/// counter also reads one.
pub proof fn lemma_two_requests(s: SystemState, w1: nat, w2: nat)
    requires
        fresh(s),
    ensures
        run(s, seq![w1, w2]).shared_mutex == 2,
        run(s, seq![w1, w2]).shared_atomic == 2,
        w1 == w2 ==> local_of(run(s, seq![w1, w2]), w2) == 2,
        w1 != w2 ==> local_of(run(s, seq![w1, w2]), w2) == 1 && local_of(
            run(s, seq![w1, w2]),
            w1,
        ) == 1,
{
    let ws = seq![w1, w2];
    assert(ws.subrange(1, 2) =~= seq![w2]);
    assert(seq![w2].subrange(1, 1) =~= Seq::<nat>::empty());
    assert(local_of(s, w1) == 0);
    assert(local_of(s, w2) == 0);
    assert(run(s, ws) == run(handle_one(s, w1), seq![w2]));
    assert(run(handle_one(s, w1), seq![w2]) == run(
        handle_one(handle_one(s, w1), w2),
        Seq::<nat>::empty(),
    ));
}

/// How one worker's view of the counters embeds in the system: the globals
/// agree and the local counter is that worker's entry.
pub open spec fn counters_match(c: AppCounters, s: SystemState, w: nat) -> bool {
    &&& c.mutex_counter as nat == s.shared_mutex
    &&& c.atomic_counter as nat == s.shared_atomic
    &&& c.local_counter as nat == local_of(s, w)
}

/// Law: one request as the executable handler performs it — every counter
/// in the worker's view one higher — is one `handle_one` step of the
/// system model, taken by that worker.
pub proof fn lemma_handler_step_matches_model(
    pre: AppCounters,
    post: AppCounters,
    s: SystemState,
    w: nat,
)
    requires
        counters_match(pre, s, w),
        post.mutex_counter == pre.mutex_counter + 1,
        post.local_counter == pre.local_counter + 1,
        post.atomic_counter == pre.atomic_counter + 1,
    ensures
        counters_match(post, handle_one(s, w), w),
{
}

} // verus!
