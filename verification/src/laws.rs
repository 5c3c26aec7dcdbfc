//! Laws of the pipeline, stated and proved once and for all inputs: the order
//! fused layers run in, what a short-circuiting layer blocks, what a repeated
//! registration replaces, what a nested invocation leaves behind, and what a
//! no-op store update preserves.

use vstd::prelude::*;

use crate::dispatch::CompositeDispatch;
use crate::dispatch::MiddlewareDispatch;
use crate::dispatch::RecordDispatch;
use crate::middleware::NestedInvokeMiddleware;
use crate::middleware::SwallowMiddleware;
use crate::middleware::TraceMiddleware;
use crate::store::Reducer;
use crate::store::StoreDispatch;

verus! {

/// Fusion order: for a layer `first` fused onto a dispatcher `terminal`, and a
/// layer `second` fused onto the result, invoking the final pipeline runs
/// `second` first, then `first`, then `terminal` — outermost (last-fused)
/// layer first — and the work each tracing layer does after forwarding runs in
/// the reverse order on the way back out.
pub proof fn fusion_runs_outermost_first<M, D: MiddlewareDispatch<M, Vec<u64>>>(
    first: TraceMiddleware,
    second: TraceMiddleware,
    terminal: D,
    state: Seq<u64>,
    msg: M,
)
    ensures
        (CompositeDispatch {
            layer: second,
            next: CompositeDispatch { layer: first, next: terminal },
        }).dispatched(state, msg) == terminal.dispatched(
            state.push(second.before).push(first.before),
            msg,
        ).push(first.after).push(second.after),
{
}

/// Short-circuit: a layer that never calls `next` prevents the downstream
/// dispatcher from observing the message, whatever that dispatcher is; the
/// store is left exactly as it was.
pub proof fn short_circuit_blocks_downstream<M, S: View, D: MiddlewareDispatch<M, S>>(
    terminal: D,
    state: S::V,
    msg: M,
)
    ensures
        (CompositeDispatch { layer: SwallowMiddleware, next: terminal }).dispatched(state, msg)
            == state,
{
}

/// Registry replace semantics: registering a second dispatcher under a key
/// replaces the first — the registry afterwards is exactly the registry with
/// only the second registration, so a later `invoke` resolves only the second
/// dispatcher and the first can never fire again.
pub proof fn register_replaces_prior_entry<D>(reg: Map<u64, D>, key: u64, first: D, second: D)
    ensures
        reg.insert(key, first).insert(key, second) == reg.insert(key, second),
        reg.insert(key, first).insert(key, second)[key] == second,
{
    assert(reg.insert(key, first).insert(key, second) =~= reg.insert(key, second));
}

/// Reentrant invocation: a layer that performs a fresh invocation of another
/// pipeline — for a message of another type — inside its own run, and then
/// forwards, leaves both messages consumed by their terminals exactly once
/// each: the nested pipeline's whole effect is applied first, then the
/// original message is recorded once, and nothing else changes.
pub proof fn nested_invoke_hits_each_terminal_once<E: Copy, P: MiddlewareDispatch<E, Vec<u64>>>(
    nested_msg: E,
    pipeline: P,
    msg: u64,
    state: Seq<u64>,
)
    ensures
        (CompositeDispatch {
            layer: NestedInvokeMiddleware { message: nested_msg, pipeline },
            next: RecordDispatch,
        }).dispatched(state, msg) == pipeline.dispatched(state, nested_msg).push(msg),
{
}

/// Terminal store idempotence: a message whose update returns the state
/// unchanged, dispatched through the store terminal, leaves the store's state
/// exactly equal to its prior state.
pub proof fn store_noop_preserves_state<M: Reducer<S>, S: View>(state: S::V, msg: M)
    requires
        msg.reduces(state) == state,
    ensures
        (StoreDispatch).dispatched(state, msg) == state,
{
}

} // verus!
