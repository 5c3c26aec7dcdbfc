//! Middleware: layers that intercept a message together with the remainder of
//! the pipeline and decide whether, when and how to forward it.

use vstd::prelude::*;

use crate::dispatch::MiddlewareDispatch;

verus! {

/// The capability "given one message of type `M` and a dispatcher representing
/// the remainder of the pipeline, produce the pipeline's net effect".
///
/// A layer may forward the message once (pass-through), not at all
/// (short-circuit), several times (fan-out), forward a different message
/// (transform), or do work of its own before and after forwarding. `handled`
/// is the layer's denotation over the store's view, and `invoke` is proved to
/// realise it exactly.
///
/// `D` is the type of the downstream dispatcher a layer is written against;
/// implementations bound it by [`MiddlewareDispatch`] where they forward.
pub trait Middleware<M, S: View, D>: Sized {
    /// The denotation of this layer: the store's view after the layer has run
    /// with `next` as the remainder of the pipeline.
    spec fn handled(&self, state: S::V, msg: M, next: &D) -> S::V;

    /// Run the layer on `msg` with `next` as the remainder of the pipeline,
    /// transforming the store exactly as `handled` says.
    fn invoke(&self, target: &mut S, msg: M, next: &D)
        ensures
            final(target)@ == self.handled(old(target)@, msg, next),
    ;
}

/// A shared, reference-counted handle to a middleware is itself a middleware:
/// running the handle runs the layer it points to.
impl<M, S: View, D: MiddlewareDispatch<M, S>, L: Middleware<M, S, D>> Middleware<
    M,
    S,
    D,
> for std::rc::Rc<L> {
    open spec fn handled(&self, state: S::V, msg: M, next: &D) -> S::V {
        (**self).handled(state, msg, next)
    }

    fn invoke(&self, target: &mut S, msg: M, next: &D) {
        (**self).invoke(target, msg, next);
    }
}

/// A pass-through layer that appends `before` to the store, forwards the
/// message unchanged, and then appends `after`: the classic tracing layer, and
/// the witness for the order in which fused layers run.
#[derive(Clone, Copy)]
pub struct TraceMiddleware {
    /// Appended to the store before the message is forwarded.
    pub before: u64,
    /// Appended to the store after the forwarded message has been consumed.
    pub after: u64,
}

impl<M, D: MiddlewareDispatch<M, Vec<u64>>> Middleware<M, Vec<u64>, D> for TraceMiddleware {
    open spec fn handled(&self, state: Seq<u64>, msg: M, next: &D) -> Seq<u64> {
        next.dispatched(state.push(self.before), msg).push(self.after)
    }

    fn invoke(&self, target: &mut Vec<u64>, msg: M, next: &D) {
        target.push(self.before);
        next.invoke(target, msg);
        target.push(self.after);
    }
}

/// A short-circuiting layer: it never calls `next`, so the downstream
/// dispatcher never observes the message and the store is left untouched.
#[derive(Clone, Copy)]
pub struct SwallowMiddleware;

impl<M, S: View, D: MiddlewareDispatch<M, S>> Middleware<M, S, D> for SwallowMiddleware {
    open spec fn handled(&self, state: S::V, msg: M, next: &D) -> S::V {
        state
    }

    fn invoke(&self, target: &mut S, msg: M, next: &D) {
    }
}

/// A transforming layer: it constructs a new message — the stored replacement
/// — and forwards that, discarding the original.
#[derive(Clone, Copy)]
pub struct ReplaceMiddleware<M> {
    /// Forwarded in place of every message this layer intercepts.
    pub replacement: M,
}

impl<M: Copy, S: View, D: MiddlewareDispatch<M, S>> Middleware<M, S, D> for ReplaceMiddleware<M> {
    open spec fn handled(&self, state: S::V, msg: M, next: &D) -> S::V {
        next.dispatched(state, self.replacement)
    }

    fn invoke(&self, target: &mut S, msg: M, next: &D) {
        next.invoke(target, self.replacement);
    }
}

/// A fan-out layer: it forwards the message to the remainder of the pipeline
/// twice — the shape of a retry, with the downstream effect applied once per
/// forward.
#[derive(Clone, Copy)]
pub struct RepeatMiddleware;

impl<M: Copy, S: View, D: MiddlewareDispatch<M, S>> Middleware<M, S, D> for RepeatMiddleware {
    open spec fn handled(&self, state: S::V, msg: M, next: &D) -> S::V {
        next.dispatched(next.dispatched(state, msg), msg)
    }

    fn invoke(&self, target: &mut S, msg: M, next: &D) {
        next.invoke(target, msg);
        next.invoke(target, msg);
    }
}

/// A layer that, inside its own run, performs a fresh invocation of another
/// pipeline with a message of its own before forwarding the original message.
///
/// This is the reentrant-invocation pattern: the other pipeline's terminal and
/// this pipeline's terminal each consume their message exactly once, and
/// neither invocation disturbs the other.
#[derive(Clone, Copy)]
pub struct NestedInvokeMiddleware<E, P> {
    /// The message handed to the other pipeline on every run of this layer.
    pub message: E,
    /// The other pipeline, invoked before the original message is forwarded.
    pub pipeline: P,
}

impl<
    M,
    S: View,
    D: MiddlewareDispatch<M, S>,
    E: Copy,
    P: MiddlewareDispatch<E, S>,
> Middleware<M, S, D> for NestedInvokeMiddleware<E, P> {
    open spec fn handled(&self, state: S::V, msg: M, next: &D) -> S::V {
        next.dispatched(self.pipeline.dispatched(state, self.message), msg)
    }

    fn invoke(&self, target: &mut S, msg: M, next: &D) {
        self.pipeline.invoke(target, self.message);
        next.invoke(target, msg);
    }
}

} // verus!
