//! Dispatchers: consumers of one message, and the fusion operator that
//! composes a middleware layer with an existing dispatcher.

use vstd::prelude::*;

use crate::middleware::Middleware;

verus! {

/// The capability "can consume one message of type `M`".
///
/// A dispatcher's only observable effect is a transformation of the store `S`
/// it is invoked against; `dispatched` is that transformation, stated over the
/// store's mathematical view, and `invoke` is proved to realise it exactly.
pub trait MiddlewareDispatch<M, S: View>: Sized {
    /// The denotation of this dispatcher: the store's view after one message
    /// has been consumed, as a function of the view before.
    spec fn dispatched(&self, state: S::V, msg: M) -> S::V;

    /// Consume `msg`, transforming the store exactly as `dispatched` says.
    fn invoke(&self, target: &mut S, msg: M)
        ensures
            final(target)@ == self.dispatched(old(target)@, msg),
    ;

    /// Fusion: build a new dispatcher in which `layer` runs first and may
    /// forward to `self`. Nothing runs eagerly; fusion only records the
    /// composition, leaving both inputs' behaviour untouched.
    fn fuse<L: Middleware<M, S, Self>>(self, layer: L) -> (fused: CompositeDispatch<L, Self>)
        ensures
            fused == (CompositeDispatch { layer, next: self }),
    {
        CompositeDispatch { layer, next: self }
    }
}

/// The composition of a middleware layer with a downstream dispatcher.
///
/// Invoking it is defined as running the layer with the downstream dispatcher
/// as `next`; the layer alone decides whether and how often the downstream
/// dispatcher sees the message.
#[derive(Clone, Copy)]
pub struct CompositeDispatch<L, D> {
    /// The outermost layer: it runs first on every invocation.
    pub layer: L,
    /// The remainder of the pipeline, handed to the layer as `next`.
    pub next: D,
}

impl<M, S: View, L: Middleware<M, S, D>, D: MiddlewareDispatch<M, S>> MiddlewareDispatch<
    M,
    S,
> for CompositeDispatch<L, D> {
    open spec fn dispatched(&self, state: S::V, msg: M) -> S::V {
        self.layer.handled(state, msg, &self.next)
    }

    fn invoke(&self, target: &mut S, msg: M) {
        self.layer.invoke(target, msg, &self.next);
    }
}

/// A shared, reference-counted handle to a dispatcher is itself a dispatcher:
/// invoking the handle invokes the dispatcher it points to.
impl<M, S: View, D: MiddlewareDispatch<M, S>> MiddlewareDispatch<M, S> for std::rc::Rc<D> {
    open spec fn dispatched(&self, state: S::V, msg: M) -> S::V {
        (**self).dispatched(state, msg)
    }

    fn invoke(&self, target: &mut S, msg: M) {
        (**self).invoke(target, msg);
    }
}

/// The terminal dispatcher that discards its message: a no-op sink.
#[derive(Clone, Copy)]
pub struct VoidDispatch;

impl<M, S: View> MiddlewareDispatch<M, S> for VoidDispatch {
    open spec fn dispatched(&self, state: S::V, msg: M) -> S::V {
        state
    }

    fn invoke(&self, target: &mut S, msg: M) {
    }
}

/// A terminal dispatcher that appends every message it receives to the store:
/// the store is the record of exactly which messages reached the end of the
/// pipeline, in order.
#[derive(Clone, Copy)]
pub struct RecordDispatch;

impl MiddlewareDispatch<u64, Vec<u64>> for RecordDispatch {
    open spec fn dispatched(&self, state: Seq<u64>, msg: u64) -> Seq<u64> {
        state.push(msg)
    }

    fn invoke(&self, target: &mut Vec<u64>, msg: u64) {
        target.push(msg);
    }
}

} // verus!
