//! The reducer target: the external store that terminal dispatchers update.
//!
//! A message that is meant to end in the store declares, through [`Reducer`],
//! how it turns the store's current state into its replacement state. The
//! terminal dispatcher [`StoreDispatch`] applies exactly that update and
//! nothing else.

use vstd::prelude::*;

use crate::dispatch::MiddlewareDispatch;

verus! {

/// A message that knows how it updates a store of type `S`.
///
/// `reduces` is the update as a function on the store's view; `apply` performs
/// it within the store's own update discipline and is proved to change the
/// state exactly as `reduces` says.
pub trait Reducer<S: View>: Sized {
    /// The update this message stands for: the store's view after the update,
    /// as a function of the view before.
    spec fn reduces(self, state: S::V) -> S::V;

    /// Apply the update to the store in place.
    fn apply(self, state: &mut S)
        ensures
            final(state)@ == self.reduces(old(state)@),
    ;
}

/// The terminal dispatcher that applies its message to the store: the most
/// common end of a pipeline. It performs the message's own update and no
/// other mutation, so a message whose update returns the state unchanged
/// leaves the store exactly as it was.
#[derive(Clone, Copy)]
pub struct StoreDispatch;

impl<M: Reducer<S>, S: View> MiddlewareDispatch<M, S> for StoreDispatch {
    open spec fn dispatched(&self, state: S::V, msg: M) -> S::V {
        msg.reduces(state)
    }

    fn invoke(&self, target: &mut S, msg: M) {
        msg.apply(target);
    }
}

/// A message whose update appends one value to a store of events.
#[derive(Clone, Copy)]
pub struct PushEvent {
    /// The value the update appends.
    pub value: u64,
}

impl Reducer<Vec<u64>> for PushEvent {
    open spec fn reduces(self, state: Seq<u64>) -> Seq<u64> {
        state.push(self.value)
    }

    fn apply(self, state: &mut Vec<u64>) {
        state.push(self.value);
    }
}

/// A message whose update returns the state unchanged: dispatching it through
/// the store terminal provably leaves the store as it was.
#[derive(Clone, Copy)]
pub struct NoopEvent;

impl Reducer<Vec<u64>> for NoopEvent {
    open spec fn reduces(self, state: Seq<u64>) -> Seq<u64> {
        state
    }

    fn apply(self, state: &mut Vec<u64>) {
    }
}

} // verus!
