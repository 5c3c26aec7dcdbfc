//! The context: owner of one registry of installed pipelines and of the store
//! that terminal dispatchers update.
//!
//! The registry maps a message key to the currently installed dispatcher for
//! that key — at most one per key; a later `register` for the same key
//! replaces the earlier entry. Looking a key up never yields a silent no-op
//! default: `get` and `invoke` demand a registered key, and `lookup` and
//! `try_invoke` say exactly when a key is missing, so a wiring mistake is
//! caught at its first use.
//!
//! A context is created once per logical scope and passed explicitly; several
//! independent contexts, each with its own registry and store, can coexist in
//! one process. Registry reads and writes go through `&self` and `&mut self`,
//! so an attempt to replace an entry while a borrowed entry is still live is
//! rejected before the program runs, and a dispatch can never observe a
//! half-updated registry.

use std::collections::HashMap;

use vstd::prelude::*;

use crate::dispatch::MiddlewareDispatch;
use crate::store::Reducer;

verus! {

broadcast use vstd::std_specs::hash::group_hash_axioms;

/// An owner of one registry and one store.
///
/// `S` is the store terminal dispatchers update; `D` is the type of the
/// installed dispatchers — in an embedding it is the one pipeline type the
/// host composes, and a shared handle or an enumeration of pipelines where
/// several shapes must coexist.
pub struct MiddlewareContext<S, D> {
    store: S,
    registry: HashMap<u64, D>,
}

impl<S: View, D> MiddlewareContext<S, D> {
    /// The registry as a mathematical map from message key to the installed
    /// dispatcher for that key.
    pub closed spec fn reg(&self) -> Map<u64, D> {
        self.registry@
    }

    /// The store's view: the state terminal dispatchers transform.
    pub closed spec fn state(&self) -> S::V {
        self.store@
    }

    /// A fresh context: an empty registry around the given store.
    pub fn new(store: S) -> (mcx: Self)
        ensures
            mcx.reg() == Map::<u64, D>::empty(),
            mcx.state() == store@,
    {
        MiddlewareContext { store, registry: HashMap::new() }
    }

    /// The store access point this context owns.
    pub fn context(&self) -> (target: &S)
        ensures
            target@ == self.state(),
    {
        &self.store
    }

    /// Discard a message: the no-op sink, usable as a terminal for message
    /// kinds that are deliberately ignored. Takes the context immutably, so
    /// neither the registry nor the store can change.
    pub fn void<M>(&self, msg: M) {
    }

    /// Apply a message's own update to the store, leaving the registry
    /// untouched: the terminal helper most pipelines end in.
    pub fn store<M: Reducer<S>>(&mut self, msg: M)
        ensures
            final(self).state() == msg.reduces(old(self).state()),
            final(self).reg() == old(self).reg(),
    {
        msg.apply(&mut self.store);
    }

    /// Install `dispatch` as the pipeline for `key`, replacing any entry
    /// previously registered for the same key. The store is untouched.
    pub fn register(&mut self, key: u64, dispatch: D)
        ensures
            final(self).reg() == old(self).reg().insert(key, dispatch),
            final(self).state() == old(self).state(),
    {
        self.registry.insert(key, dispatch);
    }

    /// The installed dispatcher for `key`, or `None` exactly when no
    /// dispatcher was ever registered (or left registered) for `key`.
    pub fn lookup(&self, key: u64) -> (entry: Option<&D>)
        ensures
            match entry {
                Some(dispatch) => self.reg().contains_key(key) && *dispatch == self.reg()[key],
                None => !self.reg().contains_key(key),
            },
    {
        self.registry.get(&key)
    }

    /// A handle to the installed dispatcher for `key`.
    ///
    /// A key that was never registered is a wiring bug, not a runtime
    /// condition: there is no silent no-op fallback, so the caller must hold a
    /// registered key. A caller that cannot know this uses [`Self::lookup`] or
    /// [`Self::try_invoke`] and handles the missing entry itself.
    pub fn get(&self, key: u64) -> (dispatch: &D)
        requires
            self.reg().contains_key(key),
        ensures
            *dispatch == self.reg()[key],
    {
        self.registry.get(&key).unwrap()
    }

    /// Resolve the pipeline installed for `key` and hand it `msg`: the store
    /// ends exactly as that pipeline's denotation says, and the registry is
    /// unchanged — resolution releases the registry before dispatch runs, so
    /// the pipeline itself may invoke further dispatchers freely.
    pub fn invoke<M>(&mut self, key: u64, msg: M) where D: MiddlewareDispatch<M, S>
        requires
            old(self).reg().contains_key(key),
        ensures
            final(self).reg() == old(self).reg(),
            final(self).state() == old(self).reg()[key].dispatched(old(self).state(), msg),
    {
        let dispatch = self.registry.get(&key).unwrap();
        dispatch.invoke(&mut self.store, msg);
    }

    /// Like [`Self::invoke`], for a caller that cannot know whether `key` is
    /// registered: reports whether a pipeline was found, and leaves the store
    /// untouched when none was.
    pub fn try_invoke<M>(&mut self, key: u64, msg: M) -> (hit: bool) where
        D: MiddlewareDispatch<M, S>
        ensures
            final(self).reg() == old(self).reg(),
            hit == old(self).reg().contains_key(key),
            hit ==> final(self).state() == old(self).reg()[key].dispatched(
                old(self).state(),
                msg,
            ),
            !hit ==> final(self).state() == old(self).state(),
    {
        match self.registry.get(&key) {
            Some(dispatch) => {
                dispatch.invoke(&mut self.store, msg);
                true
            },
            None => false,
        }
    }
}

} // verus!
