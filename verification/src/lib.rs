//! A generic, key-addressed message middleware pipeline.
//!
//! Messages are intercepted by composable middleware layers before they reach
//! a terminal dispatcher. A [`dispatch::MiddlewareDispatch`] consumes one
//! message; a [`middleware::Middleware`] receives a message together with the
//! remainder of the pipeline and decides whether, when and how to forward it.
//! The fusion operator [`dispatch::MiddlewareDispatch::fuse`] wraps an
//! existing dispatcher with one more layer, producing a new pipeline without
//! running anything eagerly.
//!
//! A [`context::MiddlewareContext`] owns a registry mapping a message key to
//! the one pipeline currently installed for that key — a later registration
//! replaces the earlier one, and a key nobody registered never resolves to a
//! silent no-op — together with the store that terminal dispatchers update.
//!
//! Every dispatcher and middleware carries a specification-level denotation of
//! its effect on the store, and every `invoke` is proved to realise exactly
//! that denotation; the laws module states once and for all the order fused
//! layers run in, what a short-circuit blocks, what a repeated registration
//! replaces, what a reentrant invocation leaves behind, and what a no-op store
//! update preserves.

mod context;
mod dispatch;
mod laws;
mod middleware;
mod store;

pub use context::MiddlewareContext;
pub use dispatch::CompositeDispatch;
pub use dispatch::MiddlewareDispatch;
pub use dispatch::RecordDispatch;
pub use dispatch::VoidDispatch;
pub use laws::fusion_runs_outermost_first;
pub use laws::nested_invoke_hits_each_terminal_once;
pub use laws::register_replaces_prior_entry;
pub use laws::short_circuit_blocks_downstream;
pub use laws::store_noop_preserves_state;
pub use middleware::Middleware;
pub use middleware::NestedInvokeMiddleware;
pub use middleware::RepeatMiddleware;
pub use middleware::ReplaceMiddleware;
pub use middleware::SwallowMiddleware;
pub use middleware::TraceMiddleware;
pub use store::NoopEvent;
pub use store::PushEvent;
pub use store::Reducer;
pub use store::StoreDispatch;
