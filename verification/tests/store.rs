use midpipe::MiddlewareContext;
use midpipe::MiddlewareDispatch;
use midpipe::NoopEvent;
use midpipe::PushEvent;
use midpipe::StoreDispatch;
use midpipe::TraceMiddleware;

#[test]
fn store_terminal_applies_the_update() {
    let mut mcx: MiddlewareContext<Vec<u64>, StoreDispatch> = MiddlewareContext::new(vec![1, 2]);
    mcx.register(4, StoreDispatch);
    mcx.invoke(4, PushEvent { value: 3 });
    assert_eq!(mcx.context(), &vec![1, 2, 3]);
}

#[test]
fn store_noop_message_leaves_state_equal() {
    // A message whose update returns the state unchanged, dispatched through
    // the store terminal, leaves the store value-equal to its prior state.
    let mut mcx: MiddlewareContext<Vec<u64>, StoreDispatch> = MiddlewareContext::new(vec![1, 2]);
    mcx.register(4, StoreDispatch);
    mcx.invoke(4, NoopEvent);
    assert_eq!(mcx.context(), &vec![1, 2]);
}

#[test]
fn store_helper_updates_without_a_pipeline() {
    let mut mcx: MiddlewareContext<Vec<u64>, StoreDispatch> = MiddlewareContext::new(Vec::new());
    mcx.store(PushEvent { value: 6 });
    mcx.store(NoopEvent);
    assert_eq!(mcx.context(), &vec![6]);
}

#[test]
fn traced_pipeline_into_store_terminal() {
    // The common shape: middleware intercepts, the store terminal mutates
    // application state.
    let pipeline = <StoreDispatch as MiddlewareDispatch<PushEvent, Vec<u64>>>::fuse(
        StoreDispatch,
        TraceMiddleware { before: 100, after: 200 },
    );
    let mut state: Vec<u64> = Vec::new();
    pipeline.invoke(&mut state, PushEvent { value: 5 });
    assert_eq!(state, vec![100, 5, 200]);
}

#[test]
fn store_on_empty_state() {
    let mut mcx: MiddlewareContext<Vec<u64>, StoreDispatch> = MiddlewareContext::new(Vec::new());
    mcx.register(0, StoreDispatch);
    mcx.invoke(0, NoopEvent);
    assert_eq!(mcx.context(), &Vec::<u64>::new());
}
