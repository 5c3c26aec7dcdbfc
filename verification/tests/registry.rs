use midpipe::CompositeDispatch;
use midpipe::MiddlewareContext;
use midpipe::MiddlewareDispatch;
use midpipe::NestedInvokeMiddleware;
use midpipe::PushEvent;
use midpipe::RecordDispatch;
use midpipe::StoreDispatch;
use midpipe::TraceMiddleware;

type TracedRecord = CompositeDispatch<TraceMiddleware, RecordDispatch>;

#[test]
fn register_then_invoke_reaches_the_pipeline() {
    let mut mcx: MiddlewareContext<Vec<u64>, TracedRecord> = MiddlewareContext::new(Vec::new());
    mcx.register(7, RecordDispatch.fuse(TraceMiddleware { before: 1, after: 2 }));
    mcx.invoke(7, 99);
    assert_eq!(mcx.context(), &vec![1, 99, 2]);
}

#[test]
fn register_second_dispatcher_replaces_first() {
    // Register pipeline A, invoke once (A fires); register pipeline B under
    // the same key, invoke again: only B fires, A never fires a second time.
    let mut mcx: MiddlewareContext<Vec<u64>, TracedRecord> = MiddlewareContext::new(Vec::new());
    mcx.register(7, RecordDispatch.fuse(TraceMiddleware { before: 1, after: 2 }));
    mcx.invoke(7, 10);
    mcx.register(7, RecordDispatch.fuse(TraceMiddleware { before: 8, after: 9 }));
    mcx.invoke(7, 11);
    assert_eq!(mcx.context(), &vec![1, 10, 2, 8, 11, 9]);
}

#[test]
fn missing_registration_is_reported_not_defaulted() {
    // A key that was never registered yields no usable no-op dispatcher: the
    // lookup reports the absence and a guarded invoke refuses the message.
    let mut mcx: MiddlewareContext<Vec<u64>, RecordDispatch> = MiddlewareContext::new(Vec::new());
    assert!(mcx.lookup(3).is_none());
    let hit = mcx.try_invoke(3, 42);
    assert!(!hit);
    assert_eq!(mcx.context(), &Vec::<u64>::new());
}

#[test]
fn lookup_finds_only_registered_keys() {
    let mut mcx: MiddlewareContext<Vec<u64>, RecordDispatch> = MiddlewareContext::new(Vec::new());
    mcx.register(1, RecordDispatch);
    assert!(mcx.lookup(1).is_some());
    assert!(mcx.lookup(2).is_none());
}

#[test]
fn get_returns_the_installed_dispatcher() {
    let mut mcx: MiddlewareContext<Vec<u64>, TracedRecord> = MiddlewareContext::new(Vec::new());
    mcx.register(4, RecordDispatch.fuse(TraceMiddleware { before: 5, after: 6 }));
    let dispatch = mcx.get(4);
    assert_eq!(dispatch.layer.before, 5);
    assert_eq!(dispatch.layer.after, 6);
}

#[test]
fn reentrant_invoke_fires_each_terminal_once() {
    // A layer that performs a fresh invocation of another pipeline — for a
    // message of a different type, ending in the store terminal — inside its
    // own run, then forwards: both messages reach their terminals exactly
    // once, nested invocation first.
    type Reentrant =
        CompositeDispatch<NestedInvokeMiddleware<PushEvent, StoreDispatch>, RecordDispatch>;
    let mut mcx: MiddlewareContext<Vec<u64>, Reentrant> = MiddlewareContext::new(Vec::new());
    mcx.register(
        1,
        RecordDispatch.fuse(NestedInvokeMiddleware {
            message: PushEvent { value: 9 },
            pipeline: StoreDispatch,
        }),
    );
    mcx.invoke(1, 5);
    assert_eq!(mcx.context(), &vec![9, 5]);
}

#[test]
fn distinct_keys_keep_distinct_pipelines() {
    let mut mcx: MiddlewareContext<Vec<u64>, TracedRecord> = MiddlewareContext::new(Vec::new());
    mcx.register(1, RecordDispatch.fuse(TraceMiddleware { before: 10, after: 11 }));
    mcx.register(2, RecordDispatch.fuse(TraceMiddleware { before: 20, after: 21 }));
    mcx.invoke(2, 0);
    mcx.invoke(1, 0);
    assert_eq!(mcx.context(), &vec![20, 0, 21, 10, 0, 11]);
}

#[test]
fn scoped_contexts_are_independent() {
    // Two explicitly constructed contexts hold independent registries and
    // stores: registrations and invocations in one are invisible to the other.
    let mut left: MiddlewareContext<Vec<u64>, RecordDispatch> = MiddlewareContext::new(Vec::new());
    let mut right: MiddlewareContext<Vec<u64>, RecordDispatch> = MiddlewareContext::new(Vec::new());
    left.register(1, RecordDispatch);
    left.invoke(1, 77);
    assert_eq!(left.context(), &vec![77]);
    assert!(right.lookup(1).is_none());
    assert_eq!(right.context(), &Vec::<u64>::new());
    right.register(1, RecordDispatch);
    right.invoke(1, 88);
    assert_eq!(right.context(), &vec![88]);
    assert_eq!(left.context(), &vec![77]);
}
