//! Session lifecycle: callback installation, heap-limit behavior, and
//! idempotent teardown.

use isolate_host::session::CallbackSlot;
use isolate_host::session::EngineCallbacks;
use isolate_host::session::HeapContext;
use isolate_host::session::Session;
use isolate_host::session::SessionFailure;

#[test]
fn new_session_installs_all_three_callbacks() {
    let mut callbacks = EngineCallbacks::new();
    assert_eq!(snapshot(&callbacks), (0, CallbackSlot::Unset, CallbackSlot::Unset));
    let mut session = Session::new(&mut callbacks);
    assert!(!session.oomed());
    // exactly one heap-limit callback, and both replaceable slots bound
    assert_eq!(
        snapshot(&callbacks),
        (1, CallbackSlot::SessionBound, CallbackSlot::SessionBound)
    );
    session.teardown(&mut callbacks);
    // after teardown a fresh session may install again on the same context
    let _second = Session::new(&mut callbacks);
    assert_eq!(
        snapshot(&callbacks),
        (1, CallbackSlot::SessionBound, CallbackSlot::SessionBound)
    );
}

#[test]
fn heap_limit_callback_sets_oomed_and_doubles_the_ceiling() {
    let mut heap_context = heap_context_for_test();
    let new_limit = Session::near_heap_limit_callback(&mut heap_context, 64 * 1024 * 1024);
    assert_eq!(new_limit, 128 * 1024 * 1024);
    assert!(new_limit > 64 * 1024 * 1024);
    assert!(heap_context.oomed());

    // firing again keeps the flag set and keeps doubling
    let next_limit = Session::near_heap_limit_callback(&mut heap_context, new_limit);
    assert_eq!(next_limit, 256 * 1024 * 1024);
    assert!(heap_context.oomed());
}

/// A fresh heap context is only obtainable through a session; pull one out
/// by value for the callback test.
fn heap_context_for_test() -> HeapContext {
    let mut callbacks = EngineCallbacks::new();
    let mut session = Session::new(&mut callbacks);
    assert!(!session.oomed());
    session.teardown(&mut callbacks);
    session.into_heap_context()
}

#[test]
fn teardown_is_idempotent_and_neutralizes_every_slot() {
    let mut callbacks = EngineCallbacks::new();
    let mut session = Session::new(&mut callbacks);

    // an error path ends the episode early; teardown still neutralizes
    session.teardown(&mut callbacks);
    let first = snapshot(&callbacks);
    assert_eq!(first, (0, CallbackSlot::Noop, CallbackSlot::Noop));

    // tearing down again changes nothing: same neutral state, and the
    // heap-limit callback is not registered a second time
    session.teardown(&mut callbacks);
    assert_eq!(snapshot(&callbacks), first);
}

#[test]
fn torn_down_session_no_longer_mutates_its_heap_context() {
    let mut callbacks = EngineCallbacks::new();
    let mut session = Session::new(&mut callbacks);
    session.teardown(&mut callbacks);
    // with zero heap-limit callbacks installed, nothing can flip the flag
    assert!(!session.oomed());
}

#[test]
fn session_failures_are_distinguished() {
    let oom = SessionFailure::OutOfMemory;
    let system = SessionFailure::SystemError("isolate creation failed".to_string());
    assert_ne!(oom, system);
    match system {
        SessionFailure::SystemError(message) => {
            assert_eq!(message, "isolate creation failed");
        }
        SessionFailure::OutOfMemory => panic!("a system error is not an out-of-memory outcome"),
    }
}

fn snapshot(callbacks: &EngineCallbacks) -> (u64, CallbackSlot, CallbackSlot) {
    (
        callbacks.heap_limit_installs(),
        callbacks.promise_reject(),
        callbacks.dynamic_import(),
    )
}
