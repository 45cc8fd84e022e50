//! One evaluation episode on an isolate: a `Session` installs three
//! engine-level callbacks (heap-limit, promise-rejection, dynamic-import)
//! bound to the episode's state, and guarantees they are removed or replaced
//! with no-ops when the episode ends, however it ends. One long-lived
//! execution context outlives many sessions, so no callback state may leak
//! from one episode into the next.

use vstd::prelude::*;

verus! {

/// What a replaceable engine callback slot currently points at. The engine
/// cannot unset the promise-rejection and dynamic-import callbacks, only
/// replace them, so a torn-down episode leaves no-ops behind.
#[derive(Clone, Copy, PartialEq, Eq, Structural, Debug)]
pub enum CallbackSlot {
    /// Nothing was ever installed.
    Unset,
    /// The callback bound to the live session's bookkeeping.
    SessionBound,
    /// A no-op left behind by a torn-down session.
    Noop,
}

/// The callback registrations of one long-lived execution context, as this
/// crate tracks them: how many heap-limit callbacks are installed, and what
/// the two replaceable slots point at.
pub struct EngineCallbacks {
    heap_limit_installs: u64,
    promise_reject: CallbackSlot,
    dynamic_import: CallbackSlot,
}

impl EngineCallbacks {
    /// Heap-limit callbacks currently installed; never more than one.
    pub closed spec fn spec_heap_limit_installs(&self) -> u64 {
        self.heap_limit_installs
    }

    /// What the promise-rejection slot points at.
    pub closed spec fn spec_promise_reject(&self) -> CallbackSlot {
        self.promise_reject
    }

    /// What the dynamic-import slot points at.
    pub closed spec fn spec_dynamic_import(&self) -> CallbackSlot {
        self.dynamic_import
    }

    /// No session's callbacks are installed: either nothing ever was, or a
    /// torn-down session left only no-ops behind.
    pub open spec fn neutral(&self) -> bool {
        &&& self.spec_heap_limit_installs() == 0
        &&& self.spec_promise_reject() != CallbackSlot::SessionBound
        &&& self.spec_dynamic_import() != CallbackSlot::SessionBound
    }

    /// Heap-limit callbacks currently installed.
    pub fn heap_limit_installs(&self) -> (r: u64)
        ensures
            r == self.spec_heap_limit_installs(),
    {
        self.heap_limit_installs
    }

    /// What the promise-rejection slot points at.
    pub fn promise_reject(&self) -> (r: CallbackSlot)
        ensures
            r == self.spec_promise_reject(),
    {
        self.promise_reject
    }

    /// What the dynamic-import slot points at.
    pub fn dynamic_import(&self) -> (r: CallbackSlot)
        ensures
            r == self.spec_dynamic_import(),
    {
        self.dynamic_import
    }

    /// A context on which no callback was ever installed.
    pub fn new() -> (r: Self)
        ensures
            r.spec_heap_limit_installs() == 0,
            r.spec_promise_reject() == CallbackSlot::Unset,
            r.spec_dynamic_import() == CallbackSlot::Unset,
            r.neutral(),
    {
        EngineCallbacks {
            heap_limit_installs: 0,
            promise_reject: CallbackSlot::Unset,
            dynamic_import: CallbackSlot::Unset,
        }
    }
}

/// State shared by reference with the engine's heap-limit callback: a handle
/// through which execution in the context can be terminated from any thread,
/// and an out-of-memory flag. The flag stands for an atomic boolean with
/// relaxed ordering — the callback may run concurrently with the thread that
/// owns the session and touches nothing else of it.
pub struct HeapContext {
    terminate_requested: bool,
    oomed: bool,
}

impl HeapContext {
    /// Whether forceful termination of the context was requested.
    pub closed spec fn spec_terminate_requested(&self) -> bool {
        self.terminate_requested
    }

    /// Whether the heap-limit callback fired at least once.
    pub closed spec fn spec_oomed(&self) -> bool {
        self.oomed
    }

    /// True if the heap-limit callback fired at least once during this
    /// session's lifetime.
    pub fn oomed(&self) -> (r: bool)
        ensures
            r == self.spec_oomed(),
    {
        self.oomed
    }
}

/// The scoped set of engine callbacks and heap-tracking state active for one
/// evaluation episode. Exactly one session at a time owns a context's
/// callback slots; teardown must run before the session's state goes away.
pub struct Session {
    heap_context: HeapContext,
    active: bool,
}

impl Session {
    /// Whether this session still owns the context's callback slots.
    pub closed spec fn spec_active(&self) -> bool {
        self.active
    }

    /// The heap-tracking state owned by this session.
    pub closed spec fn spec_heap_context(&self) -> HeapContext {
        self.heap_context
    }

    /// Opens an evaluation episode on a context whose slots are neutral:
    /// installs the heap-limit callback bound to a fresh `HeapContext` —
    /// never a second one for the same context — and binds the
    /// promise-rejection and dynamic-import callbacks to this episode.
    pub fn new(callbacks: &mut EngineCallbacks) -> (r: Self)
        requires
            old(callbacks).neutral(),
        ensures
            final(callbacks).spec_heap_limit_installs() == 1,
            final(callbacks).spec_promise_reject() == CallbackSlot::SessionBound,
            final(callbacks).spec_dynamic_import() == CallbackSlot::SessionBound,
            r.spec_active(),
            !r.spec_heap_context().spec_oomed(),
            !r.spec_heap_context().spec_terminate_requested(),
    {
        callbacks.heap_limit_installs = 1;
        callbacks.promise_reject = CallbackSlot::SessionBound;
        callbacks.dynamic_import = CallbackSlot::SessionBound;
        Session {
            heap_context: HeapContext { terminate_requested: false, oomed: false },
            active: true,
        }
    }

    /// The engine's response to memory pressure, bound to this session's
    /// `HeapContext`: requests forceful termination of whatever is executing
    /// in the context, records the out-of-memory condition, and returns a
    /// ceiling of double the current one so the engine does not hard-abort
    /// before the termination request takes effect.
    pub fn near_heap_limit_callback(heap_context: &mut HeapContext, current_heap_limit: usize) -> (
        new_limit: usize)
        requires
            current_heap_limit > 0,
            2 * current_heap_limit <= usize::MAX,
        ensures
            final(heap_context).spec_terminate_requested(),
            final(heap_context).spec_oomed(),
            new_limit == 2 * current_heap_limit,
            new_limit > current_heap_limit,
    {
        heap_context.terminate_requested = true;
        heap_context.oomed = true;
        current_heap_limit * 2
    }

    /// True if the heap-limit callback fired at least once during this
    /// session's lifetime.
    pub fn oomed(&self) -> (r: bool)
        ensures
            r == self.spec_heap_context().spec_oomed(),
    {
        self.heap_context.oomed()
    }

    /// Ends the episode: unconditionally removes the heap-limit callback and
    /// replaces the promise-rejection and dynamic-import callbacks with
    /// no-ops, so no later engine invocation can call back into state owned
    /// by a finished session. Runs on every exit path — normal return, early
    /// return, or unwind — and is idempotent: tearing down an already
    /// torn-down session leaves the context exactly as neutral.
    pub fn teardown(&mut self, callbacks: &mut EngineCallbacks)
        ensures
            *final(callbacks) == teardown_slots(*old(callbacks)),
            final(callbacks).neutral(),
            !final(self).spec_active(),
            final(self).spec_heap_context() == old(self).spec_heap_context(),
    {
        callbacks.heap_limit_installs = 0;
        callbacks.promise_reject = CallbackSlot::Noop;
        callbacks.dynamic_import = CallbackSlot::Noop;
        self.active = false;
    }
}

impl Session {
    /// Takes the heap-tracking state out of a finished session, for the
    /// owner of the context to inspect after the episode.
    pub fn into_heap_context(self) -> (r: HeapContext)
        ensures
            r == self.spec_heap_context(),
    {
        self.heap_context
    }
}

/// What session teardown leaves in a context's callback slots, whatever they
/// held before.
pub closed spec fn teardown_slots(callbacks: EngineCallbacks) -> EngineCallbacks {
    EngineCallbacks {
        heap_limit_installs: 0,
        promise_reject: CallbackSlot::Noop,
        dynamic_import: CallbackSlot::Noop,
    }
}

/// Session teardown is idempotent: tearing down twice leaves the context's
/// callback slots exactly as tearing down once, and the result is neutral —
/// no session-bound callback survives, and no heap-limit callback remains
/// installed for the session's `HeapContext`.
pub proof fn lemma_teardown_idempotent(callbacks: EngineCallbacks)
    ensures
        teardown_slots(teardown_slots(callbacks)) == teardown_slots(callbacks),
        teardown_slots(callbacks).neutral(),
{
}

/// How an evaluation episode can fail as a whole, distinguished from the
/// function failing on its own terms.
#[derive(PartialEq, Eq, Debug)]
pub enum SessionFailure {
    /// An internal failure of the host or engine, with its message.
    SystemError(String),
    /// The sandbox hit its heap limit and was forcibly terminated.
    OutOfMemory,
}

} // verus!
