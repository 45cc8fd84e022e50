//! Wire protocol between the async host and the thread owning an isolate:
//! the closed set of lifecycle requests, the result of evaluating a function,
//! and the suspension vocabulary (`Pending`, `Completions`) used to resume a
//! function blocked on asynchronous host operations.

use vstd::prelude::*;

use crate::values::ConvexArray;
use crate::values::ConvexValue;

verus! {

/// Opaque declaration of `serde_json::Value`: the carrier for structured
/// syscall arguments and results. The crate never inspects such a value; it
/// only moves it between host and isolate thread.
#[verifier::external_type_specification]
#[verifier::external_body]
pub struct ExJsonValue(serde_json::Value);

/// Handle identifying one in-flight function invocation inside an isolate
/// thread. Valid only for the lifetime of that thread's session.
#[derive(Clone, Copy, PartialEq, Eq, Structural, Debug)]
pub struct FunctionId(pub u32);

/// Handle identifying one outstanding in-sandbox promise awaiting a
/// host-supplied result. Unique within one function invocation.
#[derive(Clone, Copy, PartialEq, Eq, Structural, Debug)]
pub struct PromiseId(pub u32);

/// Identifier of one query inside an invocation.
pub type QueryId = u32;

/// A module specifier, as resolved by the sandbox's module loader.
#[derive(Clone, PartialEq, Eq, Debug)]
pub struct ModuleSpecifier(pub String);

/// The kind of user-defined function being started.
#[derive(Clone, Copy, PartialEq, Eq, Structural, Debug)]
pub enum UdfType {
    Query,
    Mutation,
    Action,
    HttpAction,
}

/// A canonicalized path to a user-defined function: the module that defines
/// it and the exported name within that module.
#[derive(Clone, PartialEq, Eq, Debug)]
pub struct CanonicalizedUdfPath {
    pub module: String,
    pub function: String,
}

/// An application-level failure reported by the isolate thread, passed
/// through to the host unmodified.
#[derive(Clone, PartialEq, Eq, Debug)]
pub struct OpError {
    pub message: String,
}

/// Summary of how the evaluation environment ended at shutdown.
#[derive(Clone, Copy, PartialEq, Eq, Structural, Debug)]
pub struct EnvironmentOutcome {
    /// Whether the sandbox hit its heap limit and was forcibly terminated.
    pub oomed: bool,
}

/// One outstanding synchronous-host-call-style operation: the sandbox awaits
/// a string result for the named syscall.
#[derive(Debug)]
pub struct PendingAsyncSyscall {
    pub promise_id: PromiseId,
    pub name: String,
    pub args: serde_json::Value,
}

/// The host's answer to one pending async syscall.
#[derive(Debug)]
pub struct AsyncSyscallCompletion {
    pub promise_id: PromiseId,
    pub result: Result<String, OpError>,
}

/// A request for one asynchronous host operation awaiting a structured
/// result.
#[derive(Debug)]
pub struct AsyncOpRequest {
    pub name: String,
    pub args: serde_json::Value,
}

/// One outstanding asynchronous operation the sandbox is blocked on.
#[derive(Debug)]
pub struct PendingAsyncOp {
    pub promise_id: PromiseId,
    pub request: AsyncOpRequest,
}

/// The structured result of one asynchronous host operation.
#[derive(Debug)]
pub struct TaskResponse {
    pub payload: serde_json::Value,
}

/// The host's answer to one pending async operation.
#[derive(Debug)]
pub struct AsyncOpCompletion {
    pub promise_id: PromiseId,
    pub result: Result<TaskResponse, OpError>,
}

/// A module specifier requested by the sandbox at runtime through a dynamic
/// import.
#[derive(Debug)]
pub struct PendingDynamicImport {
    pub promise_id: PromiseId,
    pub specifier: ModuleSpecifier,
}

/// Everything one suspended invocation is blocked on, partitioned by kind.
/// Empty in all three lists is equivalent to no outstanding work.
#[derive(Debug)]
pub struct Pending {
    pub async_syscalls: Vec<PendingAsyncSyscall>,
    pub async_ops: Vec<PendingAsyncOp>,
    pub dynamic_imports: Vec<PendingDynamicImport>,
}

impl Pending {
    /// No outstanding work in any of the three lists.
    pub open spec fn spec_is_empty(&self) -> bool {
        self.async_syscalls@.len() == 0 && self.async_ops@.len() == 0
            && self.dynamic_imports@.len() == 0
    }

    /// True exactly when all three lists are empty.
    pub fn is_empty(&self) -> (r: bool)
        ensures
            r == self.spec_is_empty(),
    {
        self.async_syscalls.len() == 0 && self.async_ops.len() == 0
            && self.dynamic_imports.len() == 0
    }
}

/// The host's answers to some or all outstanding items of a suspended
/// invocation, keyed by promise.
#[derive(Debug)]
pub struct Completions {
    pub async_syscalls: Vec<AsyncSyscallCompletion>,
    pub async_ops: Vec<AsyncOpCompletion>,
}

impl Completions {
    /// An empty batch of completions.
    pub fn new() -> (r: Self)
        ensures
            r.async_syscalls@.len() == 0,
            r.async_ops@.len() == 0,
    {
        Self { async_syscalls: Vec::new(), async_ops: Vec::new() }
    }
}

/// The result of starting or polling a function: either execution ran to
/// completion with a final value, or it suspended on outstanding work.
#[derive(Debug)]
pub enum EvaluateResult {
    Ready(ConvexValue),
    Pending(Pending),
}

impl EvaluateResult {
    /// A fully-resolved state must be expressed as `Ready`: the suspended
    /// variant never carries an empty `Pending`.
    pub open spec fn wf(&self) -> bool {
        self matches EvaluateResult::Pending(p) ==> !p.spec_is_empty()
    }

    /// Wraps a final value.
    pub fn ready(value: ConvexValue) -> (r: Self)
        ensures
            r == EvaluateResult::Ready(value),
            r.wf(),
    {
        EvaluateResult::Ready(value)
    }

    /// Wraps outstanding work. An empty `Pending` is not a legal suspension.
    pub fn pending(pending: Pending) -> (r: Self)
        requires
            !pending.spec_is_empty(),
        ensures
            r == EvaluateResult::Pending(pending),
            r.wf(),
    {
        EvaluateResult::Pending(pending)
    }

    /// Checked constructor for the suspended variant: refuses an empty
    /// `Pending` instead of producing an ill-formed result.
    pub fn try_pending(pending: Pending) -> (r: Option<Self>)
        ensures
            match r {
                Some(e) => !pending.spec_is_empty() && e == EvaluateResult::Pending(pending)
                    && e.wf(),
                None => pending.spec_is_empty(),
            },
    {
        if pending.is_empty() {
            None
        } else {
            Some(EvaluateResult::Pending(pending))
        }
    }
}

/// A single-use reply slot, standing for the one-shot reply channel embedded
/// in each request: exactly one reply may be deposited, and the sender can
/// observe an unanswered slot as `None` rather than hanging.
pub struct ReplySlot<T> {
    reply: Option<T>,
}

impl<T> ReplySlot<T> {
    /// The reply deposited so far, if any.
    pub closed spec fn contents(&self) -> Option<T> {
        self.reply
    }

    /// A fresh slot with no reply.
    pub fn empty() -> (r: Self)
        ensures
            r.contents() is None,
    {
        ReplySlot { reply: None }
    }

    /// Deposits the single reply. A slot never accepts a second answer.
    pub fn send(&mut self, value: T)
        requires
            old(self).contents() is None,
        ensures
            final(self).contents() == Some(value),
    {
        self.reply = Some(value);
    }

    /// Takes the reply out, leaving the slot empty.
    pub fn try_take(&mut self) -> (r: Option<T>)
        ensures
            r == old(self).contents(),
            final(self).contents() is None,
    {
        self.reply.take()
    }
}

/// A lifecycle request executed synchronously on the thread owning the
/// isolate. The reply travels back through the caller's `ReplySlot`, typed to
/// the result of the request kind.
#[derive(Debug)]
pub enum IsolateThreadRequest {
    RegisterModule {
        name: ModuleSpecifier,
        source: String,
        source_map: Option<String>,
    },
    EvaluateModule {
        name: ModuleSpecifier,
    },
    StartFunction {
        udf_type: UdfType,
        udf_path: CanonicalizedUdfPath,
        arguments: ConvexArray,
    },
    PollFunction {
        function_id: FunctionId,
        completions: Completions,
    },
    Shutdown,
}

} // verus!
