//! The async-side handle to an isolate thread.
//!
//! All host-to-thread calls funnel through one send protocol: check the
//! per-client wall-clock budget, acquire one permit from the concurrency
//! limiter shared by every client of the pool, hand the request to the
//! thread's bounded queue without blocking, race the reply against a timer
//! covering the remaining budget, charge the observed execution time, and
//! release the permit only once the round trip has settled.
//!
//! The suspension points of the protocol (waiting for a permit, waiting for
//! the reply) belong to the host's scheduler; this module exposes them as
//! explicit steps on a [`SendCall`] so every decision between them is
//! verified. A driver owning the actual channel and timer advances the call
//! step by step and reports what it observed.

use vstd::prelude::*;

use crate::wire::IsolateThreadRequest;
use crate::wire::OpError;

verus! {

/// Failure surfaced by a client operation, distinguished so the host can
/// choose its own retry or reporting policy. Nothing is retried internally.
#[derive(PartialEq, Eq, Debug)]
pub enum ClientError {
    /// The client consumed its allotted wall-clock execution time.
    TimeExhausted,
    /// The isolate thread's bounded queue had no capacity: back-pressure,
    /// distinct from a failure of the thread itself.
    QueueFull,
    /// The isolate thread exited and its queue was dropped; terminal.
    ThreadDropped,
    /// A failure the function or engine itself reported, passed through
    /// unmodified.
    App(OpError),
}

/// Elapsed execution time against the fixed limit, as reported by
/// [`IsolateThreadClient::execution_time`]. Durations are nanoseconds.
#[derive(Clone, Copy, PartialEq, Eq, Structural, Debug)]
pub struct FunctionExecutionTime {
    pub elapsed: u64,
    pub limit: u64,
}

/// Saturating subtraction: the budget never goes negative.
pub open spec fn sat_sub(a: u64, b: u64) -> u64 {
    if b >= a {
        0u64
    } else {
        (a - b) as u64
    }
}

/// The counting permit resource bounding how many isolate threads execute at
/// any instant, shared by reference across all clients of one thread pool.
pub struct Semaphore {
    available: u64,
    limit: u64,
}

impl Semaphore {
    /// Permits not currently held.
    pub closed spec fn spec_available(&self) -> u64 {
        self.available
    }

    /// Permits the pool was created with.
    pub closed spec fn spec_limit(&self) -> u64 {
        self.limit
    }

    /// Every permit is either held or available.
    pub open spec fn wf(&self) -> bool {
        self.spec_available() <= self.spec_limit()
    }

    /// A fresh pool with `permits` permits, all available.
    pub fn new(permits: u64) -> (r: Self)
        ensures
            r.spec_available() == permits,
            r.spec_limit() == permits,
            r.wf(),
    {
        Semaphore { available: permits, limit: permits }
    }

    /// Permits available right now.
    pub fn available(&self) -> (r: u64)
        ensures
            r == self.spec_available(),
    {
        self.available
    }

    /// Takes one permit if any is available; never blocks.
    fn try_acquire(&mut self) -> (granted: bool)
        ensures
            final(self).spec_limit() == old(self).spec_limit(),
            granted ==> old(self).spec_available() > 0 && final(self).spec_available()
                == old(self).spec_available() - 1,
            !granted ==> old(self).spec_available() == 0 && *final(self) == *old(self),
    {
        if self.available > 0 {
            self.available = self.available - 1;
            true
        } else {
            false
        }
    }

    /// Returns one held permit to the pool.
    fn release(&mut self)
        requires
            old(self).spec_available() < old(self).spec_limit(),
        ensures
            final(self).spec_limit() == old(self).spec_limit(),
            final(self).spec_available() == old(self).spec_available() + 1,
    {
        self.available = self.available + 1;
    }
}

/// Outcome of handing a request to the bounded queue without blocking.
#[derive(Clone, Copy, PartialEq, Eq, Structural, Debug)]
pub enum TrySendOutcome {
    /// The queue accepted the request.
    Accepted,
    /// The queue is at capacity.
    Full,
    /// The receiving thread dropped the queue.
    Closed,
}

/// The bounded in-process queue carrying requests to the thread owning the
/// isolate. Sends never block; a full queue is reported as back-pressure.
pub struct RequestChannel {
    queue: Vec<IsolateThreadRequest>,
    capacity: usize,
    closed: bool,
}

impl RequestChannel {
    /// Requests accepted and not yet drained, oldest first.
    pub closed spec fn spec_queue(&self) -> Seq<IsolateThreadRequest> {
        self.queue@
    }

    /// The fixed capacity of the queue.
    pub closed spec fn spec_capacity(&self) -> usize {
        self.capacity
    }

    /// Whether the receiving thread has gone away.
    pub closed spec fn spec_closed(&self) -> bool {
        self.closed
    }

    /// A fresh open queue of the given capacity.
    pub fn new(capacity: usize) -> (r: Self)
        ensures
            r.spec_queue() == Seq::<IsolateThreadRequest>::empty(),
            r.spec_capacity() == capacity,
            !r.spec_closed(),
    {
        RequestChannel { queue: Vec::new(), capacity, closed: false }
    }

    /// Marks the receiving side gone; later sends fail as "thread dropped".
    pub fn close(&mut self)
        ensures
            final(self).spec_queue() == old(self).spec_queue(),
            final(self).spec_capacity() == old(self).spec_capacity(),
            final(self).spec_closed(),
    {
        self.closed = true;
    }

    /// Non-blocking send: appends the request if the queue is open and has
    /// capacity, otherwise reports why it could not.
    fn try_send(&mut self, request: IsolateThreadRequest) -> (r: TrySendOutcome)
        ensures
            final(self).spec_capacity() == old(self).spec_capacity(),
            final(self).spec_closed() == old(self).spec_closed(),
            match r {
                TrySendOutcome::Accepted => !old(self).spec_closed() && old(self).spec_queue().len()
                    < old(self).spec_capacity() && final(self).spec_queue() == old(
                    self,
                ).spec_queue().push(request),
                TrySendOutcome::Full => !old(self).spec_closed() && old(self).spec_queue().len()
                    >= old(self).spec_capacity() && final(self).spec_queue() == old(
                    self,
                ).spec_queue(),
                TrySendOutcome::Closed => old(self).spec_closed() && final(self).spec_queue()
                    == old(self).spec_queue(),
            },
    {
        if self.closed {
            TrySendOutcome::Closed
        } else if self.queue.len() >= self.capacity {
            TrySendOutcome::Full
        } else {
            self.queue.push(request);
            TrySendOutcome::Accepted
        }
    }

    /// Takes the oldest queued request, if any; the draining side of the
    /// channel, called from the isolate thread's loop.
    pub fn recv_next(&mut self) -> (r: Option<IsolateThreadRequest>)
        ensures
            final(self).spec_capacity() == old(self).spec_capacity(),
            final(self).spec_closed() == old(self).spec_closed(),
            match r {
                Some(req) => old(self).spec_queue().len() > 0 && req == old(self).spec_queue()[0]
                    && final(self).spec_queue() == old(self).spec_queue().subrange(
                    1,
                    old(self).spec_queue().len() as int,
                ),
                None => old(self).spec_queue().len() == 0 && final(self).spec_queue() == old(
                    self,
                ).spec_queue(),
            },
    {
        if self.queue.len() > 0 {
            let r = self.queue.remove(0);
            assert(final(self).spec_queue() =~= old(self).spec_queue().subrange(
                1,
                old(self).spec_queue().len() as int,
            ));
            Some(r)
        } else {
            None
        }
    }
}

/// Where one send round trip stands between its suspension points.
#[derive(Clone, Copy, PartialEq, Eq, Structural, Debug)]
pub enum SendPhase {
    /// No round trip begun: the budget has not been checked yet.
    Start,
    /// Budget checked and nonzero; waiting for a concurrency permit.
    AwaitingPermit,
    /// Permit held; the request has not been handed to the queue yet.
    PermitHeld,
    /// Request accepted; racing the reply against the budget timer.
    AwaitingReply,
    /// Settled: the permit is back in the pool and the outcome is decided.
    Done,
}

/// One host-to-thread round trip in progress. Created by
/// [`IsolateThreadClient::begin_send`] and advanced by a driver that owns the
/// actual suspension points.
pub struct SendCall {
    phase: SendPhase,
    permits_held: u64,
}

impl SendCall {
    /// The phase the round trip is in.
    pub closed spec fn spec_phase(&self) -> SendPhase {
        self.phase
    }

    /// Permits this round trip currently holds: one between permit
    /// acquisition and settlement, zero otherwise.
    pub closed spec fn spec_permits_held(&self) -> u64 {
        self.permits_held
    }

    /// A permit is held exactly while the request may be executing.
    pub open spec fn wf(&self) -> bool {
        self.spec_permits_held() == (match self.spec_phase() {
            SendPhase::PermitHeld => 1u64,
            SendPhase::AwaitingReply => 1u64,
            _ => 0u64,
        })
    }

    /// Exposes the phase to the driver.
    pub fn phase(&self) -> (r: SendPhase)
        ensures
            r == self.spec_phase(),
    {
        self.phase
    }

    /// Polls the shared pool for a permit; the driver suspends and retries
    /// while none is available. Queueing for a permit is never billed.
    pub fn poll_permit(&mut self, semaphore: &mut Semaphore) -> (granted: bool)
        requires
            old(self).spec_phase() == SendPhase::AwaitingPermit,
            old(self).wf(),
        ensures
            final(self).wf(),
            final(semaphore).spec_limit() == old(semaphore).spec_limit(),
            granted ==> {
                &&& final(self).spec_phase() == SendPhase::PermitHeld
                &&& final(self).spec_permits_held() == 1
                &&& old(semaphore).spec_available() > 0
                &&& final(semaphore).spec_available() == old(semaphore).spec_available() - 1
            },
            !granted ==> {
                &&& *final(self) == *old(self)
                &&& *final(semaphore) == *old(semaphore)
                &&& old(semaphore).spec_available() == 0
            },
    {
        if semaphore.try_acquire() {
            self.phase = SendPhase::PermitHeld;
            self.permits_held = 1;
            true
        } else {
            false
        }
    }

    /// Hands the request to the thread's queue without blocking. On
    /// back-pressure or a dropped thread the round trip fails immediately and
    /// the permit goes back to the pool; no time is charged, since nothing
    /// executed.
    pub fn try_send(
        &mut self,
        semaphore: &mut Semaphore,
        channel: &mut RequestChannel,
        request: IsolateThreadRequest,
    ) -> (r: Result<(), ClientError>)
        requires
            old(self).spec_phase() == SendPhase::PermitHeld,
            old(self).wf(),
            // the caller holds a permit, so the pool cannot already be full
            old(semaphore).spec_available() < old(semaphore).spec_limit(),
        ensures
            final(self).wf(),
            final(semaphore).spec_limit() == old(semaphore).spec_limit(),
            final(channel).spec_capacity() == old(channel).spec_capacity(),
            final(channel).spec_closed() == old(channel).spec_closed(),
            match r {
                Ok(()) => {
                    &&& !old(channel).spec_closed()
                    &&& old(channel).spec_queue().len() < old(channel).spec_capacity()
                    &&& final(channel).spec_queue() == old(channel).spec_queue().push(request)
                    &&& final(self).spec_phase() == SendPhase::AwaitingReply
                    &&& final(self).spec_permits_held() == 1
                    &&& *final(semaphore) == *old(semaphore)
                },
                Err(ClientError::QueueFull) => {
                    &&& !old(channel).spec_closed()
                    &&& old(channel).spec_queue().len() >= old(channel).spec_capacity()
                    &&& final(channel).spec_queue() == old(channel).spec_queue()
                    &&& final(self).spec_phase() == SendPhase::Done
                    &&& final(self).spec_permits_held() == 0
                    &&& final(semaphore).spec_available() == old(semaphore).spec_available() + 1
                },
                Err(ClientError::ThreadDropped) => {
                    &&& old(channel).spec_closed()
                    &&& final(channel).spec_queue() == old(channel).spec_queue()
                    &&& final(self).spec_phase() == SendPhase::Done
                    &&& final(self).spec_permits_held() == 0
                    &&& final(semaphore).spec_available() == old(semaphore).spec_available() + 1
                },
                _ => false,
            },
    {
        match channel.try_send(request) {
            TrySendOutcome::Accepted => {
                self.phase = SendPhase::AwaitingReply;
                Ok(())
            },
            TrySendOutcome::Full => {
                self.phase = SendPhase::Done;
                self.permits_held = 0;
                semaphore.release();
                Err(ClientError::QueueFull)
            },
            TrySendOutcome::Closed => {
                self.phase = SendPhase::Done;
                self.permits_held = 0;
                semaphore.release();
                Err(ClientError::ThreadDropped)
            },
        }
    }

    /// Settles the race between the reply and the budget timer.
    ///
    /// `reply` is `None` when the timer fired first: the full remaining
    /// budget was consumed, and the in-flight request is not guaranteed to
    /// have been interrupted (forceful interruption on user timeout is a
    /// known gap; only the heap-pressure path terminates execution). With
    /// `Some(result)`, `elapsed` is the wall-clock time observed between
    /// permit acquisition and the reply; queueing for the permit was not
    /// counted. Either way the permit returns to the pool exactly once and
    /// the elapsed execution time is charged against the budget, saturating
    /// at zero.
    pub fn settle<T>(
        &mut self,
        client: &mut IsolateThreadClient,
        semaphore: &mut Semaphore,
        reply: Option<Result<T, OpError>>,
        elapsed: u64,
    ) -> (r: Result<T, ClientError>)
        requires
            old(self).spec_phase() == SendPhase::AwaitingReply,
            old(self).wf(),
            old(client).wf(),
            // the caller holds a permit, so the pool cannot already be full
            old(semaphore).spec_available() < old(semaphore).spec_limit(),
        ensures
            final(self).wf(),
            final(self).spec_phase() == SendPhase::Done,
            final(self).spec_permits_held() == 0,
            final(semaphore).spec_limit() == old(semaphore).spec_limit(),
            final(semaphore).spec_available() == old(semaphore).spec_available() + 1,
            final(client).wf(),
            final(client).spec_user_timeout() == old(client).spec_user_timeout(),
            final(client).spec_user_time_remaining() <= old(client).spec_user_time_remaining(),
            match reply {
                None => final(client).spec_user_time_remaining() == 0 && (r matches Err(
                    e,
                ) && e == ClientError::TimeExhausted),
                Some(result) => {
                    &&& final(client).spec_user_time_remaining() == sat_sub(
                        old(client).spec_user_time_remaining(),
                        elapsed,
                    )
                    &&& match result {
                        Ok(v) => r matches Ok(rv) && rv == v,
                        Err(e) => r matches Err(re) && re == ClientError::App(e),
                    }
                },
            },
    {
        self.phase = SendPhase::Done;
        self.permits_held = 0;
        semaphore.release();
        match reply {
            None => {
                client.exhaust();
                Err(ClientError::TimeExhausted)
            },
            Some(result) => {
                client.charge(elapsed);
                match result {
                    Ok(v) => Ok(v),
                    Err(e) => Err(ClientError::App(e)),
                }
            },
        }
    }
}

/// The async-side handle for one served connection or function-call session:
/// a fixed wall-clock budget and what remains of it. Requests from one client
/// are strictly ordered, since each round trip borrows the client mutably.
pub struct IsolateThreadClient {
    user_timeout: u64,
    user_time_remaining: u64,
}

impl IsolateThreadClient {
    /// The fixed budget this client was created with, in nanoseconds.
    pub closed spec fn spec_user_timeout(&self) -> u64 {
        self.user_timeout
    }

    /// The budget not yet consumed, in nanoseconds.
    pub closed spec fn spec_user_time_remaining(&self) -> u64 {
        self.user_time_remaining
    }

    /// The remaining budget never exceeds the fixed limit.
    pub open spec fn wf(&self) -> bool {
        self.spec_user_time_remaining() <= self.spec_user_timeout()
    }

    /// A fresh client with its full budget.
    pub fn new(user_timeout: u64) -> (r: Self)
        ensures
            r.spec_user_timeout() == user_timeout,
            r.spec_user_time_remaining() == user_timeout,
            r.wf(),
    {
        IsolateThreadClient { user_timeout, user_time_remaining: user_timeout }
    }

    /// The budget not yet consumed, in nanoseconds.
    pub fn user_time_remaining(&self) -> (r: u64)
        ensures
            r == self.spec_user_time_remaining(),
    {
        self.user_time_remaining
    }

    /// Elapsed-versus-limit if any budget remains; the budget-exhausted
    /// condition otherwise. Side-effect-free.
    pub fn execution_time(&self) -> (r: Result<FunctionExecutionTime, ClientError>)
        requires
            self.wf(),
        ensures
            match r {
                Ok(t) => self.spec_user_time_remaining() != 0 && t.elapsed == self.spec_user_timeout()
                    - self.spec_user_time_remaining() && t.limit == self.spec_user_timeout(),
                Err(e) => self.spec_user_time_remaining() == 0 && e == ClientError::TimeExhausted,
            },
    {
        if self.user_time_remaining == 0 {
            Err(ClientError::TimeExhausted)
        } else {
            Ok(FunctionExecutionTime {
                elapsed: self.user_timeout - self.user_time_remaining,
                limit: self.user_timeout,
            })
        }
    }

    /// Step one of every operation: fails immediately with the
    /// budget-exhausted condition if nothing remains of the budget — no
    /// request is issued and no permit is taken — and otherwise opens a
    /// round trip that waits for a concurrency permit.
    pub fn begin_send(&self) -> (r: Result<SendCall, ClientError>)
        ensures
            match r {
                Ok(call) => self.spec_user_time_remaining() != 0 && call.spec_phase()
                    == SendPhase::AwaitingPermit && call.spec_permits_held() == 0 && call.wf(),
                Err(e) => self.spec_user_time_remaining() == 0 && e == ClientError::TimeExhausted,
            },
    {
        if self.user_time_remaining == 0 {
            Err(ClientError::TimeExhausted)
        } else {
            Ok(SendCall { phase: SendPhase::AwaitingPermit, permits_held: 0 })
        }
    }

    /// Charges observed execution time against the budget, saturating at
    /// zero: the budget is monotone and never negative.
    fn charge(&mut self, elapsed: u64)
        requires
            old(self).wf(),
        ensures
            final(self).wf(),
            final(self).spec_user_timeout() == old(self).spec_user_timeout(),
            final(self).spec_user_time_remaining() == sat_sub(
                old(self).spec_user_time_remaining(),
                elapsed,
            ),
    {
        if elapsed >= self.user_time_remaining {
            self.user_time_remaining = 0;
        } else {
            self.user_time_remaining = self.user_time_remaining - elapsed;
        }
    }

    /// Consumes the whole remaining budget: the timer that fired covered
    /// exactly what remained.
    fn exhaust(&mut self)
        requires
            old(self).wf(),
        ensures
            final(self).wf(),
            final(self).spec_user_timeout() == old(self).spec_user_timeout(),
            final(self).spec_user_time_remaining() == 0,
    {
        self.user_time_remaining = 0;
    }
}

/// How one round trip ended, in the spec-level picture of the protocol.
pub enum SendResultKind {
    /// The thread replied before the timer fired.
    Replied,
    /// The budget was exhausted: either it was already zero when the
    /// operation began, or the timer won the race.
    TimeExhausted,
    /// The bounded queue had no capacity.
    QueueFull,
    /// The receiving thread was gone.
    ThreadDropped,
}

/// Spec-level state of one client round trip: what remains of the budget,
/// where the protocol stands, how many permits it holds, and how many
/// permits the shared pool has left. The executable protocol — `begin_send`,
/// `poll_permit`, `try_send`, `settle` — walks exactly these transitions.
pub struct SendModel {
    pub budget: nat,
    pub phase: SendPhase,
    pub held: nat,
    pub sem_available: nat,
    pub outcome: Option<SendResultKind>,
}

/// One observation the driver can feed the protocol.
pub enum SendEvent {
    /// The host invoked an operation on the client.
    Begin,
    /// The shared pool handed over a permit.
    PermitGranted,
    /// No permit was available; the caller stays suspended.
    PermitUnavailable,
    /// The bounded queue accepted the request.
    QueueAccepted,
    /// The bounded queue was at capacity.
    QueueFull,
    /// The receiving thread had dropped the queue.
    QueueClosed,
    /// The reply won the race, after `elapsed` nanoseconds of execution.
    Reply { elapsed: nat },
    /// The budget timer won the race.
    TimerFired,
}

impl SendModel {
    /// A round trip about to begin, against a pool with `sem_available`
    /// permits left.
    pub open spec fn init(budget: nat, sem_available: nat) -> SendModel {
        SendModel {
            budget,
            phase: SendPhase::Start,
            held: 0,
            sem_available,
            outcome: None,
        }
    }

    /// A permit is held exactly while the request may be executing.
    pub open spec fn wf(&self) -> bool {
        self.held == (match self.phase {
            SendPhase::PermitHeld => 1nat,
            SendPhase::AwaitingReply => 1nat,
            _ => 0nat,
        })
    }
}

/// One transition of the send protocol. Events that cannot occur in the
/// current phase leave the state unchanged.
pub open spec fn send_step(m: SendModel, ev: SendEvent) -> SendModel {
    match (m.phase, ev) {
        (SendPhase::Start, SendEvent::Begin) => {
            if m.budget == 0 {
                SendModel {
                    phase: SendPhase::Done,
                    outcome: Some(SendResultKind::TimeExhausted),
                    ..m
                }
            } else {
                SendModel { phase: SendPhase::AwaitingPermit, ..m }
            }
        },
        (SendPhase::AwaitingPermit, SendEvent::PermitGranted) => {
            if m.sem_available > 0 {
                SendModel {
                    phase: SendPhase::PermitHeld,
                    held: (m.held + 1) as nat,
                    sem_available: (m.sem_available - 1) as nat,
                    ..m
                }
            } else {
                m
            }
        },
        (SendPhase::PermitHeld, SendEvent::QueueAccepted) => {
            SendModel { phase: SendPhase::AwaitingReply, ..m }
        },
        (SendPhase::PermitHeld, SendEvent::QueueFull) => {
            SendModel {
                phase: SendPhase::Done,
                held: (m.held - 1) as nat,
                sem_available: (m.sem_available + 1) as nat,
                outcome: Some(SendResultKind::QueueFull),
                ..m
            }
        },
        (SendPhase::PermitHeld, SendEvent::QueueClosed) => {
            SendModel {
                phase: SendPhase::Done,
                held: (m.held - 1) as nat,
                sem_available: (m.sem_available + 1) as nat,
                outcome: Some(SendResultKind::ThreadDropped),
                ..m
            }
        },
        (SendPhase::AwaitingReply, SendEvent::Reply { elapsed }) => {
            SendModel {
                phase: SendPhase::Done,
                budget: if elapsed >= m.budget {
                    0nat
                } else {
                    (m.budget - elapsed) as nat
                },
                held: (m.held - 1) as nat,
                sem_available: (m.sem_available + 1) as nat,
                outcome: Some(SendResultKind::Replied),
            }
        },
        (SendPhase::AwaitingReply, SendEvent::TimerFired) => {
            SendModel {
                phase: SendPhase::Done,
                budget: 0nat,
                held: (m.held - 1) as nat,
                sem_available: (m.sem_available + 1) as nat,
                outcome: Some(SendResultKind::TimeExhausted),
            }
        },
        _ => m,
    }
}

/// The state after feeding the protocol a whole sequence of events.
pub open spec fn send_run(m: SendModel, evs: Seq<SendEvent>) -> SendModel
    decreases evs.len(),
{
    if evs.len() == 0 {
        m
    } else {
        send_run(send_step(m, evs[0]), evs.drop_first())
    }
}

/// Whether this step hands a request to the isolate thread's queue.
pub open spec fn issues_request(m: SendModel, ev: SendEvent) -> bool {
    m.phase == SendPhase::PermitHeld && ev matches SendEvent::QueueAccepted
}

/// Whether any step of the run hands a request to the queue.
pub open spec fn run_issues_request(m: SendModel, evs: Seq<SendEvent>) -> bool
    decreases evs.len(),
{
    if evs.len() == 0 {
        false
    } else {
        issues_request(m, evs[0]) || run_issues_request(send_step(m, evs[0]), evs.drop_first())
    }
}

/// The remaining budget is non-increasing over any sequence of protocol
/// events, and — being a natural number — never negative: no path through a
/// round trip ever restores consumed time.
pub proof fn lemma_budget_monotone(m: SendModel, evs: Seq<SendEvent>)
    ensures
        send_run(m, evs).budget <= m.budget,
    decreases evs.len(),
{
    if evs.len() > 0 {
        assert(send_step(m, evs[0]).budget <= m.budget);
        lemma_budget_monotone(send_step(m, evs[0]), evs.drop_first());
    }
}

/// A client whose budget is exhausted fails every subsequent operation with
/// the budget-exhausted condition and never issues a request: from a zero
/// budget, beginning an operation settles it immediately, and no sequence of
/// events ever hands a request to the queue.
pub proof fn lemma_exhausted_client_never_sends(m: SendModel, evs: Seq<SendEvent>)
    requires
        m.budget == 0,
        m.phase == SendPhase::Start || m.phase == SendPhase::Done,
    ensures
        !run_issues_request(m, evs),
        m.phase == SendPhase::Start ==> send_step(m, SendEvent::Begin).outcome == Some(
            SendResultKind::TimeExhausted,
        ),
    decreases evs.len(),
{
    if evs.len() > 0 {
        let m1 = send_step(m, evs[0]);
        assert(m1.budget == 0);
        assert(m1.phase == SendPhase::Start || m1.phase == SendPhase::Done);
        lemma_exhausted_client_never_sends(m1, evs.drop_first());
    }
}

/// What remains of the budget after a sequence of operations on one client,
/// each operation a whole round trip of protocol events against a pool with
/// `sem_available` permits.
pub open spec fn budget_after_operations(
    budget: nat,
    sem_available: nat,
    operations: Seq<Seq<SendEvent>>,
) -> nat
    decreases operations.len(),
{
    if operations.len() == 0 {
        budget
    } else {
        budget_after_operations(
            send_run(SendModel::init(budget, sem_available), operations[0]).budget,
            sem_available,
            operations.drop_first(),
        )
    }
}

/// Over any sequence of operations issued through one client, the remaining
/// budget is non-increasing — each round trip starts from what the previous
/// one left — and, being a natural number, never negative.
pub proof fn lemma_budget_monotone_across_operations(
    budget: nat,
    sem_available: nat,
    operations: Seq<Seq<SendEvent>>,
)
    ensures
        budget_after_operations(budget, sem_available, operations) <= budget,
    decreases operations.len(),
{
    if operations.len() > 0 {
        let next = send_run(SendModel::init(budget, sem_available), operations[0]).budget;
        lemma_budget_monotone(SendModel::init(budget, sem_available), operations[0]);
        lemma_budget_monotone_across_operations(next, sem_available, operations.drop_first());
    }
}

/// Each protocol step conserves permits: what the round trip holds plus what
/// the pool has available is constant, and a step preserves the discipline
/// that a permit is held exactly while a request may be executing.
pub proof fn lemma_step_conserves_permits(m: SendModel, ev: SendEvent)
    requires
        m.wf(),
    ensures
        send_step(m, ev).wf(),
        send_step(m, ev).held + send_step(m, ev).sem_available == m.held + m.sem_available,
{
}

/// Permit acquisition and release are balanced on every path — success,
/// application error, back-pressure, dropped thread, or timeout: once a
/// round trip has settled, the pool has exactly as many permits available as
/// when the round trip began.
pub proof fn lemma_permit_balance(m: SendModel, evs: Seq<SendEvent>)
    requires
        m.wf(),
        m.held == 0,
    ensures
        send_run(m, evs).phase == SendPhase::Done ==> send_run(m, evs).sem_available
            == m.sem_available,
    decreases evs.len(),
{
    lemma_run_conserves_permits(m, evs);
}

/// Run-level permit conservation: feeding any event sequence preserves the
/// sum of held and available permits, and the held/phase discipline.
pub proof fn lemma_run_conserves_permits(m: SendModel, evs: Seq<SendEvent>)
    requires
        m.wf(),
    ensures
        send_run(m, evs).wf(),
        send_run(m, evs).held + send_run(m, evs).sem_available == m.held + m.sem_available,
    decreases evs.len(),
{
    if evs.len() > 0 {
        lemma_step_conserves_permits(m, evs[0]);
        lemma_run_conserves_permits(send_step(m, evs[0]), evs.drop_first());
    }
}

} // verus!
