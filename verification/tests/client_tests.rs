//! The send protocol: budget accounting, permit handling, back-pressure,
//! and the start/poll scenarios around suspended functions.

use isolate_host::client::ClientError;
use isolate_host::client::IsolateThreadClient;
use isolate_host::client::RequestChannel;
use isolate_host::client::Semaphore;
use isolate_host::client::SendPhase;
use isolate_host::wire::Completions;
use isolate_host::values::ConvexValue;
use isolate_host::wire::EvaluateResult;
use isolate_host::wire::FunctionId;
use isolate_host::wire::IsolateThreadRequest;
use isolate_host::wire::ModuleSpecifier;
use isolate_host::wire::OpError;
use isolate_host::wire::Pending;
use isolate_host::wire::PendingAsyncOp;
use isolate_host::wire::PromiseId;
use isolate_host::wire::ReplySlot;
use isolate_host::wire::AsyncOpCompletion;
use isolate_host::wire::AsyncOpRequest;
use isolate_host::wire::TaskResponse;

fn register_request() -> IsolateThreadRequest {
    IsolateThreadRequest::RegisterModule {
        name: ModuleSpecifier("convex:/user/module.js".to_string()),
        source: "export default () => 1;".to_string(),
        source_map: None,
    }
}

#[test]
fn fresh_client_has_full_budget() {
    let client = IsolateThreadClient::new(5_000_000_000);
    assert_eq!(client.user_time_remaining(), 5_000_000_000);
    let time = client.execution_time().unwrap();
    assert_eq!(time.elapsed, 0);
    assert_eq!(time.limit, 5_000_000_000);
}

#[test]
fn budget_is_monotone_and_charged_by_execution_time() {
    let mut client = IsolateThreadClient::new(1_000);
    let mut semaphore = Semaphore::new(1);
    let mut channel = RequestChannel::new(4);

    let mut call = client.begin_send().unwrap();
    assert!(call.poll_permit(&mut semaphore));
    call.try_send(&mut semaphore, &mut channel, register_request()).unwrap();
    let reply: Option<Result<(), OpError>> = Some(Ok(()));
    let remaining_before = client.user_time_remaining();
    call.settle(&mut client, &mut semaphore, reply, 300).unwrap();
    assert_eq!(client.user_time_remaining(), 700);
    assert!(client.user_time_remaining() <= remaining_before);

    let time = client.execution_time().unwrap();
    assert_eq!(time.elapsed, 300);
    assert_eq!(time.limit, 1_000);

    // charging saturates at zero, it never goes negative
    let mut call = client.begin_send().unwrap();
    assert!(call.poll_permit(&mut semaphore));
    call.try_send(&mut semaphore, &mut channel, register_request()).unwrap();
    let reply: Option<Result<(), OpError>> = Some(Ok(()));
    call.settle(&mut client, &mut semaphore, reply, 5_000).unwrap();
    assert_eq!(client.user_time_remaining(), 0);
}

#[test]
fn exhausted_client_fails_without_sending() {
    // a client whose very first operation happens with a zero budget
    let client = IsolateThreadClient::new(0);
    match client.begin_send() {
        Err(ClientError::TimeExhausted) => {}
        _ => panic!("a zero budget must fail with the budget-exhausted condition"),
    }
    match client.execution_time() {
        Err(ClientError::TimeExhausted) => {}
        _ => panic!("execution_time must fail once the budget is gone"),
    }
}

#[test]
fn every_operation_after_exhaustion_fails() {
    let mut client = IsolateThreadClient::new(100);
    let mut semaphore = Semaphore::new(1);
    let mut channel = RequestChannel::new(4);

    let mut call = client.begin_send().unwrap();
    assert!(call.poll_permit(&mut semaphore));
    call.try_send(&mut semaphore, &mut channel, register_request()).unwrap();
    // the timer fires first: the whole remaining budget is consumed
    let outcome: Result<(), ClientError> = call.settle(&mut client, &mut semaphore, None::<Result<(), OpError>>, 100);
    match outcome {
        Err(ClientError::TimeExhausted) => {}
        _ => panic!("a timeout must surface as budget exhaustion"),
    }
    assert_eq!(client.user_time_remaining(), 0);
    for _ in 0..3 {
        match client.begin_send() {
            Err(ClientError::TimeExhausted) => {}
            _ => panic!("exhaustion is permanent for the client"),
        }
    }
}

#[test]
fn permit_count_is_restored_on_every_path() {
    let mut client = IsolateThreadClient::new(1_000_000);
    let mut semaphore = Semaphore::new(2);
    let mut channel = RequestChannel::new(1);

    // success path
    let mut call = client.begin_send().unwrap();
    assert!(call.poll_permit(&mut semaphore));
    assert_eq!(semaphore.available(), 1);
    call.try_send(&mut semaphore, &mut channel, register_request()).unwrap();
    let _ = channel.recv_next().unwrap();
    call.settle(&mut client, &mut semaphore, Some(Ok(())), 10).unwrap();
    assert_eq!(semaphore.available(), 2);

    // application-error path
    let mut call = client.begin_send().unwrap();
    assert!(call.poll_permit(&mut semaphore));
    call.try_send(&mut semaphore, &mut channel, register_request()).unwrap();
    let _ = channel.recv_next().unwrap();
    let app_err: Option<Result<(), OpError>> =
        Some(Err(OpError { message: "Uncaught Error: boom".to_string() }));
    match call.settle(&mut client, &mut semaphore, app_err, 10) {
        Err(ClientError::App(e)) => assert_eq!(e.message, "Uncaught Error: boom"),
        _ => panic!("the application error must pass through unmodified"),
    }
    assert_eq!(semaphore.available(), 2);

    // timeout path
    let mut call = client.begin_send().unwrap();
    assert!(call.poll_permit(&mut semaphore));
    call.try_send(&mut semaphore, &mut channel, register_request()).unwrap();
    let _ = channel.recv_next().unwrap();
    let _ = call.settle(&mut client, &mut semaphore, None::<Result<(), OpError>>, 999);
    assert_eq!(semaphore.available(), 2);
}

#[test]
fn queue_full_is_back_pressure_and_releases_the_permit() {
    let mut client = IsolateThreadClient::new(1_000);
    let mut semaphore = Semaphore::new(1);
    let mut channel = RequestChannel::new(0);

    let mut call = client.begin_send().unwrap();
    assert!(call.poll_permit(&mut semaphore));
    match call.try_send(&mut semaphore, &mut channel, register_request()) {
        Err(ClientError::QueueFull) => {}
        _ => panic!("a full queue must surface as back-pressure"),
    }
    assert_eq!(semaphore.available(), 1);
    assert_eq!(call.phase(), SendPhase::Done);
    // no time was charged: nothing executed
    assert_eq!(client.user_time_remaining(), 1_000);
}

#[test]
fn dropped_thread_is_terminal_and_releases_the_permit() {
    let mut client = IsolateThreadClient::new(1_000);
    let mut semaphore = Semaphore::new(1);
    let mut channel = RequestChannel::new(4);
    channel.close();

    let mut call = client.begin_send().unwrap();
    assert!(call.poll_permit(&mut semaphore));
    match call.try_send(&mut semaphore, &mut channel, register_request()) {
        Err(ClientError::ThreadDropped) => {}
        _ => panic!("a closed queue must surface as a dropped thread"),
    }
    assert_eq!(semaphore.available(), 1);
}

#[test]
fn second_client_waits_until_first_releases_the_only_permit() {
    let mut first = IsolateThreadClient::new(1_000);
    let mut second = IsolateThreadClient::new(1_000);
    let mut semaphore = Semaphore::new(1);
    let mut channel = RequestChannel::new(4);

    let mut first_call = first.begin_send().unwrap();
    assert!(first_call.poll_permit(&mut semaphore));

    // the second client suspends: no permit is available until the first
    // client's round trip completes
    let mut second_call = second.begin_send().unwrap();
    assert!(!second_call.poll_permit(&mut semaphore));
    assert_eq!(second_call.phase(), SendPhase::AwaitingPermit);

    first_call.try_send(&mut semaphore, &mut channel, register_request()).unwrap();
    assert!(!second_call.poll_permit(&mut semaphore));
    first_call.settle(&mut first, &mut semaphore, Some(Ok(())), 5).unwrap();

    assert!(second_call.poll_permit(&mut semaphore));
    assert_eq!(second_call.phase(), SendPhase::PermitHeld);
}

#[test]
fn start_function_that_completes_immediately_returns_ready() {
    let mut client = IsolateThreadClient::new(1_000_000);
    let mut semaphore = Semaphore::new(8);
    let mut channel = RequestChannel::new(16);

    let request = IsolateThreadRequest::StartFunction {
        udf_type: isolate_host::wire::UdfType::Query,
        udf_path: isolate_host::wire::CanonicalizedUdfPath {
            module: "module.js".to_string(),
            function: "default".to_string(),
        },
        arguments: isolate_host::values::ConvexArray(vec![]),
    };
    let mut call = client.begin_send().unwrap();
    assert!(call.poll_permit(&mut semaphore));
    call.try_send(&mut semaphore, &mut channel, request).unwrap();

    // the isolate thread drains the queue and replies exactly once
    let mut slot: ReplySlot<Result<(FunctionId, EvaluateResult), OpError>> = ReplySlot::empty();
    match channel.recv_next().unwrap() {
        IsolateThreadRequest::StartFunction { udf_path, .. } => {
            assert_eq!(udf_path.function, "default");
            slot.send(Ok((FunctionId(1), EvaluateResult::ready(ConvexValue::Int64(42)))));
        }
        _ => panic!("the thread must see the request that was sent"),
    }

    let reply = slot.try_take().unwrap();
    let (function_id, result) = call
        .settle(&mut client, &mut semaphore, Some(reply), 25)
        .unwrap();
    assert_eq!(function_id, FunctionId(1));
    match result {
        EvaluateResult::Ready(value) => assert_eq!(value, ConvexValue::Int64(42)),
        EvaluateResult::Pending(_) => panic!("an immediately completed function is Ready"),
    }
    // no poll_function follows: the queue stays empty
    assert!(channel.recv_next().is_none());
}

#[test]
fn start_function_with_one_async_op_suspends_then_resumes() {
    let mut client = IsolateThreadClient::new(1_000_000);
    let mut semaphore = Semaphore::new(8);
    let mut channel = RequestChannel::new(16);

    // start: the sandbox suspends on exactly one async op
    let pending = Pending {
        async_syscalls: vec![],
        async_ops: vec![PendingAsyncOp {
            promise_id: PromiseId(7),
            request: AsyncOpRequest {
                name: "fetch".to_string(),
                args: serde_json::from_str("{\"url\": \"https://example.com\"}").unwrap(),
            },
        }],
        dynamic_imports: vec![],
    };
    assert!(!pending.is_empty());
    assert_eq!(pending.async_ops.len(), 1);
    assert_eq!(pending.async_syscalls.len(), 0);
    assert_eq!(pending.dynamic_imports.len(), 0);

    let mut call = client.begin_send().unwrap();
    assert!(call.poll_permit(&mut semaphore));
    call.try_send(
        &mut semaphore,
        &mut channel,
        IsolateThreadRequest::StartFunction {
            udf_type: isolate_host::wire::UdfType::Action,
            udf_path: isolate_host::wire::CanonicalizedUdfPath {
                module: "module.js".to_string(),
                function: "act".to_string(),
            },
            arguments: isolate_host::values::ConvexArray(vec![]),
        },
    )
    .unwrap();
    let _ = channel.recv_next().unwrap();
    let start_reply: Result<(FunctionId, EvaluateResult), OpError> =
        Ok((FunctionId(3), EvaluateResult::pending(pending)));
    let (function_id, result) = call
        .settle(&mut client, &mut semaphore, Some(start_reply), 10)
        .unwrap();
    let suspended = match result {
        EvaluateResult::Pending(p) => p,
        EvaluateResult::Ready(_) => panic!("the function suspended on an async op"),
    };
    let promise_id = suspended.async_ops[0].promise_id;

    // resolve the one outstanding op and poll: the function completes
    let mut completions = Completions::new();
    completions.async_ops.push(AsyncOpCompletion {
        promise_id,
        result: Ok(TaskResponse { payload: serde_json::from_str("{\"status\": 200}").unwrap() }),
    });
    let mut call = client.begin_send().unwrap();
    assert!(call.poll_permit(&mut semaphore));
    call.try_send(
        &mut semaphore,
        &mut channel,
        IsolateThreadRequest::PollFunction { function_id, completions },
    )
    .unwrap();
    match channel.recv_next().unwrap() {
        IsolateThreadRequest::PollFunction { function_id: polled, completions } => {
            assert_eq!(polled, FunctionId(3));
            assert_eq!(completions.async_ops.len(), 1);
            assert_eq!(completions.async_ops[0].promise_id, PromiseId(7));
        }
        _ => panic!("the thread must see the poll"),
    }
    let poll_reply: Result<EvaluateResult, OpError> =
        Ok(EvaluateResult::ready(ConvexValue::String("done".to_string())));
    let result = call
        .settle(&mut client, &mut semaphore, Some(poll_reply), 10)
        .unwrap();
    match result {
        EvaluateResult::Ready(value) => assert_eq!(value, ConvexValue::String("done".to_string())),
        EvaluateResult::Pending(_) => panic!("the resolved function is Ready"),
    }
}

#[test]
fn empty_pending_is_never_a_suspension() {
    let empty = Pending { async_syscalls: vec![], async_ops: vec![], dynamic_imports: vec![] };
    assert!(empty.is_empty());
    assert!(EvaluateResult::try_pending(empty).is_none());

    let nonempty = Pending {
        async_syscalls: vec![],
        async_ops: vec![],
        dynamic_imports: vec![isolate_host::wire::PendingDynamicImport {
            promise_id: PromiseId(1),
            specifier: ModuleSpecifier("convex:/other.js".to_string()),
        }],
    };
    assert!(!nonempty.is_empty());
    assert!(EvaluateResult::try_pending(nonempty).is_some());
}

#[test]
fn reply_slot_delivers_exactly_one_reply() {
    let mut slot: ReplySlot<u32> = ReplySlot::empty();
    assert!(slot.try_take().is_none());
    slot.send(11);
    assert_eq!(slot.try_take(), Some(11));
    // the slot is empty again: an unanswered request observes None, not a hang
    assert!(slot.try_take().is_none());
}

#[test]
fn channel_delivers_in_arrival_order() {
    let mut channel = RequestChannel::new(2);
    let a = IsolateThreadRequest::EvaluateModule {
        name: ModuleSpecifier("a.js".to_string()),
    };
    let b = IsolateThreadRequest::Shutdown;
    let mut client = IsolateThreadClient::new(100);
    let mut semaphore = Semaphore::new(2);

    let mut call = client.begin_send().unwrap();
    assert!(call.poll_permit(&mut semaphore));
    call.try_send(&mut semaphore, &mut channel, a).unwrap();
    let mut call2 = client.begin_send().unwrap();
    assert!(call2.poll_permit(&mut semaphore));
    call2.try_send(&mut semaphore, &mut channel, b).unwrap();

    match channel.recv_next().unwrap() {
        IsolateThreadRequest::EvaluateModule { name } => assert_eq!(name.0, "a.js"),
        _ => panic!("first in, first out"),
    }
    match channel.recv_next().unwrap() {
        IsolateThreadRequest::Shutdown => {}
        _ => panic!("first in, first out"),
    }
    let _ = call.settle(&mut client, &mut semaphore, Some(Ok(())), 1);
    let _ = call2.settle(&mut client, &mut semaphore, Some(Ok(())), 1);
}
