use tokio::sync::oneshot;
use veight::bridging::value::PyValue;
use veight::channels::IsolateRx;
use veight::channels::PythonRx;
use veight::error::PyError;
use veight::isolates::isolate::PyIsolate;
use veight::isolates::isolate::PyIsolateCreateValue;
use veight::isolates::isolate::RunCall;
use veight::isolates::isolate::RunStep;
use veight::isolates::PyIsolates;
use veight::transmit::CloseAction;
use veight::transmit::CloseEvent;
use veight::transmit::IsolateRequest;
use veight::transmit::IsolateRunResult;
use veight::transmit::IsolateState;
use veight::transmit::ObscuredGlobal;
use veight::transmit::PromiseReply;
use veight::transmit::PythonRequest;

fn parts() -> (PyIsolate, IsolateState, IsolateRx, PythonRx) {
    let opened = PyIsolates::new().py_create_isolate(false);
    let isolate = PyIsolate {
        isolate_tx: opened.creation.isolate_tx,
        python_tx: opened.creation.python_tx,
        state: 5,
    };
    let state = IsolateState::new(5, opened.isolate_python_tx);
    (isolate, state, opened.isolate_rx, opened.python_rx)
}

fn runtime_error<T>(result: Result<T, PyError>) -> String {
    match result {
        Err(PyError::Runtime(message)) => message,
        _ => panic!("a runtime error is expected"),
    }
}

#[test]
fn creation_greets_the_isolate_and_then_knows_it() {
    let mut opened = PyIsolates::new().py_create_isolate(false);
    let (reply, receive) = oneshot::channel();
    assert!(opened.creation.greet(reply).is_ok());
    match opened.isolate_rx.try_recv() {
        Ok(IsolateRequest::Hello { reply }) => reply.send(77).unwrap(),
        _ => panic!("a greeting is expected"),
    }
    assert!(opened.isolate_rx.try_recv().is_err());
    let created = opened.creation.greeted(receive.blocking_recv()).unwrap();
    assert_eq!(created.isolate.state, 77);
    assert!(created.start_python);
}

#[test]
fn isolates_have_their_own_states_and_channels() {
    let mut isolates = PyIsolates::new();
    let one = isolates.py_create_isolate(false);
    let other = isolates.py_create_isolate(false);
    assert_eq!((one.state, other.state), (1, 2));
    assert!(!one.creation.isolate_tx.same_channel(&other.creation.isolate_tx));
    assert!(!one.creation.python_tx.same_channel(&other.creation.python_tx));
    assert!(one.creation.python_tx.same_channel(&one.isolate_python_tx));

    let mut closed = IsolateState::new(one.state, one.isolate_python_tx);
    let _ = closed.close(CloseEvent::Begin);
    let open = IsolateState::new(other.state, other.isolate_python_tx);
    let isolate = PyIsolate {
        isolate_tx: other.creation.isolate_tx,
        python_tx: other.creation.python_tx,
        state: other.state,
    };
    assert!(isolate.check_closed(&open).is_ok());
}

#[test]
fn creation_without_python_starts_no_python_task() {
    let opened = PyIsolates::new().py_create_isolate(true);
    let (reply, receive) = oneshot::channel();
    reply.send(1).unwrap();
    let created = opened.creation.greeted(receive.blocking_recv()).unwrap();
    assert!(!created.start_python);
}

#[test]
fn creation_fails_if_the_isolate_is_not_there() {
    let mut opened = PyIsolates::new().py_create_isolate(false);
    drop(opened.isolate_rx);
    let (reply, _receive) = oneshot::channel();
    assert_eq!(
        runtime_error(opened.creation.greet(reply)),
        "failed to send initial handshake, reason: channel closed"
    );
}

#[test]
fn creation_fails_if_the_isolate_does_not_answer() {
    let opened = PyIsolates::new().py_create_isolate(false);
    let (reply, receive) = oneshot::channel::<u64>();
    drop(reply);
    assert_eq!(
        runtime_error(opened.creation.greeted(receive.blocking_recv())),
        "failed to read initial handshake response, reason: channel closed"
    );
}

#[test]
fn task_of_the_isolate_reaches_the_python_side() {
    let mut opened = PyIsolates::new().py_create_isolate(false);
    opened.isolate_python_tx.send(PythonRequest::Close).unwrap();
    assert!(matches!(opened.python_rx.try_recv(), Ok(PythonRequest::Close)));
}

#[test]
fn added_function_is_told_to_both_sides() {
    let (mut isolate, state, mut isolate_rx, mut python_rx) = parts();
    assert!(isolate.py_add_fn(&state, "hello".to_string(), 3).is_ok());
    match isolate_rx.try_recv() {
        Ok(IsolateRequest::AddFn { name }) => assert_eq!(name, "hello"),
        _ => panic!("the name is expected"),
    }
    match python_rx.try_recv() {
        Ok(PythonRequest::AddFn { name, handler }) => assert_eq!((name.as_str(), handler), ("hello", 3)),
        _ => panic!("the function is expected"),
    }
    assert!(isolate_rx.try_recv().is_err());
    assert!(python_rx.try_recv().is_err());
}

#[test]
fn function_is_not_added_without_the_isolate() {
    let (mut isolate, state, isolate_rx, mut python_rx) = parts();
    drop(isolate_rx);
    assert_eq!(
        runtime_error(isolate.py_add_fn(&state, "hello".to_string(), 3)),
        "failed to send isolate add function request, reason: channel closed"
    );
    assert!(python_rx.try_recv().is_err());
}

#[test]
fn function_is_not_added_without_python() {
    let (mut isolate, state, mut isolate_rx, python_rx) = parts();
    drop(python_rx);
    assert_eq!(
        runtime_error(isolate.py_add_fn(&state, "hello".to_string(), 3)),
        "failed to send python add function handler request, reason: channel closed\n\
         it is also possible that python-side handling is disabled with `no_python=True` \
         during the creation of this isolate"
    );
    assert!(matches!(isolate_rx.try_recv(), Ok(IsolateRequest::AddFn { .. })));
}

#[test]
fn closed_isolate_refuses_requests() {
    let (mut isolate, mut state, mut isolate_rx, mut python_rx) = parts();
    assert!(isolate.check_closed(&state).is_ok());
    let _ = state.close(CloseEvent::Begin);
    assert_eq!(runtime_error(isolate.check_closed(&state)), "isolate is closed");
    assert_eq!(
        runtime_error(isolate.py_add_fn(&state, "hello".to_string(), 3)),
        "isolate is closed"
    );
    assert_eq!(runtime_error(isolate.py_run(&state, "1".to_string())), "isolate is closed");
    assert!(isolate_rx.try_recv().is_err());
    assert!(python_rx.try_recv().is_err());
}

#[test]
fn script_is_sent_with_its_source() {
    let (isolate, state, mut isolate_rx, _python_rx) = parts();
    let mut call = isolate.py_run(&state, "1 + 1".to_string()).unwrap();
    assert!(isolate_rx.try_recv().is_err());
    let (reply, receive) = oneshot::channel();
    assert!(call.send(reply).is_ok());
    match isolate_rx.try_recv() {
        Ok(IsolateRequest::Run { source, reply }) => {
            assert_eq!(source, "1 + 1");
            reply.send(IsolateRunResult::Value(PyValue::new(5, ObscuredGlobal::new(2)))).unwrap();
        }
        _ => panic!("the script is expected"),
    }
    match RunCall::replied(receive.blocking_recv()) {
        RunStep::Done(Ok(value)) => assert_eq!(value.data.unwrap().take(), 2),
        _ => panic!("the value is expected"),
    }
}

#[test]
fn script_is_not_sent_to_an_isolate_that_is_gone() {
    let (isolate, state, isolate_rx, _python_rx) = parts();
    let mut call = isolate.py_run(&state, "1".to_string()).unwrap();
    drop(isolate_rx);
    let (reply, _receive) = oneshot::channel();
    assert_eq!(
        runtime_error(call.send(reply)),
        "failed to send isolate run request, reason: channel closed"
    );
}

#[test]
fn script_without_an_answer_fails() {
    let (reply, receive) = oneshot::channel::<IsolateRunResult>();
    drop(reply);
    match RunCall::replied(receive.blocking_recv()) {
        RunStep::Done(result) => assert_eq!(
            runtime_error(result),
            "failed to receive isolate run response, reason: channel closed"
        ),
        _ => panic!("an error is expected"),
    }
}

#[test]
fn script_that_threw_raises_what_it_threw() {
    let (reply, receive) = oneshot::channel();
    reply.send(IsolateRunResult::Error(PyError::Js("(Error) x".to_string()))).unwrap();
    match RunCall::replied(receive.blocking_recv()) {
        RunStep::Done(Err(PyError::Js(message))) => assert_eq!(message, "(Error) x"),
        _ => panic!("the error is expected"),
    }
}

#[test]
fn promise_is_waited_for() {
    let (sender, receiver) = oneshot::channel();
    let (reply, receive) = oneshot::channel();
    reply.send(IsolateRunResult::Promise { data: 8, receiver }).unwrap();
    let receiver = match RunCall::replied(receive.blocking_recv()) {
        RunStep::AwaitPromise { data, receiver } => {
            assert_eq!(data, 8);
            receiver
        }
        _ => panic!("the promise is expected"),
    };
    let mut kept = PromiseReply::new(5, sender);
    let (sender, value) = kept.fulfil(ObscuredGlobal::new(31));
    assert!(kept.sender.is_none());
    sender.send(value).unwrap();
    let value = RunCall::settled(receiver.blocking_recv()).unwrap();
    assert_eq!((value.state, value.data.unwrap().take()), (5, 31));
}

#[test]
fn promise_that_is_given_up_fails() {
    let (sender, receiver) = oneshot::channel::<PyValue>();
    drop(sender);
    assert_eq!(
        runtime_error(RunCall::settled(receiver.blocking_recv())),
        "failed to receive future result from js isolate, reason: channel closed"
    );
}

#[test]
fn close_asks_both_tasks_to_stop() {
    let (mut isolate, _state, mut isolate_rx, mut python_rx) = parts();
    isolate.close();
    assert!(matches!(isolate_rx.try_recv(), Ok(IsolateRequest::Close)));
    assert!(matches!(python_rx.try_recv(), Ok(PythonRequest::Close)));
    drop(python_rx);
    isolate.close();
    assert!(matches!(isolate_rx.try_recv(), Ok(IsolateRequest::Close)));
}

#[test]
fn state_closes_step_by_step() {
    let (_isolate, mut state, _isolate_rx, _python_rx) = parts();
    let tasks = state.tasks.clone();
    assert!(!state.is_closed());
    assert!(!tasks.is_closed());
    let item = state.stack.push(veight::stack::ArcStackItem::new(5, "f"));
    assert_eq!(state.close(CloseEvent::Begin), CloseAction::WaitTasks);
    assert!(state.is_closed());
    assert!(tasks.is_closed());
    assert!(state.stack.upgrade(item).is_some());
    assert_eq!(state.close(CloseEvent::TasksWaited), CloseAction::Finished);
    assert!(state.stack.upgrade(item).is_none());
    assert!(state.is_closed());
}

#[test]
fn function_is_requested_by_its_name() {
    let (_isolate, mut state, _isolate_rx, mut python_rx) = parts();
    let _ = state.stack.push(veight::stack::ArcStackItem::new(5, "other"));
    let item = state.stack.push(veight::stack::ArcStackItem::new(5, "hello"));
    let (reply, receive) = oneshot::channel();
    assert!(state.request_function(item, ObscuredGlobal::new(17), reply).is_ok());
    match python_rx.try_recv() {
        Ok(PythonRequest::RunFn { name, args, reply }) => {
            assert_eq!(name, "hello");
            assert_eq!((args.state, args.data.unwrap().take()), (5, 17));
            reply.send(ObscuredGlobal::new(18)).unwrap();
        }
        _ => panic!("the request is expected"),
    }
    assert_eq!(receive.blocking_recv().unwrap().take(), 18);
    drop(python_rx);
    let (reply, _receive) = oneshot::channel();
    let back = state.request_function(item, ObscuredGlobal::new(19), reply).unwrap_err();
    assert_eq!((back.state, back.data.unwrap().take()), (5, 19));
}

#[test]
fn value_is_created_by_the_engine() {
    let (isolate, _state, _isolate_rx, _python_rx) = parts();
    let created = isolate.create_value(PyIsolateCreateValue::Null, |cv| match cv {
        PyIsolateCreateValue::Null => Some(ObscuredGlobal::new(40)),
        _ => None,
    });
    assert_eq!(created.unwrap().take(), 40);
    let declined =
        isolate.create_value(PyIsolateCreateValue::String("x".to_string()), |_| None);
    assert_eq!(runtime_error(declined), "failed to create string");
}
