use tokio::sync::oneshot;
use veight::bridging::exception::JsException;
use veight::bridging::exception::JsProperty;
use veight::channels::PythonRx;
use veight::error::PyError;
use veight::isolates::isolate_task::IsolateAction;
use veight::isolates::isolate_task::IsolateEvent;
use veight::isolates::isolate_task::IsolatePhase;
use veight::isolates::isolate_task::IsolateTask;
use veight::isolates::isolate_task::ScriptValue;
use veight::isolates::PyIsolates;
use veight::transmit::IsolateRequest;
use veight::transmit::IsolateRunResult;
use veight::transmit::ObscuredGlobal;
use veight::transmit::PythonRequest;

fn task() -> (IsolateTask, PythonRx) {
    let opened = PyIsolates::new().py_create_isolate(false);
    (IsolateTask::new(21, opened.isolate_python_tx), opened.python_rx)
}

fn step(task: &mut IsolateTask, event: IsolateEvent) -> IsolateAction {
    assert!(task.is_expected(&event));
    task.step(event)
}

fn run(task: &mut IsolateTask, source: &str) -> oneshot::Receiver<IsolateRunResult> {
    let (reply, receive) = oneshot::channel();
    let request = IsolateRequest::Run { source: source.to_string(), reply };
    match step(task, IsolateEvent::Received(Some(request))) {
        IsolateAction::Compile { source: compiled } => assert_eq!(compiled, source),
        _ => panic!("the script should be compiled"),
    }
    receive
}

fn answer(action: IsolateAction) {
    match action {
        IsolateAction::Answer { reply, result } => reply.send(result).unwrap(),
        _ => panic!("an answer is expected"),
    }
}

fn thrown(message: &str) -> JsException {
    JsException {
        name: Some(JsProperty { nullish: false, text: "Error".to_string() }),
        message: Some(JsProperty { nullish: false, text: message.to_string() }),
        stack: None,
    }
}

#[test]
fn greeting_is_answered_with_the_state() {
    let (mut task, _python_rx) = task();
    let (reply, receive) = oneshot::channel();
    match step(&mut task, IsolateEvent::Received(Some(IsolateRequest::Hello { reply }))) {
        IsolateAction::Greet { reply, state } => reply.send(state).unwrap(),
        _ => panic!("a greeting is expected"),
    }
    assert_eq!(receive.blocking_recv().unwrap(), 21);
    assert!(matches!(step(&mut task, IsolateEvent::Greeted), IsolateAction::Receive));
}

#[test]
fn every_greeting_tells_the_same_state() {
    let (mut task, mut python_rx) = task();
    for _ in 0..3 {
        let (reply, _receive) = oneshot::channel();
        match step(&mut task, IsolateEvent::Received(Some(IsolateRequest::Hello { reply }))) {
            IsolateAction::Greet { state, .. } => assert_eq!(state, 21),
            _ => panic!("a greeting is expected"),
        }
        let _ = step(&mut task, IsolateEvent::Greeted);
        assert!(!task.state.is_closed());
    }
    assert!(task.state.py_tx.send(PythonRequest::Close).is_ok());
    assert!(matches!(python_rx.try_recv(), Ok(PythonRequest::Close)));
}

#[test]
fn wait_ends_once_the_isolate_begins_to_close() {
    let (mut task, _python_rx) = task();
    let tracker = task.state.tasks.clone();
    let runtime = tokio::runtime::Builder::new_current_thread().build().unwrap();
    let _ = step(&mut task, IsolateEvent::Received(Some(IsolateRequest::Close)));
    runtime.block_on(tracker.wait());
    assert!(matches!(step(&mut task, IsolateEvent::TasksWaited), IsolateAction::Stop));
}

#[test]
fn script_with_a_value_is_answered_and_microtasks_run() {
    let (mut task, _python_rx) = task();
    let receive = run(&mut task, "1 + 1");
    assert!(matches!(step(&mut task, IsolateEvent::Compiled(Ok(()))), IsolateAction::Run));
    let value = ScriptValue { global: ObscuredGlobal::new(2), promise: false };
    answer(step(&mut task, IsolateEvent::Ran(Ok(value))));
    match receive.blocking_recv() {
        Ok(IsolateRunResult::Value(value)) => {
            assert_eq!((value.state, value.data.unwrap().take()), (21, 2))
        }
        _ => panic!("a value is expected"),
    }
    assert!(matches!(step(&mut task, IsolateEvent::Answered), IsolateAction::Checkpoint));
    assert!(matches!(step(&mut task, IsolateEvent::Checkpointed), IsolateAction::Receive));
    assert!(matches!(task.phase, IsolatePhase::Idle));
}

#[test]
fn script_with_a_promise_is_answered_with_its_receiver() {
    let (mut task, _python_rx) = task();
    let receive = run(&mut task, "(async () => 1)()");
    let _ = step(&mut task, IsolateEvent::Compiled(Ok(())));
    let value = ScriptValue { global: ObscuredGlobal::new(3), promise: true };
    match step(&mut task, IsolateEvent::Ran(Ok(value))) {
        IsolateAction::Attach { promise } => assert_eq!(promise.take(), 3),
        _ => panic!("the promise should be attached to"),
    }
    let (_sender, receiver) = oneshot::channel();
    answer(step(&mut task, IsolateEvent::Attached { data: 9, receiver }));
    assert!(matches!(
        receive.blocking_recv(),
        Ok(IsolateRunResult::Promise { data: 9, .. })
    ));
    assert!(matches!(step(&mut task, IsolateEvent::Answered), IsolateAction::Checkpoint));
}

#[test]
fn script_that_does_not_compile_is_answered_without_microtasks() {
    let (mut task, _python_rx) = task();
    let receive = run(&mut task, "(");
    answer(step(&mut task, IsolateEvent::Compiled(Err(thrown("bad syntax")))));
    match receive.blocking_recv() {
        Ok(IsolateRunResult::Error(PyError::Js(message))) => {
            assert_eq!(message, "(Error) bad syntax\nStack trace:\n")
        }
        _ => panic!("an error is expected"),
    }
    assert!(matches!(step(&mut task, IsolateEvent::Answered), IsolateAction::Receive));
}

#[test]
fn script_that_throws_is_answered_without_microtasks() {
    let (mut task, _python_rx) = task();
    let receive = run(&mut task, "throw 1");
    let _ = step(&mut task, IsolateEvent::Compiled(Ok(())));
    answer(step(&mut task, IsolateEvent::Ran(Err(thrown("thrown")))));
    assert!(matches!(
        receive.blocking_recv(),
        Ok(IsolateRunResult::Error(PyError::Js(_)))
    ));
    assert!(matches!(step(&mut task, IsolateEvent::Answered), IsolateAction::Receive));
}

#[test]
fn scripts_are_answered_in_their_order() {
    let (mut task, _python_rx) = task();
    for n in 1usize..4 {
        let receive = run(&mut task, "x");
        let _ = step(&mut task, IsolateEvent::Compiled(Ok(())));
        let value = ScriptValue { global: ObscuredGlobal::new(n), promise: false };
        answer(step(&mut task, IsolateEvent::Ran(Ok(value))));
        match receive.blocking_recv() {
            Ok(IsolateRunResult::Value(value)) => assert_eq!(value.data.unwrap().take(), n),
            _ => panic!("a value is expected"),
        }
        let _ = step(&mut task, IsolateEvent::Answered);
        let _ = step(&mut task, IsolateEvent::Checkpointed);
    }
}

#[test]
fn added_function_is_installed_and_finds_its_name() {
    let (mut task, mut python_rx) = task();
    let mut installed = Vec::new();
    for added in ["one", "two"] {
        let request = IsolateRequest::AddFn { name: added.to_string() };
        match step(&mut task, IsolateEvent::Received(Some(request))) {
            IsolateAction::Install { name, function } => {
                assert_eq!(name, added);
                installed.push(function);
            }
            _ => panic!("the function should be installed"),
        }
        assert!(matches!(step(&mut task, IsolateEvent::Installed), IsolateAction::Receive));
    }
    let item = task.state.stack.upgrade(installed[0]).unwrap();
    assert_eq!((item.name().as_str(), item.state()), ("one", 21));
    let (reply, _receive) = oneshot::channel();
    assert!(task.state.request_function(installed[1], ObscuredGlobal::new(4), reply).is_ok());
    match python_rx.try_recv() {
        Ok(PythonRequest::RunFn { name, .. }) => assert_eq!(name, "two"),
        _ => panic!("the request is expected"),
    }
}

#[test]
fn close_closes_the_tracker_waits_and_drops_the_stack() {
    let (mut task, _python_rx) = task();
    let request = IsolateRequest::AddFn { name: "f".to_string() };
    let function = match step(&mut task, IsolateEvent::Received(Some(request))) {
        IsolateAction::Install { function, .. } => function,
        _ => panic!("the function should be installed"),
    };
    let _ = step(&mut task, IsolateEvent::Installed);
    assert!(!task.state.is_closed());
    let tracker = task.state.tasks.clone();
    assert!(!tracker.is_closed());
    let close = IsolateEvent::Received(Some(IsolateRequest::Close));
    assert!(matches!(step(&mut task, close), IsolateAction::WaitTasks));
    assert!(task.state.is_closed());
    assert!(tracker.is_closed());
    assert!(!task.is_expected(&IsolateEvent::Received(None)));
    assert!(task.state.stack.upgrade(function).is_some());
    assert!(matches!(step(&mut task, IsolateEvent::TasksWaited), IsolateAction::Stop));
    assert!(task.state.stack.upgrade(function).is_none());
    assert!(matches!(task.phase, IsolatePhase::Stopped));
    assert!(!task.is_expected(&IsolateEvent::Received(None)));
}

#[test]
fn task_that_nobody_can_ask_closes() {
    let (mut task, _python_rx) = task();
    assert!(matches!(
        step(&mut task, IsolateEvent::Received(None)),
        IsolateAction::WaitTasks
    ));
}
