use tokio::sync::oneshot;
use veight::bridging::value::ValueFacts;
use veight::isolates::isolate::PyIsolateCreateValue;
use veight::isolates::isolate::RunCall;
use veight::isolates::isolate::RunStep;
use veight::isolates::isolate_task::IsolateAction;
use veight::isolates::isolate_task::IsolateEvent;
use veight::isolates::isolate_task::IsolateTask;
use veight::isolates::isolate_task::ScriptValue;
use veight::isolates::python_task::HandlerReturn;
use veight::isolates::python_task::PythonAction;
use veight::isolates::python_task::PythonEvent;
use veight::isolates::python_task::PythonTask;
use veight::isolates::PyIsolates;
use veight::transmit::ObscuredGlobal;
use veight::transmit::PromiseReply;

const STRING: ValueFacts = ValueFacts {
    int32: false,
    uint32: false,
    number: false,
    big_int: false,
    boolean: false,
    string: true,
    undefined: false,
    null: false,
};

/// A script awaits the Python function `hello`, which returns the text of its argument.
#[test]
fn script_awaits_a_python_function() {
    let opened = PyIsolates::new().py_create_isolate(false);
    let mut creation = opened.creation;
    let mut isolate_rx = opened.isolate_rx;
    let mut python_rx = opened.python_rx;
    let mut js = IsolateTask::new(opened.state, opened.isolate_python_tx);
    let mut py = PythonTask::new();

    let (reply, receive) = oneshot::channel();
    creation.greet(reply).unwrap();
    match js.step(IsolateEvent::Received(isolate_rx.try_recv().ok())) {
        IsolateAction::Greet { reply, state } => reply.send(state).unwrap(),
        _ => panic!("a greeting is expected"),
    }
    let _ = js.step(IsolateEvent::Greeted);
    let mut isolate = creation.greeted(receive.blocking_recv()).unwrap().isolate;

    isolate.py_add_fn(&js.state, "hello".to_string(), 70).unwrap();
    let hello = match js.step(IsolateEvent::Received(isolate_rx.try_recv().ok())) {
        IsolateAction::Install { name, function } => {
            assert_eq!(name, "hello");
            function
        }
        _ => panic!("the function should be installed"),
    };
    let _ = js.step(IsolateEvent::Installed);
    let _ = py.step(PythonEvent::Received(python_rx.try_recv().ok()));

    let mut call = isolate.py_run(&js.state, "hello(\"world\")".to_string()).unwrap();
    let (reply, receive) = oneshot::channel();
    call.send(reply).unwrap();
    let _ = js.step(IsolateEvent::Received(isolate_rx.try_recv().ok()));
    let _ = js.step(IsolateEvent::Compiled(Ok(())));

    // The script calls the function with a string at address 100.
    let (function_reply, function_receive) = oneshot::channel();
    assert!(js.state.request_function(hello, ObscuredGlobal::new(100), function_reply).is_ok());
    let promise = ScriptValue { global: ObscuredGlobal::new(101), promise: true };
    let _ = js.step(IsolateEvent::Ran(Ok(promise)));
    let (sender, receiver) = oneshot::channel();
    let mut kept = PromiseReply::new(js.state.id, sender);
    match js.step(IsolateEvent::Attached { data: 1, receiver }) {
        IsolateAction::Answer { reply, result } => reply.send(result).unwrap(),
        _ => panic!("an answer is expected"),
    }
    let _ = js.step(IsolateEvent::Answered);
    let _ = js.step(IsolateEvent::Checkpointed);

    let mut argument = match py.step(PythonEvent::Received(python_rx.try_recv().ok())) {
        PythonAction::Call { handler, argument } => {
            assert_eq!(handler, 70);
            argument
        }
        _ => panic!("the function should be called"),
    };
    let text = argument
        .to_str(
            |_| STRING,
            |address: usize| format!("world at {}", address),
            |global: ObscuredGlobal| assert_eq!(global.take(), 100),
        )
        .unwrap();
    match py.step(PythonEvent::Returned(HandlerReturn::Text(text))) {
        PythonAction::Create { cv: PyIsolateCreateValue::String(text) } => {
            assert_eq!(text, "world at 100")
        }
        _ => panic!("a string should be made"),
    }
    match py.step(PythonEvent::Created(Some(ObscuredGlobal::new(102)))) {
        PythonAction::Answer { reply, value } => reply.send(value).unwrap(),
        _ => panic!("an answer is expected"),
    }
    assert_eq!(function_receive.blocking_recv().unwrap().take(), 102);

    // The promise is fulfilled with what the function returned.
    let (sender, value) = kept.fulfil(ObscuredGlobal::new(102));
    sender.send(value).unwrap();
    let receiver = match RunCall::replied(receive.blocking_recv()) {
        RunStep::AwaitPromise { receiver, .. } => receiver,
        _ => panic!("the promise is expected"),
    };
    let result = RunCall::settled(receiver.blocking_recv()).unwrap();
    assert_eq!((result.state, result.data.unwrap().take()), (1, 102));

    isolate.close();
    assert!(matches!(
        js.step(IsolateEvent::Received(isolate_rx.try_recv().ok())),
        IsolateAction::WaitTasks
    ));
}
