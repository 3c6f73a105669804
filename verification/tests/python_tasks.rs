use tokio::sync::oneshot;
use veight::bridging::value::PyValue;
use veight::isolates::functions::PythonFunctions;
use veight::isolates::isolate::PyIsolateCreateValue;
use veight::isolates::python_task::HandlerReturn;
use veight::isolates::python_task::PythonAction;
use veight::isolates::python_task::PythonEvent;
use veight::isolates::python_task::PythonTask;
use veight::transmit::ObscuredGlobal;
use veight::transmit::PythonRequest;

fn step(task: &mut PythonTask, event: PythonEvent) -> PythonAction {
    assert!(task.is_expected(&event));
    task.step(event)
}

fn add(task: &mut PythonTask, name: &str, handler: u64) {
    let request = PythonRequest::AddFn { name: name.to_string(), handler };
    assert!(matches!(
        step(task, PythonEvent::Received(Some(request))),
        PythonAction::Receive
    ));
}

fn ask(
    task: &mut PythonTask,
    name: &str,
    argument: usize,
) -> (PythonAction, oneshot::Receiver<ObscuredGlobal>) {
    let (reply, receive) = oneshot::channel();
    let args = PyValue::new(2, ObscuredGlobal::new(argument));
    let request = PythonRequest::RunFn { name: name.to_string(), args, reply };
    (step(task, PythonEvent::Received(Some(request))), receive)
}

fn value(address: usize) -> PyValue {
    PyValue::new(2, ObscuredGlobal::new(address))
}

#[test]
fn functions_are_found_by_their_names() {
    let mut functions = PythonFunctions::new();
    assert_eq!(functions.get("a"), None);
    assert_eq!(functions.insert("a".to_string(), 1), None);
    assert_eq!(functions.insert("b".to_string(), 2), None);
    assert_eq!(functions.insert("a".to_string(), 3), Some(1));
    assert_eq!(functions.get("a"), Some(3));
    assert_eq!(functions.get("b"), Some(2));
    assert_eq!(functions.get("c"), None);
}

#[test]
fn added_function_is_called_with_its_argument() {
    let mut task = PythonTask::new();
    add(&mut task, "hello", 11);
    let (action, receive) = ask(&mut task, "hello", 6);
    match action {
        PythonAction::Call { handler, argument } => {
            assert_eq!((handler, argument.state, argument.data.unwrap().take()), (11, 2, 6))
        }
        _ => panic!("the function should be called"),
    }
    match step(&mut task, PythonEvent::Returned(HandlerReturn::Value(value(7)))) {
        PythonAction::Answer { reply, value } => reply.send(value).unwrap(),
        _ => panic!("an answer is expected"),
    }
    assert_eq!(receive.blocking_recv().unwrap().take(), 7);
    assert!(matches!(step(&mut task, PythonEvent::Answered), PythonAction::Receive));
}

#[test]
fn returned_string_becomes_a_value() {
    let mut task = PythonTask::new();
    add(&mut task, "hello", 11);
    let (_action, receive) = ask(&mut task, "hello", 6);
    match step(&mut task, PythonEvent::Returned(HandlerReturn::Text("hi".to_string()))) {
        PythonAction::Create { cv: PyIsolateCreateValue::String(text) } => assert_eq!(text, "hi"),
        _ => panic!("a string should be made"),
    }
    match step(&mut task, PythonEvent::Created(Some(ObscuredGlobal::new(90)))) {
        PythonAction::Answer { reply, value } => reply.send(value).unwrap(),
        _ => panic!("an answer is expected"),
    }
    assert_eq!(receive.blocking_recv().unwrap().take(), 90);
}

#[test]
fn last_added_function_counts() {
    let mut task = PythonTask::new();
    add(&mut task, "f", 1);
    add(&mut task, "g", 2);
    let request = PythonRequest::AddFn { name: "f".to_string(), handler: 3 };
    assert!(matches!(
        step(&mut task, PythonEvent::Received(Some(request))),
        PythonAction::Forget { handler: 1 }
    ));
    assert!(!task.is_expected(&PythonEvent::Received(None)));
    assert!(matches!(step(&mut task, PythonEvent::Forgotten), PythonAction::Receive));
    let (action, _receive) = ask(&mut task, "f", 1);
    assert!(matches!(action, PythonAction::Call { handler: 3, .. }));
}

#[test]
fn declined_string_is_not_answered() {
    let mut task = PythonTask::new();
    add(&mut task, "hello", 11);
    let (_action, receive) = ask(&mut task, "hello", 6);
    let _ = step(&mut task, PythonEvent::Returned(HandlerReturn::Text("hi".to_string())));
    match step(&mut task, PythonEvent::Created(None)) {
        PythonAction::Discard { reply, argument: None } => drop(reply),
        _ => panic!("the request should be given up"),
    }
    assert!(receive.blocking_recv().is_err());
    assert!(matches!(step(&mut task, PythonEvent::Discarded), PythonAction::Receive));
}

#[test]
fn unknown_function_is_not_answered() {
    let mut task = PythonTask::new();
    add(&mut task, "f", 1);
    let (action, receive) = ask(&mut task, "g", 5);
    match action {
        PythonAction::Discard { reply, argument } => {
            assert_eq!(argument.unwrap().data.unwrap().take(), 5);
            drop(reply);
        }
        _ => panic!("the request should be given up"),
    }
    assert!(receive.blocking_recv().is_err());
    assert!(matches!(step(&mut task, PythonEvent::Discarded), PythonAction::Receive));
}

#[test]
fn released_value_is_no_return_value() {
    let mut task = PythonTask::new();
    add(&mut task, "f", 1);
    let (_action, _receive) = ask(&mut task, "f", 5);
    let mut gone = value(5);
    let _ = gone.release();
    assert!(!task.is_expected(&PythonEvent::Returned(HandlerReturn::Value(gone))));
    assert!(!task.is_expected(&PythonEvent::Received(None)));
}

#[test]
fn close_stops_the_task() {
    let mut task = PythonTask::new();
    add(&mut task, "f", 1);
    let close = PythonEvent::Received(Some(PythonRequest::Close));
    assert!(matches!(step(&mut task, close), PythonAction::Stop));
    assert_eq!(task.functions.get("f"), None);
    assert!(!task.is_expected(&PythonEvent::Received(None)));
}

#[test]
fn task_that_nobody_can_ask_stops() {
    let mut task = PythonTask::new();
    assert!(matches!(
        step(&mut task, PythonEvent::Received(None)),
        PythonAction::Stop
    ));
}
