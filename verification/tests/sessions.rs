use veight::error::PyError;
use veight::isolates::isolate::PyIsolate;
use veight::isolates::session::EnterStep;
use veight::isolates::session::PyIsolateSession;
use veight::isolates::PyIsolates;
use veight::transmit::IsolateRequest;
use veight::transmit::PythonRequest;

const REUSED: &str = "could not find isolate. did you reuse the session?";

fn runtime_error<T>(result: Result<T, PyError>) -> String {
    match result {
        Err(PyError::Runtime(message)) => message,
        _ => panic!("a runtime error is expected"),
    }
}

#[test]
fn session_creates_one_isolate() {
    let mut session = PyIsolates::new().isolate_session();
    assert!(matches!(session.__aenter__(), EnterStep::Create { no_python: false }));
    assert_eq!(session.created(Ok(6)).unwrap(), 6);
    assert!(matches!(session.__aenter__(), EnterStep::Entered(6)));
    assert!(matches!(session.__aenter__(), EnterStep::Entered(6)));
    assert_eq!(session.__aexit__().unwrap(), 6);
}

#[test]
fn session_that_is_left_closes_its_isolate() {
    let mut opened = PyIsolates::new().py_create_isolate(false);
    let mut isolate = PyIsolate {
        isolate_tx: opened.creation.isolate_tx,
        python_tx: opened.creation.python_tx,
        state: opened.state,
    };
    let mut session = PyIsolateSession::new();
    let _ = session.created(Ok(isolate.state));
    assert!(session.leave(&mut isolate).is_ok());
    assert!(matches!(opened.isolate_rx.try_recv(), Ok(IsolateRequest::Close)));
    assert!(matches!(opened.python_rx.try_recv(), Ok(PythonRequest::Close)));
    assert_eq!(session, PyIsolateSession { isolate: None, dead: true });
    assert_eq!(runtime_error(session.__aexit__()), REUSED);
}

#[test]
fn session_cannot_be_used_again() {
    let mut session = PyIsolateSession::new();
    let _ = session.created(Ok(6));
    let _ = session.__aexit__();
    match session.__aenter__() {
        EnterStep::Failed(PyError::Runtime(message)) => assert_eq!(message, REUSED),
        _ => panic!("the session should be over"),
    }
    assert_eq!(runtime_error(session.__aexit__()), REUSED);
}

#[test]
fn session_that_was_not_entered_cannot_be_left() {
    let mut session = PyIsolateSession::new();
    assert_eq!(runtime_error(session.__aexit__()), REUSED);
    assert!(matches!(session.__aenter__(), EnterStep::Create { no_python: false }));
}

#[test]
fn session_can_be_entered_after_a_failed_creation() {
    let mut session = PyIsolateSession::new();
    assert_eq!(runtime_error(session.created(Err(PyError::runtime("no engine")))), "no engine");
    assert_eq!(session, PyIsolateSession { isolate: None, dead: false });
    assert!(matches!(session.__aenter__(), EnterStep::Create { no_python: false }));
    assert_eq!(session.created(Ok(2)).unwrap(), 2);
}
