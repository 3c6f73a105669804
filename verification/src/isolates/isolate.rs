//! One isolate, as Python sees it.
use tokio::sync::mpsc::UnboundedSender;
use tokio::sync::oneshot;
use vstd::prelude::*;

use crate::bridging::value::PyValue;
use crate::channels::another_isolate_sender;
use crate::channels::channel_closed;
use crate::channels::isolate_channel_of;
use crate::channels::isolate_sends;
use crate::channels::last_taken;
use crate::channels::offered;
use crate::channels::python_channel_of;
use crate::channels::python_sends;
use crate::channels::recv_error_text;
use crate::channels::send_to_isolate;
use crate::channels::send_to_python;
use crate::error::fails_with;
use crate::error::PyError;
use crate::error::PyErrorView;
use crate::text::with_reason;
use crate::transmit::IsolateRequest;
use crate::transmit::IsolateRunResult;
use crate::transmit::IsolateState;
use crate::transmit::ObscuredGlobal;
use crate::transmit::PythonRequest;

verus! {

/// A value to create in the engine.
#[derive(Debug)]
pub enum PyIsolateCreateValue {
    String(String),
    /// A number, by the bits of a double.
    Number(u64),
    Undefined,
    Null,
}

/// `make` can be asked for `cv`, and then does not decline it.
pub open spec fn never_declines<F: FnOnce(PyIsolateCreateValue) -> Option<ObscuredGlobal>>(
    make: F,
    cv: PyIsolateCreateValue,
) -> bool {
    &&& make.requires((cv,))
    &&& forall|made: Option<ObscuredGlobal>| #[trigger] make.ensures((cv,), made) ==> made is Some
}

/// `result` holds, for the isolate with the given state, the value that `make` made of `cv`.
pub open spec fn creates<F: FnOnce(PyIsolateCreateValue) -> Option<ObscuredGlobal>>(
    make: F,
    cv: PyIsolateCreateValue,
    state: u64,
    result: Result<PyValue, PyError>,
) -> bool {
    result matches Ok(py_value) && py_value.state == state && py_value.data is Some
        && make.ensures((cv,), py_value.data)
}

/// One isolate, as Python sees it: the ways to its two tasks, and the number of its state.
#[derive(Debug)]
pub struct PyIsolate {
    pub isolate_tx: UnboundedSender<IsolateRequest>,
    pub python_tx: UnboundedSender<PythonRequest>,
    pub state: u64,
}

/// The error of a request to an isolate that was closed.
pub open spec fn isolate_is_closed() -> PyErrorView {
    PyErrorView::Runtime("isolate is closed"@)
}

/// The error of a call that failed because a channel was closed.
pub open spec fn failed_on_closed_channel(message: Seq<char>) -> PyErrorView {
    PyErrorView::Runtime(message + channel_closed())
}

/// What is added to the error when a handler could not be registered.
pub open spec fn no_python_hint() -> Seq<char> {
    "\nit is also possible that python-side handling is disabled with `no_python=True` during the creation of this isolate"@
}

/// Before and after stand for the same isolate.
pub open spec fn same_isolate(before: PyIsolate, after: PyIsolate) -> bool {
    &&& after.state == before.state
    &&& isolate_channel_of(after.isolate_tx) == isolate_channel_of(before.isolate_tx)
    &&& python_channel_of(after.python_tx) == python_channel_of(before.python_tx)
}

/// What adding a function to an isolate that is not closed does: the isolate is handed the
/// name, and if its channel takes that, the Python side is handed the name and the function.
/// The result tells which of the two channels was closed, if one was.
pub open spec fn adds_function(
    before: PyIsolate,
    after: PyIsolate,
    name: String,
    func: u64,
    result: Result<(), PyError>,
) -> bool {
    let isolate_sent = isolate_sends(after.isolate_tx);
    let python_sent = python_sends(after.python_tx);
    &&& same_isolate(before, after)
    &&& offered(isolate_sends(before.isolate_tx), isolate_sent, IsolateRequest::AddFn { name })
    &&& if last_taken(isolate_sent) {
        &&& offered(
            python_sends(before.python_tx),
            python_sent,
            PythonRequest::AddFn { name, handler: func },
        )
        &&& if last_taken(python_sent) {
            result is Ok
        } else {
            fails_with(
                result,
                PyErrorView::Runtime(
                    "failed to send python add function handler request, reason: "@
                        + channel_closed() + no_python_hint(),
                ),
            )
        }
    } else {
        &&& after.python_tx == before.python_tx
        &&& fails_with(
            result,
            failed_on_closed_channel("failed to send isolate add function request, reason: "@),
        )
    }
}

impl PyIsolate {
    /// Creates a value in the engine. `make` asks the engine for it. Only a string may be
    /// declined, and then the creation fails.
    pub fn create_value<F: FnOnce(PyIsolateCreateValue) -> Option<ObscuredGlobal>>(
        &self,
        cv: PyIsolateCreateValue,
        make: F,
    ) -> (result: Result<ObscuredGlobal, PyError>)
        requires
            make.requires((cv,)),
            cv is String || never_declines(make, cv),
        ensures
            result matches Ok(value) ==> make.ensures((cv,), Some(value)),
            result is Err ==> cv is String && make.ensures((cv,), None) && fails_with(
                result,
                PyErrorView::Runtime("failed to create string"@),
            ),
    {
        match make(cv) {
            Some(value) => Ok(value),
            None => Err(PyError::runtime("failed to create string")),
        }
    }

    /// Fails if the isolate was closed.
    pub fn check_closed(&self, state: &IsolateState) -> (result: Result<(), PyError>)
        requires
            state.id == self.state,
        ensures
            if state.closed {
                fails_with(result, isolate_is_closed())
            } else {
                result is Ok
            },
    {
        if state.is_closed() {
            Err(PyError::runtime("isolate is closed"))
        } else {
            Ok(())
        }
    }

    /// Adds the Python function `func` under a name: the isolate is told the name, and then
    /// the Python side the name and the function.
    pub fn py_add_fn(&mut self, state: &IsolateState, name: String, func: u64) -> (result: Result<
        (),
        PyError,
    >)
        requires
            state.id == old(self).state,
        ensures
            if state.closed {
                *final(self) == *old(self) && fails_with(result, isolate_is_closed())
            } else {
                adds_function(*old(self), *final(self), name, func, result)
            },
    {
        match self.check_closed(state) {
            Ok(()) => {},
            Err(error) => {
                return Err(error);
            },
        }
        match send_to_isolate(&mut self.isolate_tx, IsolateRequest::AddFn { name: name.clone() }) {
            Ok(()) => {},
            Err(refused) => {
                return Err(
                    PyError::Runtime(
                        with_reason(
                            "failed to send isolate add function request, reason: ",
                            refused.reason.as_str(),
                        ),
                    ),
                );
            },
        }
        match send_to_python(&mut self.python_tx, PythonRequest::AddFn { name, handler: func }) {
            Ok(()) => Ok(()),
            Err(refused) => {
                let message: String = with_reason(
                    "failed to send python add function handler request, reason: ",
                    refused.reason.as_str(),
                );
                Err(
                    PyError::Runtime(
                        with_reason(
                            message.as_str(),
                            "\nit is also possible that python-side handling is disabled with `no_python=True` during the creation of this isolate",
                        ),
                    ),
                )
            },
        }
    }

    /// Starts to run a script. Fails at once if the isolate was closed.
    pub fn py_run(&self, state: &IsolateState, source: String) -> (result: Result<RunCall, PyError>)
        requires
            state.id == self.state,
        ensures
            if state.closed {
                fails_with(result, isolate_is_closed())
            } else {
                &&& result matches Ok(call)
                &&& call.source == source
                &&& isolate_channel_of(call.isolate_tx) == isolate_channel_of(self.isolate_tx)
                &&& isolate_sends(call.isolate_tx) == Seq::<(IsolateRequest, bool)>::empty()
            },
    {
        match self.check_closed(state) {
            Ok(()) => Ok(RunCall { isolate_tx: another_isolate_sender(&self.isolate_tx), source }),
            Err(error) => Err(error),
        }
    }

    /// Asks both tasks to stop. A task that is already gone is not asked any more.
    pub fn close(&mut self)
        ensures
            same_isolate(*old(self), *final(self)),
            offered(
                python_sends(old(self).python_tx),
                python_sends(final(self).python_tx),
                PythonRequest::Close,
            ),
            offered(
                isolate_sends(old(self).isolate_tx),
                isolate_sends(final(self).isolate_tx),
                IsolateRequest::Close,
            ),
    {
        let _ = send_to_python(&mut self.python_tx, PythonRequest::Close);
        let _ = send_to_isolate(&mut self.isolate_tx, IsolateRequest::Close);
    }
}

/// A script on its way to the isolate.
#[derive(Debug)]
pub struct RunCall {
    pub isolate_tx: UnboundedSender<IsolateRequest>,
    pub source: String,
}

/// What the caller of a script does with the isolate's answer.
#[derive(Debug)]
pub enum RunStep {
    /// The script is over, with this result.
    Done(Result<PyValue, PyError>),
    /// The script returned a promise: its value is to be waited for, while what the isolate
    /// keeps under `data` is kept.
    AwaitPromise { data: u64, receiver: oneshot::Receiver<PyValue> },
}

impl RunCall {
    /// Hands the script to the isolate, which is to answer with `reply`.
    pub fn send(&mut self, reply: oneshot::Sender<IsolateRunResult>) -> (result: Result<
        (),
        PyError,
    >)
        ensures
            final(self).source@ == Seq::<char>::empty(),
            isolate_channel_of(final(self).isolate_tx) == isolate_channel_of(old(self).isolate_tx),
            offered(
                isolate_sends(old(self).isolate_tx),
                isolate_sends(final(self).isolate_tx),
                IsolateRequest::Run { source: old(self).source, reply },
            ),
            if last_taken(isolate_sends(final(self).isolate_tx)) {
                result is Ok
            } else {
                fails_with(
                    result,
                    failed_on_closed_channel("failed to send isolate run request, reason: "@),
                )
            },
    {
        let mut source: String = String::new();
        core::mem::swap(&mut self.source, &mut source);
        match send_to_isolate(&mut self.isolate_tx, IsolateRequest::Run { source, reply }) {
            Ok(()) => Ok(()),
            Err(refused) => Err(
                PyError::Runtime(
                    with_reason(
                        "failed to send isolate run request, reason: ",
                        refused.reason.as_str(),
                    ),
                ),
            ),
        }
    }

    /// What to do with the isolate's answer, or with the error that there will be none.
    pub fn replied(received: Result<IsolateRunResult, oneshot::error::RecvError>) -> (step: RunStep)
        ensures
            match received {
                Ok(IsolateRunResult::Value(value)) => step == RunStep::Done(Ok(value)),
                Ok(IsolateRunResult::Promise { data, receiver }) => step == (
                RunStep::AwaitPromise { data, receiver }),
                Ok(IsolateRunResult::Error(error)) => step == RunStep::Done(Err(error)),
                Err(_) => step matches RunStep::Done(result) && fails_with(
                    result,
                    failed_on_closed_channel("failed to receive isolate run response, reason: "@),
                ),
            },
    {
        match received {
            Ok(IsolateRunResult::Value(value)) => RunStep::Done(Ok(value)),
            Ok(IsolateRunResult::Promise { data, receiver }) => RunStep::AwaitPromise {
                data,
                receiver,
            },
            Ok(IsolateRunResult::Error(error)) => RunStep::Done(Err(error)),
            Err(error) => RunStep::Done(
                Err(
                    PyError::Runtime(
                        with_reason(
                            "failed to receive isolate run response, reason: ",
                            recv_error_text(&error).as_str(),
                        ),
                    ),
                ),
            ),
        }
    }

    /// The result of a script whose promise was waited for.
    pub fn settled(received: Result<PyValue, oneshot::error::RecvError>) -> (result: Result<
        PyValue,
        PyError,
    >)
        ensures
            match received {
                Ok(value) => result == Ok::<PyValue, PyError>(value),
                Err(_) => fails_with(
                    result,
                    failed_on_closed_channel(
                        "failed to receive future result from js isolate, reason: "@,
                    ),
                ),
            },
    {
        match received {
            Ok(value) => Ok(value),
            Err(error) => Err(
                PyError::Runtime(
                    with_reason(
                        "failed to receive future result from js isolate, reason: ",
                        recv_error_text(&error).as_str(),
                    ),
                ),
            ),
        }
    }
}

} // verus!
