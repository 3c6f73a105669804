//! Isolates: how they are created, asked and closed, and the two tasks that serve them.
use tokio::sync::mpsc::UnboundedReceiver;
use tokio::sync::mpsc::UnboundedSender;
use tokio::sync::oneshot;
use vstd::prelude::*;

use crate::channels::another_python_sender;
use crate::channels::isolate_channel;
use crate::channels::isolate_channel_at;
use crate::channels::isolate_channel_of;
use crate::channels::isolate_sends;
use crate::channels::last_taken;
use crate::channels::offered;
use crate::channels::python_channel;
use crate::channels::python_channel_at;
use crate::channels::python_channel_of;
use crate::channels::python_sends;
use crate::channels::recv_error_text;
use crate::channels::send_to_isolate;
use crate::error::fails_with;
use crate::error::PyError;
use crate::isolates::isolate::failed_on_closed_channel;
use crate::isolates::isolate::PyIsolate;
use crate::isolates::session::PyIsolateSession;
use crate::text::with_reason;
use crate::transmit::IsolateRequest;
use crate::transmit::PythonRequest;

pub mod creation_history;
pub mod function_calls;
pub mod functions;
pub mod isolate;
pub mod isolate_history;
pub mod isolate_laws;
pub mod isolate_task;
pub mod isolate_task_laws;
pub mod python_history;
pub mod python_task;
pub mod python_task_laws;
pub mod session;

verus! {

/// A singleton for V8 Isolates bindings. It gives each isolate the number of its state.
#[derive(Debug, PartialEq, Eq, Structural)]
pub struct PyIsolates {
    /// The number of the state of the next isolate.
    pub next: u64,
}

/// An isolate that is being created, as the one who creates it sees it.
#[derive(Debug)]
pub struct IsolateCreation {
    pub isolate_tx: UnboundedSender<IsolateRequest>,
    pub python_tx: UnboundedSender<PythonRequest>,
    /// Whether there will be nobody to run Python functions.
    pub no_python: bool,
}

/// The parts with which the creation of an isolate starts.
#[derive(Debug)]
pub struct OpenedIsolate {
    /// The number that the state of the isolate is to have.
    pub state: u64,
    pub creation: IsolateCreation,
    /// What the task of the isolate receives from.
    pub isolate_rx: UnboundedReceiver<IsolateRequest>,
    /// How the task of the isolate asks for Python functions.
    pub isolate_python_tx: UnboundedSender<PythonRequest>,
    /// What the Python task receives from, if there is to be one.
    pub python_rx: UnboundedReceiver<PythonRequest>,
}

/// An isolate that was created.
#[derive(Debug)]
pub struct CreatedIsolate {
    pub isolate: PyIsolate,
    /// Whether a task has to be started that runs Python functions.
    pub start_python: bool,
}

/// The isolate that is opened gets the next number, and the one after it another.
pub open spec fn numbers_isolate(
    before: PyIsolates,
    opened: OpenedIsolate,
    after: PyIsolates,
) -> bool {
    &&& opened.state == before.next
    &&& after.next == before.next + 1
}

impl PyIsolates {
    /// Nothing was created yet.
    pub fn new() -> (isolates: PyIsolates)
        ensures
            isolates == (PyIsolates { next: 1 }),
    {
        PyIsolates { next: 1 }
    }

    /// Starts to create an isolate: gives it a number of its own and opens the channels of its
    /// two tasks. The task of the isolate is to be started with that number and its two
    /// handles before it is greeted. Numbers that run out are the only limit.
    pub fn py_create_isolate(&mut self, no_python: bool) -> (opened: OpenedIsolate)
        requires
            old(self).next < u64::MAX,
        ensures
            numbers_isolate(*old(self), opened, *final(self)),
            opened.creation.no_python == no_python,
            isolate_sends(opened.creation.isolate_tx) == Seq::<(IsolateRequest, bool)>::empty(),
            python_sends(opened.creation.python_tx) == Seq::<(PythonRequest, bool)>::empty(),
            python_sends(opened.isolate_python_tx) == Seq::<(PythonRequest, bool)>::empty(),
            isolate_channel_at(opened.isolate_rx) == isolate_channel_of(opened.creation.isolate_tx),
            python_channel_at(opened.python_rx) == python_channel_of(opened.creation.python_tx),
            python_channel_at(opened.python_rx) == python_channel_of(opened.isolate_python_tx),
    {
        let (isolate_tx, isolate_rx) = isolate_channel();
        let (python_tx, python_rx) = python_channel();
        let isolate_python_tx: UnboundedSender<PythonRequest> = another_python_sender(&python_tx);
        let state: u64 = self.next;
        self.next = state + 1;
        OpenedIsolate {
            state,
            creation: IsolateCreation { isolate_tx, python_tx, no_python },
            isolate_rx,
            isolate_python_tx,
            python_rx,
        }
    }

    /// A session, in which one isolate is created and closed again.
    pub fn isolate_session(&self) -> (session: PyIsolateSession)
        ensures
            session == (PyIsolateSession { isolate: None, dead: false }),
    {
        PyIsolateSession::new()
    }
}

impl IsolateCreation {
    /// Greets the isolate, which is to answer with `reply`.
    pub fn greet(&mut self, reply: oneshot::Sender<u64>) -> (result: Result<(), PyError>)
        ensures
            final(self).no_python == old(self).no_python,
            final(self).python_tx == old(self).python_tx,
            isolate_channel_of(final(self).isolate_tx) == isolate_channel_of(old(self).isolate_tx),
            offered(
                isolate_sends(old(self).isolate_tx),
                isolate_sends(final(self).isolate_tx),
                IsolateRequest::Hello { reply },
            ),
            if last_taken(isolate_sends(final(self).isolate_tx)) {
                result is Ok
            } else {
                fails_with(
                    result,
                    failed_on_closed_channel("failed to send initial handshake, reason: "@),
                )
            },
    {
        match send_to_isolate(&mut self.isolate_tx, IsolateRequest::Hello { reply }) {
            Ok(()) => Ok(()),
            Err(refused) => Err(
                PyError::Runtime(
                    with_reason("failed to send initial handshake, reason: ", refused.reason.as_str()),
                ),
            ),
        }
    }

    /// The isolate, once it answered with the number of its state.
    pub fn greeted(self, received: Result<u64, oneshot::error::RecvError>) -> (result: Result<
        CreatedIsolate,
        PyError,
    >)
        ensures
            match received {
                Ok(state) => result == Ok::<CreatedIsolate, PyError>(
                    CreatedIsolate {
                        isolate: PyIsolate {
                            isolate_tx: self.isolate_tx,
                            python_tx: self.python_tx,
                            state,
                        },
                        start_python: !self.no_python,
                    },
                ),
                Err(_) => fails_with(
                    result,
                    failed_on_closed_channel(
                        "failed to read initial handshake response, reason: "@,
                    ),
                ),
            },
    {
        match received {
            Ok(state) => Ok(
                CreatedIsolate {
                    isolate: PyIsolate {
                        isolate_tx: self.isolate_tx,
                        python_tx: self.python_tx,
                        state,
                    },
                    start_python: !self.no_python,
                },
            ),
            Err(error) => Err(
                PyError::Runtime(
                    with_reason(
                        "failed to read initial handshake response, reason: ",
                        recv_error_text(&error).as_str(),
                    ),
                ),
            ),
        }
    }
}

} // verus!
