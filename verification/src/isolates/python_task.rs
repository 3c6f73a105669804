//! The task that runs Python functions for an isolate: it receives requests one after the
//! other, has Python carry them out, and answers.
use tokio::sync::oneshot;
use vstd::prelude::*;

use crate::bridging::value::PyValue;
use crate::isolates::functions::found_entry;
use crate::isolates::functions::no_entries;
use crate::isolates::functions::PythonFunctions;
use crate::isolates::isolate::PyIsolateCreateValue;
use crate::transmit::ObscuredGlobal;
use crate::transmit::PythonRequest;

verus! {

/// What a Python function returned.
#[derive(Debug)]
pub enum HandlerReturn {
    /// A value of the engine.
    Value(PyValue),
    /// A Python string.
    Text(String),
}

/// What the task is in the middle of.
#[derive(Debug)]
pub enum PythonPhase {
    /// It waits for a request.
    Idle,
    /// It runs a function, for which `reply` waits.
    Calling { reply: oneshot::Sender<ObscuredGlobal> },
    /// It makes a value of the engine of what a function returned, for which `reply` waits.
    Creating { reply: oneshot::Sender<ObscuredGlobal> },
    /// It answers for a function.
    Answering,
    /// It gives up what came with a request that it cannot carry out.
    Discarding,
    /// It gives up a function that another one took the place of.
    Forgetting,
    /// It is over.
    Stopped,
}

/// What happened outside.
#[derive(Debug)]
pub enum PythonEvent {
    /// A request arrived, or there will be no more.
    Received(Option<PythonRequest>),
    /// The function returned.
    Returned(HandlerReturn),
    /// The value was made, or the engine declined to make it.
    Created(Option<ObscuredGlobal>),
    /// The function was answered for.
    Answered,
    /// What came with the request was given up.
    Discarded,
    /// The function was given up.
    Forgotten,
}

/// What has to be done outside.
#[derive(Debug)]
#[allow(inconsistent_fields)]
pub enum PythonAction {
    /// Wait for a request.
    Receive,
    /// Call a function with one argument, and wait until it is done.
    Call { handler: u64, argument: PyValue },
    /// Make a value of the engine.
    Create { cv: PyIsolateCreateValue },
    /// Answer for a function.
    Answer { reply: oneshot::Sender<ObscuredGlobal>, value: ObscuredGlobal },
    /// Release the argument, unless the function got it, and drop the way to answer without
    /// using it.
    Discard { reply: oneshot::Sender<ObscuredGlobal>, argument: Option<PyValue> },
    /// Give up a function, which is not called any more.
    Forget { handler: u64 },
    /// The task is over: give up every function that is still there.
    Stop,
}

/// The task that runs Python functions for an isolate.
#[derive(Debug)]
pub struct PythonTask {
    pub functions: PythonFunctions,
    pub phase: PythonPhase,
}

impl PythonTask {
    /// Whether an event can happen in the middle of what the task does. A value that a
    /// function returns has to be one that was not released.
    pub open spec fn expects(self, event: PythonEvent) -> bool {
        match self.phase {
            PythonPhase::Idle => event is Received,
            PythonPhase::Calling { .. } => event matches PythonEvent::Returned(returned) && (
            returned matches HandlerReturn::Value(value) ==> value.data is Some),
            PythonPhase::Creating { .. } => event is Created,
            PythonPhase::Answering => event is Answered,
            PythonPhase::Discarding => event is Discarded,
            PythonPhase::Forgetting => event is Forgotten,
            PythonPhase::Stopped => false,
        }
    }
}

/// The functions after an event: one that is added takes the place of the one that had its
/// name, and none is left at the end.
pub open spec fn functions_after(
    functions: Map<Seq<char>, u64>,
    event: PythonEvent,
) -> Map<Seq<char>, u64> {
    match event {
        PythonEvent::Received(Some(PythonRequest::AddFn { name, handler })) => functions.insert(
            name@,
            handler,
        ),
        PythonEvent::Received(Some(PythonRequest::Close)) => no_entries(),
        PythonEvent::Received(None) => no_entries(),
        _ => functions,
    }
}

/// The task `before` turns into `after` on an event, and asks for `action`.
pub open spec fn python_step(
    before: PythonTask,
    event: PythonEvent,
    after: PythonTask,
    action: PythonAction,
) -> bool {
    &&& after.functions@ == functions_after(before.functions@, event)
    &&& match event {
        PythonEvent::Received(Some(PythonRequest::AddFn { name, handler })) => match found_entry(
            before.functions@,
            name@,
        ) {
            Some(replaced) => {
                &&& after.phase is Forgetting
                &&& action == PythonAction::Forget { handler: replaced }
            },
            None => {
                &&& after.phase is Idle
                &&& action is Receive
            },
        },
        PythonEvent::Received(Some(PythonRequest::RunFn { name, args, reply })) => match found_entry(
            before.functions@,
            name@,
        ) {
            Some(handler) => {
                &&& after.phase == PythonPhase::Calling { reply }
                &&& action == PythonAction::Call { handler, argument: args }
            },
            None => {
                &&& after.phase is Discarding
                &&& action == PythonAction::Discard { reply, argument: Some(args) }
            },
        },
        PythonEvent::Received(Some(PythonRequest::Close)) => {
            &&& after.phase is Stopped
            &&& action is Stop
        },
        PythonEvent::Received(None) => {
            &&& after.phase is Stopped
            &&& action is Stop
        },
        PythonEvent::Returned(HandlerReturn::Value(value)) => {
            &&& before.phase matches PythonPhase::Calling { reply }
            &&& value.data matches Some(global)
            &&& after.phase is Answering
            &&& action == PythonAction::Answer { reply, value: global }
        },
        PythonEvent::Returned(HandlerReturn::Text(text)) => {
            &&& before.phase matches PythonPhase::Calling { reply }
            &&& after.phase == PythonPhase::Creating { reply }
            &&& action == PythonAction::Create { cv: PyIsolateCreateValue::String(text) }
        },
        PythonEvent::Created(Some(value)) => {
            &&& before.phase matches PythonPhase::Creating { reply }
            &&& after.phase is Answering
            &&& action == PythonAction::Answer { reply, value }
        },
        PythonEvent::Created(None) => {
            &&& before.phase matches PythonPhase::Creating { reply }
            &&& after.phase is Discarding
            &&& action == PythonAction::Discard { reply, argument: None }
        },
        PythonEvent::Answered => {
            &&& after.phase is Idle
            &&& action is Receive
        },
        PythonEvent::Discarded => {
            &&& after.phase is Idle
            &&& action is Receive
        },
        PythonEvent::Forgotten => {
            &&& after.phase is Idle
            &&& action is Receive
        },
    }
}

impl PythonTask {
    /// The task of a new isolate, which has no functions and waits for its first request.
    pub fn new() -> (task: PythonTask)
        ensures
            task.functions@ == no_entries(),
            task.phase is Idle,
    {
        PythonTask { functions: PythonFunctions::new(), phase: PythonPhase::Idle }
    }

    /// Whether an event can happen in the middle of what the task does.
    pub fn is_expected(&self, event: &PythonEvent) -> (expected: bool)
        ensures
            expected == self.expects(*event),
    {
        match (&self.phase, event) {
            (PythonPhase::Idle, PythonEvent::Received(_)) => true,
            (
                PythonPhase::Calling { .. },
                PythonEvent::Returned(HandlerReturn::Value(value)),
            ) => value.data.is_some(),
            (PythonPhase::Calling { .. }, PythonEvent::Returned(HandlerReturn::Text(_))) => true,
            (PythonPhase::Creating { .. }, PythonEvent::Created(_)) => true,
            (PythonPhase::Answering, PythonEvent::Answered) => true,
            (PythonPhase::Discarding, PythonEvent::Discarded) => true,
            (PythonPhase::Forgetting, PythonEvent::Forgotten) => true,
            _ => false,
        }
    }

    /// Goes on with what happened outside, up to the next thing that has to be done there.
    pub fn step(&mut self, event: PythonEvent) -> (action: PythonAction)
        requires
            old(self).expects(event),
        ensures
            python_step(*old(self), event, *final(self), action),
    {
        let mut phase: PythonPhase = PythonPhase::Idle;
        core::mem::swap(&mut self.phase, &mut phase);
        match (phase, event) {
            (
                _,
                PythonEvent::Received(Some(PythonRequest::AddFn { name, handler })),
            ) => {
                match self.functions.insert(name, handler) {
                    Some(replaced) => {
                        self.phase = PythonPhase::Forgetting;
                        PythonAction::Forget { handler: replaced }
                    },
                    None => PythonAction::Receive,
                }
            },
            (
                _,
                PythonEvent::Received(Some(PythonRequest::RunFn { name, args, reply })),
            ) => {
                match self.functions.get(name.as_str()) {
                    Some(handler) => {
                        self.phase = PythonPhase::Calling { reply };
                        PythonAction::Call { handler, argument: args }
                    },
                    None => {
                        self.phase = PythonPhase::Discarding;
                        PythonAction::Discard { reply, argument: Some(args) }
                    },
                }
            },
            (_, PythonEvent::Received(Some(PythonRequest::Close))) => self.stop(),
            (_, PythonEvent::Received(None)) => self.stop(),
            (
                PythonPhase::Calling { reply },
                PythonEvent::Returned(HandlerReturn::Value(mut value)),
            ) => {
                self.phase = PythonPhase::Answering;
                PythonAction::Answer { reply, value: value.data.take().unwrap() }
            },
            (
                PythonPhase::Calling { reply },
                PythonEvent::Returned(HandlerReturn::Text(text)),
            ) => {
                self.phase = PythonPhase::Creating { reply };
                PythonAction::Create { cv: PyIsolateCreateValue::String(text) }
            },
            (PythonPhase::Creating { reply }, PythonEvent::Created(Some(value))) => {
                self.phase = PythonPhase::Answering;
                PythonAction::Answer { reply, value }
            },
            (PythonPhase::Creating { reply }, PythonEvent::Created(None)) => {
                self.phase = PythonPhase::Discarding;
                PythonAction::Discard { reply, argument: None }
            },
            _ => PythonAction::Receive,
        }
    }

    /// Ends the task, which has no functions from then on.
    fn stop(&mut self) -> (action: PythonAction)
        ensures
            final(self).functions@ == no_entries(),
            final(self).phase is Stopped,
            action is Stop,
    {
        self.functions = PythonFunctions::new();
        self.phase = PythonPhase::Stopped;
        PythonAction::Stop
    }
}

} // verus!
