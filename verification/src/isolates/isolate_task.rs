//! The task that runs an isolate: it receives requests one after the other, has the engine
//! carry them out, and answers.
use tokio::sync::mpsc::UnboundedSender;
use tokio::sync::oneshot;
use vstd::prelude::*;

use crate::bridging::exception::JsError;
use crate::bridging::exception::JsException;
use crate::bridging::value::PyValue;
use crate::error::PyErrorView;
use crate::stack::ArcStackItem;
use crate::stack::Place;
use crate::stack::WeakItem;
use crate::transmit::begins_to_close;
use crate::transmit::finishes;
use crate::transmit::tracker_closes;
use crate::transmit::CloseAction;
use crate::transmit::CloseEvent;
use crate::transmit::IsolateRequest;
use crate::transmit::IsolateRunResult;
use crate::transmit::IsolateState;
use crate::transmit::ObscuredGlobal;
use crate::transmit::PythonRequest;

verus! {

/// What a script came to that ran to its end.
#[derive(Debug)]
pub struct ScriptValue {
    pub global: ObscuredGlobal,
    /// Whether the value is a promise.
    pub promise: bool,
}

/// What the task is in the middle of.
#[derive(Debug)]
pub enum IsolatePhase {
    /// It waits for a request.
    Idle,
    /// It answers a greeting.
    Greeting,
    /// It compiles a script, for which `reply` waits.
    Compiling { reply: oneshot::Sender<IsolateRunResult> },
    /// It runs a script, for which `reply` waits.
    Running { reply: oneshot::Sender<IsolateRunResult> },
    /// It asks to be told the value of the promise that a script returned, for which `reply`
    /// waits.
    Attaching { reply: oneshot::Sender<IsolateRunResult> },
    /// It answers for a script, after which the microtasks are run or not.
    Answering { checkpoint: bool },
    /// It runs the microtasks.
    Checkpointing,
    /// It installs a function.
    Installing,
    /// It waits for the tasks of the isolate, to close it.
    WaitingTasks,
    /// It is over.
    Stopped,
}

/// What happened outside.
#[derive(Debug)]
pub enum IsolateEvent {
    /// A request arrived, or there will be no more.
    Received(Option<IsolateRequest>),
    /// A greeting was answered.
    Greeted,
    /// The script was compiled, or that threw.
    Compiled(Result<(), JsException>),
    /// The script ran to its end, or threw.
    Ran(Result<ScriptValue, JsException>),
    /// The value of the promise will be told to `receiver`; what is needed for it is kept
    /// under the number `data`.
    Attached { data: u64, receiver: oneshot::Receiver<PyValue> },
    /// A script was answered for.
    Answered,
    /// The microtasks were run.
    Checkpointed,
    /// The function was installed.
    Installed,
    /// The tasks of the isolate were waited for.
    TasksWaited,
}

/// What has to be done outside.
#[derive(Debug)]
#[allow(inconsistent_fields)]
pub enum IsolateAction {
    /// Wait for a request.
    Receive,
    /// Answer a greeting with the number of the state.
    Greet { reply: oneshot::Sender<u64>, state: u64 },
    /// Compile a script.
    Compile { source: String },
    /// Run the script that was compiled.
    Run,
    /// Have the value of a promise told to a receiver.
    Attach { promise: ObscuredGlobal },
    /// Answer for a script.
    Answer { reply: oneshot::Sender<IsolateRunResult>, result: IsolateRunResult },
    /// Run the microtasks.
    Checkpoint,
    /// Install a function under a name. A call of it asks for the item that `function`
    /// refers to.
    Install { name: String, function: WeakItem },
    /// Wait for the tasks of the isolate.
    WaitTasks,
    /// Nothing: the task is over.
    Stop,
}

/// The task that runs an isolate.
#[derive(Debug)]
pub struct IsolateTask {
    pub state: IsolateState,
    pub phase: IsolatePhase,
}

impl IsolateTask {
    /// Whether an event can happen in the middle of what the task does.
    pub open spec fn expects(self, event: IsolateEvent) -> bool {
        match self.phase {
            IsolatePhase::Idle => event is Received,
            IsolatePhase::Greeting => event is Greeted,
            IsolatePhase::Compiling { .. } => event is Compiled,
            IsolatePhase::Running { .. } => event is Ran,
            IsolatePhase::Attaching { .. } => event is Attached,
            IsolatePhase::Answering { .. } => event is Answered,
            IsolatePhase::Checkpointing => event is Checkpointed,
            IsolatePhase::Installing => event is Installed,
            IsolatePhase::WaitingTasks => event is TasksWaited,
            IsolatePhase::Stopped => false,
        }
    }

    /// The same task in the middle of something else.
    pub open spec fn turned_to(self, phase: IsolatePhase) -> IsolateTask {
        IsolateTask { state: self.state, phase }
    }

    /// `after` is the same task, that has begun to close its isolate.
    pub open spec fn turns_to_closing(self, after: IsolateTask) -> bool {
        &&& begins_to_close(self.state, after.state)
        &&& after.phase == IsolatePhase::WaitingTasks
    }
}

/// `action` answers to `reply` that the script threw `exception`.
pub open spec fn answers_exception(
    action: IsolateAction,
    reply: oneshot::Sender<IsolateRunResult>,
    exception: JsException,
) -> bool {
    &&& action matches IsolateAction::Answer { reply: to, result }
    &&& to == reply
    &&& result matches IsolateRunResult::Error(error)
    &&& error@ == PyErrorView::Js(exception.report())
}

/// `after` is the stack `before` with one more item, for the function `name` of the isolate
/// with the given state.
pub open spec fn pushes_function(
    before: Seq<Place>,
    after: Seq<Place>,
    state: u64,
    name: Seq<char>,
) -> bool {
    &&& after == before.push(after.last())
    &&& after.last() matches Place::Held { item, stacked: true, shares: 0 } && item.owner() == state
        && item.text() == name
}

/// The task `before` turns into `after` on an event, and asks for `action`.
pub open spec fn isolate_step(
    before: IsolateTask,
    event: IsolateEvent,
    after: IsolateTask,
    action: IsolateAction,
) -> bool {
    match event {
        IsolateEvent::Received(None) => before.turns_to_closing(after) && action
            == IsolateAction::WaitTasks,
        IsolateEvent::Received(Some(IsolateRequest::Close)) => before.turns_to_closing(after)
            && action == IsolateAction::WaitTasks,
        IsolateEvent::Received(Some(IsolateRequest::Hello { reply })) => {
            &&& after == before.turned_to(IsolatePhase::Greeting)
            &&& action == IsolateAction::Greet { reply, state: before.state.id }
        },
        IsolateEvent::Received(Some(IsolateRequest::Run { source, reply })) => {
            &&& after == before.turned_to(IsolatePhase::Compiling { reply })
            &&& action == IsolateAction::Compile { source }
        },
        IsolateEvent::Received(Some(IsolateRequest::AddFn { name })) => {
            &&& after.phase == IsolatePhase::Installing
            &&& after.state == IsolateState { stack: after.state.stack, ..before.state }
            &&& pushes_function(
                before.state.stack@,
                after.state.stack@,
                before.state.id,
                name@,
            )
            &&& action matches IsolateAction::Install { name: under, function } && under == name
                && function.slot == before.state.stack@.len()
        },
        IsolateEvent::Compiled(Ok(())) => {
            &&& before.phase matches IsolatePhase::Compiling { reply } && after == before.turned_to(
                IsolatePhase::Running { reply },
            )
            &&& action == IsolateAction::Run
        },
        IsolateEvent::Compiled(Err(exception)) => {
            &&& before.phase matches IsolatePhase::Compiling { reply } && answers_exception(
                action,
                reply,
                exception,
            )
            &&& after == before.turned_to(IsolatePhase::Answering { checkpoint: false })
        },
        IsolateEvent::Ran(Ok(value)) => {
            &&& before.phase matches IsolatePhase::Running { reply } && if value.promise {
                &&& after == before.turned_to(IsolatePhase::Attaching { reply })
                &&& action == IsolateAction::Attach { promise: value.global }
            } else {
                &&& after == before.turned_to(IsolatePhase::Answering { checkpoint: true })
                &&& action == IsolateAction::Answer {
                    reply,
                    result: IsolateRunResult::Value(
                        PyValue { state: before.state.id, data: Some(value.global) },
                    ),
                }
            }
        },
        IsolateEvent::Ran(Err(exception)) => {
            &&& before.phase matches IsolatePhase::Running { reply } && answers_exception(
                action,
                reply,
                exception,
            )
            &&& after == before.turned_to(IsolatePhase::Answering { checkpoint: false })
        },
        IsolateEvent::Attached { data, receiver } => {
            &&& before.phase matches IsolatePhase::Attaching { reply } && action
                == IsolateAction::Answer {
                reply,
                result: IsolateRunResult::Promise { data, receiver },
            }
            &&& after == before.turned_to(IsolatePhase::Answering { checkpoint: true })
        },
        IsolateEvent::Answered => {
            &&& before.phase matches IsolatePhase::Answering { checkpoint } && if checkpoint {
                &&& after == before.turned_to(IsolatePhase::Checkpointing)
                &&& action == IsolateAction::Checkpoint
            } else {
                &&& after == before.turned_to(IsolatePhase::Idle)
                &&& action == IsolateAction::Receive
            }
        },
        IsolateEvent::Greeted => after == before.turned_to(IsolatePhase::Idle) && action
            == IsolateAction::Receive,
        IsolateEvent::Checkpointed => after == before.turned_to(IsolatePhase::Idle) && action
            == IsolateAction::Receive,
        IsolateEvent::Installed => after == before.turned_to(IsolatePhase::Idle) && action
            == IsolateAction::Receive,
        IsolateEvent::TasksWaited => {
            &&& after.phase == IsolatePhase::Stopped
            &&& finishes(before.state, after.state)
            &&& action == IsolateAction::Stop
        },
    }
}

impl IsolateTask {
    /// The task of a new isolate, which waits for its first request.
    pub fn new(id: u64, py_tx: UnboundedSender<PythonRequest>) -> (task: IsolateTask)
        ensures
            starts(task),
            task.state.id == id,
            task.state.py_tx == py_tx,
    {
        IsolateTask { state: IsolateState::new(id, py_tx), phase: IsolatePhase::Idle }
    }

    /// Whether an event can happen in the middle of what the task does.
    pub fn is_expected(&self, event: &IsolateEvent) -> (expected: bool)
        ensures
            expected == self.expects(*event),
    {
        match (&self.phase, event) {
            (IsolatePhase::Idle, IsolateEvent::Received(_)) => true,
            (IsolatePhase::Greeting, IsolateEvent::Greeted) => true,
            (IsolatePhase::Compiling { .. }, IsolateEvent::Compiled(_)) => true,
            (IsolatePhase::Running { .. }, IsolateEvent::Ran(_)) => true,
            (IsolatePhase::Attaching { .. }, IsolateEvent::Attached { .. }) => true,
            (IsolatePhase::Answering { .. }, IsolateEvent::Answered) => true,
            (IsolatePhase::Checkpointing, IsolateEvent::Checkpointed) => true,
            (IsolatePhase::Installing, IsolateEvent::Installed) => true,
            (IsolatePhase::WaitingTasks, IsolateEvent::TasksWaited) => true,
            _ => false,
        }
    }

    /// Goes on with what happened outside, up to the next thing that has to be done there.
    pub fn step(&mut self, event: IsolateEvent) -> (action: IsolateAction)
        requires
            old(self).expects(event),
        ensures
            isolate_step(*old(self), event, *final(self), action),
    {
        let mut phase: IsolatePhase = IsolatePhase::Idle;
        core::mem::swap(&mut self.phase, &mut phase);
        match (phase, event) {
            (_, IsolateEvent::Received(request)) => self.receive(request),
            (
                IsolatePhase::Compiling { reply },
                IsolateEvent::Compiled(Ok(())),
            ) => {
                self.phase = IsolatePhase::Running { reply };
                IsolateAction::Run
            },
            (
                IsolatePhase::Compiling { reply },
                IsolateEvent::Compiled(Err(exception)),
            ) => self.fail(reply, exception),
            (
                IsolatePhase::Running { reply },
                IsolateEvent::Ran(Err(exception)),
            ) => self.fail(reply, exception),
            (IsolatePhase::Running { reply }, IsolateEvent::Ran(Ok(value))) => {
                if value.promise {
                    self.phase = IsolatePhase::Attaching { reply };
                    IsolateAction::Attach { promise: value.global }
                } else {
                    self.phase = IsolatePhase::Answering { checkpoint: true };
                    IsolateAction::Answer {
                        reply,
                        result: IsolateRunResult::Value(PyValue::new(self.state.id, value.global)),
                    }
                }
            },
            (IsolatePhase::Attaching { reply }, IsolateEvent::Attached { data, receiver }) => {
                self.phase = IsolatePhase::Answering { checkpoint: true };
                IsolateAction::Answer {
                    reply,
                    result: IsolateRunResult::Promise { data, receiver },
                }
            },
            (IsolatePhase::Answering { checkpoint: true }, IsolateEvent::Answered) => {
                self.phase = IsolatePhase::Checkpointing;
                IsolateAction::Checkpoint
            },
            (_, IsolateEvent::TasksWaited) => self.close(CloseEvent::TasksWaited),
            _ => IsolateAction::Receive,
        }
    }

    /// Begins to carry out a request. Without one the isolate is closed.
    fn receive(&mut self, request: Option<IsolateRequest>) -> (action: IsolateAction)
        requires
            old(self).phase is Idle,
        ensures
            isolate_step(*old(self), IsolateEvent::Received(request), *final(self), action),
    {
        match request {
            Some(IsolateRequest::Hello { reply }) => {
                self.phase = IsolatePhase::Greeting;
                IsolateAction::Greet { reply, state: self.state.id }
            },
            Some(IsolateRequest::Run { source, reply }) => {
                self.phase = IsolatePhase::Compiling { reply };
                IsolateAction::Compile { source }
            },
            Some(IsolateRequest::AddFn { name }) => {
                let item: ArcStackItem = ArcStackItem::new(self.state.id, name.as_str());
                let function: WeakItem = self.state.stack.push(item);
                self.phase = IsolatePhase::Installing;
                IsolateAction::Install { name, function }
            },
            Some(IsolateRequest::Close) | None => self.close(CloseEvent::Begin),
        }
    }

    /// Goes on with closing the isolate.
    fn close(&mut self, event: CloseEvent) -> (action: IsolateAction)
        ensures
            match event {
                CloseEvent::Begin => {
                    &&& begins_to_close(old(self).state, final(self).state)
                    &&& final(self).phase == IsolatePhase::WaitingTasks
                    &&& action == IsolateAction::WaitTasks
                },
                CloseEvent::TasksWaited => {
                    &&& final(self).phase == IsolatePhase::Stopped
                    &&& finishes(old(self).state, final(self).state)
                    &&& action == IsolateAction::Stop
                },
            },
    {
        match self.state.close(event) {
            CloseAction::WaitTasks => {
                self.phase = IsolatePhase::WaitingTasks;
                IsolateAction::WaitTasks
            },
            CloseAction::Finished => {
                self.phase = IsolatePhase::Stopped;
                IsolateAction::Stop
            },
        }
    }

    /// Answers that a script threw.
    fn fail(
        &mut self,
        reply: oneshot::Sender<IsolateRunResult>,
        exception: JsException,
    ) -> (action: IsolateAction)
        ensures
            *final(self) == old(self).turned_to(IsolatePhase::Answering { checkpoint: false }),
            answers_exception(action, reply, exception),
    {
        self.phase = IsolatePhase::Answering { checkpoint: false };
        IsolateAction::Answer {
            reply,
            result: IsolateRunResult::Error(JsError::from_exception(&exception)),
        }
    }
}

/// The task of a new isolate, which waits for its first request.
pub open spec fn starts(task: IsolateTask) -> bool {
    &&& task.phase is Idle
    &&& !task.state.closed
    &&& tracker_closes(task.state.tasks) == 0
    &&& task.state.stack@ == Seq::<Place>::empty()
}

} // verus!
