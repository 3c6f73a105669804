//! What each step of an isolate's task is for, stated of every call.
use tokio::sync::mpsc::UnboundedSender;
use tokio::sync::oneshot;
use vstd::prelude::*;

use crate::bridging::exception::JsError;
use crate::bridging::exception::JsException;
use crate::bridging::value::PyValue;
use crate::error::PyError;
use crate::isolates::isolate_history::isolate_history;
use crate::isolates::isolate_history::law_closed_means_closing;
use crate::isolates::isolate_history::resumes;
use crate::isolates::isolate_history::IsolateMoment;
use crate::isolates::isolate_task::IsolateAction;
use crate::isolates::isolate_task::IsolateEvent;
use crate::isolates::isolate_task::IsolatePhase;
use crate::isolates::isolate_task::IsolateTask;
use crate::isolates::isolate_task::ScriptValue;
use crate::stack::ArcStack;
use crate::stack::ArcStackItem;
use crate::stack::WeakItem;
use crate::transmit::tracker_closes;
use crate::transmit::IsolateRequest;
use crate::transmit::IsolateRunResult;
use crate::transmit::PythonRequest;

verus! {

/// A new task has the number and the way to Python that it is given, is open, holds no items and
/// has not closed its tracker, and takes any first request.
pub proof fn law_new_task_takes_requests(
    id: u64,
    py_tx: UnboundedSender<PythonRequest>,
    task: &mut IsolateTask,
    request: Option<IsolateRequest>,
    weak: WeakItem,
    found: Option<&ArcStackItem>,
)
    requires
        call_ensures(IsolateTask::new, (id, py_tx), *old(task)),
        call_ensures(ArcStack::upgrade, (&old(task).state.stack, weak), found),
    ensures
        old(task).state.id == id,
        old(task).state.py_tx == py_tx,
        !old(task).state.closed,
        found is None,
        tracker_closes(old(task).state.tasks) == 0,
        call_requires(IsolateTask::step, (task, IsolateEvent::Received(request))),
{
}

/// A task can be told exactly what it waits for: a request while it is idle, and otherwise the
/// outcome of what it asked for last. A task that is over waits for nothing.
pub proof fn law_task_expects_what_it_asked_for(
    task: &mut IsolateTask,
    event: IsolateEvent,
    expected: bool,
)
    requires
        call_ensures(IsolateTask::is_expected, (old(task), &event), expected),
    ensures
        expected == ({
            ||| old(task).phase is Idle && event is Received
            ||| old(task).phase is Greeting && event is Greeted
            ||| old(task).phase is Compiling && event is Compiled
            ||| old(task).phase is Running && event is Ran
            ||| old(task).phase is Attaching && event is Attached
            ||| old(task).phase is Answering && event is Answered
            ||| old(task).phase is Checkpointing && event is Checkpointed
            ||| old(task).phase is Installing && event is Installed
            ||| old(task).phase is WaitingTasks && event is TasksWaited
        }),
        expected ==> call_requires(IsolateTask::step, (task, event)),
{
}

/// A greeting is answered with the number of the task's own state, through the way to answer that
/// came with it.
pub proof fn law_greeting_is_answered_with_the_state(
    task: &mut IsolateTask,
    reply: oneshot::Sender<u64>,
    action: IsolateAction,
)
    requires
        call_ensures(
            IsolateTask::step,
            (task, IsolateEvent::Received(Some(IsolateRequest::Hello { reply }))),
            action,
        ),
    ensures
        action matches IsolateAction::Greet { reply: to, state } && to == reply && state
            == old(task).state.id,
        final(task).state == old(task).state,
        final(task).phase is Greeting,
{
}

/// A script is compiled as it came: all of its source, character for character.
pub proof fn law_script_is_compiled_whole(
    task: &mut IsolateTask,
    source: String,
    reply: oneshot::Sender<IsolateRunResult>,
    action: IsolateAction,
)
    requires
        call_ensures(
            IsolateTask::step,
            (task, IsolateEvent::Received(Some(IsolateRequest::Run { source, reply }))),
            action,
        ),
    ensures
        action matches IsolateAction::Compile { source: compiled } && compiled@ == source@,
        final(task).state == old(task).state,
        final(task).phase matches IsolatePhase::Compiling { reply: to } && to == reply,
{
}

/// A function that is added is installed under the given name, character for character, with a
/// reference that finds an item of the isolate with that name. What other references find stays.
pub proof fn law_function_is_installed_under_its_name(
    task: &mut IsolateTask,
    name: String,
    action: IsolateAction,
    found: Option<&ArcStackItem>,
    owner: u64,
    told: String,
    other: WeakItem,
    before: Option<&ArcStackItem>,
    after: Option<&ArcStackItem>,
)
    requires
        call_ensures(
            IsolateTask::step,
            (task, IsolateEvent::Received(Some(IsolateRequest::AddFn { name }))),
            action,
        ),
        action matches IsolateAction::Install { function, .. } ==> call_ensures(
            ArcStack::upgrade,
            (&final(task).state.stack, function),
            found,
        ),
        found matches Some(item) ==> call_ensures(ArcStackItem::state, (item,), owner)
            && call_ensures(ArcStackItem::name, (item,), told),
        call_ensures(ArcStack::upgrade, (&old(task).state.stack, other), before),
        call_ensures(ArcStack::upgrade, (&final(task).state.stack, other), after),
    ensures
        action matches IsolateAction::Install { name: under, .. } && under@ == name@,
        found is Some,
        owner == old(task).state.id,
        told@ == name@,
        before matches Some(one) ==> (after matches Some(same) && *same == *one),
        action matches IsolateAction::Install { function, .. } && (before is Some ==> function
            != other),
        final(task).phase is Installing,
        final(task).state.id == old(task).state.id,
        final(task).state.py_tx == old(task).state.py_tx,
        final(task).state.tasks == old(task).state.tasks,
        final(task).state.closed == old(task).state.closed,
{
}

/// A request to close, and the end of all requests, both close the isolate: it counts as closed
/// and its tracker was closed, and then its tasks are waited for. What it holds stays for them.
pub proof fn law_task_closes_when_asked_or_alone(
    task: &mut IsolateTask,
    request: Option<IsolateRequest>,
    action: IsolateAction,
)
    requires
        request == Some(IsolateRequest::Close) || request is None,
        call_ensures(IsolateTask::step, (task, IsolateEvent::Received(request)), action),
    ensures
        action is WaitTasks,
        final(task).phase is WaitingTasks,
        final(task).state.closed,
        tracker_closes(final(task).state.tasks) == tracker_closes(old(task).state.tasks) + 1,
        final(task).state.stack == old(task).state.stack,
        final(task).state.id == old(task).state.id,
        final(task).state.py_tx == old(task).state.py_tx,
{
}

/// A script that compiles is run, and its caller is not answered yet.
pub proof fn law_compiled_script_is_run(
    task: &mut IsolateTask,
    reply: oneshot::Sender<IsolateRunResult>,
    action: IsolateAction,
)
    requires
        old(task).phase == (IsolatePhase::Compiling { reply }),
        call_ensures(IsolateTask::step, (task, IsolateEvent::Compiled(Ok(()))), action),
    ensures
        action is Run,
        final(task).phase == (IsolatePhase::Running { reply }),
        final(task).state == old(task).state,
{
}

/// A script that throws, while it is compiled or run, has its caller answered with the report of
/// what it threw.
pub proof fn law_thrown_exception_is_the_answer(
    task: &mut IsolateTask,
    reply: oneshot::Sender<IsolateRunResult>,
    exception: JsException,
    event: IsolateEvent,
    action: IsolateAction,
    reported: PyError,
)
    requires
        old(task).phase == (IsolatePhase::Compiling { reply }) && event == IsolateEvent::Compiled(
            Err(exception),
        ) || old(task).phase == (IsolatePhase::Running { reply }) && event == IsolateEvent::Ran(
            Err(exception),
        ),
        call_ensures(IsolateTask::step, (task, event), action),
        call_ensures(JsError::from_exception, (&exception,), reported),
    ensures
        action matches IsolateAction::Answer {
            reply: to,
            result: IsolateRunResult::Error(PyError::Js(text)),
        } && to == reply && (reported matches PyError::Js(report) && text@ == report@),
        final(task).state == old(task).state,
        final(task).phase is Answering,
{
}

/// A script that gives a value has its caller answered with that value, as one of the isolate. If
/// the value is a promise, it is waited for instead, and the caller not answered yet.
pub proof fn law_value_of_a_script_is_the_answer(
    task: &mut IsolateTask,
    reply: oneshot::Sender<IsolateRunResult>,
    value: ScriptValue,
    action: IsolateAction,
)
    requires
        old(task).phase == (IsolatePhase::Running { reply }),
        call_ensures(IsolateTask::step, (task, IsolateEvent::Ran(Ok(value))), action),
    ensures
        !value.promise ==> (action matches IsolateAction::Answer {
            reply: to,
            result: IsolateRunResult::Value(given),
        } && to == reply && given.state == old(task).state.id && given.data == Some(value.global)
            && final(task).phase is Answering),
        value.promise ==> (action matches IsolateAction::Attach { promise } && promise
            == value.global && final(task).phase == (IsolatePhase::Attaching { reply })),
        final(task).state == old(task).state,
{
}

/// A script that gives a promise has its caller answered with what the promise's value arrives
/// at.
pub proof fn law_promise_of_a_script_is_the_answer(
    task: &mut IsolateTask,
    reply: oneshot::Sender<IsolateRunResult>,
    data: u64,
    receiver: oneshot::Receiver<PyValue>,
    action: IsolateAction,
)
    requires
        old(task).phase == (IsolatePhase::Attaching { reply }),
        call_ensures(IsolateTask::step, (task, IsolateEvent::Attached { data, receiver }), action),
    ensures
        action matches IsolateAction::Answer {
            reply: to,
            result: IsolateRunResult::Promise { data: kept, receiver: at },
        } && to == reply && kept == data && at == receiver,
        final(task).phase is Answering,
        final(task).state == old(task).state,
{
}

/// Once a greeting was answered, the microtasks were run or a function was installed, the next
/// request is waited for.
pub proof fn law_finished_request_is_followed_by_the_next(
    task: &mut IsolateTask,
    event: IsolateEvent,
    action: IsolateAction,
)
    requires
        event is Greeted || event is Checkpointed || event is Installed,
        call_ensures(IsolateTask::step, (task, event), action),
    ensures
        action is Receive,
        final(task).phase is Idle,
        final(task).state == old(task).state,
{
}

/// The task is over once its tasks were waited for: its items are gone, but for those that
/// somebody else holds, and the rest of its state stays.
pub proof fn law_task_ends_after_the_wait(
    task: &mut IsolateTask,
    action: IsolateAction,
    weak: WeakItem,
    before: Option<&ArcStackItem>,
    after: Option<&ArcStackItem>,
    event: IsolateEvent,
    expected: bool,
)
    requires
        call_ensures(IsolateTask::step, (task, IsolateEvent::TasksWaited), action),
        call_ensures(ArcStack::upgrade, (&old(task).state.stack, weak), before),
        call_ensures(ArcStack::upgrade, (&final(task).state.stack, weak), after),
        call_ensures(IsolateTask::is_expected, (final(task), &event), expected),
    ensures
        action is Stop,
        after is Some ==> weak.slot < old(task).state.stack@.len()
            && old(task).state.stack@[weak.slot as int].shares() > 0,
        after matches Some(kept) ==> (before matches Some(one) && *kept == *one),
        !expected,
        final(task).state.closed == old(task).state.closed,
        final(task).state.tasks == old(task).state.tasks,
        final(task).state.id == old(task).state.id,
        final(task).state.py_tx == old(task).state.py_tx,
{
}

/// In the life of a task, every script is compiled as it came, character for character.
pub proof fn law_every_script_is_compiled_whole(history: Seq<IsolateMoment>, n: int)
    requires
        isolate_history(history),
        0 <= n < history.len(),
        history[n].event matches IsolateEvent::Received(Some(IsolateRequest::Run { .. })),
    ensures
        history[n].event matches IsolateEvent::Received(Some(IsolateRequest::Run { source, .. }))
            && (history[n].action matches IsolateAction::Compile { source: compiled } && compiled@
            == source@),
{
}

/// In the life of a task, a script that compiles and gives a plain value has the one who sent it
/// answered with that value.
pub proof fn law_sender_of_a_script_gets_its_value(
    history: Seq<IsolateMoment>,
    n: int,
    source: String,
    reply: oneshot::Sender<IsolateRunResult>,
    value: ScriptValue,
)
    requires
        isolate_history(history),
        0 <= n,
        n + 2 < history.len(),
        history[n].event == IsolateEvent::Received(Some(IsolateRequest::Run { source, reply })),
        history[n + 1].event == IsolateEvent::Compiled(Ok(())),
        history[n + 2].event == IsolateEvent::Ran(Ok(value)),
        !value.promise,
    ensures
        history[n + 1].action is Run,
        history[n + 2].action matches IsolateAction::Answer {
            reply: to,
            result: IsolateRunResult::Value(given),
        } && to == reply && given.data == Some(value.global) && given.state
            == history[0].before.state.id,
{
    assert(resumes(history[n].after, history[n + 1].before));
    assert(resumes(history[n + 1].after, history[n + 2].before));
    law_closed_means_closing(history, n + 1);
}

/// In the life of a task, a script that compiles and gives a promise has the one who sent it
/// answered with what the value of that promise arrives at.
pub proof fn law_sender_of_a_script_gets_its_promise(
    history: Seq<IsolateMoment>,
    n: int,
    source: String,
    reply: oneshot::Sender<IsolateRunResult>,
    value: ScriptValue,
    data: u64,
    receiver: oneshot::Receiver<PyValue>,
)
    requires
        isolate_history(history),
        0 <= n,
        n + 3 < history.len(),
        history[n].event == IsolateEvent::Received(Some(IsolateRequest::Run { source, reply })),
        history[n + 1].event == IsolateEvent::Compiled(Ok(())),
        history[n + 2].event == IsolateEvent::Ran(Ok(value)),
        value.promise,
        history[n + 3].event == (IsolateEvent::Attached { data, receiver }),
    ensures
        history[n + 2].action matches IsolateAction::Attach { promise } && promise == value.global,
        history[n + 3].action matches IsolateAction::Answer {
            reply: to,
            result: IsolateRunResult::Promise { data: kept, receiver: at },
        } && to == reply && kept == data && at == receiver,
{
    assert(resumes(history[n].after, history[n + 1].before));
    assert(resumes(history[n + 1].after, history[n + 2].before));
    assert(resumes(history[n + 2].after, history[n + 3].before));
}

/// In the life of a task, a script that throws has the one who sent it answered with the report
/// of what it threw, and the microtasks are not run for it.
pub proof fn law_sender_of_a_script_gets_its_error(
    history: Seq<IsolateMoment>,
    n: int,
    thrown: int,
    source: String,
    reply: oneshot::Sender<IsolateRunResult>,
    exception: JsException,
    reported: PyError,
)
    requires
        isolate_history(history),
        0 <= n < thrown < history.len(),
        history[n].event == IsolateEvent::Received(Some(IsolateRequest::Run { source, reply })),
        thrown == n + 1 && history[thrown].event == IsolateEvent::Compiled(Err(exception))
            || thrown == n + 2 && history[n + 1].event == IsolateEvent::Compiled(Ok(()))
            && history[thrown].event == IsolateEvent::Ran(Err(exception)),
        call_ensures(JsError::from_exception, (&exception,), reported),
    ensures
        history[thrown].action matches IsolateAction::Answer {
            reply: to,
            result: IsolateRunResult::Error(PyError::Js(text)),
        } && to == reply && (reported matches PyError::Js(report) && text@ == report@),
        thrown + 1 < history.len() ==> history[thrown + 1].action is Receive,
{
    assert(resumes(history[n].after, history[n + 1].before));
    if thrown == n + 2 {
        assert(resumes(history[n + 1].after, history[n + 2].before));
    }
    if thrown + 1 < history.len() {
        assert(resumes(history[thrown].after, history[thrown + 1].before));
    }
}

/// Once a script was answered for, the microtasks are run if the answer was a value or a promise,
/// and the next request is waited for if it was an error.
pub proof fn law_microtasks_follow_what_did_not_throw(
    task: &mut IsolateTask,
    event: IsolateEvent,
    answer: IsolateAction,
    later: &mut IsolateTask,
    action: IsolateAction,
)
    requires
        old(task).expects(event),
        call_ensures(IsolateTask::step, (task, event), answer),
        answer is Answer,
        *old(later) == *final(task),
        call_ensures(IsolateTask::step, (later, IsolateEvent::Answered), action),
    ensures
        answer->result is Error ==> action is Receive && final(later).phase is Idle,
        !(answer->result is Error) ==> action is Checkpoint && final(later).phase is Checkpointing,
        final(later).state == old(later).state,
{
}

} // verus!
