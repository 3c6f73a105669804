//! What each step of the Python task is for, stated of every call.
use tokio::sync::oneshot;
use vstd::prelude::*;

use crate::bridging::value::PyValue;
use crate::isolates::functions::PythonFunctions;
use crate::isolates::isolate::PyIsolateCreateValue;
use crate::isolates::python_task::HandlerReturn;
use crate::isolates::python_task::PythonAction;
use crate::isolates::python_task::PythonEvent;
use crate::isolates::python_task::PythonPhase;
use crate::isolates::python_task::PythonTask;
use crate::transmit::ObscuredGlobal;
use crate::transmit::PythonRequest;

verus! {

/// A new task has no functions and takes any first request.
pub proof fn law_new_python_task_takes_requests(
    task: &mut PythonTask,
    request: Option<PythonRequest>,
    name: &str,
    found: Option<u64>,
)
    requires
        call_ensures(PythonTask::new, (), *old(task)),
        call_ensures(PythonFunctions::get, (&old(task).functions, name), found),
    ensures
        found is None,
        call_requires(PythonTask::step, (task, PythonEvent::Received(request))),
{
}

/// A task can be told exactly what it waits for: a request while it is idle, and otherwise the
/// outcome of what it asked for last, where a value that a function returns has to have a handle.
/// A task that is over waits for nothing.
pub proof fn law_python_task_expects_what_it_asked_for(
    task: &mut PythonTask,
    event: PythonEvent,
    expected: bool,
)
    requires
        call_ensures(PythonTask::is_expected, (old(task), &event), expected),
    ensures
        expected == ({
            ||| old(task).phase is Idle && event is Received
            ||| old(task).phase is Calling && (event matches PythonEvent::Returned(
                HandlerReturn::Text(_),
            ))
            ||| old(task).phase is Calling && (event matches PythonEvent::Returned(
                HandlerReturn::Value(value),
            ) && value.data is Some)
            ||| old(task).phase is Creating && event is Created
            ||| old(task).phase is Answering && event is Answered
            ||| old(task).phase is Discarding && event is Discarded
            ||| old(task).phase is Forgetting && event is Forgotten
        }),
        expected ==> call_requires(PythonTask::step, (task, event)),
{
}

/// A function that is added is found by its whole name from then on, and by no other. One that
/// had the name is given up, and no other.
pub proof fn law_added_function_takes_its_name(
    task: &mut PythonTask,
    name: String,
    handler: u64,
    action: PythonAction,
    asked: &str,
    before: Option<u64>,
    after: Option<u64>,
)
    requires
        call_ensures(
            PythonTask::step,
            (task, PythonEvent::Received(Some(PythonRequest::AddFn { name, handler }))),
            action,
        ),
        call_ensures(PythonFunctions::get, (&old(task).functions, asked), before),
        call_ensures(PythonFunctions::get, (&final(task).functions, asked), after),
    ensures
        asked@ == name@ ==> after == Some(handler),
        asked@ != name@ ==> after == before,
        asked@ == name@ ==> match before {
            Some(replaced) => action == (PythonAction::Forget { handler: replaced })
                && final(task).phase is Forgetting,
            None => action is Receive && final(task).phase is Idle,
        },
{
}

/// A function that is asked for is called if its whole name finds it, with the argument as it
/// came; otherwise the request is given up, with its argument and its way to answer. What the
/// names find stays.
pub proof fn law_asked_function_is_called_or_discarded(
    task: &mut PythonTask,
    name: String,
    args: PyValue,
    reply: oneshot::Sender<ObscuredGlobal>,
    action: PythonAction,
    asked: &str,
    found: Option<u64>,
    other: &str,
    before: Option<u64>,
    after: Option<u64>,
)
    requires
        call_ensures(
            PythonTask::step,
            (task, PythonEvent::Received(Some(PythonRequest::RunFn { name, args, reply }))),
            action,
        ),
        asked@ == name@,
        call_ensures(PythonFunctions::get, (&old(task).functions, asked), found),
        call_ensures(PythonFunctions::get, (&old(task).functions, other), before),
        call_ensures(PythonFunctions::get, (&final(task).functions, other), after),
    ensures
        found matches Some(function) ==> (action matches PythonAction::Call {
            handler,
            argument,
        } && handler == function && argument == args && final(task).phase == (
        PythonPhase::Calling { reply })),
        found is None ==> (action matches PythonAction::Discard { reply: to, argument } && to
            == reply && argument == Some(args) && final(task).phase is Discarding),
        after == before,
{
}

/// A request to close, and the end of all requests, both end the task, which finds no function
/// from then on and waits for nothing.
pub proof fn law_python_task_ends_when_asked_or_alone(
    task: &mut PythonTask,
    request: Option<PythonRequest>,
    action: PythonAction,
    name: &str,
    found: Option<u64>,
    event: PythonEvent,
    expected: bool,
)
    requires
        request == Some(PythonRequest::Close) || request is None,
        call_ensures(PythonTask::step, (task, PythonEvent::Received(request)), action),
        call_ensures(PythonFunctions::get, (&final(task).functions, name), found),
        call_ensures(PythonTask::is_expected, (final(task), &event), expected),
    ensures
        action is Stop,
        found is None,
        !expected,
{
}

/// What a function returns is what its caller is answered: a value by the handle that it has, and
/// a string by what the engine makes of all of its text. If the engine declines, the caller is
/// not answered.
pub proof fn law_return_of_a_function_is_the_answer(
    task: &mut PythonTask,
    reply: oneshot::Sender<ObscuredGlobal>,
    returned: HandlerReturn,
    action: PythonAction,
    later: &mut PythonTask,
    made: Option<ObscuredGlobal>,
    last: PythonAction,
)
    requires
        old(task).phase == (PythonPhase::Calling { reply }),
        call_ensures(PythonTask::step, (task, PythonEvent::Returned(returned)), action),
        *old(later) == *final(task),
        returned is Text ==> call_ensures(
            PythonTask::step,
            (later, PythonEvent::Created(made)),
            last,
        ),
    ensures
        returned matches HandlerReturn::Value(value) ==> (action matches PythonAction::Answer {
            reply: to,
            value: given,
        } && to == reply && Some(given) == value.data && final(task).phase is Answering),
        returned matches HandlerReturn::Text(text) ==> (action matches PythonAction::Create {
            cv: PyIsolateCreateValue::String(whole),
        } && whole@ == text@),
        returned is Text && made is Some ==> (last matches PythonAction::Answer {
            reply: to,
            value: given,
        } && to == reply && Some(given) == made && final(later).phase is Answering),
        returned is Text && made is None ==> (last matches PythonAction::Discard {
            reply: to,
            argument,
        } && to == reply && argument is None && final(later).phase is Discarding),
{
}

/// What a task does for a function that it called, and what it does once a request is done with,
/// leaves every name as it is. A request that is done with is followed by the next.
pub proof fn law_only_requests_change_the_functions(
    task: &mut PythonTask,
    event: PythonEvent,
    action: PythonAction,
    name: &str,
    before: Option<u64>,
    after: Option<u64>,
)
    requires
        !(event is Received),
        call_ensures(PythonTask::step, (task, event), action),
        call_ensures(PythonFunctions::get, (&old(task).functions, name), before),
        call_ensures(PythonFunctions::get, (&final(task).functions, name), after),
    ensures
        after == before,
        event is Answered || event is Discarded || event is Forgotten ==> action is Receive
            && final(task).phase is Idle,
{
}

} // verus!
