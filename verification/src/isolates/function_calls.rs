//! How a script reaches a Python function.
use tokio::sync::oneshot;
use vstd::prelude::*;

use crate::bridging::value::PyValue;
use crate::channels::isolate_sends;
use crate::channels::python_sends;
use crate::isolates::functions::found_entry;
use crate::isolates::isolate::PyIsolate;
use crate::isolates::isolate_history::isolate_history;
use crate::isolates::isolate_history::law_installed_function_finds_its_name;
use crate::isolates::isolate_history::law_items_are_held_until_the_end;
use crate::isolates::isolate_history::IsolateMoment;
use crate::isolates::isolate_task::IsolateAction;
use crate::isolates::isolate_task::IsolateEvent;
use crate::isolates::python_history::last_added;
use crate::isolates::python_history::law_asked_function_is_called;
use crate::isolates::python_history::python_history;
use crate::isolates::python_task::python_step;
use crate::isolates::python_task::PythonAction;
use crate::isolates::python_task::PythonEvent;
use crate::isolates::python_task::PythonTask;
use crate::stack::upgraded;
use crate::transmit::asks_for_function;
use crate::transmit::IsolateState;
use crate::transmit::ObscuredGlobal;
use crate::transmit::PythonRequest;

verus! {

/// A script that calls a function reaches the Python function that was added under its name:
/// as long as the isolate has not stopped, the reference with which the function was installed
/// still stands for its name, and once the request for it arrives, the Python side calls the
/// function that it was given last under that name, with the argument of the script.
pub proof fn law_script_reaches_the_added_function(
    history: Seq<IsolateMoment>,
    installed: int,
    now: int,
    args: ObscuredGlobal,
    reply: oneshot::Sender<ObscuredGlobal>,
    sends: (Seq<(PythonRequest, bool)>, Seq<(PythonRequest, bool)>),
    tasks: Seq<PythonTask>,
    events: Seq<PythonEvent>,
    actions: Seq<PythonAction>,
)
    requires
        isolate_history(history),
        0 <= installed <= now < history.len(),
        history[installed].action is Install,
        !(history[now].after.phase is Stopped),
        asks_for_function(
            sends.0,
            sends.1,
            upgraded(
                history[now].after.state.stack@,
                history[installed].action->function,
            )->0.text(),
            PyValue { state: history[now].after.state.id, data: Some(args) },
            reply,
            true,
        ),
        python_history(tasks, events, actions),
        events.len() > 0,
        events.last() == PythonEvent::Received(Some(sends.1.last().0)),
    ensures
        upgraded(history[now].after.state.stack@, history[installed].action->function) is Some,
        last_added(events.drop_last(), history[installed].action->name@) matches Some(handler)
            ==> actions.last() == (PythonAction::Call {
            handler,
            argument: PyValue { state: history[now].after.state.id, data: Some(args) },
        }),
{
    law_installed_function_finds_its_name(history, installed);
    law_items_are_held_until_the_end(history, installed, now, history[installed].action->function);
    law_asked_function_is_called(tasks, events, actions);
}

/// A function that was added answers the scripts: once both tasks received what adding it sent
/// them, the function is installed under its name, and a call of it by a script that runs before
/// the isolate stops has the Python side call that very function, with the argument of the
/// script, unless another function was added under the same name in between.
pub proof fn law_added_function_answers_scripts(
    isolate: &mut PyIsolate,
    state: &IsolateState,
    name: String,
    func: u64,
    history: Seq<IsolateMoment>,
    installed: int,
    now: int,
    caller: &mut IsolateState,
    args: ObscuredGlobal,
    reply: oneshot::Sender<ObscuredGlobal>,
    tasks: Seq<PythonTask>,
    events: Seq<PythonEvent>,
    actions: Seq<PythonAction>,
    added: int,
    asked: int,
)
    requires
        call_ensures(PyIsolate::py_add_fn, (isolate, state, name, func), Ok(())),
        isolate_history(history),
        0 <= installed <= now < history.len(),
        history[installed].event == IsolateEvent::Received(
            Some(isolate_sends(final(isolate).isolate_tx).last().0),
        ),
        !(history[now].after.phase is Stopped),
        *old(caller) == history[now].after.state,
        history[installed].action matches IsolateAction::Install { function, .. } ==> call_ensures(
            IsolateState::request_function,
            (caller, function, args, reply),
            Ok(()),
        ),
        python_history(tasks, events, actions),
        0 <= added < asked < events.len(),
        events[added] == PythonEvent::Received(
            Some(python_sends(final(isolate).python_tx).last().0),
        ),
        forall|i: int|
            added < i < asked ==> (#[trigger] events[i] matches PythonEvent::Received(
                Some(PythonRequest::AddFn { name: other, .. }),
            ) ==> other@ != name@),
        events[asked] == PythonEvent::Received(Some(python_sends(final(caller).py_tx).last().0)),
    ensures
        history[installed].action matches IsolateAction::Install { name: under, .. } && under@
            == name@,
        actions[asked] matches PythonAction::Call { handler, argument } && handler == func
            && argument.state == history[now].after.state.id && argument.data == Some(args),
{
    law_installed_function_finds_its_name(history, installed);
    law_items_are_held_until_the_end(history, installed, now, history[installed].action->function);
    lemma_added_function_stays(tasks, events, actions, name@, func, added, asked);
    assert(python_step(tasks[asked], events[asked], tasks[asked + 1], actions[asked]));
}

/// A function that was added stays under its name until another one is added under it.
proof fn lemma_added_function_stays(
    tasks: Seq<PythonTask>,
    events: Seq<PythonEvent>,
    actions: Seq<PythonAction>,
    function: Seq<char>,
    handler: u64,
    added: int,
    later: int,
)
    requires
        python_history(tasks, events, actions),
        0 <= added < later < events.len(),
        events[added] matches PythonEvent::Received(
            Some(PythonRequest::AddFn { name, handler: number }),
        ) && name@ == function && number == handler,
        forall|i: int|
            added < i < later ==> (#[trigger] events[i] matches PythonEvent::Received(
                Some(PythonRequest::AddFn { name, .. }),
            ) ==> name@ != function),
    ensures
        found_entry(tasks[later].functions@, function) == Some(handler),
    decreases later,
{
    assert(python_step(tasks[later - 1], events[later - 1], tasks[later - 1 + 1], actions[later - 1]));
    if added < later - 1 {
        lemma_added_function_stays(tasks, events, actions, function, handler, added, later - 1);
        assert(tasks[later].expects(events[later]));
    }
}

} // verus!
