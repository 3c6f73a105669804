//! What holds of the Python task of an isolate from its start to its end.
use tokio::sync::oneshot;
use vstd::prelude::*;

use crate::isolates::functions::found_entry;
use crate::isolates::functions::no_entries;
use crate::isolates::isolate::PyIsolateCreateValue;
use crate::isolates::python_task::python_step;
use crate::isolates::python_task::HandlerReturn;
use crate::isolates::python_task::PythonAction;
use crate::isolates::python_task::PythonEvent;
use crate::isolates::python_task::PythonPhase;
use crate::isolates::python_task::PythonTask;
use crate::transmit::ObscuredGlobal;
use crate::transmit::PythonRequest;

verus! {

/// The tasks that come about when a new one is handed one event after the other, and what they
/// ask for.
pub open spec fn python_history(
    tasks: Seq<PythonTask>,
    events: Seq<PythonEvent>,
    actions: Seq<PythonAction>,
) -> bool {
    &&& tasks.len() == events.len() + 1
    &&& actions.len() == events.len()
    &&& tasks[0].functions@ == no_entries()
    &&& tasks[0].phase is Idle
    &&& forall|i: int|
        #![trigger events[i]]
        0 <= i < events.len() ==> tasks[i].expects(events[i]) && python_step(
            tasks[i],
            events[i],
            tasks[i + 1],
            actions[i],
        )
}

/// The function that was added last under a name, unless the task is over.
pub open spec fn last_added(events: Seq<PythonEvent>, function: Seq<char>) -> Option<u64>
    decreases events.len(),
{
    if events.len() == 0 {
        None
    } else {
        match events.last() {
            PythonEvent::Received(Some(PythonRequest::AddFn { name, handler })) => if name@
                == function {
                Some(handler)
            } else {
                last_added(events.drop_last(), function)
            },
            PythonEvent::Received(Some(PythonRequest::Close)) => None,
            PythonEvent::Received(None) => None,
            _ => last_added(events.drop_last(), function),
        }
    }
}

/// The number of the function that an event adds, if it adds one.
pub open spec fn adds(event: PythonEvent) -> Option<u64> {
    match event {
        PythonEvent::Received(Some(PythonRequest::AddFn { name, handler })) => Some(handler),
        _ => None,
    }
}

/// No number is used for two functions that are added.
pub open spec fn each_has_its_number(events: Seq<PythonEvent>) -> bool {
    forall|i: int, j: int|
        #![trigger events[i], events[j]]
        0 <= i < j < events.len() && adds(events[i]) is Some ==> adds(events[i]) != adds(events[j])
}

/// Some name has the function with the given number.
pub open spec fn has_function(functions: Map<Seq<char>, u64>, handler: u64) -> bool {
    exists|name: Seq<char>| #[trigger] functions.contains_key(name) && functions[name] == handler
}

/// The ways to answer that came with the functions to run, in their order.
pub open spec fn asked(events: Seq<PythonEvent>) -> Seq<oneshot::Sender<ObscuredGlobal>>
    decreases events.len(),
{
    if events.len() == 0 {
        Seq::empty()
    } else {
        let earlier = asked(events.drop_last());
        match events.last() {
            PythonEvent::Received(Some(PythonRequest::RunFn { name, args, reply })) => earlier.push(
                reply,
            ),
            _ => earlier,
        }
    }
}

/// The ways to answer that were used or given up, in their order.
pub open spec fn settled(actions: Seq<PythonAction>) -> Seq<oneshot::Sender<ObscuredGlobal>>
    decreases actions.len(),
{
    if actions.len() == 0 {
        Seq::empty()
    } else {
        let earlier = settled(actions.drop_last());
        match actions.last() {
            PythonAction::Answer { reply, value } => earlier.push(reply),
            PythonAction::Discard { reply, argument } => earlier.push(reply),
            _ => earlier,
        }
    }
}

/// The way to answer for the function that a task is in the middle of.
pub open spec fn pending(task: PythonTask) -> Seq<oneshot::Sender<ObscuredGlobal>> {
    match task.phase {
        PythonPhase::Calling { reply } => seq![reply],
        PythonPhase::Creating { reply } => seq![reply],
        _ => Seq::empty(),
    }
}

/// The part of a history up to one of its tasks is a history.
proof fn lemma_history_prefix(
    tasks: Seq<PythonTask>,
    events: Seq<PythonEvent>,
    actions: Seq<PythonAction>,
)
    requires
        python_history(tasks, events, actions),
        events.len() > 0,
    ensures
        python_history(tasks.drop_last(), events.drop_last(), actions.drop_last()),
{
    assert forall|i: int|
        #![trigger events.drop_last()[i]]
        0 <= i < events.drop_last().len() implies tasks.drop_last()[i].expects(
        events.drop_last()[i],
    ) && python_step(
        tasks.drop_last()[i],
        events.drop_last()[i],
        tasks.drop_last()[i + 1],
        actions.drop_last()[i],
    ) by {
        assert(events.drop_last()[i] == events[i]);
    }
}

/// A task has, under each name, the function that was added last under that name.
pub proof fn law_last_added_function_counts(
    tasks: Seq<PythonTask>,
    events: Seq<PythonEvent>,
    actions: Seq<PythonAction>,
    function: Seq<char>,
)
    requires
        python_history(tasks, events, actions),
    ensures
        found_entry(tasks.last().functions@, function) == last_added(events, function),
    decreases events.len(),
{
    if events.len() > 0 {
        lemma_history_prefix(tasks, events, actions);
        law_last_added_function_counts(
            tasks.drop_last(),
            events.drop_last(),
            actions.drop_last(),
            function,
        );
        let n = events.len() - 1;
        assert(python_step(tasks[n], events[n], tasks[n + 1], actions[n]));
    }
}

/// A function that is asked for by name is called if it was added before: the one that was
/// added last, with the argument that came. If none was added, nothing is called.
pub proof fn law_asked_function_is_called(
    tasks: Seq<PythonTask>,
    events: Seq<PythonEvent>,
    actions: Seq<PythonAction>,
)
    requires
        python_history(tasks, events, actions),
        events.len() > 0,
        events.last() matches PythonEvent::Received(Some(PythonRequest::RunFn { .. })),
    ensures
        events.last() matches PythonEvent::Received(
            Some(PythonRequest::RunFn { name, args, reply }),
        ) && actions.last() == match last_added(events.drop_last(), name@) {
            Some(handler) => PythonAction::Call { handler, argument: args },
            None => PythonAction::Discard { reply, argument: Some(args) },
        },
{
    lemma_history_prefix(tasks, events, actions);
    let n = events.len() - 1;
    assert(python_step(tasks[n], events[n], tasks[n + 1], actions[n]));
    match events.last() {
        PythonEvent::Received(Some(PythonRequest::RunFn { name, args, reply })) => {
            law_last_added_function_counts(
                tasks.drop_last(),
                events.drop_last(),
                actions.drop_last(),
                name@,
            );
        },
        _ => {},
    }
}

/// Every request to run a function is answered or given up exactly once, in the order in which
/// they came: what was asked is what was settled and, at most, the one function that the task
/// is in the middle of.
pub proof fn law_every_function_is_settled_once(
    tasks: Seq<PythonTask>,
    events: Seq<PythonEvent>,
    actions: Seq<PythonAction>,
)
    requires
        python_history(tasks, events, actions),
    ensures
        asked(events) == settled(actions) + pending(tasks.last()),
    decreases events.len(),
{
    if events.len() > 0 {
        lemma_history_prefix(tasks, events, actions);
        law_every_function_is_settled_once(
            tasks.drop_last(),
            events.drop_last(),
            actions.drop_last(),
        );
        let n = events.len() - 1;
        assert(python_step(tasks[n], events[n], tasks[n + 1], actions[n]));
    }
    assert(asked(events) =~= settled(actions) + pending(tasks.last()));
}

/// What a function returns is what its caller is answered: a value as it is, and a string as
/// the value that is made of it. If the engine declines to make it, there is no answer.
pub proof fn law_returned_value_is_the_answer(
    tasks: Seq<PythonTask>,
    events: Seq<PythonEvent>,
    actions: Seq<PythonAction>,
    n: int,
)
    requires
        python_history(tasks, events, actions),
        0 <= n,
        n + 1 < events.len(),
        actions[n] is Call,
    ensures
        ({
            &&& events[n] matches PythonEvent::Received(
                Some(PythonRequest::RunFn { name, args, reply }),
            )
            &&& events[n + 1] matches PythonEvent::Returned(returned)
            &&& match returned {
                HandlerReturn::Value(value) => value.data matches Some(global) && actions[n + 1]
                    == (PythonAction::Answer { reply, value: global }),
                HandlerReturn::Text(text) => {
                    &&& actions[n + 1] == PythonAction::Create {
                        cv: PyIsolateCreateValue::String(text),
                    }
                    &&& n + 2 < events.len() ==> (events[n + 2] matches PythonEvent::Created(made)
                        && actions[n + 2] == match made {
                        Some(value) => PythonAction::Answer { reply, value },
                        None => PythonAction::Discard { reply, argument: None },
                    })
                },
            }
        }),
{
    assert(python_step(tasks[n], events[n], tasks[n + 1], actions[n]));
    assert(python_step(tasks[n + 1], events[n + 1], tasks[n + 1 + 1], actions[n + 1]));
    if n + 2 < events.len() {
        assert(python_step(tasks[n + 2], events[n + 2], tasks[n + 2 + 1], actions[n + 2]));
    }
}

/// What a task has was added before, and each function under one name only.
proof fn lemma_functions_were_added(
    tasks: Seq<PythonTask>,
    events: Seq<PythonEvent>,
    actions: Seq<PythonAction>,
    n: int,
)
    requires
        python_history(tasks, events, actions),
        each_has_its_number(events),
        0 <= n <= events.len(),
    ensures
        forall|name: Seq<char>| #[trigger]
            tasks[n].functions@.contains_key(name) ==> exists|i: int|
                0 <= i < n && #[trigger] adds(events[i]) == Some(tasks[n].functions@[name]),
        forall|one: Seq<char>, other: Seq<char>|
            #![trigger tasks[n].functions@.contains_key(one), tasks[n].functions@.contains_key(other)]
            tasks[n].functions@.contains_key(one) && tasks[n].functions@.contains_key(other)
                && tasks[n].functions@[one] == tasks[n].functions@[other] ==> one == other,
    decreases n,
{
    if n > 0 {
        lemma_functions_were_added(tasks, events, actions, n - 1);
        assert(python_step(tasks[n - 1], events[n - 1], tasks[n - 1 + 1], actions[n - 1]));
        let before = tasks[n - 1].functions@;
        let after = tasks[n].functions@;
        assert forall|name: Seq<char>| #[trigger] after.contains_key(name) implies exists|i: int|
            0 <= i < n && #[trigger] adds(events[i]) == Some(after[name]) by {
            if adds(events[n - 1]) != Some(after[name]) {
                assert(before.contains_key(name));
            }
        }
    }
}

/// A function that a task does not have, and that is not added later, it never has again.
proof fn lemma_missing_function_stays_missing(
    tasks: Seq<PythonTask>,
    events: Seq<PythonEvent>,
    actions: Seq<PythonAction>,
    handler: u64,
    n: int,
    m: int,
)
    requires
        python_history(tasks, events, actions),
        0 <= n <= m <= events.len(),
        !has_function(tasks[n].functions@, handler),
        forall|i: int| n <= i < m ==> #[trigger] adds(events[i]) != Some(handler),
    ensures
        !has_function(tasks[m].functions@, handler),
    decreases m,
{
    if n < m {
        lemma_missing_function_stays_missing(tasks, events, actions, handler, n, m - 1);
        assert(python_step(tasks[m - 1], events[m - 1], tasks[m - 1 + 1], actions[m - 1]));
        assert(adds(events[m - 1]) != Some(handler));
        assert forall|name: Seq<char>| #[trigger]
            tasks[m].functions@.contains_key(name) implies tasks[m].functions@[name] != handler by {
            if tasks[m].functions@[name] == handler {
                assert(tasks[m - 1].functions@.contains_key(name));
            }
        }
    }
}

/// A function that was given up because another one took its place is never called again, if
/// each function that is added has a number of its own.
pub proof fn law_forgotten_function_is_not_called(
    tasks: Seq<PythonTask>,
    events: Seq<PythonEvent>,
    actions: Seq<PythonAction>,
    n: int,
    m: int,
)
    requires
        python_history(tasks, events, actions),
        each_has_its_number(events),
        0 <= n < m < events.len(),
        actions[n] is Forget,
    ensures
        actions[m] is Call ==> actions[m]->Call_handler != actions[n]->Forget_handler,
{
    let forgotten = actions[n]->Forget_handler;
    lemma_functions_were_added(tasks, events, actions, n);
    assert(python_step(tasks[n], events[n], tasks[n + 1], actions[n]));
    assert(python_step(tasks[m], events[m], tasks[m + 1], actions[m]));
    match events[n] {
        PythonEvent::Received(Some(PythonRequest::AddFn { name, handler })) => {
            assert(tasks[n].functions@.contains_key(name@));
            let added = choose|i: int| 0 <= i < n && #[trigger] adds(events[i]) == Some(forgotten);
            assert(adds(events[added]) == Some(forgotten));
            assert forall|i: int| n <= i < m implies #[trigger] adds(events[i]) != Some(
                forgotten,
            ) by {
                assert(adds(events[added]) != adds(events[i]));
            }
            assert(adds(events[n]) != Some(forgotten));
            assert forall|other: Seq<char>| #[trigger]
                tasks[n + 1].functions@.contains_key(other) implies tasks[n + 1].functions@[other]
                != forgotten by {
                if other != name@ {
                    assert(tasks[n].functions@.contains_key(other));
                }
            }
            lemma_missing_function_stays_missing(tasks, events, actions, forgotten, n + 1, m);
        },
        _ => {},
    }
}

/// A task that was asked to close, or that nobody can ask any more, does nothing afterwards,
/// and has no function.
pub proof fn law_stopped_task_stays_stopped(
    tasks: Seq<PythonTask>,
    events: Seq<PythonEvent>,
    actions: Seq<PythonAction>,
    n: int,
)
    requires
        python_history(tasks, events, actions),
        0 <= n < events.len(),
        events[n] == PythonEvent::Received(Some(PythonRequest::Close)) || events[n]
            == PythonEvent::Received(None),
    ensures
        actions[n] is Stop,
        tasks[n + 1].functions@ == no_entries(),
        n == events.len() - 1,
{
    assert(python_step(tasks[n], events[n], tasks[n + 1], actions[n]));
    if n + 1 < events.len() {
        assert(tasks[n + 1].expects(events[n + 1]));
    }
}

} // verus!
