//! What holds of an isolate's task from its start to its end.
use tokio::sync::oneshot;
use vstd::prelude::*;

use crate::channels::python_channel_of;
use crate::isolates::isolate_task::isolate_step;
use crate::isolates::isolate_task::starts;
use crate::isolates::isolate_task::IsolateAction;
use crate::isolates::isolate_task::IsolateEvent;
use crate::isolates::isolate_task::IsolatePhase;
use crate::isolates::isolate_task::IsolateTask;
use crate::stack::nothing_shared;
use crate::stack::upgraded;
use crate::stack::WeakItem;
use crate::transmit::tracker_closes;
use crate::transmit::IsolateRequest;
use crate::transmit::IsolateRunResult;
use crate::transmit::IsolateState;

verus! {

/// One step of an isolate's task.
pub struct IsolateMoment {
    pub before: IsolateTask,
    pub event: IsolateEvent,
    pub after: IsolateTask,
    pub action: IsolateAction,
}

/// Between two steps, a task only asks the Python side for functions, always through the same
/// channel.
pub open spec fn resumes(left: IsolateTask, found: IsolateTask) -> bool {
    &&& found.phase == left.phase
    &&& found.state == IsolateState { py_tx: found.state.py_tx, ..left.state }
    &&& python_channel_of(found.state.py_tx) == python_channel_of(left.state.py_tx)
}

/// The steps of an isolate's task from its start on.
pub open spec fn isolate_history(history: Seq<IsolateMoment>) -> bool {
    &&& history.len() > 0 ==> starts(history[0].before)
    &&& forall|i: int|
        #![trigger history[i]]
        0 <= i < history.len() ==> history[i].before.expects(history[i].event) && isolate_step(
            history[i].before,
            history[i].event,
            history[i].after,
            history[i].action,
        )
    &&& forall|i: int, j: int|
        #![trigger history[i], history[j]]
        0 <= i && j == i + 1 && j < history.len() ==> resumes(history[i].after, history[j].before)
}

/// The ways to answer that came with the scripts to run, in their order.
pub open spec fn asked(history: Seq<IsolateMoment>) -> Seq<oneshot::Sender<IsolateRunResult>>
    decreases history.len(),
{
    if history.len() == 0 {
        Seq::empty()
    } else {
        let earlier = asked(history.drop_last());
        match history.last().event {
            IsolateEvent::Received(Some(IsolateRequest::Run { source, reply })) => earlier.push(
                reply,
            ),
            _ => earlier,
        }
    }
}

/// The ways to answer that were used, in their order.
pub open spec fn answered(history: Seq<IsolateMoment>) -> Seq<oneshot::Sender<IsolateRunResult>>
    decreases history.len(),
{
    if history.len() == 0 {
        Seq::empty()
    } else {
        let earlier = answered(history.drop_last());
        match history.last().action {
            IsolateAction::Answer { reply, result } => earlier.push(reply),
            _ => earlier,
        }
    }
}

/// The way to answer for the script that a task is in the middle of.
pub open spec fn pending(task: IsolateTask) -> Seq<oneshot::Sender<IsolateRunResult>> {
    match task.phase {
        IsolatePhase::Compiling { reply } => seq![reply],
        IsolatePhase::Running { reply } => seq![reply],
        IsolatePhase::Attaching { reply } => seq![reply],
        _ => Seq::empty(),
    }
}

/// A task is about to close or closed.
pub open spec fn closes(task: IsolateTask) -> bool {
    task.phase is WaitingTasks || task.phase is Stopped
}

/// Every item that a task's stack still holds belongs to the task's own state.
pub open spec fn owns_its_items(task: IsolateTask) -> bool {
    forall|weak: WeakItem|
        #![trigger upgraded(task.state.stack@, weak)]
        upgraded(task.state.stack@, weak) matches Some(item) ==> item.owner() == task.state.id
}

/// Every script is answered for exactly once, in the order in which they came: what was asked
/// is what was answered and, at most, the one script that the task is in the middle of.
pub proof fn law_every_script_is_answered_once(history: Seq<IsolateMoment>)
    requires
        isolate_history(history),
        history.len() > 0,
    ensures
        asked(history) == answered(history) + pending(history.last().after),
    decreases history.len(),
{
    let earlier = history.drop_last();
    if earlier.len() > 0 {
        assert(isolate_history(earlier)) by {
            assert(forall|i: int| 0 <= i < earlier.len() ==> earlier[i] == history[i]);
        }
        law_every_script_is_answered_once(earlier);
        assert(resumes(history[history.len() - 2].after, history[history.len() - 1].before));
    } else {
        assert(asked(earlier) =~= answered(earlier));
    }
    assert(asked(history) =~= answered(history) + pending(history.last().after));
}

/// While a task waits for a request, it has answered for every script.
pub proof fn law_idle_task_owes_no_answer(history: Seq<IsolateMoment>)
    requires
        isolate_history(history),
        history.len() > 0,
        history.last().after.phase is Idle || closes(history.last().after),
    ensures
        asked(history) == answered(history),
{
    law_every_script_is_answered_once(history);
    assert(answered(history) + pending(history.last().after) =~= answered(history));
}

/// After an answer the microtasks are run exactly if the script did not throw.
pub proof fn law_microtasks_run_unless_thrown(history: Seq<IsolateMoment>, n: int)
    requires
        isolate_history(history),
        0 <= n,
        n + 1 < history.len(),
        history[n].action is Answer,
    ensures
        history[n + 1].event is Answered,
        history[n + 1].action is Checkpoint <==> !(history[n].action->result is Error),
        history[n + 1].action is Receive <==> history[n].action->result is Error,
{
    assert(resumes(history[n].after, history[n + 1].before));
}

/// The microtasks are run only after an answer.
pub proof fn law_microtasks_run_only_after_an_answer(history: Seq<IsolateMoment>, n: int)
    requires
        isolate_history(history),
        0 <= n < history.len(),
        history[n].action is Checkpoint,
    ensures
        n > 0,
        history[n - 1].action is Answer,
        !(history[n - 1].action->result is Error),
{
    if n > 0 {
        assert(resumes(history[n - 1].after, history[n].before));
    }
}

/// An isolate counts as closed exactly from the moment on at which its task begins to close
/// it, and the number of its state never changes.
pub proof fn law_closed_means_closing(history: Seq<IsolateMoment>, n: int)
    requires
        isolate_history(history),
        0 <= n < history.len(),
    ensures
        history[n].before.state.closed <==> closes(history[n].before),
        history[n].after.state.closed <==> closes(history[n].after),
        history[n].after.state.id == history[0].before.state.id,
    decreases n,
{
    if n > 0 {
        law_closed_means_closing(history, n - 1);
        assert(resumes(history[n - 1].after, history[n].before));
    }
}

/// An isolate that was closed stays closed, and its task takes no request any more: all that
/// is left is to wait for the tasks and to stop.
pub proof fn law_closing_is_final(history: Seq<IsolateMoment>, closed: int, later: int)
    requires
        isolate_history(history),
        0 <= closed < later < history.len(),
        history[closed].after.state.closed,
    ensures
        history[later].after.state.closed,
        history[later].action is Stop,
    decreases later,
{
    law_closed_means_closing(history, closed);
    if later > closed + 1 {
        law_closing_is_final(history, closed, later - 1);
    }
    law_closed_means_closing(history, later - 1);
    law_closed_means_closing(history, later);
    assert(resumes(history[later - 1].after, history[later].before));
}

/// A task stops only after its tasks were waited for, and with that it is over.
pub proof fn law_tasks_are_waited_for_before_the_end(history: Seq<IsolateMoment>, n: int)
    requires
        isolate_history(history),
        0 <= n < history.len(),
        history[n].action is Stop,
    ensures
        n >= 1,
        history[n - 1].action is WaitTasks,
        n == history.len() - 1,
{
    if n > 0 {
        assert(resumes(history[n - 1].after, history[n].before));
    }
    if n + 1 < history.len() {
        assert(resumes(history[n].after, history[n + 1].before));
    }
}

/// The tracker of an isolate's tasks is closed once, when the isolate begins to close. So it was
/// closed before its tasks are waited for, and the wait ends with the last of them.
pub proof fn law_tracker_is_closed_before_the_wait(history: Seq<IsolateMoment>, n: int)
    requires
        isolate_history(history),
        0 <= n < history.len(),
    ensures
        tracker_closes(history[n].before.state.tasks) == if closes(history[n].before) {
            1nat
        } else {
            0nat
        },
        tracker_closes(history[n].after.state.tasks) == if closes(history[n].after) {
            1nat
        } else {
            0nat
        },
        history[n].action is WaitTasks ==> tracker_closes(history[n].after.state.tasks) == 1,
    decreases n,
{
    if n > 0 {
        law_tracker_is_closed_before_the_wait(history, n - 1);
        assert(resumes(history[n - 1].after, history[n].before));
    }
}

/// An isolate asks for Python functions through the channel that it was given at its start, and
/// through no other.
pub proof fn law_python_side_stays_the_same(history: Seq<IsolateMoment>, n: int)
    requires
        isolate_history(history),
        0 <= n < history.len(),
    ensures
        python_channel_of(history[n].before.state.py_tx) == python_channel_of(
            history[0].before.state.py_tx,
        ),
        python_channel_of(history[n].after.state.py_tx) == python_channel_of(
            history[0].before.state.py_tx,
        ),
    decreases n,
{
    if n > 0 {
        law_python_side_stays_the_same(history, n - 1);
        assert(resumes(history[n - 1].after, history[n].before));
    }
}

/// Every greeting is answered with the same state, that of the isolate. While it is answered,
/// the isolate is not closed, and it asks the Python side that it was given at its start.
pub proof fn law_every_greeting_tells_the_same_state(history: Seq<IsolateMoment>, n: int)
    requires
        isolate_history(history),
        0 <= n < history.len(),
        history[n].event matches IsolateEvent::Received(Some(IsolateRequest::Hello { .. })),
    ensures
        history[n].event matches IsolateEvent::Received(Some(IsolateRequest::Hello { reply }))
            && history[n].action == (IsolateAction::Greet {
            reply,
            state: history[0].before.state.id,
        }),
        history[n].after.state.id == history[0].before.state.id,
        !history[n].after.state.closed,
        python_channel_of(history[n].after.state.py_tx) == python_channel_of(
            history[0].before.state.py_tx,
        ),
{
    law_closed_means_closing(history, n);
    law_python_side_stays_the_same(history, n);
}

/// An isolate is open until it is asked to close, or until nobody can ask it any more.
pub proof fn law_isolate_is_open_until_asked_to_close(history: Seq<IsolateMoment>, n: int)
    requires
        isolate_history(history),
        0 <= n < history.len(),
        forall|i: int|
            0 <= i <= n ==> !(#[trigger] history[i].event matches IsolateEvent::Received(None))
                && !(history[i].event matches IsolateEvent::Received(Some(IsolateRequest::Close))),
    ensures
        !history[n].after.state.closed,
    decreases n,
{
    if n > 0 {
        law_isolate_is_open_until_asked_to_close(history, n - 1);
        assert(resumes(history[n - 1].after, history[n].before));
    }
}

/// Nobody but the stack of a task holds any of its items.
pub proof fn law_items_are_not_shared(history: Seq<IsolateMoment>, n: int)
    requires
        isolate_history(history),
        0 <= n < history.len(),
    ensures
        nothing_shared(history[n].before.state.stack@),
        nothing_shared(history[n].after.state.stack@),
    decreases n,
{
    if n > 0 {
        law_items_are_not_shared(history, n - 1);
        assert(resumes(history[n - 1].after, history[n].before));
    }
}

/// The stack of a task that stopped holds nothing.
pub proof fn law_stopped_task_holds_nothing(
    history: Seq<IsolateMoment>,
    n: int,
    weak: WeakItem,
)
    requires
        isolate_history(history),
        0 <= n < history.len(),
        history[n].action is Stop,
    ensures
        upgraded(history[n].after.state.stack@, weak) is None,
{
    law_items_are_not_shared(history, n);
}

/// What a function refers to is held from the moment it was added until the task stops.
pub proof fn law_items_are_held_until_the_end(
    history: Seq<IsolateMoment>,
    earlier: int,
    later: int,
    weak: WeakItem,
)
    requires
        isolate_history(history),
        0 <= earlier <= later < history.len(),
        upgraded(history[earlier].after.state.stack@, weak) is Some,
        !(history[later].after.phase is Stopped),
    ensures
        upgraded(history[later].after.state.stack@, weak) == upgraded(
            history[earlier].after.state.stack@,
            weak,
        ),
    decreases later,
{
    if earlier < later {
        assert(resumes(history[later - 1].after, history[later].before));
        law_items_are_held_until_the_end(history, earlier, later - 1, weak);
    }
}

/// The reference with which a function is installed stands for an item that has the function's
/// name and belongs to the isolate.
pub proof fn law_installed_function_finds_its_name(history: Seq<IsolateMoment>, n: int)
    requires
        isolate_history(history),
        0 <= n < history.len(),
        history[n].action is Install,
    ensures
        history[n].event matches IsolateEvent::Received(Some(IsolateRequest::AddFn { name }))
            && upgraded(history[n].after.state.stack@, history[n].action->function) matches Some(
            item,
        ) && item.text() == name@ && item.owner() == history[n].after.state.id,
        history[n].action->name@ == upgraded(
            history[n].after.state.stack@,
            history[n].action->function,
        )->0.text(),
{
}

/// Whatever a task's stack holds belongs to the task's own state.
pub proof fn law_items_belong_to_their_isolate(history: Seq<IsolateMoment>, n: int)
    requires
        isolate_history(history),
        0 <= n < history.len(),
    ensures
        owns_its_items(history[n].before),
        owns_its_items(history[n].after),
    decreases n,
{
    if n > 0 {
        law_items_belong_to_their_isolate(history, n - 1);
        assert(resumes(history[n - 1].after, history[n].before));
    }
    let before = history[n].before;
    let after = history[n].after;
    assert(owns_its_items(before));
    assert forall|weak: WeakItem|
        #![trigger upgraded(after.state.stack@, weak)]
        upgraded(after.state.stack@, weak) is Some implies upgraded(
        after.state.stack@,
        weak,
    )->0.owner() == after.state.id by {
        assert(upgraded(before.state.stack@, weak) matches Some(item) ==> item.owner()
            == before.state.id);
    }
}

} // verus!
