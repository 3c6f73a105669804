//! What holds of all the isolates that are created.
use tokio::sync::oneshot;
use vstd::prelude::*;

use crate::channels::isolate_channel_at;
use crate::channels::isolate_channel_of;
use crate::channels::isolate_sends;
use crate::channels::python_channel_at;
use crate::channels::python_channel_of;
use crate::channels::python_sends;
use crate::error::PyError;
use crate::isolates::isolate_history::isolate_history;
use crate::isolates::isolate_history::law_closed_means_closing;
use crate::isolates::isolate_history::law_python_side_stays_the_same;
use crate::isolates::isolate_history::IsolateMoment;
use crate::isolates::numbers_isolate;
use crate::isolates::session::EnterStep;
use crate::isolates::session::PyIsolateSession;
use crate::isolates::CreatedIsolate;
use crate::isolates::IsolateCreation;
use crate::isolates::OpenedIsolate;
use crate::isolates::PyIsolates;
use crate::transmit::IsolateRequest;

verus! {

/// The isolates that are opened one after the other, and what keeps their numbers in between.
pub open spec fn creation_history(isolates: Seq<PyIsolates>, opened: Seq<OpenedIsolate>) -> bool {
    &&& isolates.len() == opened.len() + 1
    &&& forall|i: int|
        #![trigger opened[i]]
        0 <= i < opened.len() ==> numbers_isolate(isolates[i], opened[i], isolates[i + 1])
}

/// `history` is that of a task that was started with the number and the handle that were opened
/// for it.
pub open spec fn runs(history: Seq<IsolateMoment>, opened: OpenedIsolate) -> bool {
    &&& isolate_history(history)
    &&& history.len() > 0
    &&& history[0].before.state.id == opened.state
    &&& history[0].before.state.py_tx == opened.isolate_python_tx
}

/// Numbers only grow.
proof fn lemma_numbers_grow(
    isolates: Seq<PyIsolates>,
    opened: Seq<OpenedIsolate>,
    earlier: int,
    later: int,
)
    requires
        creation_history(isolates, opened),
        0 <= earlier < later < opened.len(),
    ensures
        opened[earlier].state < opened[later].state,
    decreases later,
{
    assert(numbers_isolate(isolates[later - 1], opened[later - 1], isolates[later - 1 + 1]));
    assert(numbers_isolate(isolates[later], opened[later], isolates[later + 1]));
    if earlier + 1 < later {
        lemma_numbers_grow(isolates, opened, earlier, later - 1);
    }
}

/// Two isolates that are created never have the same number.
pub proof fn law_isolates_have_different_numbers(
    isolates: Seq<PyIsolates>,
    opened: Seq<OpenedIsolate>,
    one: int,
    other: int,
)
    requires
        creation_history(isolates, opened),
        0 <= one < opened.len(),
        0 <= other < opened.len(),
        one != other,
    ensures
        opened[one].state != opened[other].state,
{
    if one < other {
        lemma_numbers_grow(isolates, opened, one, other);
    } else {
        lemma_numbers_grow(isolates, opened, other, one);
    }
}

/// Two isolates that are created never share a state: whatever happened to each of them, their
/// states have different numbers, and so have the answers to their greetings. So closing one
/// does not close the other.
pub proof fn law_isolates_have_their_own_states(
    isolates: Seq<PyIsolates>,
    opened: Seq<OpenedIsolate>,
    one: int,
    other: int,
    history: Seq<IsolateMoment>,
    other_history: Seq<IsolateMoment>,
    n: int,
    m: int,
)
    requires
        creation_history(isolates, opened),
        0 <= one < opened.len(),
        0 <= other < opened.len(),
        one != other,
        runs(history, opened[one]),
        runs(other_history, opened[other]),
        0 <= n < history.len(),
        0 <= m < other_history.len(),
    ensures
        history[n].after.state.id != other_history[m].after.state.id,
        history[n].action is Greet && other_history[m].action is Greet
            ==> history[n].action->state != other_history[m].action->state,
{
    law_isolates_have_different_numbers(isolates, opened, one, other);
    law_closed_means_closing(history, n);
    law_closed_means_closing(other_history, m);
}

/// Whatever happens to an isolate, it asks for Python functions through the channel that its own
/// Python task receives from.
pub proof fn law_isolate_asks_its_own_python_task(
    opened: OpenedIsolate,
    history: Seq<IsolateMoment>,
    n: int,
)
    requires
        python_channel_at(opened.python_rx) == python_channel_of(opened.isolate_python_tx),
        runs(history, opened),
        0 <= n < history.len(),
    ensures
        python_channel_of(history[n].before.state.py_tx) == python_channel_at(opened.python_rx),
        python_channel_of(history[n].after.state.py_tx) == python_channel_at(opened.python_rx),
{
    law_python_side_stays_the_same(history, n);
}

/// An isolate that is opened has its two tasks connected, with nothing sent yet: the task of the
/// isolate receives what its creator sends, and the Python task what the creator and the isolate
/// send. The next isolate has a higher number.
pub proof fn law_opened_isolate_is_connected(
    isolates: &mut PyIsolates,
    no_python: bool,
    opened: OpenedIsolate,
    later: &mut PyIsolates,
    other_no_python: bool,
    other: OpenedIsolate,
)
    requires
        call_ensures(PyIsolates::py_create_isolate, (isolates, no_python), opened),
        *old(later) == *final(isolates),
        call_ensures(PyIsolates::py_create_isolate, (later, other_no_python), other),
    ensures
        opened.creation.no_python == no_python,
        isolate_channel_at(opened.isolate_rx) == isolate_channel_of(opened.creation.isolate_tx),
        python_channel_at(opened.python_rx) == python_channel_of(opened.creation.python_tx),
        python_channel_at(opened.python_rx) == python_channel_of(opened.isolate_python_tx),
        isolate_sends(opened.creation.isolate_tx).len() == 0,
        python_sends(opened.creation.python_tx).len() == 0,
        python_sends(opened.isolate_python_tx).len() == 0,
        opened.state < other.state,
{
}

/// Isolates can be created one after the other from the start on.
pub proof fn law_isolates_can_be_created(isolates: &mut PyIsolates, no_python: bool)
    requires
        call_ensures(PyIsolates::new, (), *old(isolates)) || old(isolates).next < u64::MAX,
    ensures
        call_requires(PyIsolates::py_create_isolate, (isolates, no_python)),
{
}

/// An isolate is greeted once, with the given way to answer, and what it answers is the state
/// that the creator knows from then on, with the same ways to the two tasks. A Python task is
/// started exactly if one is wanted.
pub proof fn law_greeted_isolate_has_the_answered_state(
    creation: &mut IsolateCreation,
    reply: oneshot::Sender<u64>,
    state: u64,
    result: Result<CreatedIsolate, PyError>,
)
    requires
        call_ensures(IsolateCreation::greet, (creation, reply), Ok(())),
        call_ensures(IsolateCreation::greeted, (*final(creation), Ok(state)), result),
    ensures
        isolate_sends(final(creation).isolate_tx).len() == isolate_sends(
            old(creation).isolate_tx,
        ).len() + 1,
        isolate_sends(final(creation).isolate_tx).last() matches (
            IsolateRequest::Hello { reply: to },
            taken,
        ) && to == reply && taken,
        result matches Ok(created) && created.isolate.state == state && created.start_python
            == !old(creation).no_python && isolate_channel_of(created.isolate.isolate_tx)
            == isolate_channel_of(old(creation).isolate_tx) && python_channel_of(
            created.isolate.python_tx,
        ) == python_channel_of(old(creation).python_tx),
{
}

/// A creation fails if the isolate does not take the greeting, or does not answer it, each with
/// its own error.
pub proof fn law_unanswered_creation_fails(
    creation: &mut IsolateCreation,
    reply: oneshot::Sender<u64>,
    sent: Result<(), PyError>,
    error: oneshot::error::RecvError,
    result: Result<CreatedIsolate, PyError>,
)
    requires
        call_ensures(IsolateCreation::greet, (creation, reply), sent),
        call_ensures(IsolateCreation::greeted, (*final(creation), Err(error)), result),
    ensures
        sent is Ok == isolate_sends(final(creation).isolate_tx).last().1,
        sent matches Err(refused) ==> (refused matches PyError::Runtime(message) && message@
            == "failed to send initial handshake, reason: "@ + "channel closed"@),
        result matches Err(PyError::Runtime(message)) && message@
            == "failed to read initial handshake response, reason: "@ + "channel closed"@,
{
}

/// A session that the isolates give is a new one: it has to have an isolate created first.
pub proof fn law_given_session_is_new(
    isolates: &PyIsolates,
    session: PyIsolateSession,
    entered: EnterStep,
)
    requires
        call_ensures(PyIsolates::isolate_session, (isolates,), session),
        call_ensures(PyIsolateSession::__aenter__, (&session,), entered),
    ensures
        entered matches EnterStep::Create { no_python } && !no_python,
{
}

} // verus!
