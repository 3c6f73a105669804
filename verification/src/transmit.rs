//! What passes between Python and the isolate, and the state that they share.
use tokio::sync::mpsc::UnboundedSender;
use tokio::sync::oneshot;
use tokio_util::task::TaskTracker;
use vstd::prelude::*;
use vstd::string::StringExecFns;

use crate::bridging::value::PyValue;
use crate::channels::python_channel_of;
use crate::channels::python_sends;
use crate::channels::send_to_python;
use crate::error::PyError;
use crate::stack::emptied;
use crate::stack::upgraded;
use crate::stack::ArcStack;
use crate::stack::ArcStackItem;
use crate::stack::Place;
use crate::stack::WeakItem;
use crate::text::hex;
use crate::text::hex_text;
use crate::text::lemma_hex_is_injective;
use crate::text::lemma_hex_stands_for_its_number;
use crate::text::plain_digits;
use crate::text::worth;

verus! {

/// A handle on a value of the engine, by the address of its root. It is neither copied nor
/// dropped by itself: whoever holds it last has to free the root.
#[derive(Debug)]
pub struct ObscuredGlobal {
    address: usize,
}

impl View for ObscuredGlobal {
    type V = usize;

    closed spec fn view(&self) -> usize {
        self.address
    }
}

impl ObscuredGlobal {
    #[verifier::type_invariant]
    spec fn not_null(self) -> bool {
        self.address != 0
    }

    /// A handle on the root at the given address.
    pub fn new(address: usize) -> (global: ObscuredGlobal)
        requires
            address != 0,
        ensures
            global@ == address,
    {
        ObscuredGlobal { address }
    }

    /// Gives the root up to the caller.
    #[must_use]
    pub fn take(self) -> (address: usize)
        ensures
            address == self@,
            address != 0,
    {
        proof {
            use_type_invariant(&self);
        }
        self.address
    }

    /// Lets `f` look at the root, and keeps it.
    #[must_use]
    pub fn with<R, F: FnOnce(usize) -> R>(&self, f: F) -> (result: R)
        requires
            f.requires((self@,)),
        ensures
            f.ensures((self@,), result),
    {
        f(self.address)
    }

    /// The address as a pointer is printed.
    pub fn to_string(&self) -> (text: String)
        ensures
            text@ == pointer_text(self@),
    {
        let mut text: String = "0x".to_owned();
        text.append(hex_text(self.address).as_str());
        text
    }
}

/// The way in which an address is printed.
pub open spec fn pointer_text(address: usize) -> Seq<char> {
    "0x"@ + hex(address as nat)
}

/// Different addresses are printed differently.
pub proof fn law_pointer_text_tells_addresses_apart(a: usize, b: usize)
    requires
        pointer_text(a) == pointer_text(b),
    ensures
        a == b,
{
    let prefix = "0x"@;
    assert(pointer_text(a).skip(prefix.len() as int) =~= hex(a as nat));
    assert(pointer_text(b).skip(prefix.len() as int) =~= hex(b as nat));
    lemma_hex_is_injective(a as nat, b as nat);
}

/// What became of a script.
#[derive(Debug)]
pub enum IsolateRunResult {
    /// The script returned a value.
    Value(PyValue),
    /// The script returned a promise. Its value arrives at `receiver`, for which the isolate
    /// keeps something under the number `data`.
    Promise { data: u64, receiver: oneshot::Receiver<PyValue> },
    /// The script threw an error.
    Error(PyError),
}

/// What an isolate is asked to do.
#[derive(Debug)]
#[allow(inconsistent_fields)]
pub enum IsolateRequest {
    /// Say that the isolate is there, with the number of its state.
    Hello { reply: oneshot::Sender<u64> },
    /// Run Javascript code.
    Run { source: String, reply: oneshot::Sender<IsolateRunResult> },
    /// Add a runnable Python function.
    AddFn { name: String },
    /// Close the isolate.
    Close,
}

/// What the Python side is asked to do.
#[derive(Debug)]
pub enum PythonRequest {
    /// Add a new Python function; `handler` is its number, which is used for no other request.
    AddFn { name: String, handler: u64 },
    /// Run a Python function asynchronously.
    RunFn { name: String, args: PyValue, reply: oneshot::Sender<ObscuredGlobal> },
    /// Close Python-side handling.
    Close,
}

/// The one answer that a promise gives once it is fulfilled.
#[derive(Debug)]
pub struct PromiseReply {
    /// The number of the state of the isolate that the promise lives in.
    pub state: u64,
    /// The way to answer, until it was used.
    pub sender: Option<oneshot::Sender<PyValue>>,
}

impl PromiseReply {
    /// The answer of a promise that is not fulfilled yet.
    pub fn new(state: u64, sender: oneshot::Sender<PyValue>) -> (reply: PromiseReply)
        ensures
            reply == (PromiseReply { state, sender: Some(sender) }),
    {
        PromiseReply { state, sender: Some(sender) }
    }

    /// The way to answer, and the answer, for a promise that is fulfilled with `value`.
    pub fn fulfil(&mut self, value: ObscuredGlobal) -> (answer: (
        oneshot::Sender<PyValue>,
        PyValue,
    ))
        requires
            old(self).sender is Some,
        ensures
            old(self).sender == Some(answer.0),
            answer.1 == (PyValue { state: old(self).state, data: Some(value) }),
            *final(self) == (PromiseReply { state: old(self).state, sender: None }),
    {
        (self.sender.take().unwrap(), PyValue::new(self.state, value))
    }
}

/// Declares tokio-util's [`TaskTracker`], which keeps track of running tasks.
#[verifier::external_type_specification]
#[verifier::external_body]
pub struct ExTaskTracker(TaskTracker);

/// How often a tracker was closed through this very handle.
pub uninterp spec fn tracker_closes(tracker: TaskTracker) -> nat;

/// Calls `new` of tokio-util's `TaskTracker`. The new handle was not used to close it.
#[verifier::external_body]
fn new_tracker() -> (tracker: TaskTracker)
    ensures
        tracker_closes(tracker) == 0,
{
    TaskTracker::new()
}

/// Calls `close` of tokio-util's `TaskTracker`. Whether the tracker had been closed before,
/// which is what the call returns, rests with the other handles on it and is not claimed.
#[verifier::external_body]
fn close_tracker(tracker: &mut TaskTracker) -> (closed_now: bool)
    ensures
        tracker_closes(*final(tracker)) == tracker_closes(*old(tracker)) + 1,
{
    tracker.close()
}

/// Where the closing of an isolate stands.
#[derive(Clone, Copy, Debug, PartialEq, Eq, Structural)]
pub enum CloseEvent {
    /// It was asked for.
    Begin,
    /// The tasks of the isolate were waited for.
    TasksWaited,
}

/// What has to be done next for an isolate to close.
#[derive(Clone, Copy, Debug, PartialEq, Eq, Structural)]
pub enum CloseAction {
    /// Wait for the tasks of the isolate.
    WaitTasks,
    /// Nothing: the isolate is closed.
    Finished,
}

/// The state of one isolate.
#[derive(Debug)]
pub struct IsolateState {
    /// The number by which the state is found again.
    pub id: u64,
    /// The tasks that wait for Python functions.
    pub tasks: TaskTracker,
    /// The way to the Python side.
    pub py_tx: UnboundedSender<PythonRequest>,
    /// What the added functions refer to.
    pub stack: ArcStack,
    /// Whether closing has begun.
    pub closed: bool,
}

/// `after` is the state `before` of an isolate that begins to close: it counts as closed, and
/// the tracker of its tasks was closed.
pub open spec fn begins_to_close(before: IsolateState, after: IsolateState) -> bool {
    &&& after == IsolateState { closed: true, tasks: after.tasks, ..before }
    &&& tracker_closes(after.tasks) == tracker_closes(before.tasks) + 1
}

/// `after` is the state `before` of an isolate at its end: its stack holds nothing any more.
pub open spec fn finishes(before: IsolateState, after: IsolateState) -> bool {
    &&& after == IsolateState { stack: after.stack, ..before }
    &&& after.stack@ == emptied(before.stack@)
}

impl IsolateState {
    /// The state of a new isolate.
    pub fn new(id: u64, py_tx: UnboundedSender<PythonRequest>) -> (state: IsolateState)
        ensures
            state.id == id,
            tracker_closes(state.tasks) == 0,
            state.py_tx == py_tx,
            state.stack@ == Seq::<Place>::empty(),
            !state.closed,
    {
        IsolateState { id, tasks: new_tracker(), py_tx, stack: ArcStack::new(), closed: false }
    }

    /// Whether closing has begun.
    pub fn is_closed(&self) -> (closed: bool)
        ensures
            closed == self.closed,
    {
        self.closed
    }

    /// Closes the isolate, as far as it goes from one event to the next: it counts as closed
    /// at once, and the tracker of its tasks is closed, without which waiting for them would
    /// not end; then the tasks are waited for, and last the stack is dropped.
    pub fn close(&mut self, event: CloseEvent) -> (action: CloseAction)
        ensures
            match event {
                CloseEvent::Begin => {
                    &&& begins_to_close(*old(self), *final(self))
                    &&& action == CloseAction::WaitTasks
                },
                CloseEvent::TasksWaited => {
                    &&& finishes(*old(self), *final(self))
                    &&& action == CloseAction::Finished
                },
            },
    {
        match event {
            CloseEvent::Begin => {
                self.closed = true;
                let _ = close_tracker(&mut self.tasks);
                CloseAction::WaitTasks
            },
            CloseEvent::TasksWaited => {
                self.stack.drop_all();
                CloseAction::Finished
            },
        }
    }

    /// Asks the Python side to run the function that `function` refers to, and to answer with
    /// `reply`. If nobody is there to ask, the argument comes back.
    pub fn request_function(
        &mut self,
        function: WeakItem,
        args: ObscuredGlobal,
        reply: oneshot::Sender<ObscuredGlobal>,
    ) -> (sent: Result<(), PyValue>)
        requires
            upgraded(old(self).stack@, function) matches Some(item) && item.owner() == old(self).id,
        ensures
            *final(self) == (IsolateState { py_tx: final(self).py_tx, ..*old(self) }),
            python_channel_of(final(self).py_tx) == python_channel_of(old(self).py_tx),
            asks_for_function(
                python_sends(old(self).py_tx),
                python_sends(final(self).py_tx),
                upgraded(old(self).stack@, function)->0.text(),
                PyValue { state: old(self).id, data: Some(args) },
                reply,
                sent is Ok,
            ),
            sent matches Err(back) ==> back == (PyValue { state: old(self).id, data: Some(args) }),
    {
        let name: String = self.stack.upgrade(function).unwrap().name();
        let args: PyValue = PyValue::new(self.id, args);
        match send_to_python(&mut self.py_tx, PythonRequest::RunFn { name, args, reply }) {
            Ok(()) => Ok(()),
            Err(refused) => match refused.message {
                PythonRequest::RunFn { args: back, .. } => Err(back),
                _ => Ok(()),
            },
        }
    }
}

/// One more request went to the Python side: to run the function with the given name.
pub open spec fn asks_for_function(
    before: Seq<(PythonRequest, bool)>,
    after: Seq<(PythonRequest, bool)>,
    function: Seq<char>,
    args: PyValue,
    reply: oneshot::Sender<ObscuredGlobal>,
    taken: bool,
) -> bool {
    &&& after == before.push((after.last().0, taken))
    &&& after.last().0 matches PythonRequest::RunFn { name, args: passed, reply: to }
        && name@ == function && passed == args && to == reply
}

/// A handle gives back the address that it was made with.
pub proof fn law_handle_gives_its_address_back(
    address: usize,
    global: ObscuredGlobal,
    taken: usize,
)
    requires
        call_ensures(ObscuredGlobal::new, (address,), global),
        call_ensures(ObscuredGlobal::take, (global,), taken),
    ensures
        taken == address,
{
}

/// Who looks at a handle is shown the address that the handle gives up in the end.
pub proof fn law_look_is_at_the_address<R, F: FnOnce(usize) -> R>(
    global: ObscuredGlobal,
    f: F,
    result: R,
    taken: usize,
)
    requires
        call_ensures(ObscuredGlobal::with::<R, F>, (&global, f), result),
        call_ensures(ObscuredGlobal::take, (global,), taken),
    ensures
        f.ensures((taken,), result),
{
}

/// A handle is printed as `0x` and the digits that stand for its address.
pub proof fn law_handle_prints_its_address(global: ObscuredGlobal, text: String, taken: usize)
    requires
        call_ensures(ObscuredGlobal::to_string, (&global,), text),
        call_ensures(ObscuredGlobal::take, (global,), taken),
    ensures
        text@.len() >= 3,
        text@[0] == '0',
        text@[1] == 'x',
        plain_digits(text@.skip(2)),
        worth(text@.skip(2)) == taken,
{
    reveal_strlit("0x");
    lemma_hex_stands_for_its_number(taken as nat);
    assert(text@.skip(2) =~= hex(taken as nat));
}

/// A promise that is fulfilled is answered once, through the way to answer that it was made
/// with, and with a value of its isolate whose handle is the one that it was fulfilled with.
pub proof fn law_promise_is_answered_with_its_value(
    state: u64,
    sender: oneshot::Sender<PyValue>,
    reply: &mut PromiseReply,
    value: ObscuredGlobal,
    answer: (oneshot::Sender<PyValue>, PyValue),
)
    requires
        call_ensures(PromiseReply::new, (state, sender), *old(reply)),
        call_ensures(PromiseReply::fulfil, (reply, value), answer),
    ensures
        answer.0 == sender,
        answer.1.state == state,
        answer.1.data == Some(value),
        final(reply).sender is None,
{
}

/// A promise that was not fulfilled can be fulfilled, with any value.
pub proof fn law_new_promise_can_be_fulfilled(
    state: u64,
    sender: oneshot::Sender<PyValue>,
    reply: &mut PromiseReply,
    value: ObscuredGlobal,
)
    requires
        call_ensures(PromiseReply::new, (state, sender), *old(reply)),
    ensures
        call_requires(PromiseReply::fulfil, (reply, value)),
{
}

/// A new isolate has the number and the way to Python that it is given; it is open, none of its
/// references stands for anything, and the tracker of its tasks was not closed.
pub proof fn law_new_state_is_open(
    id: u64,
    py_tx: UnboundedSender<PythonRequest>,
    state: IsolateState,
    closed: bool,
    weak: WeakItem,
    item: Option<&ArcStackItem>,
)
    requires
        call_ensures(IsolateState::new, (id, py_tx), state),
        call_ensures(IsolateState::is_closed, (&state,), closed),
        call_ensures(ArcStack::upgrade, (&state.stack, weak), item),
    ensures
        state.id == id,
        state.py_tx == py_tx,
        !closed,
        item is None,
        tracker_closes(state.tasks) == 0,
{
}

/// An isolate that begins to close counts as closed, has the tracker of its tasks closed once
/// more, and keeps everything else; then its tasks are to be waited for.
pub proof fn law_closing_begins_with_the_tracker(
    state: &mut IsolateState,
    action: CloseAction,
    closed: bool,
)
    requires
        call_ensures(IsolateState::close, (state, CloseEvent::Begin), action),
        call_ensures(IsolateState::is_closed, (final(state),), closed),
    ensures
        closed,
        tracker_closes(final(state).tasks) == tracker_closes(old(state).tasks) + 1,
        final(state).id == old(state).id,
        final(state).py_tx == old(state).py_tx,
        final(state).stack == old(state).stack,
        action == CloseAction::WaitTasks,
{
}

/// An isolate whose tasks were waited for holds none of its items any more, and keeps everything
/// else; then it is closed.
pub proof fn law_closing_ends_with_the_stack(
    state: &mut IsolateState,
    action: CloseAction,
    weak: WeakItem,
    item: Option<&ArcStackItem>,
)
    requires
        call_ensures(IsolateState::close, (state, CloseEvent::TasksWaited), action),
        call_ensures(ArcStack::upgrade, (&final(state).stack, weak), item),
    ensures
        item matches Some(kept) ==> weak.slot < old(state).stack@.len() && (
        old(state).stack@[weak.slot as int] matches Place::Held { item: same, shares, .. } && shares
            > 0 && same == *kept),
        final(state).id == old(state).id,
        final(state).py_tx == old(state).py_tx,
        final(state).tasks == old(state).tasks,
        final(state).closed == old(state).closed,
        action == CloseAction::Finished,
{
}

/// An isolate tells that it is closed exactly if it is.
pub proof fn law_state_tells_whether_it_is_closed(state: &IsolateState, closed: bool)
    requires
        call_ensures(IsolateState::is_closed, (state,), closed),
    ensures
        closed == state.closed,
{
}

/// A function that is asked for is asked for once: the Python side is handed one request more,
/// with the name of the item that the reference stands for, with the argument as a value of the
/// isolate, and with the given way to answer. If it is not taken, the argument comes back.
pub proof fn law_function_is_asked_for_by_its_name(
    state: &mut IsolateState,
    function: WeakItem,
    args: ObscuredGlobal,
    reply: oneshot::Sender<ObscuredGlobal>,
    sent: Result<(), PyValue>,
    item: &ArcStackItem,
    name: String,
)
    requires
        call_ensures(ArcStack::upgrade, (&old(state).stack, function), Some(item)),
        call_ensures(ArcStackItem::name, (item,), name),
        call_ensures(IsolateState::request_function, (state, function, args, reply), sent),
    ensures
        python_sends(final(state).py_tx).len() == python_sends(old(state).py_tx).len() + 1,
        python_sends(final(state).py_tx).drop_last() == python_sends(old(state).py_tx),
        python_sends(final(state).py_tx).last().0 matches PythonRequest::RunFn {
            name: asked,
            args: passed,
            reply: to,
        } && asked@ == name@ && passed.state == old(state).id && passed.data == Some(args) && to
            == reply,
        python_sends(final(state).py_tx).last().1 == (sent is Ok),
        sent matches Err(back) ==> back.state == old(state).id && back.data == Some(args),
        python_channel_of(final(state).py_tx) == python_channel_of(old(state).py_tx),
        final(state).id == old(state).id,
        final(state).tasks == old(state).tasks,
        final(state).stack == old(state).stack,
        final(state).closed == old(state).closed,
{
    assert(python_sends(final(state).py_tx).drop_last() =~= python_sends(old(state).py_tx));
}

/// Every function that an isolate holds can be asked for.
pub proof fn law_held_function_can_be_asked_for(
    state: &mut IsolateState,
    function: WeakItem,
    args: ObscuredGlobal,
    reply: oneshot::Sender<ObscuredGlobal>,
    item: &ArcStackItem,
    owner: u64,
)
    requires
        call_ensures(ArcStack::upgrade, (&old(state).stack, function), Some(item)),
        call_ensures(ArcStackItem::state, (item,), owner),
        owner == old(state).id,
    ensures
        call_requires(IsolateState::request_function, (state, function, args, reply)),
{
}

} // verus!
