//! What the operations on an isolate are for, stated of every call of them.
use tokio::sync::oneshot;
use vstd::prelude::*;

use crate::bridging::value::PyValue;
use crate::channels::isolate_channel_of;
use crate::channels::isolate_sends;
use crate::channels::python_channel_of;
use crate::channels::python_sends;
use crate::error::PyError;
use crate::isolates::isolate::PyIsolate;
use crate::isolates::isolate::PyIsolateCreateValue;
use crate::isolates::isolate::RunCall;
use crate::isolates::isolate::RunStep;
use crate::transmit::IsolateRequest;
use crate::transmit::IsolateRunResult;
use crate::transmit::IsolateState;
use crate::transmit::ObscuredGlobal;
use crate::transmit::PythonRequest;

verus! {

/// A value is created exactly if the engine makes it, and is then what the engine made of it.
/// Only a string can fail, if the engine declines it.
pub proof fn law_value_fails_only_if_declined<
    F: FnOnce(PyIsolateCreateValue) -> Option<ObscuredGlobal>,
>(isolate: &PyIsolate, cv: PyIsolateCreateValue, make: F, result: Result<ObscuredGlobal, PyError>)
    requires
        call_ensures(PyIsolate::create_value::<F>, (isolate, cv, make), result),
    ensures
        result matches Ok(value) ==> make.ensures((cv,), Some(value)),
        result is Err ==> cv is String && make.ensures((cv,), None),
        result matches Err(error) ==> (error matches PyError::Runtime(message) && message@
            == "failed to create string"@),
{
}

/// A request to an isolate is refused exactly if the isolate is closed.
pub proof fn law_closed_isolate_is_told(
    isolate: &PyIsolate,
    state: &IsolateState,
    result: Result<(), PyError>,
)
    requires
        call_ensures(PyIsolate::check_closed, (isolate, state), result),
    ensures
        result is Ok == !state.closed,
        result matches Err(error) ==> (error matches PyError::Runtime(message) && message@
            == "isolate is closed"@),
{
}

/// A function that is added is told to both sides under the same name: the last request that
/// the isolate was handed and the last one that the Python side was handed have exactly the
/// characters of the given name, and the latter has the given function. Each side was handed
/// that one request more.
pub proof fn law_added_function_has_one_name(
    isolate: &mut PyIsolate,
    state: &IsolateState,
    name: String,
    func: u64,
)
    requires
        call_ensures(PyIsolate::py_add_fn, (isolate, state, name, func), Ok(())),
    ensures
        isolate_sends(final(isolate).isolate_tx).drop_last() == isolate_sends(
            old(isolate).isolate_tx,
        ),
        isolate_sends(final(isolate).isolate_tx).len() == isolate_sends(
            old(isolate).isolate_tx,
        ).len() + 1,
        isolate_sends(final(isolate).isolate_tx).last() matches (
            IsolateRequest::AddFn { name: told },
            taken,
        ) && told@ == name@ && taken,
        python_sends(final(isolate).python_tx).drop_last() == python_sends(
            old(isolate).python_tx,
        ),
        python_sends(final(isolate).python_tx).len() == python_sends(old(isolate).python_tx).len()
            + 1,
        python_sends(final(isolate).python_tx).last() matches (
            PythonRequest::AddFn { name: told, handler },
            taken,
        ) && told@ == name@ && handler == func && taken,
        !state.closed,
        final(isolate).state == old(isolate).state,
        isolate_channel_of(final(isolate).isolate_tx) == isolate_channel_of(
            old(isolate).isolate_tx,
        ),
        python_channel_of(final(isolate).python_tx) == python_channel_of(old(isolate).python_tx),
{
    assert(isolate_sends(final(isolate).isolate_tx).drop_last() =~= isolate_sends(
        old(isolate).isolate_tx,
    ));
    assert(python_sends(final(isolate).python_tx).drop_last() =~= python_sends(
        old(isolate).python_tx,
    ));
}

/// Adding a function fails only if the isolate is closed, and then nothing is sent, or if one of
/// the two channels did not take its request, and then the Python side is asked only if the
/// isolate's channel took the name.
pub proof fn law_function_is_not_added_only_if_refused(
    isolate: &mut PyIsolate,
    state: &IsolateState,
    name: String,
    func: u64,
    error: PyError,
)
    requires
        call_ensures(PyIsolate::py_add_fn, (isolate, state, name, func), Err(error)),
    ensures
        state.closed ==> *final(isolate) == *old(isolate) && (
        error matches PyError::Runtime(message) && message@ == "isolate is closed"@),
        !state.closed ==> {
            &&& isolate_sends(final(isolate).isolate_tx).drop_last() == isolate_sends(
                old(isolate).isolate_tx,
            )
            &&& isolate_sends(final(isolate).isolate_tx).len() == isolate_sends(
                old(isolate).isolate_tx,
            ).len() + 1
            &&& (isolate_sends(final(isolate).isolate_tx).last().0 matches IsolateRequest::AddFn {
                name: told,
            } && told@ == name@)
        },
        !state.closed && !isolate_sends(final(isolate).isolate_tx).last().1 ==> {
            &&& python_sends(final(isolate).python_tx) == python_sends(old(isolate).python_tx)
            &&& (error matches PyError::Runtime(message) && message@
                == "failed to send isolate add function request, reason: "@ + "channel closed"@)
        },
        !state.closed && isolate_sends(final(isolate).isolate_tx).last().1 ==> {
            &&& python_sends(final(isolate).python_tx).drop_last() == python_sends(
                old(isolate).python_tx,
            )
            &&& python_sends(final(isolate).python_tx).len() == python_sends(
                old(isolate).python_tx,
            ).len() + 1
            &&& (python_sends(final(isolate).python_tx).last() matches (
                PythonRequest::AddFn { name: told, handler },
                taken,
            ) && told@ == name@ && handler == func && !taken)
            &&& (error matches PyError::Runtime(message) && message@
                == "failed to send python add function handler request, reason: "@
                + "channel closed"@
                + "\nit is also possible that python-side handling is disabled with `no_python=True` during the creation of this isolate"@)
        },
{
    assert(!state.closed ==> isolate_sends(final(isolate).isolate_tx).drop_last() =~= isolate_sends(
        old(isolate).isolate_tx,
    ));
    assert(!state.closed && isolate_sends(final(isolate).isolate_tx).last().1 ==> python_sends(
        final(isolate).python_tx,
    ).drop_last() =~= python_sends(old(isolate).python_tx));
}

/// Every open isolate runs every script: the isolate is handed the whole source, character for
/// character, once, and the given way to answer.
pub proof fn law_script_is_handed_over_whole(
    isolate: &PyIsolate,
    state: &IsolateState,
    source: String,
    started: Result<RunCall, PyError>,
    call: &mut RunCall,
    reply: oneshot::Sender<IsolateRunResult>,
    result: Result<(), PyError>,
)
    requires
        call_ensures(PyIsolate::py_run, (isolate, state, source), started),
        started matches Ok(run) ==> run == *old(call) && call_ensures(
            RunCall::send,
            (call, reply),
            result,
        ),
    ensures
        started is Ok == !state.closed,
        started matches Err(error) ==> (error matches PyError::Runtime(message) && message@
            == "isolate is closed"@),
        started is Ok ==> {
            &&& isolate_channel_of(final(call).isolate_tx) == isolate_channel_of(
                isolate.isolate_tx,
            )
            &&& isolate_sends(final(call).isolate_tx).len() == 1
            &&& (isolate_sends(final(call).isolate_tx)[0].0 matches IsolateRequest::Run {
                source: text,
                reply: to,
            } && text@ == source@ && to == reply)
            &&& result is Ok == isolate_sends(final(call).isolate_tx)[0].1
            &&& result matches Err(error) ==> (error matches PyError::Runtime(message) && message@
                == "failed to send isolate run request, reason: "@ + "channel closed"@)
        },
{
}

/// What the isolate answers for a script is what the script gives: its value, its promise to
/// wait for, or its error, each as it came. Without an answer it is an error.
pub proof fn law_answer_is_passed_on(
    received: Result<IsolateRunResult, oneshot::error::RecvError>,
    step: RunStep,
)
    requires
        call_ensures(RunCall::replied, (received,), step),
    ensures
        received matches Ok(IsolateRunResult::Value(value)) ==> (step matches RunStep::Done(
            Ok(given),
        ) && given == value),
        received matches Ok(IsolateRunResult::Promise { data, receiver }) ==> (
        step matches RunStep::AwaitPromise { data: kept, receiver: awaited } && kept == data
            && awaited == receiver),
        received matches Ok(IsolateRunResult::Error(error)) ==> (step matches RunStep::Done(
            Err(raised),
        ) && raised == error),
        received is Err ==> (step matches RunStep::Done(Err(PyError::Runtime(message))) && message@
            == "failed to receive isolate run response, reason: "@ + "channel closed"@),
{
}

/// The value of a promise is what the script gives in the end. A promise that is given up is an
/// error.
pub proof fn law_promise_gives_its_value(
    received: Result<PyValue, oneshot::error::RecvError>,
    result: Result<PyValue, PyError>,
)
    requires
        call_ensures(RunCall::settled, (received,), result),
    ensures
        received matches Ok(value) ==> (result matches Ok(given) && given == value),
        received is Err ==> (result matches Err(PyError::Runtime(message)) && message@
            == "failed to receive future result from js isolate, reason: "@ + "channel closed"@),
{
}

/// Closing hands each of the two sides the request to close, and nothing else.
pub proof fn law_close_is_told_to_both_sides(isolate: &mut PyIsolate)
    requires
        call_ensures(PyIsolate::close, (isolate,), ()),
    ensures
        isolate_sends(final(isolate).isolate_tx).drop_last() == isolate_sends(
            old(isolate).isolate_tx,
        ),
        isolate_sends(final(isolate).isolate_tx).len() == isolate_sends(
            old(isolate).isolate_tx,
        ).len() + 1,
        isolate_sends(final(isolate).isolate_tx).last().0 is Close,
        python_sends(final(isolate).python_tx).drop_last() == python_sends(
            old(isolate).python_tx,
        ),
        python_sends(final(isolate).python_tx).len() == python_sends(old(isolate).python_tx).len()
            + 1,
        python_sends(final(isolate).python_tx).last().0 is Close,
        final(isolate).state == old(isolate).state,
        isolate_channel_of(final(isolate).isolate_tx) == isolate_channel_of(
            old(isolate).isolate_tx,
        ),
        python_channel_of(final(isolate).python_tx) == python_channel_of(old(isolate).python_tx),
{
    assert(isolate_sends(final(isolate).isolate_tx).drop_last() =~= isolate_sends(
        old(isolate).isolate_tx,
    ));
    assert(python_sends(final(isolate).python_tx).drop_last() =~= python_sends(
        old(isolate).python_tx,
    ));
}

/// Functions can be added and scripts run on every isolate, by any name and of any source, with
/// the state that belongs to the isolate.
pub proof fn law_isolate_can_be_asked_anything(
    isolate: &mut PyIsolate,
    state: &IsolateState,
    name: String,
    func: u64,
    source: String,
)
    requires
        state.id == old(isolate).state,
    ensures
        call_requires(PyIsolate::py_add_fn, (isolate, state, name, func)),
        call_requires(PyIsolate::py_run, (old(isolate), state, source)),
        call_requires(PyIsolate::check_closed, (old(isolate), state)),
        call_requires(PyIsolate::close, (isolate,)),
{
}

} // verus!
