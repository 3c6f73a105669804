//! The tokio channels that carry requests, and what is relied on of them.
use tokio::sync::mpsc::UnboundedReceiver;
use tokio::sync::mpsc::UnboundedSender;
use tokio::sync::oneshot;
use vstd::prelude::*;

use crate::transmit::IsolateRequest;
use crate::transmit::PythonRequest;

verus! {

/// Declares tokio's [`UnboundedSender`], a handle that puts messages into a channel.
#[verifier::external_type_specification]
#[verifier::external_body]
#[verifier::reject_recursive_types(T)]
pub struct ExUnboundedSender<T>(UnboundedSender<T>);

/// Declares tokio's [`UnboundedReceiver`], the handle that takes messages out of a channel.
#[verifier::external_type_specification]
#[verifier::external_body]
#[verifier::reject_recursive_types(T)]
pub struct ExUnboundedReceiver<T>(UnboundedReceiver<T>);

/// Declares tokio's [`oneshot::Sender`], which answers a request once.
#[verifier::external_type_specification]
#[verifier::external_body]
#[verifier::reject_recursive_types(T)]
pub struct ExOneshotSender<T>(oneshot::Sender<T>);

/// Declares tokio's [`oneshot::Receiver`], which waits for the one answer.
#[verifier::external_type_specification]
#[verifier::external_body]
#[verifier::reject_recursive_types(T)]
pub struct ExOneshotReceiver<T>(oneshot::Receiver<T>);

/// Declares tokio's [`oneshot::error::RecvError`]: the sender went away without an answer.
#[verifier::external_type_specification]
#[verifier::external_body]
pub struct ExRecvError(oneshot::error::RecvError);

pub type IsolateTx = UnboundedSender<IsolateRequest>;

pub type IsolateRx = UnboundedReceiver<IsolateRequest>;

pub type PythonTx = UnboundedSender<PythonRequest>;

pub type PythonRx = UnboundedReceiver<PythonRequest>;

/// The requests that were handed to the isolate through this very handle, oldest first,
/// each with whether the channel took it.
pub uninterp spec fn isolate_sends(sender: UnboundedSender<IsolateRequest>) -> Seq<
    (IsolateRequest, bool),
>;

/// The requests that were handed to the Python side through this very handle, oldest first,
/// each with whether the channel took it.
pub uninterp spec fn python_sends(sender: UnboundedSender<PythonRequest>) -> Seq<
    (PythonRequest, bool),
>;

/// Which channel a handle sends into. Handles on one channel have the same number.
pub uninterp spec fn isolate_channel_of(sender: UnboundedSender<IsolateRequest>) -> int;

/// Which channel a handle sends into. Handles on one channel have the same number.
pub uninterp spec fn python_channel_of(sender: UnboundedSender<PythonRequest>) -> int;

/// Which channel a handle receives from.
pub uninterp spec fn isolate_channel_at(receiver: UnboundedReceiver<IsolateRequest>) -> int;

/// Which channel a handle receives from.
pub uninterp spec fn python_channel_at(receiver: UnboundedReceiver<PythonRequest>) -> int;

/// Between `before` and `after` one more message was handed over, `message`; the rest stands.
pub open spec fn offered<M>(
    before: Seq<(M, bool)>,
    after: Seq<(M, bool)>,
    message: M,
) -> bool {
    after == before.push((message, last_taken(after)))
}

/// Whether the channel took the message that was handed over last.
pub open spec fn last_taken<M>(sends: Seq<(M, bool)>) -> bool {
    sends.last().1
}

/// The text of tokio's `SendError` and of its `RecvError`.
pub open spec fn channel_closed() -> Seq<char> {
    "channel closed"@
}

/// A message that a channel did not take, and why.
#[derive(Debug)]
pub struct Refused<M> {
    pub message: M,
    pub reason: String,
}

/// `sent` is what a channel says of `message`: that it took it, or the message itself and that
/// the channel is closed.
pub open spec fn took_or_refused<M>(message: M, sent: Result<(), Refused<M>>) -> bool {
    sent matches Err(refused) ==> refused.message == message && refused.reason@
        == channel_closed()
}

/// Calls tokio's `mpsc::unbounded_channel`: the two ends of one channel. Nothing has been sent
/// through the new handle.
#[verifier::external_body]
pub(crate) fn isolate_channel() -> (ends: (UnboundedSender<IsolateRequest>, UnboundedReceiver<
    IsolateRequest,
>))
    ensures
        isolate_sends(ends.0) == Seq::<(IsolateRequest, bool)>::empty(),
        isolate_channel_at(ends.1) == isolate_channel_of(ends.0),
{
    tokio::sync::mpsc::unbounded_channel()
}

/// Calls tokio's `mpsc::unbounded_channel`: the two ends of one channel. Nothing has been sent
/// through the new handle.
#[verifier::external_body]
pub(crate) fn python_channel() -> (ends: (UnboundedSender<PythonRequest>, UnboundedReceiver<
    PythonRequest,
>))
    ensures
        python_sends(ends.0) == Seq::<(PythonRequest, bool)>::empty(),
        python_channel_at(ends.1) == python_channel_of(ends.0),
{
    tokio::sync::mpsc::unbounded_channel()
}

/// Calls `clone` of tokio's `UnboundedSender`: another handle on the same channel, through
/// which nothing has been sent yet.
#[verifier::external_body]
pub(crate) fn another_isolate_sender(sender: &UnboundedSender<IsolateRequest>) -> (other:
    UnboundedSender<IsolateRequest>)
    ensures
        isolate_sends(other) == Seq::<(IsolateRequest, bool)>::empty(),
        isolate_channel_of(other) == isolate_channel_of(*sender),
{
    sender.clone()
}

/// Calls `clone` of tokio's `UnboundedSender`: another handle on the same channel, through
/// which nothing has been sent yet.
#[verifier::external_body]
pub(crate) fn another_python_sender(sender: &UnboundedSender<PythonRequest>) -> (other:
    UnboundedSender<PythonRequest>)
    ensures
        python_sends(other) == Seq::<(PythonRequest, bool)>::empty(),
        python_channel_of(other) == python_channel_of(*sender),
{
    sender.clone()
}

/// Calls `send` of tokio's `UnboundedSender`. The request is handed to the channel, which
/// takes it or, once the receiver is closed, gives it back with the error `channel closed`.
/// Whether the receiver is still there rests with the other task, so it is not claimed.
#[verifier::external_body]
pub(crate) fn send_to_isolate(
    sender: &mut UnboundedSender<IsolateRequest>,
    request: IsolateRequest,
) -> (sent: Result<(), Refused<IsolateRequest>>)
    ensures
        isolate_sends(*final(sender)) == isolate_sends(*old(sender)).push((request, sent is Ok)),
        isolate_channel_of(*final(sender)) == isolate_channel_of(*old(sender)),
        took_or_refused(request, sent),
{
    sender.send(request).map_err(
        |error| Refused { reason: error.to_string(), message: error.0 },
    )
}

/// Calls `send` of tokio's `UnboundedSender`. The request is handed to the channel, which
/// takes it or, once the receiver is closed, gives it back with the error `channel closed`.
/// Whether the receiver is still there rests with the other task, so it is not claimed.
#[verifier::external_body]
pub(crate) fn send_to_python(
    sender: &mut UnboundedSender<PythonRequest>,
    request: PythonRequest,
) -> (sent: Result<(), Refused<PythonRequest>>)
    ensures
        python_sends(*final(sender)) == python_sends(*old(sender)).push((request, sent is Ok)),
        python_channel_of(*final(sender)) == python_channel_of(*old(sender)),
        took_or_refused(request, sent),
{
    sender.send(request).map_err(
        |error| Refused { reason: error.to_string(), message: error.0 },
    )
}

/// Calls `to_string` on tokio's `oneshot::error::RecvError`, whose text is `channel closed`.
#[verifier::external_body]
pub(crate) fn recv_error_text(error: &oneshot::error::RecvError) -> (text: String)
    ensures
        text@ == channel_closed(),
{
    error.to_string()
}

} // verus!
