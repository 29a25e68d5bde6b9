//! The outside collaborators: flume's channels, which carry envelopes and
//! replies, and async-executor's scheduler, which runs each appliance's loop.
use vstd::prelude::*;

use crate::outcome::{Enqueued, ReplyEvent};

verus! {

#[verifier::external_type_specification]
#[verifier::external_body]
#[verifier::reject_recursive_types(T)]
pub struct ExSender<T>(flume::Sender<T>);

#[verifier::external_type_specification]
#[verifier::external_body]
#[verifier::reject_recursive_types(T)]
pub struct ExReceiver<T>(flume::Receiver<T>);

#[verifier::external_type_specification]
#[verifier::external_body]
pub struct ExExecutor<'a>(async_executor::Executor<'a>);

#[verifier::external_type_specification]
#[verifier::external_body]
#[verifier::reject_recursive_types(T)]
pub struct ExSendError<T>(flume::SendError<T>);

/// Relies on flume's `Sender::clone`: one more sender that shares the same
/// channel.
pub assume_specification<T>[ <flume::Sender<T> as Clone>::clone ](s: &flume::Sender<T>) -> (r: flume::Sender<T>)
    ensures
        r == *s,
;

/// A sender on a channel that `flume::bounded` made, with the bound that the
/// channel was made with.
#[verifier::reject_recursive_types(T)]
pub(crate) struct BoundedSender<T> {
    pub(crate) sender: flume::Sender<T>,
    pub(crate) bound: Ghost<usize>,
}

/// A sender on a channel that `flume::unbounded` made. Only
/// `channel_unbounded`, `clone_unbounded` and the upgrade of a weak link to
/// such a channel make one, so it never feeds a bounded channel.
#[verifier::external_body]
#[verifier::reject_recursive_types(T)]
pub(crate) struct UnboundedSender<T> {
    pub(crate) sender: flume::Sender<T>,
}

/// Relies on flume::bounded: a channel that holds at most `cap` items.
#[verifier::external_body]
pub(crate) fn channel_bounded<T>(cap: usize) -> (r: (BoundedSender<T>, flume::Receiver<T>))
    ensures
        r.0.bound@ == cap,
{
    let (sender, receiver) = flume::bounded(cap);
    (BoundedSender { sender, bound: Ghost(cap) }, receiver)
}

/// Relies on flume::unbounded: a channel without a capacity.
#[verifier::external_body]
pub(crate) fn channel_unbounded<T>() -> (r: (UnboundedSender<T>, flume::Receiver<T>)) {
    let (sender, receiver) = flume::unbounded();
    (UnboundedSender { sender }, receiver)
}

/// Relies on flume's `Sender::clone`: one more sender that shares the same
/// unbounded channel.
#[verifier::external_body]
pub(crate) fn clone_unbounded<T>(s: &UnboundedSender<T>) -> (r: UnboundedSender<T>)
    ensures
        r == *s,
{
    UnboundedSender { sender: s.sender.clone() }
}

/// Relies on flume's `Sender::send_async`: a future that borrows the sender,
/// waits until the channel has room, and fails when every receiver is gone.
#[verifier::external_body]
pub(crate) fn put_when_room<T>(s: &flume::Sender<T>, item: T) -> impl std::future::Future<Output = Result<(), flume::SendError<T>>> + '_ {
    s.send_async(item)
}

/// The flume sender inside an unbounded sender.
#[verifier::external_body]
pub(crate) fn unbounded_inner<T>(s: &UnboundedSender<T>) -> &flume::Sender<T> {
    &s.sender
}

/// Relies on flume's `Sender::try_send`: it never blocks, and fails when the
/// channel is full or when every receiver is gone.
#[verifier::external_body]
pub(crate) fn try_put<T>(s: &flume::Sender<T>, item: T) -> (r: Enqueued) {
    match s.try_send(item) {
        Ok(()) => Enqueued::Accepted,
        Err(flume::TrySendError::Full(_)) => Enqueued::Full,
        Err(flume::TrySendError::Disconnected(_)) => Enqueued::Closed,
    }
}

/// Relies on flume's `Sender::try_send`: it never blocks. The value is handed
/// over, or dropped when the slot is full or nobody waits for it any more.
#[verifier::external_body]
pub(crate) fn put_reply<T>(s: &flume::Sender<T>, item: T) {
    let _ = s.try_send(item);
}

/// Relies on flume's `Sender::try_send`: it never blocks, fails when every
/// receiver is gone, and on an unbounded channel never reports it full.
#[verifier::external_body]
pub(crate) fn try_put_unbounded<T>(s: &UnboundedSender<T>, item: T) -> (r: Enqueued)
    ensures
        r != Enqueued::Full,
{
    match s.sender.try_send(item) {
        Ok(()) => Enqueued::Accepted,
        Err(flume::TrySendError::Full(_)) => Enqueued::Full,
        Err(flume::TrySendError::Disconnected(_)) => Enqueued::Closed,
    }
}

/// Relies on flume's `Receiver::recv`: waits until an item arrives or every
/// sender is gone; it has no deadline, so it never times out.
#[verifier::external_body]
pub(crate) fn take<T>(r: &flume::Receiver<T>) -> (e: ReplyEvent<T>)
    ensures
        !(e is TimedOut),
{
    match r.recv() {
        Ok(v) => ReplyEvent::Replied(v),
        Err(flume::RecvError::Disconnected) => ReplyEvent::Closed,
    }
}

/// Relies on flume's `Receiver::recv_timeout`: waits until an item arrives,
/// every sender is gone, or `d` has elapsed.
#[verifier::external_body]
pub(crate) fn take_within<T>(r: &flume::Receiver<T>, d: std::time::Duration) -> (e: ReplyEvent<T>) {
    match r.recv_timeout(d) {
        Ok(v) => ReplyEvent::Replied(v),
        Err(flume::RecvTimeoutError::Timeout) => ReplyEvent::TimedOut,
        Err(flume::RecvTimeoutError::Disconnected) => ReplyEvent::Closed,
    }
}

} // verus!
