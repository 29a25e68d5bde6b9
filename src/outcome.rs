use vstd::prelude::*;

use crate::error::Error;

verus! {

/// What became of an attempt to put an envelope into a mailbox.
#[derive(Clone, Copy, Debug, PartialEq, Eq, Structural)]
pub enum Enqueued {
    /// The mailbox took the envelope.
    Accepted,
    /// The mailbox is bounded and was at capacity.
    Full,
    /// The mailbox is closed: its appliance has stopped.
    Closed,
}

/// What a caller waiting on a reply slot saw first.
pub enum ReplyEvent<R> {
    /// The handler's result arrived.
    Replied(R),
    /// The deadline elapsed first.
    TimedOut,
    /// The reply slot was dropped unfulfilled: the appliance stopped.
    Closed,
}

/// The result that a send reports for each enqueue outcome.
pub open spec fn enqueue_outcome(e: Enqueued) -> Result<(), Error> {
    match e {
        Enqueued::Accepted => Ok(()),
        Enqueued::Full => Err(Error::FullBuffer),
        Enqueued::Closed => Err(Error::UnexpectedFailure),
    }
}

/// The result that a waiting send reports for each reply event.
pub open spec fn reply_outcome<R>(e: ReplyEvent<R>) -> Result<R, Error> {
    match e {
        ReplyEvent::Replied(v) => Ok(v),
        ReplyEvent::TimedOut => Err(Error::Timeout),
        ReplyEvent::Closed => Err(Error::UnexpectedFailure),
    }
}

/// Turns an enqueue outcome into the result of a send.
pub fn enqueue_result(e: Enqueued) -> (r: Result<(), Error>)
    ensures
        r == enqueue_outcome(e),
{
    match e {
        Enqueued::Accepted => Ok(()),
        Enqueued::Full => Err(Error::FullBuffer),
        Enqueued::Closed => Err(Error::UnexpectedFailure),
    }
}

/// Turns what a waiting caller saw first into the result of the wait.
pub fn reply_result<R>(e: ReplyEvent<R>) -> (r: Result<R, Error>)
    ensures
        r == reply_outcome(e),
{
    match e {
        ReplyEvent::Replied(v) => Ok(v),
        ReplyEvent::TimedOut => Err(Error::Timeout),
        ReplyEvent::Closed => Err(Error::UnexpectedFailure),
    }
}

/// A `Replied` event is reported to the waiting caller as `Ok` of the very
/// value it carries.
pub proof fn lemma_reply_passes_through<R>(v: R)
    ensures
        reply_outcome(ReplyEvent::Replied(v)) == Ok::<R, Error>(v),
{
}

/// An enqueue outcome is reported as `FullBuffer` exactly when it is `Full`,
/// and as success exactly when it is `Accepted`.
pub proof fn lemma_full_buffer_exactly_when_full(e: Enqueued)
    ensures
        enqueue_outcome(e) == Err::<(), Error>(Error::FullBuffer) <==> e == Enqueued::Full,
        enqueue_outcome(e) is Ok <==> e == Enqueued::Accepted,
{
}

/// A reply event is reported as `Timeout` exactly when it is `TimedOut`, and as
/// success exactly when it is `Replied`.
pub proof fn lemma_timeout_exactly_when_deadline_first<R>(e: ReplyEvent<R>)
    ensures
        reply_outcome(e) matches Err(Error::Timeout) <==> e is TimedOut,
        reply_outcome(e) is Ok <==> e is Replied,
{
}

} // verus!
