//! Messages, the handlers that appliances define for them, and the
//! type-erased envelope that carries one message through a mailbox.
use vstd::prelude::*;

use crate::channel::put_reply;

verus! {

/// A type that can be sent to appliances, paired with the type of the reply
/// that handling it produces.
pub trait Message: Send {
    /// The type of replies generated by handling this message.
    type Result: Send;
}

/// The mutation logic of an appliance type for messages of type `M`. One
/// appliance type can handle many message types.
///
/// Handlers should be fast, synchronous and non-blocking: a slow handler holds
/// up the appliance's whole mailbox.
pub trait Handler<M: Message> {
    /// Handles the incoming message.
    fn handle(&mut self, msg: M) -> M::Result;
}

/// The dual of `Handler`: `M: HandledBy<H>` holds whenever `H: Handler<M>`.
/// Generic code should ask for `M: HandledBy<H>`, which a third party may also
/// provide for message types that it defines for a handler type it does not own.
pub trait HandledBy<H>: Message {
    /// Handles this message with the given handler.
    fn handle_by(self, handler: &mut H) -> Self::Result;
}

impl<H, M: Message> HandledBy<H> for M where H: Handler<M> {
    fn handle_by(self, handler: &mut H) -> Self::Result {
        handler.handle(self)
    }
}

/// Work that runs once against a handler.
trait Deliver<H>: Send {
    fn deliver(self: Box<Self>, handler: &mut H);
}

/// A message together with the reply slot, if any, that waits for its result.
#[verifier::reject_recursive_types(R)]
struct Letter<M, R> {
    message: M,
    reply: Option<flume::Sender<R>>,
}

impl<H, M: HandledBy<H>> Deliver<H> for Letter<M, M::Result> {
    fn deliver(self: Box<Self>, handler: &mut H) {
        let Letter { message, reply } = *self;
        let result = message.handle_by(handler);
        if let Some(slot) = reply {
            put_reply(&slot, result);
        }
    }
}

/// A single-use unit of work for a handler of type `H`: it holds one message,
/// and invoking it runs the matching handler and, when a reply slot was
/// attached, hands the result over to it. Whatever the message's type, every
/// envelope for `H` has the same type, so one mailbox carries them all.
#[verifier::reject_recursive_types(H)]
pub struct Envelope<'a, H> {
    letter: Box<dyn Deliver<H> + 'a>,
    replies: Ghost<bool>,
}

impl<'a, H> Envelope<'a, H> {
    /// Wraps `message`; when `reply` is given, the result of handling it goes there.
    pub fn new<M: HandledBy<H> + 'a>(message: M, reply: Option<flume::Sender<M::Result>>) -> (r: Self)
        ensures
            r.replies() == reply is Some,
    {
        let replies = Ghost(reply is Some);
        Envelope { letter: Box::new(Letter { message, reply }), replies }
    }

    /// Whether invoking this envelope hands the handler's result to a reply slot.
    pub closed spec fn replies(&self) -> bool {
        self.replies@
    }

    /// Runs the handler for the held message against `handler`, and sends the
    /// result to the reply slot if there is one. The envelope is used up.
    pub fn invoke(self, handler: &mut H) {
        self.letter.deliver(handler)
    }
}

} // verus!
