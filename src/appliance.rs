//! Appliances, which own their state and drain their mailbox one envelope at a
//! time, and the handles through which messages reach them.
use vstd::prelude::*;

use crate::channel::{
    channel_bounded, channel_unbounded, clone_unbounded, take, take_within, try_put, try_put_unbounded,
    unbounded_inner, put_when_room, BoundedSender, UnboundedSender,
};
use crate::error::Error;
use crate::message::{Envelope, HandledBy};
use crate::outcome::{enqueue_result, reply_result, Enqueued, ReplyEvent};

verus! {

/// A stateful entity that is reached only through messages.
///
/// An appliance is never handed out: messages reach it through the handle that
/// `Appliance::new_bounded` and `Appliance::new_unbounded` return. Inside a
/// handler, `Appliance::state` gives access to its state and
/// `Appliance::handle` makes a new handle.
#[verifier::reject_recursive_types(S)]
pub struct Appliance<'s, S> {
    state: S,
    link: Link<'s, S>,
}

/// An appliance's link to its own mailbox, of the mailbox's kind. It does not
/// keep the mailbox open: only handles do.
#[verifier::reject_recursive_types(S)]
enum Link<'s, S> {
    Bounded(SelfLink<'s, S>, Ghost<usize>),
    Unbounded(UnboundedSelfLink<'s, S>),
}

/// A link to a bounded mailbox. It is hidden from Verus, which refuses a field
/// whose type mentions the struct that holds it behind an envelope.
#[verifier::external_body]
#[verifier::reject_recursive_types(S)]
struct SelfLink<'s, S> {
    weak: flume::WeakSender<Envelope<'s, Appliance<'s, S>>>,
}

/// A link to an unbounded mailbox, hidden from Verus for the same reason.
#[verifier::external_body]
#[verifier::reject_recursive_types(S)]
struct UnboundedSelfLink<'s, S> {
    weak: flume::WeakSender<Envelope<'s, Appliance<'s, S>>>,
}

/// Relies on flume's `Sender::downgrade`: a sender that does not keep the
/// channel open.
#[verifier::external_body]
fn link_to<'s, S>(s: &flume::Sender<Envelope<'s, Appliance<'s, S>>>) -> SelfLink<'s, S> {
    SelfLink { weak: s.downgrade() }
}

/// Relies on flume's `Sender::downgrade`: a sender that does not keep the
/// unbounded channel open.
#[verifier::external_body]
fn link_to_unbounded<'s, S>(s: &UnboundedSender<Envelope<'s, Appliance<'s, S>>>) -> UnboundedSelfLink<'s, S> {
    UnboundedSelfLink { weak: s.sender.downgrade() }
}

/// Relies on flume's `WeakSender::upgrade`: a new sender while some sender is
/// still alive, `None` once the channel has closed.
#[verifier::external_body]
fn follow<'s, S>(link: &SelfLink<'s, S>) -> Option<flume::Sender<Envelope<'s, Appliance<'s, S>>>> {
    link.weak.upgrade()
}

/// Relies on flume's `WeakSender::upgrade`: a new sender on the same unbounded
/// channel while some sender is still alive, `None` once it has closed.
#[verifier::external_body]
fn follow_unbounded<'s, S>(link: &UnboundedSelfLink<'s, S>) -> Option<UnboundedSender<Envelope<'s, Appliance<'s, S>>>> {
    link.weak.upgrade().map(|sender| UnboundedSender { sender })
}

/// The sending side of a mailbox, of either kind.
#[verifier::reject_recursive_types(T)]
enum Outlet<T> {
    Bounded(BoundedSender<T>),
    Unbounded(UnboundedSender<T>),
}

/// The access point of an appliance. Cloning it adds a sender to the
/// appliance's mailbox; once the last handle is dropped the mailbox closes and
/// the appliance stops after the envelopes already queued.
#[verifier::reject_recursive_types(A)]
pub struct ApplianceHandle<'a, A> {
    outlet: Outlet<Envelope<'a, A>>,
}

/// A reply slot that a handler's result will be sent to.
#[verifier::reject_recursive_types(R)]
pub struct PendingReply<R> {
    slot: flume::Receiver<R>,
    attached: Ghost<bool>,
}

/// Makes a one-shot reply slot: the sending side goes into an envelope, the
/// other side waits for the result.
pub fn reply_slot<R>() -> (r: (flume::Sender<R>, PendingReply<R>)) {
    let (s, slot) = channel_bounded(1);
    (s.sender, PendingReply { slot, attached: Ghost(false) })
}

impl<R> PendingReply<R> {
    /// Waits for the reply, for at most `timeout` when one is given and for as
    /// long as it takes when it is `None`.
    pub fn wait(&self, timeout: Option<std::time::Duration>) -> (r: Result<R, Error>)
        ensures
            timeout is None ==> !(r matches Err(Error::Timeout)),
            !(r matches Err(Error::FullBuffer)),
    {
        let event: ReplyEvent<R> = match timeout {
            Some(d) => take_within(&self.slot, d),
            None => take(&self.slot),
        };
        reply_result(event)
    }

    /// Whether the sending side of this slot travels in an envelope that a
    /// mailbox took.
    pub closed spec fn attached(&self) -> bool {
        self.attached@
    }

    /// The receiving side of the slot.
    pub closed spec fn receiver(&self) -> flume::Receiver<R> {
        self.slot
    }

    /// The receiving side of the slot, for callers that wait without blocking.
    pub fn slot(&self) -> (r: &flume::Receiver<R>)
        ensures
            *r == self.receiver(),
    {
        &self.slot
    }
}

impl<'s, S> View for Appliance<'s, S> {
    type V = S;

    closed spec fn view(&self) -> S {
        self.state
    }
}

/// Relies on async-executor's `Executor::spawn` and `Task::detach`, flume's
/// `Receiver::into_stream` and futures-lite's `StreamExt::for_each`: one task
/// on the executor hands each envelope that the mailbox yields, in order, to
/// `Appliance::dispatch`, and ends once the mailbox is closed and empty.
#[verifier::external_body]
fn spawn_loop<'s, S: Send + 's>(
    executor: &'s async_executor::Executor<'s>,
    appliance: Appliance<'s, S>,
    mailbox: flume::Receiver<Envelope<'s, Appliance<'s, S>>>,
) {
    let mut appliance = appliance;
    let drain = futures_lite::StreamExt::for_each(
        mailbox.into_stream(),
        move |envelope| appliance.dispatch(envelope),
    );
    executor.spawn(drain).detach();
}

impl<'s, S: Send + 's> Appliance<'s, S> {
    /// Creates an appliance whose mailbox holds at most `size` envelopes, and
    /// returns its first handle.
    ///
    /// `size` must be below `usize::MAX`: flume adds one to the bound on every
    /// receive, which would overflow.
    pub fn new_bounded(executor: &'s async_executor::Executor<'s>, state: S, size: usize) -> (r: ApplianceHandle<'s, Self>)
        requires
            size < usize::MAX,
        ensures
            r.bound() == Some(size),
    {
        Self::run(executor, state, Some(size))
    }

    /// Creates an appliance with an unbounded mailbox, and returns its first
    /// handle. A bounded mailbox is preferable, as it bounds memory.
    pub fn new_unbounded(executor: &'s async_executor::Executor<'s>, state: S) -> (r: ApplianceHandle<'s, Self>)
        ensures
            r.bound() is None,
    {
        Self::run(executor, state, None)
    }

    /// Creates the mailbox, bounded by `size` when it is given, and the
    /// appliance, and starts the appliance's loop on the executor.
    fn run(executor: &'s async_executor::Executor<'s>, state: S, size: Option<usize>) -> (r: ApplianceHandle<'s, Self>)
        requires
            size matches Some(n) ==> n < usize::MAX,
        ensures
            r.bound() == size,
    {
        match size {
            Some(n) => {
                let (inner, mailbox) = channel_bounded(n);
                let appliance = Appliance { state, link: Link::Bounded(link_to(&inner.sender), inner.bound) };
                spawn_loop(executor, appliance, mailbox);
                ApplianceHandle { outlet: Outlet::Bounded(inner) }
            },
            None => {
                let (inner, mailbox) = channel_unbounded();
                let appliance = Appliance { state, link: Link::Unbounded(link_to_unbounded(&inner)) };
                spawn_loop(executor, appliance, mailbox);
                ApplianceHandle { outlet: Outlet::Unbounded(inner) }
            },
        }
    }

    /// The appliance's loop takes one envelope: its handler runs against the
    /// state.
    fn dispatch(&mut self, envelope: Envelope<'s, Self>) {
        envelope.invoke(self)
    }
}

impl<'s, S> Appliance<'s, S> {
    /// A new handle to this appliance, or `None` once all its handles were
    /// dropped and the appliance is shutting down.
    pub fn handle(&self) -> (r: Option<ApplianceHandle<'s, Self>>)
        ensures
            r matches Some(h) ==> h.bound() == self.bound(),
    {
        match &self.link {
            Link::Bounded(link, bound) => match follow(link) {
                Some(sender) => Some(ApplianceHandle { outlet: Outlet::Bounded(BoundedSender { sender, bound: *bound }) }),
                None => None,
            },
            Link::Unbounded(link) => match follow_unbounded(link) {
                Some(inner) => Some(ApplianceHandle { outlet: Outlet::Unbounded(inner) }),
                None => None,
            },
        }
    }

    /// The bound of the appliance's mailbox; `None` when it is unbounded.
    pub closed spec fn bound(&self) -> Option<usize> {
        match self.link {
            Link::Bounded(_, b) => Some(b@),
            Link::Unbounded(_) => None,
        }
    }

    /// The mutable state of the appliance. Only handlers ever hold the
    /// appliance itself, so they are the only place where its state changes.
    pub fn state(&mut self) -> (r: &mut S)
        ensures
            *r == old(self)@,
            final(self)@ == *final(r),
            final(self).bound() == old(self).bound(),
    {
        &mut self.state
    }
}

impl<'a, A> Clone for ApplianceHandle<'a, A> {
    fn clone(&self) -> (r: Self)
        ensures
            r == *self,
    {
        match &self.outlet {
            Outlet::Bounded(s) => ApplianceHandle {
                outlet: Outlet::Bounded(BoundedSender { sender: s.sender.clone(), bound: s.bound }),
            },
            Outlet::Unbounded(s) => ApplianceHandle { outlet: Outlet::Unbounded(clone_unbounded(s)) },
        }
    }
}

impl<'a, A> ApplianceHandle<'a, A> {
    /// The bound of the mailbox this handle feeds; `None` when it is unbounded.
    pub closed spec fn bound(&self) -> Option<usize> {
        match self.outlet {
            Outlet::Bounded(s) => Some(s.bound@),
            Outlet::Unbounded(_) => None,
        }
    }

    /// Whether this handle feeds an unbounded mailbox.
    pub open spec fn is_unbounded(&self) -> bool {
        self.bound() is None
    }

    /// Puts an envelope into the mailbox without blocking.
    fn put(&self, envelope: Envelope<'a, A>) -> (r: Enqueued)
        ensures
            self.is_unbounded() ==> r != Enqueued::Full,
    {
        match &self.outlet {
            Outlet::Bounded(s) => try_put(&s.sender, envelope),
            Outlet::Unbounded(s) => try_put_unbounded(s, envelope),
        }
    }

    /// Sends a message without waiting for it to be handled. Never blocks:
    /// fails with `FullBuffer` when a bounded mailbox is at capacity, and with
    /// `UnexpectedFailure` when the appliance has stopped.
    pub fn send_sync<M: HandledBy<A> + 'a>(&self, message: M) -> (r: Result<(), Error>)
        ensures
            !(r matches Err(Error::Timeout)),
            self.is_unbounded() ==> !(r matches Err(Error::FullBuffer)),
    {
        enqueue_result(self.put(Envelope::new(message, None)))
    }

    /// Sends a message with a reply slot attached, without waiting for the
    /// reply. The slot is made first; when the message cannot be enqueued the
    /// failure is reported at once and no slot is returned.
    pub fn send_for_reply<M: HandledBy<A> + 'a>(&self, message: M) -> (r: Result<PendingReply<M::Result>, Error>)
        ensures
            !(r matches Err(Error::Timeout)),
            self.is_unbounded() ==> !(r matches Err(Error::FullBuffer)),
            r matches Ok(p) ==> p.attached(),
    {
        let (s, pending) = reply_slot();
        let envelope = Envelope::new(message, Some(s));
        let attached = Ghost(envelope.replies());
        match enqueue_result(self.put(envelope)) {
            Ok(()) => Ok(PendingReply { slot: pending.slot, attached }),
            Err(e) => Err(e),
        }
    }

    /// Sends a message and blocks until its reply arrives: forever when
    /// `timeout` is `None`, for at most the given time otherwise.
    pub fn send_and_wait_sync<M: HandledBy<A> + 'a>(
        &self,
        message: M,
        timeout: Option<std::time::Duration>,
    ) -> (r: Result<M::Result, Error>)
        ensures
            timeout is None ==> !(r matches Err(Error::Timeout)),
            self.is_unbounded() ==> !(r matches Err(Error::FullBuffer)),
    {
        match self.send_for_reply(message) {
            Ok(pending) => pending.wait(timeout),
            Err(e) => Err(e),
        }
    }

    /// A future that puts `envelope` into the mailbox, suspending the caller
    /// while a bounded mailbox is full. It borrows the handle's sender.
    pub fn put_suspending(&self, envelope: Envelope<'a, A>) -> impl std::future::Future<Output = Result<(), flume::SendError<Envelope<'a, A>>>> + '_ {
        put_when_room(self.mailbox(), envelope)
    }

    /// The sending side of the appliance's mailbox. It stays inside the
    /// library: a clone of it would keep the appliance alive as a handle does.
    fn mailbox(&self) -> &flume::Sender<Envelope<'a, A>> {
        match &self.outlet {
            Outlet::Bounded(s) => &s.sender,
            Outlet::Unbounded(s) => unbounded_inner(s),
        }
    }
}

} // verus!
