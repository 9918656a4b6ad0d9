//! Task-side handles. A task receives exactly one `Worker<Mode>` handle
//! when it is created; the mode is always the structural complement of the
//! worker-side mode, and both sides share one termination signal. The
//! handle carries the task's end of whatever channels the mode requires,
//! and may be decomposed exactly once into the bare channel endpoint and a
//! reduced-capability handle; decomposition consumes the handle, so one
//! relationship never yields two independent termination observers.

use vstd::prelude::*;

use tokio::sync::broadcast;
use tokio::sync::mpsc;
use tokio_util::sync::CancellationToken;
use tokio_util::sync::WaitForCancellationFuture;

use crate::ext;

verus! {

/// Implemented only by the handle types of this module, so no outside
/// type can pose as a task-side handle.
pub trait Sealed {
}

/// The capability a task must accept: one of the sealed task-side handle
/// shapes of this module.
pub trait Handle: Sealed {
}

/// Mode of a handle that carries no channel at all: the task can only
/// await its termination.
pub struct Isolated {
}

/// Mode of a handle whose task receives messages of one type from its
/// worker.
#[verifier::reject_recursive_types(Message)]
pub struct OneWay<Message> {
    receiver_from_wk: mpsc::Receiver<Message>,
}

/// Mode of a handle whose task both receives messages from its worker and
/// publishes reply events fanned out to any number of subscribers.
#[verifier::reject_recursive_types(InMessage)]
#[verifier::reject_recursive_types(OutMessage)]
pub struct TwoWay<InMessage, OutMessage> {
    receiver_from_wk: mpsc::Receiver<InMessage>,
    broadcast_from_task: broadcast::Sender<OutMessage>,
}

/// Mode of the reduced handle left by decomposing a two-way handle: it can
/// still publish reply events and await termination, but the receiving end
/// is gone.
#[verifier::reject_recursive_types(OutMessage)]
pub struct OneWayBack<OutMessage> {
    broadcast_from_task: broadcast::Sender<OutMessage>,
}

/// Mode of a subscriber task's handle: a read-only subscription to the
/// events published by some two-way task.
#[verifier::reject_recursive_types(Event)]
pub struct OnEvent<Event> {
    receiver_from_task: broadcast::Receiver<Event>,
}

/// The task-side handle itself: the shared termination signal plus
/// whatever endpoints the mode carries.
pub struct Worker<Mode> {
    termination_token: CancellationToken,
    mode: Mode,
}

impl<Mode> Worker<Mode> {
    /// The termination signal this handle answers to.
    pub closed spec fn signal(&self) -> CancellationToken {
        self.termination_token
    }

    /// Returns a future that gets fulfilled once the relationship has been
    /// terminated. Level-triggered: if the signal is already set the
    /// future resolves immediately, and so does every later wait.
    pub fn terminated<'a>(&'a self) -> WaitForCancellationFuture<'a> {
        ext::token_cancelled(&self.termination_token)
    }

    /// Terminates the relationship: sets the shared signal, so every
    /// pending or future termination wait on either side resolves.
    /// Idempotent and non-blocking; the task is never forcibly
    /// interrupted, it must observe the signal itself.
    pub fn terminate(self) {
        ext::token_cancel(&self.termination_token);
    }
}

impl Sealed for Worker<Isolated> {
}

impl Handle for Worker<Isolated> {
}

impl Worker<Isolated> {
    pub(crate) fn isolated(token: CancellationToken) -> (r: Worker<Isolated>)
        ensures
            r.signal() == token,
    {
        Worker { termination_token: token, mode: Isolated {} }
    }
}

impl<Message> Sealed for Worker<OneWay<Message>> {
}

impl<Message> Handle for Worker<OneWay<Message>> {
}

impl<Message> Worker<OneWay<Message>> {
    /// The receiving end of the point-to-point channel this handle carries.
    pub closed spec fn message_source(&self) -> mpsc::Receiver<Message> {
        self.mode.receiver_from_wk
    }

    pub(crate) fn one_way(token: CancellationToken, from_wk: mpsc::Receiver<Message>) -> (r:
        Worker<OneWay<Message>>)
        ensures
            r.signal() == token,
            r.message_source() == from_wk,
    {
        Worker { termination_token: token, mode: OneWay { receiver_from_wk: from_wk } }
    }

    /// Splits the handle, exactly once, into the bare message receiver and
    /// an isolated handle that still answers to the same termination
    /// signal. The handle is consumed, so it cannot be split again.
    pub fn receiver(self) -> (r: (mpsc::Receiver<Message>, Worker<Isolated>))
        ensures
            r.0 == self.message_source(),
            r.1.signal() == self.signal(),
    {
        let Worker { termination_token, mode } = self;
        let OneWay { receiver_from_wk } = mode;
        (receiver_from_wk, Worker::isolated(termination_token))
    }
}

impl<InMessage, OutMessage> Sealed for Worker<TwoWay<InMessage, OutMessage>> {
}

impl<InMessage, OutMessage> Handle for Worker<TwoWay<InMessage, OutMessage>> {
}

impl<InMessage, OutMessage> Worker<TwoWay<InMessage, OutMessage>> {
    /// The receiving end of the point-to-point channel this handle carries.
    pub closed spec fn message_source(&self) -> mpsc::Receiver<InMessage> {
        self.mode.receiver_from_wk
    }

    /// The publishing end of the fan-out topic this handle carries.
    pub closed spec fn reply_channel(&self) -> broadcast::Sender<OutMessage> {
        self.mode.broadcast_from_task
    }

    pub(crate) fn two_way(
        token: CancellationToken,
        from_wk: mpsc::Receiver<InMessage>,
        to_task: broadcast::Sender<OutMessage>,
    ) -> (r: Worker<TwoWay<InMessage, OutMessage>>)
        ensures
            r.signal() == token,
            r.message_source() == from_wk,
            r.reply_channel() == to_task,
    {
        Worker {
            termination_token: token,
            mode: TwoWay { receiver_from_wk: from_wk, broadcast_from_task: to_task },
        }
    }

    /// Splits the handle, exactly once, into the bare message receiver and
    /// a reply-only handle that keeps the publishing capability and
    /// answers to the same termination signal. The handle is consumed, so
    /// it cannot be split again.
    pub fn receiver(self) -> (r: (mpsc::Receiver<InMessage>, Worker<OneWayBack<OutMessage>>))
        ensures
            r.0 == self.message_source(),
            r.1.signal() == self.signal(),
            r.1.reply_channel() == self.reply_channel(),
    {
        let Worker { termination_token, mode } = self;
        let TwoWay { receiver_from_wk, broadcast_from_task } = mode;
        (receiver_from_wk, Worker::one_way_back(termination_token, broadcast_from_task))
    }
}

impl<OutMessage> Sealed for Worker<OneWayBack<OutMessage>> {
}

impl<OutMessage> Handle for Worker<OneWayBack<OutMessage>> {
}

impl<OutMessage> Worker<OneWayBack<OutMessage>> {
    /// The publishing end of the fan-out topic this handle carries.
    pub closed spec fn reply_channel(&self) -> broadcast::Sender<OutMessage> {
        self.mode.broadcast_from_task
    }

    pub(crate) fn one_way_back(
        token: CancellationToken,
        to_task: broadcast::Sender<OutMessage>,
    ) -> (r: Worker<OneWayBack<OutMessage>>)
        ensures
            r.signal() == token,
            r.reply_channel() == to_task,
    {
        Worker { termination_token: token, mode: OneWayBack { broadcast_from_task: to_task } }
    }

    /// Publishes `msg` to every live subscription of this relationship's
    /// fan-out topic and returns how many there were at publish time. Zero
    /// subscribers is informational, not an error: the count is 0 and the
    /// message is simply not delivered anywhere. Never blocks: a
    /// subscription that fell behind loses its oldest unread events
    /// instead of stalling this publisher.
    pub fn post_message(&self, msg: OutMessage) -> (r: usize) {
        let outcome = ext::broadcast_send(&self.mode.broadcast_from_task, msg);
        delivered_count(outcome)
    }
}

/// Maps a publish outcome to the number of subscriptions the event reached:
/// the count on success, and 0 when no subscription was live, which is not
/// an error.
pub fn delivered_count(outcome: Option<usize>) -> (r: usize)
    ensures
        outcome matches Some(n) ==> r == n,
        outcome is None ==> r == 0,
{
    match outcome {
        Some(n) => n,
        None => 0,
    }
}

impl<Event> Sealed for Worker<OnEvent<Event>> {
}

impl<Event> Handle for Worker<OnEvent<Event>> {
}

impl<Event> Worker<OnEvent<Event>> {
    /// The subscription endpoint this handle carries.
    pub closed spec fn event_source(&self) -> broadcast::Receiver<Event> {
        self.mode.receiver_from_task
    }

    pub(crate) fn on_event(token: CancellationToken, from_task: broadcast::Receiver<Event>) -> (r:
        Worker<OnEvent<Event>>)
        ensures
            r.signal() == token,
            r.event_source() == from_task,
    {
        Worker { termination_token: token, mode: OnEvent { receiver_from_task: from_task } }
    }

    /// Splits the handle, exactly once, into the bare subscription
    /// receiver and an isolated handle that still answers to the same
    /// termination signal. The handle is consumed, so it cannot be split
    /// again.
    pub fn receiver(self) -> (r: (broadcast::Receiver<Event>, Worker<Isolated>))
        ensures
            r.0 == self.event_source(),
            r.1.signal() == self.signal(),
    {
        let Worker { termination_token, mode } = self;
        let OnEvent { receiver_from_task } = mode;
        (receiver_from_task, Worker::isolated(termination_token))
    }
}

} // verus!
