//! Worker-side handles. A `Worker<Mode>` is the controller's end of one
//! spawned relationship: it can always terminate the relationship, and,
//! depending on the mode, send messages to the task or attach subscribers
//! to the task's published events.
//!
//! A worker and its dual task-side handle are only ever built together, by
//! the sealed `create` factories of this module, so the two sides cannot
//! be paired wrongly: the sending half a worker holds is the half whose
//! receiving end the factory placed in the task-side handle, and both
//! sides share one freshly created termination signal.

use vstd::prelude::*;

use tokio::sync::broadcast;
use tokio::sync::mpsc;
use tokio_util::sync::CancellationToken;

use crate::ext;
use crate::handle;
use crate::BUFFER_CAPACITY;

verus! {

/// Mode of a worker that carries no channel: it can only terminate the
/// task it was created with.
pub struct Isolated {
}

/// Mode of a worker that sends messages of one type to its task over a
/// bounded point-to-point channel.
#[verifier::reject_recursive_types(Message)]
pub struct OneWay<Message> {
    sender_to_tsk: mpsc::Sender<Message>,
}

/// Mode of a worker that both sends messages to its task and owns the
/// fan-out topic on which the task publishes reply events, so that
/// subscriber tasks can be attached to it.
#[verifier::reject_recursive_types(Message)]
#[verifier::reject_recursive_types(TaskMessage)]
pub struct TwoWay<Message, TaskMessage> {
    sender_to_tsk: mpsc::Sender<Message>,
    broadcast_from_tsk: broadcast::Sender<TaskMessage>,
}

/// The worker-side handle of one spawned relationship: the shared
/// termination signal plus whatever endpoints the mode carries.
pub struct Worker<Mode> {
    termination_token: CancellationToken,
    mode: Mode,
}

impl<Mode> Worker<Mode> {
    /// The termination signal this worker shares with its task-side dual.
    pub closed spec fn signal(&self) -> CancellationToken {
        self.termination_token
    }

    /// Terminates this worker's relationship: sets the shared signal, so
    /// every pending or future termination wait on the task side
    /// resolves. Idempotent and non-blocking; the task is never forcibly
    /// interrupted, it must observe the signal itself.
    pub fn terminate(self) {
        ext::token_cancel(&self.termination_token);
    }
}

impl Worker<Isolated> {
    /// Builds one isolated relationship: a worker that can only terminate,
    /// and the dual task-side handle that can only await that termination.
    /// Both ends answer to the same fresh signal.
    pub fn create() -> (r: (Worker<Isolated>, handle::Worker<handle::Isolated>))
        ensures
            r.0.signal() == r.1.signal(),
    {
        let token = ext::token_new();
        let wkh = handle::Worker::isolated(ext::token_clone(&token));
        (Worker { termination_token: token, mode: Isolated {} }, wkh)
    }
}

impl<Message> Worker<OneWay<Message>> {
    /// The sending end of the point-to-point channel this worker holds.
    pub closed spec fn message_channel(&self) -> mpsc::Sender<Message> {
        self.mode.sender_to_tsk
    }

    /// Builds one one-way relationship: a worker holding the sending half
    /// of a fresh bounded channel, and the dual task-side handle holding
    /// the receiving half of that same channel. Both ends answer to the
    /// same fresh signal.
    pub fn create() -> (r: (Worker<OneWay<Message>>, handle::Worker<handle::OneWay<Message>>))
        ensures
            r.0.signal() == r.1.signal(),
    {
        let token = ext::token_new();
        let (send_to_task, recv_from_wk) = ext::mpsc_channel(BUFFER_CAPACITY);
        let wkh = handle::Worker::one_way(ext::token_clone(&token), recv_from_wk);
        (
            Worker { termination_token: token, mode: OneWay { sender_to_tsk: send_to_task } },
            wkh,
        )
    }

    /// A sending endpoint of this worker's point-to-point channel, for the
    /// suspending send that must happen outside the library. The clone
    /// enqueues into the very channel this worker holds, behind every
    /// message already sent through it, in one total order with all other
    /// holders of the sending half.
    pub fn sender(&self) -> (r: mpsc::Sender<Message>)
        ensures
            r == self.message_channel(),
    {
        ext::mpsc_sender_clone(&self.mode.sender_to_tsk)
    }
}

impl<Message, TaskMessage> Worker<TwoWay<Message, TaskMessage>> {
    /// The sending end of the point-to-point channel this worker holds.
    pub closed spec fn message_channel(&self) -> mpsc::Sender<Message> {
        self.mode.sender_to_tsk
    }

    /// The fan-out topic this worker's task publishes on.
    pub closed spec fn event_channel(&self) -> broadcast::Sender<TaskMessage> {
        self.mode.broadcast_from_tsk
    }

    /// Builds one two-way relationship: a worker holding the sending half
    /// of a fresh bounded channel and the fan-out topic, and the dual
    /// task-side handle holding the receiving half of that same channel
    /// and the publishing end of that same topic. Both ends answer to the
    /// same fresh signal.
    pub fn create() -> (r: (
        Worker<TwoWay<Message, TaskMessage>>,
        handle::Worker<handle::TwoWay<Message, TaskMessage>>,
    ))
        ensures
            r.0.signal() == r.1.signal(),
            r.0.event_channel() == r.1.reply_channel(),
    {
        let token = ext::token_new();
        let (send_to_task, recv_from_wk) = ext::mpsc_channel(BUFFER_CAPACITY);
        let broadcast_to_wk = ext::broadcast_sender_new(BUFFER_CAPACITY);
        let topic = ext::broadcast_sender_clone(&broadcast_to_wk);
        let wkh = handle::Worker::two_way(ext::token_clone(&token), recv_from_wk, broadcast_to_wk);
        (
            Worker {
                termination_token: token,
                mode: TwoWay { sender_to_tsk: send_to_task, broadcast_from_tsk: topic },
            },
            wkh,
        )
    }

    /// A sending endpoint of this worker's point-to-point channel, for the
    /// suspending send that must happen outside the library. The clone
    /// enqueues into the very channel this worker holds, behind every
    /// message already sent through it, in one total order with all other
    /// holders of the sending half.
    pub fn sender(&self) -> (r: mpsc::Sender<Message>)
        ensures
            r == self.message_channel(),
    {
        ext::mpsc_sender_clone(&self.mode.sender_to_tsk)
    }

    /// Builds one subscriber relationship bound to this worker's fan-out
    /// topic: an isolated worker governing only the subscriber, and the
    /// dual task-side handle holding a fresh subscription that observes
    /// exactly the events published after this call. The new pair answers
    /// to its own fresh signal, independent of this worker's: terminating
    /// the subscriber affects neither this relationship nor any other
    /// subscriber, and terminating this relationship does not touch the
    /// subscriber's signal.
    pub fn subscribe(&self) -> (r: (Worker<Isolated>, handle::Worker<handle::OnEvent<TaskMessage>>))
        ensures
            r.0.signal() == r.1.signal(),
    {
        let token = ext::token_new();
        let wkh = handle::Worker::on_event(
            ext::token_clone(&token),
            ext::broadcast_subscribe(&self.mode.broadcast_from_tsk),
        );
        (Worker { termination_token: token, mode: Isolated {} }, wkh)
    }
}

} // verus!
