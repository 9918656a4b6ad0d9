//! Trusted boundary around the runtime primitives the library is wired
//! with: the shared cancellation token and the two channel families. Each
//! item's contract states only what the primitive's own source and
//! documentation show.

use vstd::prelude::*;

use tokio::sync::broadcast;
use tokio::sync::mpsc;
use tokio_util::sync::CancellationToken;
use tokio_util::sync::WaitForCancellationFuture;

verus! {

#[verifier::external_type_specification]
#[verifier::external_body]
pub struct ExCancellationToken(CancellationToken);

#[verifier::external_type_specification]
#[verifier::external_body]
pub struct ExWaitForCancellationFuture<'a>(WaitForCancellationFuture<'a>);

#[verifier::external_type_specification]
#[verifier::external_body]
#[verifier::reject_recursive_types(T)]
pub struct ExMpscSender<T>(mpsc::Sender<T>);

#[verifier::external_type_specification]
#[verifier::external_body]
#[verifier::reject_recursive_types(T)]
pub struct ExMpscReceiver<T>(mpsc::Receiver<T>);

#[verifier::external_type_specification]
#[verifier::external_body]
#[verifier::reject_recursive_types(T)]
pub struct ExBroadcastSender<T>(broadcast::Sender<T>);

#[verifier::external_type_specification]
#[verifier::external_body]
#[verifier::reject_recursive_types(T)]
pub struct ExBroadcastReceiver<T>(broadcast::Receiver<T>);

/// Relies on `CancellationToken::new`: a fresh, independent signal in the
/// unset state, shared with nobody yet.
#[verifier::external_body]
pub(crate) fn token_new() -> CancellationToken {
    CancellationToken::new()
}

/// Relies on `Clone for CancellationToken`: a clone is cancelled whenever
/// the original is and vice versa, so as an abstract value it stands for
/// the very same signal (the crate's own `PartialEq` equates them).
#[verifier::external_body]
pub(crate) fn token_clone(t: &CancellationToken) -> (r: CancellationToken)
    ensures
        r == *t,
{
    t.clone()
}

/// Relies on `CancellationToken::cancel`: sets the shared signal;
/// idempotent, never blocks, never panics.
#[verifier::external_body]
pub(crate) fn token_cancel(t: &CancellationToken) {
    t.cancel()
}

/// Relies on `CancellationToken::cancelled`: the returned future resolves
/// once the token's signal is set, immediately so if it already is, and
/// every later wait on the same signal resolves as well.
#[verifier::external_body]
pub(crate) fn token_cancelled<'a>(t: &'a CancellationToken) -> WaitForCancellationFuture<'a> {
    t.cancelled()
}

/// Relies on `tokio::sync::mpsc::channel`: builds one bounded
/// many-producer/single-consumer channel of the given capacity, returning
/// its connected sending and receiving halves. Panics unless the capacity
/// is positive and within the runtime's permit bound, which the
/// precondition keeps on every architecture.
#[verifier::external_body]
pub(crate) fn mpsc_channel<T>(buffer: usize) -> (mpsc::Sender<T>, mpsc::Receiver<T>)
    requires
        0 < buffer <= 0x1FFF_FFFF,
{
    mpsc::channel(buffer)
}

/// Relies on `Clone for mpsc::Sender`: a clone enqueues into the very
/// channel the original does, so as an abstract value it stands for the
/// same sending half.
#[verifier::external_body]
pub(crate) fn mpsc_sender_clone<T>(s: &mpsc::Sender<T>) -> (r: mpsc::Sender<T>)
    ensures
        r == *s,
{
    s.clone()
}

/// Relies on `broadcast::Sender::new`: builds the sending half of a
/// fan-out channel with the given per-subscription backlog, with no
/// subscription yet. Panics unless the capacity is positive and at most
/// half the address space, which the precondition keeps on every
/// architecture.
#[verifier::external_body]
pub(crate) fn broadcast_sender_new<T>(capacity: usize) -> broadcast::Sender<T>
    requires
        0 < capacity <= 0x7FFF_FFFF,
{
    broadcast::Sender::new(capacity)
}

/// Relies on `Clone for broadcast::Sender`: a clone publishes into the
/// very channel the original does, so as an abstract value it stands for
/// the same sending half.
#[verifier::external_body]
pub(crate) fn broadcast_sender_clone<T>(s: &broadcast::Sender<T>) -> (r: broadcast::Sender<T>)
    ensures
        r == *s,
{
    s.clone()
}

/// Relies on `broadcast::Sender::subscribe`: a fresh subscription to this
/// sender's channel, with its own read cursor, observing only values sent
/// after this call.
#[verifier::external_body]
pub(crate) fn broadcast_subscribe<T>(s: &broadcast::Sender<T>) -> broadcast::Receiver<T> {
    s.subscribe()
}

/// Relies on `broadcast::Sender::send`: on success the value was queued to
/// every live subscription and the count of those subscriptions, at least
/// one, is returned; the error case means no subscription was live, and
/// only hands the unsent value back. The two cases are converted to an
/// `Option` of the count.
#[verifier::external_body]
pub(crate) fn broadcast_send<T>(s: &broadcast::Sender<T>, value: T) -> (r: Option<usize>)
    ensures
        r matches Some(n) ==> n >= 1,
{
    match s.send(value) {
        Ok(n) => Some(n),
        Err(_) => None,
    }
}

} // verus!
