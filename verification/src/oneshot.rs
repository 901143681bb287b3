//! Single-shot channel: one value flows once from one sender to one receiver,
//! then the channel is permanently closed. The slot is owned by the backend;
//! this layer wraps the two endpoints behind a stable facade. A failed send
//! hands the value back to the caller unchanged, so nothing in flight is ever
//! silently lost.

use vstd::prelude::*;

verus! {

/// Error of a suspending receive: the sender was dropped without sending.
#[derive(Clone, Copy, Debug, Eq, PartialEq)]
pub struct RecvError(pub ());

/// Error of a non-suspending receive: `Empty` while the sender still lives
/// but has not sent, `Closed` once no value can ever arrive — the sender was
/// dropped without sending, or the one value was already received.
#[derive(Clone, Copy, Debug, Eq, PartialEq)]
pub enum TryRecvError {
    Empty,
    Closed,
}

/// Adapter half: the backend's receiving endpoint under this layer's names.
/// Opaque to the verifier: every operation on it is a trusted adapter call.
#[verifier::external_body]
#[verifier::reject_recursive_types(T)]
pub struct ReceiverImpl<T> {
    pub inner: tokio::sync::oneshot::Receiver<T>,
}

impl<T> ReceiverImpl<T> {
    /// Relies on `tokio::sync::oneshot::Receiver::try_recv`: the value if one
    /// is pending, `Empty` if none was sent yet, `Closed` if the sender was
    /// dropped without sending or the value was already received. Which of
    /// these depends on the sender's side, so nothing more is promised.
    #[verifier::external_body]
    pub fn try_recv(&mut self) -> (r: Result<T, TryRecvError>) {
        match self.inner.try_recv() {
            Ok(t) => Ok(t),
            Err(tokio::sync::oneshot::error::TryRecvError::Empty) => Err(TryRecvError::Empty),
            Err(tokio::sync::oneshot::error::TryRecvError::Closed) => Err(TryRecvError::Closed),
        }
    }
}

/// Adapter half: the backend's sending endpoint under this layer's names.
/// Opaque to the verifier: every operation on it is a trusted adapter call.
#[verifier::external_body]
#[verifier::reject_recursive_types(T)]
pub struct SenderImpl<T> {
    pub inner: tokio::sync::oneshot::Sender<T>,
}

impl<T> SenderImpl<T> {
    /// Relies on `tokio::sync::oneshot::Sender::send`: consumes the sender;
    /// `Ok` when the receiver was still alive at the send, `Err` with the
    /// value unchanged when the receiver was already gone. Success depends on
    /// the receiver's side, so only the failure shape is promised.
    #[verifier::external_body]
    pub fn send(self, t: T) -> (r: Result<(), T>)
        ensures
            r matches Err(v) ==> v == t,
    {
        self.inner.send(t)
    }
}

/// Relies on `tokio::sync::oneshot::channel`: a connected pair of endpoints
/// over one fresh, unused slot.
#[verifier::external_body]
fn channel_impl<T>() -> (r: (SenderImpl<T>, ReceiverImpl<T>)) {
    let (tx, rx) = tokio::sync::oneshot::channel();
    (SenderImpl { inner: tx }, ReceiverImpl { inner: rx })
}

/// The receiving half: observes at most one value across its lifetime. The
/// `resolved` latch records that the one value was already received; it is
/// set once and never cleared, so a second successful receive is ruled out
/// here, not merely by the backend.
#[verifier::reject_recursive_types(T)]
pub struct Receiver<T> {
    pub half: ReceiverImpl<T>,
    pub resolved: bool,
}

impl<T> Receiver<T> {
    /// Non-suspending receive: the value if already sent, `Empty` while the
    /// sender lives but has not sent, `Closed` once no value can ever arrive.
    /// A success resolves the receiver for good: every later call yields
    /// `Closed`, never a second value.
    pub fn try_recv(&mut self) -> (r: Result<T, TryRecvError>)
        ensures
            old(self).resolved ==> r == Err::<T, TryRecvError>(TryRecvError::Closed),
            final(self).resolved == (old(self).resolved || r is Ok),
    {
        if self.resolved {
            Err(TryRecvError::Closed)
        } else {
            let r = self.half.try_recv();
            if r.is_ok() {
                self.resolved = true;
            }
            r
        }
    }
}

/// The sending half: consumed by the one send.
#[verifier::reject_recursive_types(T)]
pub struct Sender<T>(pub SenderImpl<T>);

impl<T> Sender<T> {
    /// Sends the one value, consuming this sender. On failure — the receiver
    /// was already dropped — the value comes back to the caller unchanged.
    pub fn send(self, t: T) -> (r: Result<(), T>)
        ensures
            r matches Err(v) ==> v == t,
    {
        self.0.send(t)
    }
}

/// Creates one unused single-shot slot and hands back its two halves: the
/// fresh receiver has not resolved yet.
pub fn channel<T>() -> (r: (Sender<T>, Receiver<T>))
    ensures
        !r.1.resolved,
{
    let (tx, rx) = channel_impl();
    (Sender(tx), Receiver { half: rx, resolved: false })
}

} // verus!
