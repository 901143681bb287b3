//! Bounded multi-producer, single-consumer channel. The queue itself is owned
//! by the backend; this layer wraps its endpoints behind a stable facade and
//! error taxonomy. Suspending operations cannot stand in verified code, so
//! the facade carries the non-suspending operations; what a failed send hands
//! back is pinned down exactly: the undelivered value, never a substitute.

use vstd::prelude::*;

verus! {

/// Error of a non-suspending receive: either the queue is momentarily empty
/// while senders still live, or every sender is gone and the queue is
/// permanently closed.
#[derive(Clone, Copy, Debug, PartialEq, Eq)]
pub enum TryRecvError {
    Empty,
    Closed,
}

/// Error of a non-suspending send, carrying the undelivered value back:
/// `Full` when the queue is at capacity, `Closed` when the receiver is gone.
#[derive(Clone, Copy, Hash, Debug)]
pub enum TrySendError<T> {
    Full(T),
    Closed(T),
}

/// Error of a suspending send: the receiver is gone, and the undelivered
/// value comes back to the caller inside.
pub struct SendError<T>(pub T);

/// Largest capacity a channel can be created with: the backend counts free
/// slots in a semaphore that reserves the top three bits of its counter and
/// refuses more permits than this.
pub const MAX_CAPACITY: usize = usize::MAX >> 3;

/// Adapter half: the backend's receiving endpoint under this layer's names.
/// Opaque to the verifier: every operation on it is a trusted adapter call.
#[verifier::external_body]
#[verifier::reject_recursive_types(T)]
pub struct ReceiverImpl<T> {
    pub inner: tokio::sync::mpsc::Receiver<T>,
}

impl<T> ReceiverImpl<T> {
    /// Relies on `tokio::sync::mpsc::Receiver::try_recv`: a queued value if
    /// one is ready, `Empty` while the queue is empty but some sender lives,
    /// `Disconnected` (mapped to `Closed` here) once the queue is closed and
    /// drained. Which of the three depends on the senders' side, so nothing
    /// more is promised.
    #[verifier::external_body]
    pub fn try_recv(&mut self) -> (r: Result<T, TryRecvError>) {
        match self.inner.try_recv() {
            Ok(t) => Ok(t),
            Err(tokio::sync::mpsc::error::TryRecvError::Empty) => Err(TryRecvError::Empty),
            Err(tokio::sync::mpsc::error::TryRecvError::Disconnected) => Err(TryRecvError::Closed),
        }
    }

    /// Relies on `tokio::sync::mpsc::Receiver::close`: closes the queue for
    /// new sends while already-queued values stay receivable.
    #[verifier::external_body]
    pub fn close(&mut self) {
        self.inner.close();
    }
}

/// Adapter half: the backend's sending endpoint under this layer's names.
/// Opaque to the verifier: every operation on it is a trusted adapter call.
#[verifier::external_body]
#[verifier::reject_recursive_types(T)]
pub struct SenderImpl<T> {
    pub inner: tokio::sync::mpsc::Sender<T>,
}

impl<T> SenderImpl<T> {
    /// Relies on `tokio::sync::mpsc::Sender::try_send`: enqueues without
    /// suspending, or fails returning the message inside the error — `Full`
    /// at capacity, `Closed` when the receiving half is gone. Success depends
    /// on the receiver's side, so only the failure shape is promised.
    #[verifier::external_body]
    pub fn try_send(&self, message: T) -> (r: Result<(), TrySendError<T>>)
        ensures
            r matches Err(e) ==> (e == TrySendError::Full(message) || e == TrySendError::Closed(
                message,
            )),
    {
        match self.inner.try_send(message) {
            Ok(()) => Ok(()),
            Err(tokio::sync::mpsc::error::TrySendError::Full(t)) => Err(TrySendError::Full(t)),
            Err(tokio::sync::mpsc::error::TrySendError::Closed(t)) => Err(TrySendError::Closed(t)),
        }
    }

    /// Relies on `tokio::sync::mpsc::Sender::clone`: another handle onto the
    /// same queue; the queue closes only once every handle is gone.
    #[verifier::external_body]
    pub fn duplicate(&self) -> (r: Self) {
        SenderImpl { inner: self.inner.clone() }
    }
}

/// Relies on `tokio::sync::mpsc::channel`: a connected pair of endpoints over
/// one fresh queue of the given capacity. The backend panics on a zero
/// capacity, and its semaphore panics on a capacity above `MAX_CAPACITY`; the
/// precondition rules both inputs out.
#[verifier::external_body]
fn channel_impl<T>(buffer_size: usize) -> (r: (SenderImpl<T>, ReceiverImpl<T>))
    requires
        1 <= buffer_size && buffer_size <= MAX_CAPACITY,
{
    let (tx, rx) = tokio::sync::mpsc::channel(buffer_size);
    (SenderImpl { inner: tx }, ReceiverImpl { inner: rx })
}

/// The receiving half of the channel: the single consumer, not cloneable.
/// The `drained` latch records that the channel once reported itself closed
/// and drained; it is set once and never cleared, so "no more values" is
/// permanent here, not merely a promise of the backend.
#[verifier::reject_recursive_types(T)]
pub struct Receiver<T> {
    pub half: ReceiverImpl<T>,
    pub drained: bool,
}

impl<T> Receiver<T> {
    /// Non-suspending receive: a queued value, or `Empty` while the queue is
    /// open but momentarily empty, or `Closed` once every sender is gone and
    /// the queue is drained — and from then on forever.
    pub fn try_recv(&mut self) -> (r: Result<T, TryRecvError>)
        ensures
            old(self).drained ==> r == Err::<T, TryRecvError>(TryRecvError::Closed),
            final(self).drained == (old(self).drained || r == Err::<T, TryRecvError>(
                TryRecvError::Closed,
            )),
    {
        if self.drained {
            Err(TryRecvError::Closed)
        } else {
            let r = self.half.try_recv();
            if let Err(TryRecvError::Closed) = &r {
                self.drained = true;
            }
            r
        }
    }

    /// Marks the channel closed for new sends; values already queued still
    /// drain through `try_recv`.
    pub fn close(&mut self)
        ensures
            final(self).drained == old(self).drained,
    {
        self.half.close();
    }
}

/// The sending half of the channel: cloneable, one handle per producer.
#[verifier::reject_recursive_types(T)]
pub struct Sender<T>(pub SenderImpl<T>);

impl<T> Clone for Sender<T> {
    fn clone(&self) -> (r: Self) {
        Sender(self.0.duplicate())
    }
}

impl<T> Sender<T> {
    /// Non-suspending send. On failure the undelivered value comes back to
    /// the caller unchanged: `Full(message)` when the queue is at capacity,
    /// `Closed(message)` when the receiver is gone.
    pub fn try_send(&self, message: T) -> (r: Result<(), TrySendError<T>>)
        ensures
            r matches Err(e) ==> (e == TrySendError::Full(message) || e == TrySendError::Closed(
                message,
            )),
    {
        self.0.try_send(message)
    }
}

/// Creates one bounded queue of capacity `buffer_size` — at least one, at
/// most `MAX_CAPACITY` — and hands back its two halves: the fresh receiver
/// has not seen the channel close.
pub fn channel<T>(buffer_size: usize) -> (r: (Sender<T>, Receiver<T>))
    requires
        1 <= buffer_size && buffer_size <= MAX_CAPACITY,
    ensures
        !r.1.drained,
{
    let (tx, rx) = channel_impl(buffer_size);
    (Sender(tx), Receiver { half: rx, drained: false })
}

} // verus!
