//! Task spawning and joining, plus the cooperative yield. Spawning schedules
//! a unit of concurrent work on the backend and hands back a handle that owns
//! its eventual result; awaiting happens outside verified code, since a
//! suspension point cannot stand here. The yield primitive's decision logic —
//! suspend exactly once, then be immediately resumable — is a two-state
//! machine and is verified below; only the waking is left to the caller.

use core::future::Future;
use vstd::prelude::*;

verus! {

/// Adapter: the backend's handle to a spawned task under this layer's names.
/// Opaque to the verifier: it is only carried through to the code that awaits.
#[verifier::external_body]
#[verifier::reject_recursive_types(T)]
pub struct JoinHandleImpl<T> {
    pub inner: tokio::task::JoinHandle<T>,
}

/// Owns the eventual result of a spawned unit of work: resolves, outside
/// verified code, to exactly one value — or, if the spawned work terminated
/// abnormally, awaiting it aborts with a diagnostic rather than returning an
/// error value.
#[verifier::reject_recursive_types(T)]
pub struct JoinHandle<T>(pub JoinHandleImpl<T>);

/// Relies on `tokio::task::spawn`: schedules the future for concurrent
/// execution on any worker and returns at once with the handle to its result.
/// The backend panics when no runtime is running on this thread; that is an
/// ambient condition of the caller's process, not a function of the argument.
#[verifier::external_body]
pub fn spawn<T, F>(future: F) -> (r: JoinHandle<T>) where
    T: Send + 'static,
    F: Future<Output = T> + Send + 'static,
{
    JoinHandle(JoinHandleImpl { inner: tokio::task::spawn(future) })
}

/// Relies on `tokio::task::spawn_local`: schedules work that must stay on the
/// caller's single-threaded execution context, for payloads that cannot move
/// between threads. The backend panics outside such a context; that is an
/// ambient condition of the caller's process, not a function of the argument.
#[verifier::external_body]
pub fn spawn_local<T, F>(future: F) -> (r: JoinHandle<T>) where
    T: 'static,
    F: Future<Output = T> + 'static,
{
    JoinHandle(JoinHandleImpl { inner: tokio::task::spawn_local(future) })
}

/// Relies on `tokio::task::block_in_place`: runs the closure to completion on
/// the current worker, first telling the scheduler the worker is blocked so
/// other work is redistributed, and hands the closure's own result straight
/// back — which is all this contract states. The backend panics on a
/// single-threaded runtime; that is an ambient condition of the caller's
/// process, not a function of the argument.
#[verifier::external_body]
pub fn block_in_place<R, F: FnOnce() -> R>(f: F) -> (r: R)
    requires
        call_requires(f, ()),
    ensures
        call_ensures(f, (), r),
{
    tokio::task::block_in_place(f)
}

/// The cooperative yield, as a state machine: polled once, it reports "not
/// ready" so the task suspends and other tasks get a scheduling opportunity;
/// polled again, it reports "ready" — it never suspends a second time. The
/// caller wires this into the backend's polling and wakes the task right
/// after the first step.
pub struct YieldNow {
    pub yielded: bool,
}

impl YieldNow {
    /// A fresh yield point: it has not yielded yet.
    pub fn new() -> (r: Self)
        ensures
            !r.yielded,
    {
        YieldNow { yielded: false }
    }

    /// One poll step. Reports "ready" exactly when the point has already
    /// yielded, and afterwards the point counts as yielded forever: the
    /// first step suspends, every later step resumes.
    pub fn poll_step(&mut self) -> (ready: bool)
        ensures
            ready == old(self).yielded,
            final(self).yielded,
    {
        if self.yielded {
            true
        } else {
            self.yielded = true;
            false
        }
    }
}

} // verus!
