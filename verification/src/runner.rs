//! The runner: an interpreter-visible factory that turns awaitable handles
//! into bridge futures, plus the shutdown notification through which any
//! number of observers learn, without polling, that the runner has closed.
//!
//! A runner is created once per interpreter session and closed exactly once
//! by its owner; closing is permanent. Futures created through the runner
//! hold their own clone of the interpreter-side callable, not the runner
//! itself, so in-flight futures are unaffected by closure — only the creation
//! of new futures is refused afterwards.

use vstd::prelude::*;
use vstd::pervasive::unreached;

use std::sync::Arc;

use crate::gate::GateToken;
use crate::obj::PyObj;
use crate::future::rust::{RunnerCallable, RustFuture};
use crate::signal::{
    liveness_signal_released, liveness_signal_wait_released, new_liveness_signal,
    share_liveness_signal,
};

verus! {

enum RunnerInner<R: RunnerCallable> {
    Alive {
        runner: R,
        alive_lock: Arc<tokio::sync::RwLock<u8>>,
        _alive_guard: tokio::sync::OwnedRwLockWriteGuard<u8>,
    },
    Closed,
}

/// The factory for bridge futures. While alive it holds the write side of the
/// liveness signal; transitioning to closed drops that guard, which is the
/// one way the signal is ever announced.
pub struct Runner<R: RunnerCallable> {
    inner: RunnerInner<R>,
}

/// What the one state-changing operation, close, does to a runner: it leaves
/// the runner closed, whatever the runner was before.
pub open spec fn close_step<R: RunnerCallable>(pre: Runner<R>, post: Runner<R>) -> bool {
    post.spec_is_closed()
}

impl<R: RunnerCallable> Runner<R> {
    pub closed spec fn spec_is_closed(&self) -> bool {
        self.inner is Closed
    }

    /// A runner accepts the creation of new futures exactly while it is not
    /// closed.
    pub open spec fn spec_accepts_futures(&self) -> bool {
        !self.spec_is_closed()
    }

    /// The interpreter-side callable that new futures will clone.
    pub closed spec fn spec_runner(&self) -> R
        recommends
            !self.spec_is_closed(),
    {
        self.inner->Alive_runner
    }

    pub fn new(runner: R) -> (r: Self)
        ensures
            r.spec_accepts_futures(),
            r.spec_runner() == runner,
    {
        let (alive_lock, alive_guard) = new_liveness_signal();
        Runner { inner: RunnerInner::Alive { runner, alive_lock, _alive_guard: alive_guard } }
    }

    /// Closes the runner, permanently. Dropping the alive payload releases
    /// the held write guard, which announces the closure to every observer.
    pub fn close(&mut self)
        ensures
            close_step(*old(self), *final(self)),
            final(self).spec_is_closed(),
    {
        self.inner = RunnerInner::Closed;
    }

    pub fn is_closed(&self) -> (r: bool)
        ensures
            r == self.spec_is_closed(),
    {
        matches!(&self.inner, RunnerInner::Closed)
    }

    /// Creates a future for `awaitable` while the runner is alive; a closed
    /// runner returns nothing. The future holds its own clone of the
    /// callable, so it outlives a later closure of this runner.
    pub fn try_future(&self, _gate: &GateToken, awaitable: PyObj) -> (r: Option<RustFuture<R>>)
        ensures
            r is Some <==> self.spec_accepts_futures(),
            r matches Some(f) ==> f.spec_is_init() && f.spec_awaitable() == awaitable,
    {
        match &self.inner {
            RunnerInner::Alive { runner, .. } => {
                Some(RustFuture::new(runner.clone(), awaitable))
            }
            RunnerInner::Closed => None,
        }
    }

    /// As [`Runner::try_future`], for callers that have already checked
    /// liveness: creating a future through a closed runner is a caller error
    /// and is excluded here.
    pub fn future(&self, gate: &GateToken, awaitable: PyObj) -> (f: RustFuture<R>)
        requires
            self.spec_accepts_futures(),
        ensures
            f.spec_is_init(),
            f.spec_awaitable() == awaitable,
    {
        match self.try_future(gate, awaitable) {
            Some(f) => f,
            None => unreached(),
        }
    }

    /// Hands out an observer of this runner's closure while the runner is
    /// alive. Observing an already-closed runner from here is meaningless:
    /// observers obtained earlier keep working after closure.
    pub fn closed_notificator(&self) -> (r: Option<ClosedNotificator>)
        ensures
            r is Some <==> self.spec_accepts_futures(),
    {
        match &self.inner {
            RunnerInner::Alive { alive_lock, .. } => {
                Some(ClosedNotificator::new(share_liveness_signal(alive_lock)))
            }
            RunnerInner::Closed => None,
        }
    }
}

/// An observer of one runner's closure. It owns nothing of the runner; it
/// only holds the read side of the liveness signal.
pub struct ClosedNotificator {
    lock: Arc<tokio::sync::RwLock<u8>>,
}

impl ClosedNotificator {
    pub(crate) fn new(lock: Arc<tokio::sync::RwLock<u8>>) -> ClosedNotificator {
        ClosedNotificator { lock }
    }

    /// Non-blocking probe: true once the runner has been closed. The answer
    /// rests on the liveness signal, a trusted primitive, so nothing is
    /// stated of it here; it is exercised by tests instead.
    pub fn is_closed(&self) -> bool {
        liveness_signal_released(&self.lock)
    }

    /// Blocks the calling thread until the runner is closed, then returns.
    /// Must be called from an ordinary thread, not from inside an
    /// asynchronous runtime.
    pub fn blocking_wait(&self) {
        liveness_signal_wait_released(&self.lock)
    }
}

/// Law: closing is monotonic — the close transition leaves a closed runner
/// closed — and a closed runner accepts no new futures, so after close every
/// attempt to create a future is refused.
pub proof fn lemma_closed_runner_refuses_new_futures<R: RunnerCallable>(
    pre: Runner<R>,
    post: Runner<R>,
)
    requires
        pre.spec_is_closed(),
        close_step(pre, post),
    ensures
        post.spec_is_closed(),
        !post.spec_accepts_futures(),
{
}

} // verus!
