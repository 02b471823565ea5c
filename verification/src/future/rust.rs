//! The native side of the bridge: a poll-based state machine that starts an
//! interpreter-side task on first poll and extracts its outcome once the
//! completion handle has been filled.
//!
//! The machine has three states. `Init` holds the awaitable and the runner
//! callable, nothing started yet. The first poll builds a completion handle,
//! invokes the runner and moves to `Running`; that poll always reports
//! pending. Every later poll either rebinds the waker and stays pending, or
//! finds an outcome, duplicates it out under the interpreter lock and moves to
//! the terminal `Done` state. Polling a done future is a caller error and is
//! excluded by contract.

use vstd::prelude::*;
use vstd::pervasive::unreached;

use crate::gate::GateToken;
use crate::obj::{PyObj, PyErr, PyResult, WakerRef};
use crate::future::py::{waker_rebound_to, PyFuture};

verus! {

/// A cancel-capable token handed back by a runner invocation. Invoking it
/// asks the interpreter side, best effort, to cancel the started task; the
/// request itself fails if, for instance, the task has already finished.
pub trait CancelHandle: Sized {
    /// Requests cancellation once. Nothing is promised of the result: whether
    /// the request succeeds is decided by the interpreter side alone.
    fn cancel(&mut self, gate: &GateToken) -> PyResult<PyObj>;
}

/// The interpreter-side runner callable: given a completion handle, it
/// schedules interpreter-side work and returns promptly with a cancel-capable
/// token. It must eventually call exactly one of the handle's outcome
/// setters, or neither, in which case the future never resolves. Nothing is
/// promised of its result here: the state machine is verified for every
/// behaviour of the callable.
pub trait RunnerCallable: Sized + Clone {
    type Cancel: CancelHandle;

    fn run(&mut self, gate: &GateToken, handle: &mut PyFuture) -> PyResult<Self::Cancel>;
}

/// What one poll reports to the executor.
#[derive(Debug, PartialEq, Eq)]
pub enum FuturePoll {
    /// The interpreter-side task has not completed yet.
    Pending,
    /// The task completed with the carried outcome.
    Ready(PyResult<PyObj>),
}

/// The runner invocation itself failed while starting the task. This is a
/// broken integration, not a task outcome, so it is reported on a channel of
/// its own rather than as a ready failure payload.
#[derive(Debug, PartialEq, Eq)]
pub struct SetupError {
    pub cause: PyErr,
}

enum FutureState<R: RunnerCallable> {
    Init { awaitable: PyObj, runner: R },
    Running { py_future: PyFuture, cancel_handle: R::Cancel, cancellation_required: bool },
    Done,
}

/// The abstract state of a bridge future: what the contracts of
/// [`RustFuture`] speak about. Being an enum, it carries the fact that the
/// three states exclude each other.
pub enum FutureView<R: RunnerCallable> {
    /// Nothing started yet: the awaitable and the runner wait for the first
    /// poll.
    Init { awaitable: PyObj, runner: R },
    /// The runner has been invoked; the completion handle is shared with the
    /// interpreter side, and at most one cancellation request has been made.
    Running { handle: PyFuture, cancellation_required: bool },
    /// Terminal: the outcome has been delivered, or setup failed.
    Done,
}

/// The bridge state machine, driven by a poll-based executor.
pub struct RustFuture<R: RunnerCallable> {
    inner: FutureState<R>,
}

impl<R: RunnerCallable> View for RustFuture<R> {
    type V = FutureView<R>;

    closed spec fn view(&self) -> FutureView<R> {
        match self.inner {
            FutureState::Init { awaitable, runner } => FutureView::Init { awaitable, runner },
            FutureState::Running { py_future, cancel_handle: _, cancellation_required } => (
                FutureView::Running { handle: py_future, cancellation_required }
            ),
            FutureState::Done => FutureView::Done,
        }
    }
}

impl<R: RunnerCallable> RustFuture<R> {
    pub open spec fn spec_is_init(&self) -> bool {
        self@ is Init
    }

    pub open spec fn spec_is_running(&self) -> bool {
        self@ is Running
    }

    pub open spec fn spec_is_done(&self) -> bool {
        self@ is Done
    }

    /// The awaitable the future was created for, while nothing has started.
    pub open spec fn spec_awaitable(&self) -> PyObj
        recommends
            self.spec_is_init(),
    {
        self@->Init_awaitable
    }

    /// The runner callable that the first poll will invoke.
    pub open spec fn spec_runner(&self) -> R
        recommends
            self.spec_is_init(),
    {
        self@->Init_runner
    }

    /// The completion handle shared with the interpreter side, while running.
    pub open spec fn spec_handle(&self) -> PyFuture
        recommends
            self.spec_is_running(),
    {
        self@->Running_handle
    }

    /// Whether a cancellation request has already been issued. Only a running
    /// future can carry a pending cancellation request.
    pub open spec fn spec_cancellation_required(&self) -> bool {
        self@ is Running && self@->Running_cancellation_required
    }

    pub fn new(runner: R, awaitable: PyObj) -> (f: Self)
        ensures
            f.spec_is_init(),
            f.spec_awaitable() == awaitable,
            f.spec_runner() == runner,
    {
        RustFuture { inner: FutureState::Init { awaitable, runner } }
    }

    pub fn is_init(&self) -> (r: bool)
        ensures
            r == self.spec_is_init(),
    {
        matches!(&self.inner, FutureState::Init { .. })
    }

    pub fn is_running(&self) -> (r: bool)
        ensures
            r == self.spec_is_running(),
    {
        matches!(&self.inner, FutureState::Running { .. })
    }

    pub fn is_done(&self) -> (r: bool)
        ensures
            r == self.spec_is_done(),
    {
        matches!(&self.inner, FutureState::Done)
    }

    pub fn is_cancellation_required(&self) -> (r: bool)
        ensures
            r == self.spec_cancellation_required(),
    {
        match &self.inner {
            FutureState::Running { cancellation_required, .. } => *cancellation_required,
            _ => false,
        }
    }

    /// One poll step.
    ///
    /// On the first poll the future builds a fresh completion handle bound to
    /// `waker`, invokes the runner with it and always reports pending; if the
    /// runner invocation itself fails, the future becomes done and the
    /// failure is reported as a setup error. On a later poll, an empty handle
    /// means the current waker is rebound and pending is reported; a stored
    /// outcome is duplicated out, the future becomes done, and the outcome is
    /// reported ready. A done future must not be polled again.
    pub fn poll(&mut self, gate: &GateToken, waker: WakerRef) -> (r: Result<FuturePoll, SetupError>)
        requires
            !old(self).spec_is_done(),
        ensures
            old(self).spec_is_init() ==> match r {
                Ok(p) => {
                    &&& p is Pending
                    &&& final(self).spec_is_running()
                    &&& !final(self).spec_cancellation_required()
                },
                Err(_) => final(self).spec_is_done(),
            },
            old(self).spec_is_running() ==> match old(self).spec_handle().spec_result() {
                None => {
                    &&& r == Ok::<FuturePoll, SetupError>(FuturePoll::Pending)
                    &&& final(self).spec_is_running()
                    &&& waker_rebound_to(old(self).spec_handle(), final(self).spec_handle(), waker)
                    &&& final(self).spec_cancellation_required()
                        == old(self).spec_cancellation_required()
                },
                Some(outcome) => {
                    &&& r == Ok::<FuturePoll, SetupError>(FuturePoll::Ready(outcome))
                    &&& final(self).spec_is_done()
                },
            },
    {
        let mut state = FutureState::Done;
        core::mem::swap(&mut self.inner, &mut state);
        match state {
            FutureState::Init { awaitable, runner } => {
                let mut runner = runner;
                let mut handle = PyFuture::new(awaitable, waker);
                match runner.run(gate, &mut handle) {
                    Ok(cancel_handle) => {
                        self.inner = FutureState::Running {
                            py_future: handle,
                            cancel_handle,
                            cancellation_required: false,
                        };
                        Ok(FuturePoll::Pending)
                    }
                    Err(cause) => Err(SetupError { cause }),
                }
            }
            FutureState::Running { py_future, cancel_handle, cancellation_required } => {
                let mut py_future = py_future;
                match py_future.result_as_ref() {
                    None => {
                        py_future.waker_clone_from(gate, &waker);
                        self.inner = FutureState::Running {
                            py_future,
                            cancel_handle,
                            cancellation_required,
                        };
                        Ok(FuturePoll::Pending)
                    }
                    Some(stored) => {
                        let outcome = match stored {
                            Ok(value) => Ok(*value),
                            Err(error) => Err(error.clone_ref(gate)),
                        };
                        Ok(FuturePoll::Ready(outcome))
                    }
                }
            }
            FutureState::Done => unreached(),
        }
    }

    /// Issues the single allowed cancellation request for this future.
    ///
    /// Exclusive access serialises concurrent cancellation attempts; the
    /// caller must not have requested cancellation before. The request is
    /// recorded only when the token reports success, so a failed request may
    /// be retried.
    pub fn cancel_bound(&mut self, gate: &GateToken) -> (r: PyResult<PyObj>)
        requires
            old(self).spec_is_running(),
            !old(self).spec_cancellation_required(),
        ensures
            final(self).spec_is_running(),
            final(self).spec_handle() == old(self).spec_handle(),
            final(self).spec_cancellation_required() == (r is Ok),
    {
        match &mut self.inner {
            FutureState::Running { cancel_handle, cancellation_required, .. } => {
                match cancel_handle.cancel(gate) {
                    Ok(value) => {
                        *cancellation_required = true;
                        Ok(value)
                    }
                    Err(error) => Err(error),
                }
            }
            _ => unreached(),
        }
    }

    /// The interpreter side's access path to the shared completion handle,
    /// under the interpreter lock. The embedding reaches the handle through
    /// this borrow to report an outcome between two polls.
    pub fn completion_handle_mut(&mut self, _gate: &GateToken) -> (h: &mut PyFuture)
        requires
            old(self).spec_is_running(),
        ensures
            *h == old(self).spec_handle(),
            final(self).spec_is_running(),
            final(self).spec_handle() == *final(h),
            final(self).spec_cancellation_required() == old(self).spec_cancellation_required(),
    {
        match &mut self.inner {
            FutureState::Running { py_future, .. } => py_future,
            _ => unreached(),
        }
    }

    /// Read access to the shared completion handle while the future runs.
    pub fn completion_handle(&self, _gate: &GateToken) -> (h: &PyFuture)
        requires
            self.spec_is_running(),
        ensures
            *h == self.spec_handle(),
    {
        match &self.inner {
            FutureState::Running { py_future, .. } => py_future,
            _ => unreached(),
        }
    }
}

/// A decorator that makes abandonment safe: [`CancelOnDrop::abandon`] holds
/// the drop-time rule, issuing the one cancellation request exactly when the
/// inner future still runs without one. The embedding's drop glue, which owns
/// the real interpreter lock, reduces to taking a lock token and making that
/// one call, so the deadlock risk of locking from a drop site stays opt-in
/// and localised in this wrapper instead of being baked into every future.
pub struct CancelOnDrop<R: RunnerCallable>(pub RustFuture<R>);

impl<R: RunnerCallable> CancelOnDrop<R> {
    /// Polling forwards to the inner future unchanged.
    pub fn poll(&mut self, gate: &GateToken, waker: WakerRef) -> (r: Result<FuturePoll, SetupError>)
        requires
            !old(self).0.spec_is_done(),
        ensures
            old(self).0.spec_is_init() ==> match r {
                Ok(p) => {
                    &&& p is Pending
                    &&& final(self).0.spec_is_running()
                    &&& !final(self).0.spec_cancellation_required()
                },
                Err(_) => final(self).0.spec_is_done(),
            },
            old(self).0.spec_is_running() ==> match old(self).0.spec_handle().spec_result() {
                None => {
                    &&& r == Ok::<FuturePoll, SetupError>(FuturePoll::Pending)
                    &&& final(self).0.spec_is_running()
                    &&& waker_rebound_to(old(self).0.spec_handle(), final(self).0.spec_handle(), waker)
                    &&& final(self).0.spec_cancellation_required()
                        == old(self).0.spec_cancellation_required()
                },
                Some(outcome) => {
                    &&& r == Ok::<FuturePoll, SetupError>(FuturePoll::Ready(outcome))
                    &&& final(self).0.spec_is_done()
                },
            },
    {
        self.0.poll(gate, waker)
    }

    /// The drop-time rule: if the inner future still runs and no cancellation
    /// has been requested, issue the single cancellation request; otherwise do
    /// nothing. Returns the request's outcome when one was issued, so the
    /// caller may log a failed request; failures are never propagated, since
    /// the caller has already abandoned the task's outcome.
    pub fn abandon(&mut self, gate: &GateToken) -> (r: Option<PyResult<PyObj>>)
        ensures
            r is Some <==> cancel_allowed(old(self).0),
            !cancel_allowed(old(self).0) ==> *final(self) == *old(self),
            cancel_allowed(old(self).0) ==> {
                &&& final(self).0.spec_is_running()
                &&& final(self).0.spec_handle() == old(self).0.spec_handle()
                &&& final(self).0.spec_cancellation_required() == (r->0 is Ok)
            },
            !cancel_allowed(final(self).0) || (r matches Some(req) && req is Err),
    {
        if self.0.is_running() && !self.0.is_cancellation_required() {
            Some(self.0.cancel_bound(gate))
        } else {
            None
        }
    }
}

/// Law: a poll that reports ready leaves the future done, and a done future
/// admits no further poll, so ready is reported at most once and never by the
/// starting poll.
pub proof fn lemma_ready_is_reported_at_most_once<R: RunnerCallable>(
    pre: RustFuture<R>,
    post: RustFuture<R>,
    outcome: PyResult<PyObj>,
)
    requires
        pre.spec_is_running(),
        pre.spec_handle().spec_result() == Some(outcome),
        post.spec_is_done(),
    ensures
        !poll_allowed(post),
{
}

/// Whether the poll contract admits another poll of this future.
pub open spec fn poll_allowed<R: RunnerCallable>(f: RustFuture<R>) -> bool {
    !f.spec_is_done()
}

/// Law: a successful cancellation marks the future, and a marked future
/// admits no further cancellation request, so the cancel token is invoked at
/// most once for as long as requests succeed.
pub proof fn lemma_cancellation_is_single_flight<R: RunnerCallable>(
    pre: RustFuture<R>,
    post: RustFuture<R>,
)
    requires
        pre.spec_is_running(),
        !pre.spec_cancellation_required(),
        post.spec_is_running(),
        post.spec_cancellation_required(),
    ensures
        !cancel_allowed(post),
{
}

/// Whether the cancellation contract admits a request on this future.
pub open spec fn cancel_allowed<R: RunnerCallable>(f: RustFuture<R>) -> bool {
    f.spec_is_running() && !f.spec_cancellation_required()
}

} // verus!
