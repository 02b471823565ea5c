//! Tests for the runner's lifecycle and its shutdown notification.

use std::cell::RefCell;
use std::rc::Rc;
use std::sync::Arc;
use std::time::Duration;

use pyfuture::future::py::PyFuture;
use pyfuture::future::rust::{CancelHandle, FuturePoll, RunnerCallable};
use pyfuture::gate::GateToken;
use pyfuture::obj::{PyObj, PyResult, WakerRef};
use pyfuture::runner::Runner;

#[derive(Clone)]
struct NoopCancel;

impl CancelHandle for NoopCancel {
    fn cancel(&mut self, _gate: &GateToken) -> PyResult<PyObj> {
        Ok(PyObj { id: 0 })
    }
}

#[derive(Clone)]
struct NoopRunner {
    invocations: Rc<RefCell<u64>>,
}

impl RunnerCallable for NoopRunner {
    type Cancel = NoopCancel;

    fn run(&mut self, _gate: &GateToken, _handle: &mut PyFuture) -> PyResult<NoopCancel> {
        *self.invocations.borrow_mut() += 1;
        Ok(NoopCancel)
    }
}

fn noop_runner() -> NoopRunner {
    NoopRunner { invocations: Rc::new(RefCell::new(0)) }
}

#[test]
fn test_close_refuses_new_futures() {
    let gate = GateToken::new();
    let mut runner = Runner::new(noop_runner());
    assert!(!runner.is_closed());
    assert!(runner.try_future(&gate, PyObj { id: 1 }).is_some());

    runner.close();
    assert!(runner.is_closed());
    assert!(runner.try_future(&gate, PyObj { id: 2 }).is_none());

    // Closing is permanent: a second close leaves the runner closed.
    runner.close();
    assert!(runner.is_closed());
    assert!(runner.try_future(&gate, PyObj { id: 3 }).is_none());
}

#[test]
fn test_futures_in_flight_survive_closure() {
    let gate = GateToken::new();
    let mut runner = Runner::new(noop_runner());
    let mut fut = runner.future(&gate, PyObj { id: 4 });

    runner.close();

    // The future holds its own clone of the callable: it still starts,
    // accepts a completion and resolves after the runner has closed.
    assert_eq!(fut.poll(&gate, WakerRef { id: 1 }), Ok(FuturePoll::Pending));
    fut.completion_handle_mut(&gate).set_result(&gate, PyObj { id: 5 });
    assert_eq!(
        fut.poll(&gate, WakerRef { id: 2 }),
        Ok(FuturePoll::Ready(Ok(PyObj { id: 5 }))),
    );
}

#[test]
fn test_notificator_observes_closure() {
    let mut runner = Runner::new(noop_runner());
    let notificator = runner.closed_notificator().expect("alive runner hands out observers");
    assert!(!notificator.is_closed());

    runner.close();
    assert!(notificator.is_closed());

    // An already-closed runner hands out no new observers.
    assert!(runner.closed_notificator().is_none());
}

#[test]
fn test_notificator_blocking_wait_returns_after_close() {
    let mut runner = Runner::new(noop_runner());
    let notificator = runner.closed_notificator().expect("alive runner hands out observers");

    runner.close();
    // The runner is closed, so the wait returns at once instead of blocking.
    notificator.blocking_wait();
    assert!(notificator.is_closed());
}

#[test]
fn test_blocked_wait_unblocks_when_runner_closes() {
    let runtime = tokio::runtime::Builder::new_current_thread()
        .enable_time()
        .build()
        .expect("runtime builds");

    let mut runner = Runner::new(noop_runner());
    let notificator = runner.closed_notificator().expect("alive runner hands out observers");
    let started = Arc::new(std::sync::Barrier::new(2));
    let started_in_task = started.clone();

    runtime.block_on(async move {
        let waiter = tokio::task::spawn_blocking(move || {
            started_in_task.wait();
            // Suspends in the lock queue until the runner closes.
            notificator.blocking_wait();
            notificator.is_closed()
        });

        // Close only once the observer thread is up, then expect it to
        // unblock within a bounded time.
        started.wait();
        runner.close();
        let observed = tokio::time::timeout(Duration::from_secs(10), waiter)
            .await
            .expect("wait unblocks after close")
            .expect("observer thread finishes");
        assert!(observed);
    });
}
