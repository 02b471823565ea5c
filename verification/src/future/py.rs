//! The completion handle: the one object shared between the native poller and
//! the interpreter-side runner.
//!
//! The handle stores at most one outcome and the reference of the executor
//! task to wake. The interpreter side reports completion through
//! [`PyFuture::set_result`] or [`PyFuture::set_exception`], exactly once
//! across the two; the native poller re-reads the outcome and rebinds the
//! waker on every pending poll. Both sides must hold the interpreter lock,
//! which serialises every access; here that exclusivity is carried by the
//! `&mut` borrow together with the lock token.

use vstd::prelude::*;

use crate::gate::GateToken;
use crate::obj::{PyObj, PyErr, PyResult, WakerRef};

verus! {

/// Relates a handle before and after a completion call: the handle was still
/// empty, it now stores exactly `outcome`, everything else is unchanged, and
/// the waker handed back for waking is the one that was registered.
pub open spec fn completed_with(
    pre: PyFuture,
    post: PyFuture,
    outcome: PyResult<PyObj>,
    woken: WakerRef,
) -> bool {
    &&& pre.spec_result() is None
    &&& post.spec_result() == Some(outcome)
    &&& post.spec_awaitable() == pre.spec_awaitable()
    &&& post.spec_waker() == pre.spec_waker()
    &&& woken == pre.spec_waker()
}

/// Relates a handle before and after a waker rebind: only the registered
/// waker changes.
pub open spec fn waker_rebound_to(pre: PyFuture, post: PyFuture, waker: WakerRef) -> bool {
    &&& post.spec_waker() == waker
    &&& post.spec_result() == pre.spec_result()
    &&& post.spec_awaitable() == pre.spec_awaitable()
}

/// The interpreter-visible completion handle.
pub struct PyFuture {
    awaitable: PyObj,
    waker: WakerRef,
    result: Option<PyResult<PyObj>>,
}

impl PyFuture {
    /// The interpreter-side task this handle belongs to.
    pub closed spec fn spec_awaitable(&self) -> PyObj {
        self.awaitable
    }

    /// The executor task currently registered to be woken on completion.
    pub closed spec fn spec_waker(&self) -> WakerRef {
        self.waker
    }

    /// The stored outcome; `None` until the interpreter side completes.
    pub closed spec fn spec_result(&self) -> Option<PyResult<PyObj>> {
        self.result
    }

    /// A handle accepts a completion only while no outcome is stored yet.
    pub open spec fn can_complete(&self) -> bool {
        self.spec_result() is None
    }

    pub fn new(awaitable: PyObj, waker: WakerRef) -> (h: PyFuture)
        ensures
            h.spec_awaitable() == awaitable,
            h.spec_waker() == waker,
            h.can_complete(),
    {
        PyFuture { awaitable, waker, result: None }
    }

    pub fn awaitable(&self) -> (r: PyObj)
        ensures
            r == self.spec_awaitable(),
    {
        self.awaitable
    }

    /// Stores a success outcome and hands back the waker to be woken.
    ///
    /// The runner contract allows at most one completion call per handle
    /// across `set_result` and `set_exception`; a second call is a caller
    /// contract violation and is excluded here.
    pub fn set_result(&mut self, _gate: &GateToken, value: PyObj) -> (woken: WakerRef)
        requires
            old(self).can_complete(),
        ensures
            completed_with(*old(self), *final(self), Ok(value), woken),
    {
        self.result = Some(Ok(value));
        self.waker
    }

    /// Stores a failure outcome and hands back the waker to be woken.
    pub fn set_exception(&mut self, _gate: &GateToken, error: PyErr) -> (woken: WakerRef)
        requires
            old(self).can_complete(),
        ensures
            completed_with(*old(self), *final(self), Err(error), woken),
    {
        self.result = Some(Err(error));
        self.waker
    }

    /// Replaces the registered waker. The native poller calls this on every
    /// poll that still finds the outcome empty, because the task that polls
    /// next may differ from the one that created the handle.
    pub fn waker_clone_from(&mut self, _gate: &GateToken, waker: &WakerRef)
        ensures
            waker_rebound_to(*old(self), *final(self), *waker),
    {
        self.waker = *waker;
    }

    /// Non-consuming read of the stored outcome. Reading never changes the
    /// handle, so repeated reads return the same outcome.
    pub fn result_as_ref(&self) -> (r: Option<&PyResult<PyObj>>)
        ensures
            match r {
                Some(o) => self.spec_result() == Some(*o),
                None => self.spec_result() is None,
            },
    {
        self.result.as_ref()
    }
}

/// Law: a completion wakes exactly the registered waker, stores exactly the
/// reported outcome, and leaves the handle unable to accept a second
/// completion, so each handle wakes its waker exactly once per stored
/// outcome.
pub proof fn lemma_completion_wakes_registered_waker_once(
    pre: PyFuture,
    post: PyFuture,
    outcome: PyResult<PyObj>,
    woken: WakerRef,
)
    requires
        completed_with(pre, post, outcome, woken),
    ensures
        woken == pre.spec_waker(),
        post.spec_result() == Some(outcome),
        !post.can_complete(),
{
}

/// Law: a completion that follows a waker rebind wakes the waker of that
/// rebind. Since the poller rebinds on every pending poll, a completion
/// reported between two polls always wakes the task that polled last, never a
/// stale one.
pub proof fn lemma_completion_wakes_most_recent_waker(
    h0: PyFuture,
    h1: PyFuture,
    h2: PyFuture,
    waker: WakerRef,
    outcome: PyResult<PyObj>,
    woken: WakerRef,
)
    requires
        waker_rebound_to(h0, h1, waker),
        completed_with(h1, h2, outcome, woken),
    ensures
        woken == waker,
{
}

} // verus!
