//! Plain models of the values the bridge moves between the two runtimes.
//!
//! Interpreter-side objects are opaque to the native side: the bridge never
//! looks inside a payload or an awaitable, it only stores, duplicates and
//! hands them over. They are therefore modelled as plain identifiers. A
//! failure carries the one thing the bridge reads from it, its message text.

use vstd::prelude::*;

use crate::gate::GateToken;

verus! {

/// An opaque reference to an interpreter-side object: a success payload, an
/// awaitable task, or any other value the bridge carries through unchanged.
#[derive(Clone, Copy, PartialEq, Eq, Structural, Debug, Hash)]
pub struct PyObj {
    pub id: u64,
}

/// An interpreter-side failure payload.
#[derive(Debug, PartialEq, Eq)]
pub struct PyErr {
    message: String,
}

/// The outcome channel of an interpreter-side task: a success payload or a
/// failure payload.
pub type PyResult<T> = Result<T, PyErr>;

impl PyErr {
    pub closed spec fn spec_message(&self) -> Seq<char> {
        self.message@
    }

    pub fn new(message: String) -> (e: PyErr)
        ensures
            e.spec_message() == message@,
    {
        PyErr { message }
    }

    /// Duplicates the failure while the interpreter lock is held, so that the
    /// stored original can stay owned by the completion handle.
    pub fn clone_ref(&self, _gate: &GateToken) -> (e: PyErr)
        ensures
            e == *self,
    {
        PyErr { message: self.message.clone() }
    }

    pub fn message(&self) -> (m: &String)
        ensures
            m@ == self.spec_message(),
    {
        &self.message
    }
}

/// An identifier for the executor task to wake when an outcome arrives. The
/// executor that owns the real wake callbacks keeps the mapping from
/// identifiers to callbacks; the bridge only records and returns them.
#[derive(Clone, Copy, PartialEq, Eq, Structural, Debug)]
pub struct WakerRef {
    pub id: u64,
}

} // verus!
