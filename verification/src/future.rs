//! The foreign-future bridge: a completion handle shared with the interpreter
//! side, and the native state machine that polls it.

pub mod py;
pub mod rust;

pub use py::PyFuture;
pub use rust::{CancelHandle, CancelOnDrop, FuturePoll, RunnerCallable, RustFuture, SetupError};
