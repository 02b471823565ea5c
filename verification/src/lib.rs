//! A bridge that lets a poll-based native executor await tasks running inside
//! a lock-protected managed interpreter.
//!
//! The interpreter schedules its own cooperative tasks; the native side drives
//! poll-based futures. The bridge crosses between the two: a [`future::PyFuture`]
//! completion handle carries one outcome from the interpreter side to the
//! native side, a [`future::RustFuture`] state machine turns that handle into a
//! pollable value, and a [`runner::Runner`] starts interpreter-side work and
//! announces its own shutdown to any number of observers.
//!
//! Around the bridge, [`py_wrapper`] wraps the internal values of
//! interpreter-visible classes so that ownership can be handed out in a
//! compatible way across storage tiers, and [`py_match`] holds the interface
//! traits those classes expose a `match` method through.

pub mod future;
pub mod gate;
pub mod obj;
pub mod py_match;
pub mod py_wrapper;
pub mod runner;
pub mod signal;
