//! The interpreter-lock gate, modelled as an explicit capability token.
//!
//! Only one execution context at a time may touch interpreter-owned state, and
//! every operation that does so must hold the process-wide interpreter lock.
//! Rather than an ambient global, the lock is modelled here as a token passed
//! by reference into every operation that needs it: the embedding that owns
//! the real lock constructs one token per critical section, and tests may
//! construct a mock token directly.

use vstd::prelude::*;

verus! {

/// Witness that the process-wide interpreter lock is held by the caller.
///
/// The token grants no access by itself; it only marks, in each signature,
/// which operations may touch interpreter-owned state. Exclusive access to
/// that state is enforced by `&mut` borrows of the values that model it.
pub struct GateToken;

impl GateToken {
    /// Produces the witness. The embedding must call this only while it holds
    /// the real interpreter lock; a test may call it freely as a mock gate.
    pub fn new() -> GateToken {
        GateToken
    }
}

} // verus!
