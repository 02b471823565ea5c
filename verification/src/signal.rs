//! The shutdown announcement: a one-shot alive flag encoded as ownership of a
//! reader-writer lock's write side.
//!
//! The owner of the flag holds the unique write guard for as long as it is
//! alive; releasing the guard is the announcement. Observers attempt (or
//! await) a read acquisition: success means the write side has been released,
//! for good, since nothing ever write-locks the primitive again. Encoding the
//! flag as lock ownership lets "wait until announced" suspend in the lock's
//! queue instead of spinning on a boolean.
//!
//! The primitive itself is `tokio::sync::RwLock`; the items here are the
//! trusted boundary around it.

use vstd::prelude::*;

use std::sync::Arc;

verus! {

#[verifier::external_type_specification]
#[verifier::external_body]
#[verifier::reject_recursive_types(T)]
pub struct ExTokioRwLock<T: ?Sized>(tokio::sync::RwLock<T>);

#[verifier::external_type_specification]
#[verifier::external_body]
#[verifier::reject_recursive_types(T)]
pub struct ExTokioOwnedRwLockWriteGuard<T: ?Sized>(tokio::sync::OwnedRwLockWriteGuard<T>);

/// Relies on tokio::sync::RwLock::new and RwLock::try_write_owned: a freshly
/// created lock has no guard outstanding, so the owned write acquisition on
/// the lock that was just created cannot fail.
#[verifier::external_body]
pub(crate) fn new_liveness_signal() -> (Arc<tokio::sync::RwLock<u8>>, tokio::sync::OwnedRwLockWriteGuard<u8>) {
    let lock = Arc::new(tokio::sync::RwLock::new(0u8));
    let guard = lock.clone().try_write_owned().expect("a fresh lock has no other guards");
    (lock, guard)
}

/// Relies on std's Arc::clone: the returned handle refers to the same lock as
/// the argument.
#[verifier::external_body]
pub(crate) fn share_liveness_signal(lock: &Arc<tokio::sync::RwLock<u8>>) -> (r: Arc<tokio::sync::RwLock<u8>>)
    ensures
        r == *lock,
{
    lock.clone()
}

/// Relies on tokio::sync::RwLock::try_read: the attempt succeeds exactly when
/// no write guard is outstanding. The read guard is released at once, so the
/// probe never blocks a writer.
#[verifier::external_body]
pub(crate) fn liveness_signal_released(lock: &Arc<tokio::sync::RwLock<u8>>) -> bool {
    lock.try_read().is_ok()
}

/// Relies on tokio::sync::RwLock::blocking_read: it blocks the calling thread
/// until no write guard is outstanding, then the read guard is released at
/// once. tokio refuses, with a panic, to block a thread that belongs to an
/// asynchronous runtime; callers must be on an ordinary thread.
#[verifier::external_body]
pub(crate) fn liveness_signal_wait_released(lock: &Arc<tokio::sync::RwLock<u8>>) {
    let _guard = lock.blocking_read();
}

} // verus!
