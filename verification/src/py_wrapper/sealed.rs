//! The sealing of the wrapper's storage tiers: only the three tiers defined
//! by this crate can instantiate the wrapper, and only the wrapper itself can
//! carry the tier-independent access trait.

use vstd::prelude::*;

use core::convert::Infallible;

use super::{ConsumedError, LockCell, PyWrapper};

verus! {

/// Marker for the three storage tiers a wrapper can hold.
pub trait PyWrapperT {}

impl<T> PyWrapperT for Result<T, Infallible> {}

impl<T> PyWrapperT for LockCell<Result<T, Infallible>> {}

impl<T> PyWrapperT for LockCell<Result<T, ConsumedError>> {}

/// Marker that seals the tier-independent access trait to the wrapper.
pub trait SealedPyWrapper {}

impl<T: PyWrapperT> SealedPyWrapper for PyWrapper<T> {}

} // verus!
