//! Interface traits for interpreter-visible classes that expose a `match`
//! method over their variants: one trait per receiver mode. A class
//! implements the trait whose receiver its variants need, and the embedding
//! generates the interpreter-visible method from it.

use vstd::prelude::*;

verus! {

/// Matching that only reads the receiver.
pub trait PyMatchRef {
    type Output;

    fn match_ref(&self) -> Self::Output;
}

/// Matching that may mutate the receiver.
pub trait PyMatchMut {
    type Output;

    fn match_mut(&mut self) -> Self::Output;
}

/// Matching that consumes the receiver.
pub trait PyMatchInto: Sized {
    type Output;

    fn match_into(self) -> Self::Output;
}

} // verus!
