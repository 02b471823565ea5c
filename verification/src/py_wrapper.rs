//! A wrapper for values that an interpreter-visible class hands out again:
//! alias references, mutable references, or full ownership.
//!
//! The wrapper comes in three storage tiers, and moving a type from one tier
//! to the next is not a breaking change for its callers:
//!
//! - [`PyWrapperT0`]: the value is always present; plain references out.
//! - [`PyWrapperT1`]: as tier zero, with the accessors that a lock-guarded
//!   cell offers, so callers already handle an acquisition failure.
//! - [`PyWrapperT2`]: ownership of the value can be taken out once; every
//!   later access reports the consumption.
//!
//! Exclusive access is carried by `&mut` borrows, checked statically, so the
//! lock-shaped results of the acquiring accessors are proved successful here;
//! they remain in the signatures so that callers written against a shared,
//! dynamically locked cell keep their error handling unchanged.

mod sealed;

use vstd::prelude::*;
use vstd::pervasive::unreached;

use core::convert::Infallible;

use crate::obj::PyErr;

verus! {

/// The internal value has been consumed: its ownership was moved out earlier.
#[derive(Clone, Copy, PartialEq, Eq, Structural, Debug)]
pub struct ConsumedError;

impl ConsumedError {
    /// The error's message text.
    pub fn message(&self) -> (m: String)
        ensures
            m@ == "Already consumed"@,
    {
        "Already consumed".to_owned()
    }

    /// The failure payload that reports this error to the interpreter side.
    pub fn to_py_err(&self) -> (e: PyErr)
        ensures
            e.spec_message() == "Already consumed"@,
    {
        PyErr::new(self.message())
    }
}

pub type ConsumedResult<T> = Result<T, ConsumedError>;

/// The internal value is already mutably borrowed; the access would conflict.
#[derive(Clone, Copy, PartialEq, Eq, Structural, Debug)]
pub struct LockError;

impl LockError {
    /// The error's message text.
    pub fn message(&self) -> (m: String)
        ensures
            m@ == "Already mutably borrowed"@,
    {
        "Already mutably borrowed".to_owned()
    }

    /// The failure payload that reports this error to the interpreter side.
    pub fn to_py_err(&self) -> (e: PyErr)
        ensures
            e.spec_message() == "Already mutably borrowed"@,
    {
        PyErr::new(self.message())
    }
}

pub type LockResult<T> = Result<T, LockError>;

/// Storage for the tiers whose references are handed out under a lock
/// discipline. Every access runs through the wrapper's methods on an
/// exclusive borrow, so each acquisition here provably succeeds.
pub struct LockCell<T> {
    value: T,
}

/// Tier zero: the value is always present and only references are handed out.
pub type PyWrapperT0<T> = Result<T, Infallible>;

/// Tier one: alias and mutable references, through lock-shaped accessors.
pub type PyWrapperT1<T> = LockCell<Result<T, Infallible>>;

/// Tier two: as tier one, and ownership can be taken out once.
pub type PyWrapperT2<T> = LockCell<Result<T, ConsumedError>>;

/// The wrapper around an interpreter-visible class's internal value.
pub struct PyWrapper<T>
    where T: sealed::PyWrapperT
{
    inner: T,
}

impl<T> PyWrapper<PyWrapperT0<T>> {
    /// Well-formedness: infallible storage always holds the value.
    pub closed spec fn wf(&self) -> bool {
        self.inner is Ok
    }

    /// The wrapped value.
    pub closed spec fn value(&self) -> T
        recommends
            self.wf(),
    {
        self.inner->Ok_0
    }

    pub fn new0(inner: T) -> (w: Self)
        ensures
            w.wf(),
            w.value() == inner,
    {
        PyWrapper { inner: Ok(inner) }
    }

    pub fn inner_ref(&self) -> (r: &T)
        requires
            self.wf(),
        ensures
            *r == self.value(),
    {
        match &self.inner {
            Ok(value) => value,
            Err(_) => unreached(),
        }
    }

    pub fn inner_mut(&mut self) -> (r: &mut T)
        requires
            old(self).wf(),
        ensures
            *r == old(self).value(),
            final(self).wf(),
            final(self).value() == *final(r),
    {
        match &mut self.inner {
            Ok(value) => value,
            Err(_) => unreached(),
        }
    }

    pub fn into_inner(self) -> (r: T)
        requires
            self.wf(),
        ensures
            r == self.value(),
    {
        match self.inner {
            Ok(value) => value,
            Err(_) => unreached(),
        }
    }
}

impl<T> PyWrapper<PyWrapperT1<T>> {
    /// Well-formedness: infallible storage always holds the value.
    pub closed spec fn wf(&self) -> bool {
        self.inner.value is Ok
    }

    /// The wrapped value.
    pub closed spec fn value(&self) -> T
        recommends
            self.wf(),
    {
        self.inner.value->Ok_0
    }

    pub fn new1(inner: T) -> (w: Self)
        ensures
            w.wf(),
            w.value() == inner,
    {
        PyWrapper { inner: LockCell { value: Ok(inner) } }
    }

    /// Acquires the read side; with exclusive borrows the acquisition always
    /// succeeds.
    pub fn lock_inner_ref(&self) -> (r: LockResult<&T>)
        requires
            self.wf(),
        ensures
            r matches Ok(v) && *v == self.value(),
    {
        match &self.inner.value {
            Ok(value) => Ok(value),
            Err(_) => unreached(),
        }
    }

    pub fn into_inner(self) -> (r: T)
        requires
            self.wf(),
        ensures
            r == self.value(),
    {
        match self.inner.value {
            Ok(value) => value,
            Err(_) => unreached(),
        }
    }

    /// Tier-zero compatibility accessor.
    pub fn inner_ref(&self) -> (r: &T)
        requires
            self.wf(),
        ensures
            *r == self.value(),
    {
        match &self.inner.value {
            Ok(value) => value,
            Err(_) => unreached(),
        }
    }

    /// Tier-zero compatibility accessor.
    pub fn inner_mut(&mut self) -> (r: &mut T)
        requires
            old(self).wf(),
        ensures
            *r == old(self).value(),
            final(self).wf(),
            final(self).value() == *final(r),
    {
        match &mut self.inner.value {
            Ok(value) => value,
            Err(_) => unreached(),
        }
    }
}

impl<T> PyWrapper<PyWrapperT2<T>> {
    /// The stored contents: the value, or the record of its consumption.
    pub closed spec fn spec_contents(&self) -> ConsumedResult<T> {
        self.inner.value
    }

    /// Whether ownership of the value has been taken out.
    pub open spec fn spec_is_consumed(&self) -> bool {
        self.spec_contents() is Err
    }

    /// The wrapped value, while it has not been consumed.
    pub open spec fn value(&self) -> T
        recommends
            !self.spec_is_consumed(),
    {
        self.spec_contents()->Ok_0
    }

    pub fn new2(inner: T) -> (w: Self)
        ensures
            !w.spec_is_consumed(),
            w.value() == inner,
    {
        PyWrapper { inner: LockCell { value: Ok(inner) } }
    }

    /// Acquires the read side and reports the consumption state: a reference
    /// to the value while it is present, the consumption record otherwise.
    pub fn try_lock_inner_ref(&self) -> (r: LockResult<ConsumedResult<&T>>)
        ensures
            r matches Ok(c) && (c is Ok <==> !self.spec_is_consumed()),
            !self.spec_is_consumed() ==> (r matches Ok(c) && c matches Ok(v) && *v
                == self.value()),
    {
        match &self.inner.value {
            Ok(value) => Ok(Ok(value)),
            Err(_) => Ok(Err(ConsumedError)),
        }
    }

    /// Takes ownership of the value out of the wrapper, leaving the
    /// consumption record behind; a second take reports the consumption.
    pub fn try_take_inner(&mut self) -> (r: LockResult<ConsumedResult<T>>)
        ensures
            final(self).spec_is_consumed(),
            r matches Ok(c) && c == old(self).spec_contents(),
    {
        self.try_replace_inner(Err(ConsumedError))
    }

    /// Swaps the stored contents for `inner` and hands the previous contents
    /// back, like a replacement through an exclusive borrow.
    pub fn try_replace_inner(&mut self, inner: ConsumedResult<T>) -> (r: LockResult<
        ConsumedResult<T>,
    >)
        ensures
            final(self).spec_contents() == inner,
            r matches Ok(c) && c == old(self).spec_contents(),
    {
        let mut contents = inner;
        core::mem::swap(&mut self.inner.value, &mut contents);
        Ok(contents)
    }

    /// Acquires the read side on the raw contents, consumption record
    /// included.
    pub fn try_read(&self) -> (r: LockResult<&ConsumedResult<T>>)
        ensures
            r matches Ok(c) && *c == self.spec_contents(),
    {
        Ok(&self.inner.value)
    }

    pub fn try_into_inner(self) -> (r: ConsumedResult<T>)
        ensures
            r == self.spec_contents(),
    {
        self.inner.value
    }

    /// Tier-one compatibility accessor: reading a consumed wrapper through it
    /// is a caller error and is excluded here.
    pub fn lock_inner_ref(&self) -> (r: LockResult<&T>)
        requires
            !self.spec_is_consumed(),
        ensures
            r matches Ok(v) && *v == self.value(),
    {
        match &self.inner.value {
            Ok(value) => Ok(value),
            Err(_) => unreached(),
        }
    }

    /// Tier-zero compatibility accessor: the value must not be consumed.
    pub fn inner_ref(&self) -> (r: &T)
        requires
            !self.spec_is_consumed(),
        ensures
            *r == self.value(),
    {
        match &self.inner.value {
            Ok(value) => value,
            Err(_) => unreached(),
        }
    }

    /// Tier-zero compatibility accessor: the value must not be consumed.
    pub fn inner_mut(&mut self) -> (r: &mut T)
        requires
            !old(self).spec_is_consumed(),
        ensures
            *r == old(self).value(),
            !final(self).spec_is_consumed(),
            final(self).value() == *final(r),
    {
        match &mut self.inner.value {
            Ok(value) => value,
            Err(_) => unreached(),
        }
    }

    /// Tier-zero compatibility accessor: the value must not be consumed.
    pub fn into_inner(self) -> (r: T)
        requires
            !self.spec_is_consumed(),
        ensures
            r == self.value(),
    {
        match self.inner.value {
            Ok(value) => value,
            Err(_) => unreached(),
        }
    }
}

/// Tier-independent access, so that code over any wrapper tier can be written
/// against the strictest one: acquisition may fail on the lockable tiers and
/// the value may be gone on the consumable tier.
pub trait PyWrapperSemverExt: sealed::SealedPyWrapper + Sized {
    type Wrapped;

    /// For the lockable tiers, the read side is acquired.
    fn inner_ref_semver(&self) -> LockResult<ConsumedResult<&Self::Wrapped>>;

    fn into_inner_semver(self) -> ConsumedResult<Self::Wrapped>;
}

impl<T> PyWrapperSemverExt for PyWrapper<PyWrapperT0<T>> {
    type Wrapped = T;

    fn inner_ref_semver(&self) -> (r: LockResult<ConsumedResult<&T>>)
        ensures
            self.wf() ==> (r matches Ok(c) && c matches Ok(v) && *v == self.value()),
    {
        match &self.inner {
            Ok(value) => Ok(Ok(value)),
            Err(_) => Ok(Err(ConsumedError)),
        }
    }

    fn into_inner_semver(self) -> (r: ConsumedResult<T>)
        ensures
            self.wf() ==> (r matches Ok(v) && v == self.value()),
    {
        match self.inner {
            Ok(value) => Ok(value),
            Err(_) => Err(ConsumedError),
        }
    }
}

impl<T> PyWrapperSemverExt for PyWrapper<PyWrapperT1<T>> {
    type Wrapped = T;

    fn inner_ref_semver(&self) -> (r: LockResult<ConsumedResult<&T>>)
        ensures
            self.wf() ==> (r matches Ok(c) && c matches Ok(v) && *v == self.value()),
    {
        match &self.inner.value {
            Ok(value) => Ok(Ok(value)),
            Err(_) => Ok(Err(ConsumedError)),
        }
    }

    fn into_inner_semver(self) -> (r: ConsumedResult<T>)
        ensures
            self.wf() ==> (r matches Ok(v) && v == self.value()),
    {
        match self.inner.value {
            Ok(value) => Ok(value),
            Err(_) => Err(ConsumedError),
        }
    }
}

impl<T> PyWrapperSemverExt for PyWrapper<PyWrapperT2<T>> {
    type Wrapped = T;

    fn inner_ref_semver(&self) -> (r: LockResult<ConsumedResult<&T>>)
        ensures
            r matches Ok(c) && (c is Ok <==> !self.spec_is_consumed()),
            !self.spec_is_consumed() ==> (r matches Ok(c) && c matches Ok(v) && *v
                == self.value()),
    {
        self.try_lock_inner_ref()
    }

    fn into_inner_semver(self) -> (r: ConsumedResult<T>)
        ensures
            r == self.spec_contents(),
    {
        self.try_into_inner()
    }
}

} // verus!
