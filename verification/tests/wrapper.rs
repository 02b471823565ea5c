//! Tests for the wrapper tiers and the match interface traits.

use pyfuture::py_match::{PyMatchInto, PyMatchMut, PyMatchRef};
use pyfuture::py_wrapper::{
    ConsumedError, LockError, PyWrapper, PyWrapperSemverExt, PyWrapperT0, PyWrapperT1,
    PyWrapperT2,
};

#[test]
fn test_tier_zero_accessors() {
    let mut wrapper: PyWrapper<PyWrapperT0<u64>> = PyWrapper::new0(7);
    assert_eq!(*wrapper.inner_ref(), 7);
    *wrapper.inner_mut() = 8;
    assert_eq!(*wrapper.inner_ref(), 8);
    assert_eq!(wrapper.into_inner(), 8);
}

#[test]
fn test_tier_one_accessors() {
    let mut wrapper: PyWrapper<PyWrapperT1<String>> = PyWrapper::new1("a".to_string());
    assert_eq!(wrapper.lock_inner_ref().unwrap(), &"a".to_string());
    wrapper.inner_mut().push('b');
    assert_eq!(*wrapper.inner_ref(), "ab".to_string());
    assert_eq!(wrapper.into_inner(), "ab".to_string());
}

#[test]
fn test_tier_two_take_consumes() {
    let mut wrapper: PyWrapper<PyWrapperT2<u64>> = PyWrapper::new2(41);
    assert_eq!(*wrapper.inner_ref(), 41);
    assert_eq!(wrapper.try_lock_inner_ref().unwrap(), Ok(&41));

    let taken = wrapper.try_take_inner().unwrap();
    assert_eq!(taken, Ok(41));

    // Every later access reports the consumption.
    assert_eq!(wrapper.try_take_inner().unwrap(), Err(ConsumedError));
    assert_eq!(wrapper.try_lock_inner_ref().unwrap(), Err(ConsumedError));
    assert_eq!(wrapper.try_read().unwrap(), &Err(ConsumedError));
    assert_eq!(wrapper.try_into_inner(), Err(ConsumedError));
}

#[test]
fn test_tier_two_replace_restores() {
    let mut wrapper: PyWrapper<PyWrapperT2<u64>> = PyWrapper::new2(1);
    assert_eq!(wrapper.try_take_inner().unwrap(), Ok(1));
    assert_eq!(wrapper.try_replace_inner(Ok(2)).unwrap(), Err(ConsumedError));
    assert_eq!(*wrapper.inner_ref(), 2);
    *wrapper.inner_mut() = 3;
    assert_eq!(wrapper.lock_inner_ref().unwrap(), &3);
    assert_eq!(wrapper.into_inner(), 3);
}

#[test]
fn test_error_messages() {
    assert_eq!(ConsumedError.message(), "Already consumed".to_string());
    assert_eq!(LockError.message(), "Already mutably borrowed".to_string());
    let consumed = ConsumedError.to_py_err();
    assert_eq!(consumed.message(), &"Already consumed".to_string());
    let locked = LockError.to_py_err();
    assert_eq!(locked.message(), &"Already mutably borrowed".to_string());
}

#[test]
fn test_semver_access_is_tier_independent() {
    let zero: PyWrapper<PyWrapperT0<u64>> = PyWrapper::new0(10);
    assert_eq!(zero.inner_ref_semver().unwrap(), Ok(&10));
    assert_eq!(zero.into_inner_semver(), Ok(10));

    let one: PyWrapper<PyWrapperT1<u64>> = PyWrapper::new1(11);
    assert_eq!(one.inner_ref_semver().unwrap(), Ok(&11));
    assert_eq!(one.into_inner_semver(), Ok(11));

    let mut two: PyWrapper<PyWrapperT2<u64>> = PyWrapper::new2(12);
    assert_eq!(two.inner_ref_semver().unwrap(), Ok(&12));
    assert_eq!(two.try_take_inner().unwrap(), Ok(12));
    assert_eq!(two.inner_ref_semver().unwrap(), Err(ConsumedError));
    assert_eq!(two.into_inner_semver(), Err(ConsumedError));
}

/// A small interpreter-visible class over the match interface traits.
struct Flag {
    up: bool,
}

impl PyMatchRef for Flag {
    type Output = u64;

    fn match_ref(&self) -> u64 {
        if self.up { 1 } else { 0 }
    }
}

impl PyMatchMut for Flag {
    type Output = bool;

    fn match_mut(&mut self) -> bool {
        self.up = !self.up;
        self.up
    }
}

impl PyMatchInto for Flag {
    type Output = bool;

    fn match_into(self) -> bool {
        self.up
    }
}

#[test]
fn test_match_traits_drive_a_class() {
    let mut flag = Flag { up: false };
    assert_eq!(flag.match_ref(), 0);
    assert!(flag.match_mut());
    assert_eq!(flag.match_ref(), 1);
    assert!(flag.match_into());
}
