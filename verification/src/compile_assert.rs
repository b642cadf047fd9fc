//! Checks that hold by compiling: each function accepts only values whose
//! type has the capability in its name.

use vstd::prelude::*;

verus! {

#[inline]
pub fn assert_clone<T: Clone>(_value: &T) {
}

#[inline]
pub fn assert_copy<T: Copy>(_value: &T) {
}

#[inline]
pub fn assert_send<T: Send>(_value: &T) {
}

#[inline]
pub fn assert_sync<T: Sync>(_value: &T) {
}

} // verus!
