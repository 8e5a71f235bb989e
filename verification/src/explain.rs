//! Discoverable unwrap helpers.
//!
//! Two operations with identical extraction behavior but distinct names, so
//! that an auditor can find every "this failure path is claimed unreachable"
//! site and every "panicking is acceptable only in test code" site by
//! searching for the name. The explanation string of `unwrap_assert` exists
//! only to state the call site's reasoning inline; it is not used at runtime.

use vstd::prelude::*;

verus! {

/// A trait for calling unwrap with an explanation. Makes calls to unwrap()
/// discoverable.
pub trait ExplainUnwrap: Sized {
    type Inner;

    /// Whether the container holds a value to extract.
    spec fn has_value(&self) -> bool;

    /// The value the container holds, when it holds one.
    spec fn contained(&self) -> Self::Inner;

    /// use if the None or Err variant is structurally unreachable
    fn unwrap_assert(self, explanation: &'static str) -> (r: Self::Inner)
        requires
            self.has_value(),
        ensures
            r == self.contained(),
    ;

    /// use in tests, where panics are acceptable
    fn unwrap_test(self) -> (r: Self::Inner)
        requires
            self.has_value(),
        ensures
            r == self.contained(),
    ;
}

impl<T> ExplainUnwrap for Option<T> {
    type Inner = T;

    open spec fn has_value(&self) -> bool {
        (*self) is Some
    }

    open spec fn contained(&self) -> T {
        (*self)->0
    }

    fn unwrap_assert(self, _explanation: &'static str) -> T {
        self.unwrap()
    }

    fn unwrap_test(self) -> T {
        self.unwrap()
    }
}

impl<T, E: core::fmt::Debug> ExplainUnwrap for Result<T, E> {
    type Inner = T;

    open spec fn has_value(&self) -> bool {
        (*self) is Ok
    }

    open spec fn contained(&self) -> T {
        (*self)->Ok_0
    }

    fn unwrap_assert(self, _explanation: &'static str) -> T {
        self.unwrap()
    }

    fn unwrap_test(self) -> T {
        self.unwrap()
    }
}

} // verus!
