//! Unwrapping results that are known not to be errors.

use vstd::prelude::*;

verus! {

/// An alternative to `Result::unwrap` for results that provably hold a
/// success: the caller must show the value is the success case, and in
/// return the unwrap can never panic.
pub trait InfallibleResultExt<T>: Sized {
    /// Whether the value is the success case.
    spec fn spec_is_success(&self) -> bool;

    /// The success value.
    spec fn spec_success(self) -> T;

    /// Take the success value out of a result that provably holds one.
    fn infallible_unwrap(self) -> (r: T)
        requires
            self.spec_is_success(),
        ensures
            r == self.spec_success(),
    ;
}

impl<T, E> InfallibleResultExt<T> for Result<T, E> {
    open spec fn spec_is_success(&self) -> bool {
        self is Ok
    }

    open spec fn spec_success(self) -> T {
        self->Ok_0
    }

    fn infallible_unwrap(self) -> (r: T) {
        match self {
            Ok(v) => v,
            Err(_) => vstd::pervasive::unreached(),
        }
    }
}

} // verus!
