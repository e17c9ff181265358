//! Everything that the conversion layer accepts: a raw integer, a
//! `SafeIntegral` and a `SafeIdx`.
use crate::integer::Integer;
use crate::safe_idx::SafeIdx;
use crate::safe_integral::SafeIntegral;
use crate::safe_integral::SafeUMx;
use vstd::prelude::*;

verus! {

/// A value that stands for a `SafeIntegral`.
pub trait IntoSafeIntegral: Sized {
    type Output;

    /// The `SafeIntegral` that the value stands for.
    spec fn safe_view(self) -> Self::Output;

    fn into_safe_integral(self) -> (r: Self::Output)
        ensures
            r == self.safe_view(),
    ;
}

/// A raw integer stands for a valid, checked value.
impl<T: Integer> IntoSafeIntegral for T {
    type Output = SafeIntegral<T>;

    open spec fn safe_view(self) -> SafeIntegral<T> {
        SafeIntegral::<T>::spec_new(self)
    }

    fn into_safe_integral(self) -> (r: SafeIntegral<T>) {
        SafeIntegral::<T>::new(self)
    }
}

impl<T: Integer> IntoSafeIntegral for SafeIntegral<T> {
    type Output = SafeIntegral<T>;

    open spec fn safe_view(self) -> SafeIntegral<T> {
        self
    }

    fn into_safe_integral(self) -> (r: SafeIntegral<T>) {
        self
    }
}

/// A valid index stands for a valid, checked `SafeUMx`; a poisoned one for
/// `SafeUMx::failure()`.
impl IntoSafeIntegral for SafeIdx {
    type Output = SafeUMx;

    open spec fn safe_view(self) -> SafeUMx {
        if self.poisoned() {
            SafeUMx::spec_failure()
        } else {
            SafeUMx::spec_new(self.raw())
        }
    }

    fn into_safe_integral(self) -> (r: SafeUMx) {
        if self.is_invalid() {
            return SafeUMx::failure();
        }
        SafeUMx::new(*self.cdata_as_ref())
    }
}

} // verus!
