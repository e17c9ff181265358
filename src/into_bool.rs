//! Values that stand for a truth value: `bool` itself and error codes.
use crate::basic_errc_type::BasicErrcType;
use crate::integer::Integer;
use vstd::prelude::*;

verus! {

pub trait IntoBool: Sized {
    /// The truth value that the value stands for.
    spec fn truth(self) -> bool;

    fn into_bool(self) -> (r: bool)
        ensures
            r == self.truth(),
    ;
}

impl IntoBool for bool {
    open spec fn truth(self) -> bool {
        self
    }

    fn into_bool(self) -> (r: bool) {
        self
    }
}

/// An error code is true when it means success.
impl<T: Integer> IntoBool for BasicErrcType<T> {
    open spec fn truth(self) -> bool {
        self.code() >= 0
    }

    fn into_bool(self) -> (r: bool) {
        self.success()
    }
}

} // verus!
