//! `BasicErrcType<T>`: an error code, where a negative value is a failure.
use crate::integer::Integer;
use vstd::prelude::*;

verus! {

/// An error code: zero and the positive values mean success, the negative
/// values name a failure.
#[derive(Debug, Clone, Copy, PartialEq, PartialOrd)]
pub struct BasicErrcType<T>(T);

impl<T: Integer> BasicErrcType<T> {
    /// The number of the code.
    pub closed spec fn code(self) -> int {
        self.0.as_int()
    }

    pub fn new(val: T) -> (r: Self)
        ensures
            r.code() == val.as_int(),
    {
        BasicErrcType(val)
    }

    pub fn get(&self) -> (r: T)
        ensures
            r.as_int() == self.code(),
    {
        self.0
    }

    pub fn success(&self) -> (r: bool)
        ensures
            r == (self.code() >= 0),
    {
        !self.0.less_than(T::magic_0())
    }

    pub fn failure(&self) -> (r: bool)
        ensures
            r == (self.code() < 0),
    {
        self.0.less_than(T::magic_0())
    }
}

impl<T: Integer> Default for BasicErrcType<T> {
    fn default() -> (r: Self)
        ensures
            r.code() == 0,
    {
        BasicErrcType(T::magic_0())
    }
}

impl<T: Integer> vstd::std_specs::ops::NotSpecImpl for BasicErrcType<T> {
    open spec fn obeys_not_spec() -> bool {
        true
    }

    open spec fn not_req(self) -> bool {
        true
    }

    open spec fn not_spec(self) -> bool {
        self.code() < 0
    }
}

/// `!code` is true when the code names a failure.
impl<T: Integer> core::ops::Not for BasicErrcType<T> {
    type Output = bool;

    fn not(self) -> (r: bool) {
        self.failure()
    }
}

impl<T: Integer> vstd::std_specs::convert::FromSpecImpl<BasicErrcType<T>> for bool {
    open spec fn obeys_from_spec() -> bool {
        true
    }

    open spec fn from_spec(v: BasicErrcType<T>) -> bool {
        v.code() >= 0
    }
}

/// A code converts to `true` when it means success.
impl<T: Integer> From<BasicErrcType<T>> for bool {
    fn from(errc: BasicErrcType<T>) -> (r: bool) {
        errc.success()
    }
}

} // verus!
