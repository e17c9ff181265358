//! Preconditions stated as calls.
use crate::into_bool::IntoBool;
use vstd::prelude::*;

verus! {

/// States that `test` holds: a false `test`, or an error code that names a
/// failure, is a contract violation of the caller.
pub fn expects<T: IntoBool>(test: T)
    requires
        test.truth(),
{
    let holds = test.into_bool();
    vstd::pervasive::runtime_assert(holds);
}

} // verus!
