//! Marks a value as intentionally unused.
use vstd::prelude::*;

verus! {

/// Takes a value and does nothing with it.
pub fn discard<T>(_arg: T) {
}

} // verus!
