//! The verbosity of diagnostics, fixed when the library is built.
use vstd::prelude::*;

verus! {

/// The verbosity of this build: 0 for critical output only, then 1, 2 and
/// 3 for the levels v, vv and vvv.
pub const DEBUG_LEVEL: u8 = 0;

pub fn debug_level_is_critical_only() -> (r: bool)
    ensures
        r == (DEBUG_LEVEL == 0),
{
    DEBUG_LEVEL == 0
}

pub fn debug_level_is_at_least_v() -> (r: bool)
    ensures
        r == (DEBUG_LEVEL >= 1),
{
    DEBUG_LEVEL >= 1
}

pub fn debug_level_is_at_least_vv() -> (r: bool)
    ensures
        r == (DEBUG_LEVEL >= 2),
{
    DEBUG_LEVEL >= 2
}

pub fn debug_level_is_at_least_vvv() -> (r: bool)
    ensures
        r == (DEBUG_LEVEL >= 3),
{
    DEBUG_LEVEL >= 3
}

} // verus!
