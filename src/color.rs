//! The terminal colours used in diagnostics.
#![allow(non_upper_case_globals)]

use vstd::prelude::*;

verus! {

/// The text of a colour sequence as this build emits it: colours are on,
/// so the sequence is kept as it is.
pub fn if_color_enabled(val: &str) -> (r: &str)
    ensures
        r@ == val@,
{
    val
}

pub const rst: &'static str = "\x1B[0m";

pub const blk: &'static str = "\x1B[0;90m";

pub const red: &'static str = "\x1B[0;91m";

pub const grn: &'static str = "\x1B[0;92m";

pub const ylw: &'static str = "\x1B[0;93m";

pub const blu: &'static str = "\x1B[0;94m";

pub const mag: &'static str = "\x1B[0;95m";

pub const cyn: &'static str = "\x1B[0;96m";

pub const wht: &'static str = "\x1B[0;97m";

pub const bold_blk: &'static str = "\x1B[1;90m";

pub const bold_red: &'static str = "\x1B[1;91m";

pub const bold_grn: &'static str = "\x1B[1;92m";

pub const bold_ylw: &'static str = "\x1B[1;93m";

pub const bold_blu: &'static str = "\x1B[1;94m";

pub const bold_mag: &'static str = "\x1B[1;95m";

pub const bold_cyn: &'static str = "\x1B[1;96m";

pub const bold_wht: &'static str = "\x1B[1;97m";

} // verus!
