//! The error codes of this library. Each is a function, since a constant
//! here can hold only a literal.
use crate::basic_errc_type::BasicErrcType;
use vstd::prelude::*;

verus! {

pub type ErrcType = BasicErrcType<i32>;

pub fn errc_success() -> (r: ErrcType)
    ensures
        r.code() == 0,
{
    ErrcType::new(0)
}

pub fn errc_failure() -> (r: ErrcType)
    ensures
        r.code() == -1,
{
    ErrcType::new(-1)
}

pub fn errc_precondition() -> (r: ErrcType)
    ensures
        r.code() == -2,
{
    ErrcType::new(-2)
}

pub fn errc_postcondition() -> (r: ErrcType)
    ensures
        r.code() == -3,
{
    ErrcType::new(-3)
}

pub fn errc_assetion() -> (r: ErrcType)
    ensures
        r.code() == -4,
{
    ErrcType::new(-4)
}

pub fn errc_invalid_argument() -> (r: ErrcType)
    ensures
        r.code() == -10,
{
    ErrcType::new(-10)
}

pub fn errc_index_out_of_bounds() -> (r: ErrcType)
    ensures
        r.code() == -11,
{
    ErrcType::new(-11)
}

pub fn errc_unsigned_wrap() -> (r: ErrcType)
    ensures
        r.code() == -30,
{
    ErrcType::new(-30)
}

pub fn errc_narrow_overflow() -> (r: ErrcType)
    ensures
        r.code() == -31,
{
    ErrcType::new(-31)
}

pub fn errc_signed_overflow() -> (r: ErrcType)
    ensures
        r.code() == -32,
{
    ErrcType::new(-32)
}

pub fn errc_divide_by_zero() -> (r: ErrcType)
    ensures
        r.code() == -33,
{
    ErrcType::new(-33)
}

pub fn errc_nullptr_dereference() -> (r: ErrcType)
    ensures
        r.code() == -34,
{
    ErrcType::new(-34)
}

pub fn errc_busy() -> (r: ErrcType)
    ensures
        r.code() == -50,
{
    ErrcType::new(-50)
}

pub fn errc_already_exists() -> (r: ErrcType)
    ensures
        r.code() == -51,
{
    ErrcType::new(-51)
}

pub fn errc_unsupported() -> (r: ErrcType)
    ensures
        r.code() == -52,
{
    ErrcType::new(-52)
}

} // verus!
