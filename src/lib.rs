//! Integers that remember an overflow: a poisoned state travels through every
//! operation, and a value must be checked before it is read.
pub mod basic_errc_type;
pub mod color;
pub mod convert;
pub mod debug_levels;
pub mod discard;
pub mod errc_type;
pub mod expects;
pub mod integer;
pub mod into_bool;
pub mod into_safe_integral;
pub mod safe_idx;
pub mod safe_integral;

pub use basic_errc_type::BasicErrcType;
pub use color::blk;
pub use color::blu;
pub use color::bold_blk;
pub use color::bold_blu;
pub use color::bold_cyn;
pub use color::bold_grn;
pub use color::bold_mag;
pub use color::bold_red;
pub use color::bold_wht;
pub use color::bold_ylw;
pub use color::cyn;
pub use color::grn;
pub use color::mag;
pub use color::red;
pub use color::rst;
pub use color::wht;
pub use color::ylw;
pub use convert::merge_umx_with_u16;
pub use convert::merge_umx_with_u32;
pub use convert::merge_umx_with_u8;
pub use convert::to_i16;
pub use convert::to_i32;
pub use convert::to_i64;
pub use convert::to_i8;
pub use convert::to_idx;
pub use convert::to_u16;
pub use convert::to_u16_unsafe;
pub use convert::to_u32;
pub use convert::to_u32_unsafe;
pub use convert::to_u64;
pub use convert::to_u64_unsafe;
pub use convert::to_u8;
pub use convert::to_u8_unsafe;
pub use convert::to_umx;
pub use convert::to_umx_unsafe;
pub use debug_levels::debug_level_is_at_least_v;
pub use debug_levels::debug_level_is_at_least_vv;
pub use debug_levels::debug_level_is_at_least_vvv;
pub use debug_levels::debug_level_is_critical_only;
pub use discard::discard;
pub use errc_type::ErrcType;
pub use errc_type::errc_already_exists;
pub use errc_type::errc_assetion;
pub use errc_type::errc_busy;
pub use errc_type::errc_divide_by_zero;
pub use errc_type::errc_failure;
pub use errc_type::errc_index_out_of_bounds;
pub use errc_type::errc_invalid_argument;
pub use errc_type::errc_narrow_overflow;
pub use errc_type::errc_nullptr_dereference;
pub use errc_type::errc_postcondition;
pub use errc_type::errc_precondition;
pub use errc_type::errc_signed_overflow;
pub use errc_type::errc_success;
pub use errc_type::errc_unsigned_wrap;
pub use errc_type::errc_unsupported;
pub use expects::expects;
pub use integer::Integer;
pub use integer::SignedInteger;
pub use integer::UnsignedInteger;
pub use into_bool::IntoBool;
pub use into_safe_integral::IntoSafeIntegral;
pub use safe_idx::SafeIdx;
pub use safe_integral::SafeI16;
pub use safe_integral::SafeI32;
pub use safe_integral::SafeI64;
pub use safe_integral::SafeI8;
pub use safe_integral::SafeIntegral;
pub use safe_integral::SafeU16;
pub use safe_integral::SafeU32;
pub use safe_integral::SafeU64;
pub use safe_integral::SafeU8;
pub use safe_integral::SafeUMx;
pub use safe_integral::make_safe;
