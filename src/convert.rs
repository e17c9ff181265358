//! Conversions between the widths. A converted value is poisoned when its
//! source was or when the number does not fit the new width.
use crate::integer::fits;
use crate::integer::Integer;
use crate::integer::UnsignedInteger;
use crate::into_safe_integral::IntoSafeIntegral;
use crate::safe_idx::SafeIdx;
use crate::safe_integral::SafeI16;
use crate::safe_integral::SafeI32;
use crate::safe_integral::SafeI64;
use crate::safe_integral::SafeI8;
use crate::safe_integral::SafeIntegral;
use crate::safe_integral::SafeU16;
use crate::safe_integral::SafeU32;
use crate::safe_integral::SafeU64;
use crate::safe_integral::SafeU8;
use crate::safe_integral::SafeUMx;
use vstd::prelude::*;

verus! {

fn safe_integral_to_i8<T: Integer>(other: SafeIntegral<T>) -> (r: SafeI8)
    ensures
        r == SafeI8::spec_converted(other),
        SafeI8::is_conversion_of(r, other),
{
    let val = other.cdata_as_ref().into_i8();
    proof {
        match val {
            Some(v) => SafeI8::lemma_converted_fits(v, other),
            None => SafeI8::lemma_converted_lossy(other),
        }
    }
    SafeI8::new_from_option_with_flags_from(val, other)
}

fn safe_integral_to_i16<T: Integer>(other: SafeIntegral<T>) -> (r: SafeI16)
    ensures
        r == SafeI16::spec_converted(other),
        SafeI16::is_conversion_of(r, other),
{
    let val = other.cdata_as_ref().into_i16();
    proof {
        match val {
            Some(v) => SafeI16::lemma_converted_fits(v, other),
            None => SafeI16::lemma_converted_lossy(other),
        }
    }
    SafeI16::new_from_option_with_flags_from(val, other)
}

fn safe_integral_to_i32<T: Integer>(other: SafeIntegral<T>) -> (r: SafeI32)
    ensures
        r == SafeI32::spec_converted(other),
        SafeI32::is_conversion_of(r, other),
{
    let val = other.cdata_as_ref().into_i32();
    proof {
        match val {
            Some(v) => SafeI32::lemma_converted_fits(v, other),
            None => SafeI32::lemma_converted_lossy(other),
        }
    }
    SafeI32::new_from_option_with_flags_from(val, other)
}

fn safe_integral_to_i64<T: Integer>(other: SafeIntegral<T>) -> (r: SafeI64)
    ensures
        r == SafeI64::spec_converted(other),
        SafeI64::is_conversion_of(r, other),
{
    let val = other.cdata_as_ref().into_i64();
    proof {
        match val {
            Some(v) => SafeI64::lemma_converted_fits(v, other),
            None => SafeI64::lemma_converted_lossy(other),
        }
    }
    SafeI64::new_from_option_with_flags_from(val, other)
}

fn safe_integral_to_u8<T: Integer>(other: SafeIntegral<T>) -> (r: SafeU8)
    ensures
        r == SafeU8::spec_converted(other),
        SafeU8::is_conversion_of(r, other),
{
    let val = other.cdata_as_ref().into_u8();
    proof {
        match val {
            Some(v) => SafeU8::lemma_converted_fits(v, other),
            None => SafeU8::lemma_converted_lossy(other),
        }
    }
    SafeU8::new_from_option_with_flags_from(val, other)
}

fn safe_integral_to_u8_unsafe<T: UnsignedInteger>(other: SafeIntegral<T>) -> (r: SafeU8)
    ensures
        r == SafeU8::spec_with_flags(other.num() as u8, other),
        r.raw() == other.num() as u8,
        r.poisoned() == other.poisoned(),
        r.unchecked() == other.unchecked(),
{
    let val = other.cdata_as_ref().into_u8_unsafe();
    SafeU8::new_with_flags_from(val, other)
}

fn safe_integral_to_u16<T: Integer>(other: SafeIntegral<T>) -> (r: SafeU16)
    ensures
        r == SafeU16::spec_converted(other),
        SafeU16::is_conversion_of(r, other),
{
    let val = other.cdata_as_ref().into_u16();
    proof {
        match val {
            Some(v) => SafeU16::lemma_converted_fits(v, other),
            None => SafeU16::lemma_converted_lossy(other),
        }
    }
    SafeU16::new_from_option_with_flags_from(val, other)
}

fn safe_integral_to_u16_unsafe<T: UnsignedInteger>(other: SafeIntegral<T>) -> (r: SafeU16)
    ensures
        r == SafeU16::spec_with_flags(other.num() as u16, other),
        r.raw() == other.num() as u16,
        r.poisoned() == other.poisoned(),
        r.unchecked() == other.unchecked(),
{
    let val = other.cdata_as_ref().into_u16_unsafe();
    SafeU16::new_with_flags_from(val, other)
}

fn safe_integral_to_u32<T: Integer>(other: SafeIntegral<T>) -> (r: SafeU32)
    ensures
        r == SafeU32::spec_converted(other),
        SafeU32::is_conversion_of(r, other),
{
    let val = other.cdata_as_ref().into_u32();
    proof {
        match val {
            Some(v) => SafeU32::lemma_converted_fits(v, other),
            None => SafeU32::lemma_converted_lossy(other),
        }
    }
    SafeU32::new_from_option_with_flags_from(val, other)
}

fn safe_integral_to_u32_unsafe<T: UnsignedInteger>(other: SafeIntegral<T>) -> (r: SafeU32)
    ensures
        r == SafeU32::spec_with_flags(other.num() as u32, other),
        r.raw() == other.num() as u32,
        r.poisoned() == other.poisoned(),
        r.unchecked() == other.unchecked(),
{
    let val = other.cdata_as_ref().into_u32_unsafe();
    SafeU32::new_with_flags_from(val, other)
}

fn safe_integral_to_u64<T: Integer>(other: SafeIntegral<T>) -> (r: SafeU64)
    ensures
        r == SafeU64::spec_converted(other),
        SafeU64::is_conversion_of(r, other),
{
    let val = other.cdata_as_ref().into_u64();
    proof {
        match val {
            Some(v) => SafeU64::lemma_converted_fits(v, other),
            None => SafeU64::lemma_converted_lossy(other),
        }
    }
    SafeU64::new_from_option_with_flags_from(val, other)
}

fn safe_integral_to_u64_unsafe<T: UnsignedInteger>(other: SafeIntegral<T>) -> (r: SafeU64)
    ensures
        r == SafeU64::spec_with_flags(other.num() as u64, other),
        r.raw() == other.num() as u64,
        r.poisoned() == other.poisoned(),
        r.unchecked() == other.unchecked(),
{
    let val = other.cdata_as_ref().into_u64_unsafe();
    SafeU64::new_with_flags_from(val, other)
}

fn safe_integral_to_umx<T: Integer>(other: SafeIntegral<T>) -> (r: SafeUMx)
    ensures
        r == SafeUMx::spec_converted(other),
        SafeUMx::is_conversion_of(r, other),
{
    let val = other.cdata_as_ref().into_usize();
    proof {
        match val {
            Some(v) => SafeUMx::lemma_converted_fits(v, other),
            None => SafeUMx::lemma_converted_lossy(other),
        }
    }
    SafeUMx::new_from_option_with_flags_from(val, other)
}

fn safe_integral_to_umx_unsafe<T: UnsignedInteger>(other: SafeIntegral<T>) -> (r: SafeUMx)
    ensures
        r == SafeUMx::spec_with_flags(other.num() as usize, other),
        r.raw() == other.num() as usize,
        r.poisoned() == other.poisoned(),
        r.unchecked() == other.unchecked(),
{
    let val = other.cdata_as_ref().into_usize_unsafe();
    SafeUMx::new_with_flags_from(val, other)
}

/// `other` in the width `i8`: poisoned and unchecked when `other` is
/// poisoned or its number does not fit, with the states of `other` otherwise.
pub fn to_i8<P, T>(other: P) -> (r: SafeI8) where
    P: IntoSafeIntegral<Output = SafeIntegral<T>>,
    T: Integer,
    ensures
        r == SafeI8::spec_converted(other.safe_view()),
        SafeI8::is_conversion_of(r, other.safe_view()),
{
    safe_integral_to_i8(other.into_safe_integral())
}

/// `other` in the width `i16`: poisoned and unchecked when `other` is
/// poisoned or its number does not fit, with the states of `other` otherwise.
pub fn to_i16<P, T>(other: P) -> (r: SafeI16) where
    P: IntoSafeIntegral<Output = SafeIntegral<T>>,
    T: Integer,
    ensures
        r == SafeI16::spec_converted(other.safe_view()),
        SafeI16::is_conversion_of(r, other.safe_view()),
{
    safe_integral_to_i16(other.into_safe_integral())
}

/// `other` in the width `i32`: poisoned and unchecked when `other` is
/// poisoned or its number does not fit, with the states of `other` otherwise.
pub fn to_i32<P, T>(other: P) -> (r: SafeI32) where
    P: IntoSafeIntegral<Output = SafeIntegral<T>>,
    T: Integer,
    ensures
        r == SafeI32::spec_converted(other.safe_view()),
        SafeI32::is_conversion_of(r, other.safe_view()),
{
    safe_integral_to_i32(other.into_safe_integral())
}

/// `other` in the width `i64`: poisoned and unchecked when `other` is
/// poisoned or its number does not fit, with the states of `other` otherwise.
pub fn to_i64<P, T>(other: P) -> (r: SafeI64) where
    P: IntoSafeIntegral<Output = SafeIntegral<T>>,
    T: Integer,
    ensures
        r == SafeI64::spec_converted(other.safe_view()),
        SafeI64::is_conversion_of(r, other.safe_view()),
{
    safe_integral_to_i64(other.into_safe_integral())
}

/// `other` in the width `u8`: poisoned and unchecked when `other` is
/// poisoned or its number does not fit, with the states of `other` otherwise.
pub fn to_u8<P, T>(other: P) -> (r: SafeU8) where
    P: IntoSafeIntegral<Output = SafeIntegral<T>>,
    T: Integer,
    ensures
        r == SafeU8::spec_converted(other.safe_view()),
        SafeU8::is_conversion_of(r, other.safe_view()),
{
    safe_integral_to_u8(other.into_safe_integral())
}

/// `other` truncated to the width `u8`, with the states of `other`; nothing
/// is checked, so the caller must know that the number fits.
pub fn to_u8_unsafe<P, T>(other: P) -> (r: SafeU8) where
    P: IntoSafeIntegral<Output = SafeIntegral<T>>,
    T: UnsignedInteger,
    ensures
        r == SafeU8::spec_with_flags(other.safe_view().num() as u8, other.safe_view()),
        r.raw() == other.safe_view().num() as u8,
        r.poisoned() == other.safe_view().poisoned(),
        r.unchecked() == other.safe_view().unchecked(),
{
    safe_integral_to_u8_unsafe(other.into_safe_integral())
}

/// `other` in the width `u16`: poisoned and unchecked when `other` is
/// poisoned or its number does not fit, with the states of `other` otherwise.
pub fn to_u16<P, T>(other: P) -> (r: SafeU16) where
    P: IntoSafeIntegral<Output = SafeIntegral<T>>,
    T: Integer,
    ensures
        r == SafeU16::spec_converted(other.safe_view()),
        SafeU16::is_conversion_of(r, other.safe_view()),
{
    safe_integral_to_u16(other.into_safe_integral())
}

/// `other` truncated to the width `u16`, with the states of `other`; nothing
/// is checked, so the caller must know that the number fits.
pub fn to_u16_unsafe<P, T>(other: P) -> (r: SafeU16) where
    P: IntoSafeIntegral<Output = SafeIntegral<T>>,
    T: UnsignedInteger,
    ensures
        r == SafeU16::spec_with_flags(other.safe_view().num() as u16, other.safe_view()),
        r.raw() == other.safe_view().num() as u16,
        r.poisoned() == other.safe_view().poisoned(),
        r.unchecked() == other.safe_view().unchecked(),
{
    safe_integral_to_u16_unsafe(other.into_safe_integral())
}

/// `other` in the width `u32`: poisoned and unchecked when `other` is
/// poisoned or its number does not fit, with the states of `other` otherwise.
pub fn to_u32<P, T>(other: P) -> (r: SafeU32) where
    P: IntoSafeIntegral<Output = SafeIntegral<T>>,
    T: Integer,
    ensures
        r == SafeU32::spec_converted(other.safe_view()),
        SafeU32::is_conversion_of(r, other.safe_view()),
{
    safe_integral_to_u32(other.into_safe_integral())
}

/// `other` truncated to the width `u32`, with the states of `other`; nothing
/// is checked, so the caller must know that the number fits.
pub fn to_u32_unsafe<P, T>(other: P) -> (r: SafeU32) where
    P: IntoSafeIntegral<Output = SafeIntegral<T>>,
    T: UnsignedInteger,
    ensures
        r == SafeU32::spec_with_flags(other.safe_view().num() as u32, other.safe_view()),
        r.raw() == other.safe_view().num() as u32,
        r.poisoned() == other.safe_view().poisoned(),
        r.unchecked() == other.safe_view().unchecked(),
{
    safe_integral_to_u32_unsafe(other.into_safe_integral())
}

/// `other` in the width `u64`: poisoned and unchecked when `other` is
/// poisoned or its number does not fit, with the states of `other` otherwise.
pub fn to_u64<P, T>(other: P) -> (r: SafeU64) where
    P: IntoSafeIntegral<Output = SafeIntegral<T>>,
    T: Integer,
    ensures
        r == SafeU64::spec_converted(other.safe_view()),
        SafeU64::is_conversion_of(r, other.safe_view()),
{
    safe_integral_to_u64(other.into_safe_integral())
}

/// `other` truncated to the width `u64`, with the states of `other`; nothing
/// is checked, so the caller must know that the number fits.
pub fn to_u64_unsafe<P, T>(other: P) -> (r: SafeU64) where
    P: IntoSafeIntegral<Output = SafeIntegral<T>>,
    T: UnsignedInteger,
    ensures
        r == SafeU64::spec_with_flags(other.safe_view().num() as u64, other.safe_view()),
        r.raw() == other.safe_view().num() as u64,
        r.poisoned() == other.safe_view().poisoned(),
        r.unchecked() == other.safe_view().unchecked(),
{
    safe_integral_to_u64_unsafe(other.into_safe_integral())
}

/// `other` in the width `usize`: poisoned and unchecked when `other` is
/// poisoned or its number does not fit, with the states of `other` otherwise.
pub fn to_umx<P, T>(other: P) -> (r: SafeUMx) where
    P: IntoSafeIntegral<Output = SafeIntegral<T>>,
    T: Integer,
    ensures
        r == SafeUMx::spec_converted(other.safe_view()),
        SafeUMx::is_conversion_of(r, other.safe_view()),
{
    safe_integral_to_umx(other.into_safe_integral())
}

/// `other` truncated to the width `usize`, with the states of `other`; nothing
/// is checked, so the caller must know that the number fits.
pub fn to_umx_unsafe<P, T>(other: P) -> (r: SafeUMx) where
    P: IntoSafeIntegral<Output = SafeIntegral<T>>,
    T: UnsignedInteger,
    ensures
        r == SafeUMx::spec_with_flags(other.safe_view().num() as usize, other.safe_view()),
        r.raw() == other.safe_view().num() as usize,
        r.poisoned() == other.safe_view().poisoned(),
        r.unchecked() == other.safe_view().unchecked(),
{
    safe_integral_to_umx_unsafe(other.into_safe_integral())
}

/// `other` as an index. An index is never poisoned: converting a poisoned
/// value, or a number that is not an index, is a contract violation.
pub fn to_idx<P, T>(other: P) -> (r: SafeIdx) where
    P: IntoSafeIntegral<Output = SafeIntegral<T>>,
    T: Integer,
    requires
        !other.safe_view().poisoned(),
        fits::<usize>(other.safe_view().num()),
    ensures
        r.raw() as int == other.safe_view().num(),
        !r.poisoned(),
{
    let umx = to_umx(other);
    SafeIdx::new_from(umx)
}

/// `upper` with its low bits replaced by `lower`: `(upper & !u8::MAX) | lower`.
/// The result is poisoned when either operand is, and checked exactly when
/// it is valid.
pub fn merge_umx_with_u8<P1, P2>(upper: P1, lower: P2) -> (r: SafeUMx) where
    P1: IntoSafeIntegral<Output = SafeUMx>,
    P2: IntoSafeIntegral<Output = SafeU8>,
    ensures
        r.raw() == (upper.safe_view().raw() & !(u8::MAX as usize)) | (lower.safe_view().raw() as usize),
        r.poisoned() == (upper.safe_view().poisoned() || lower.safe_view().poisoned()),
        r.unchecked() == r.poisoned(),
{
    let mask = to_umx(!(u8::MAX as usize));
    let low = to_umx(lower);
    proof {
        let l = lower.safe_view();
        l.raw().lemma_bounds();
        SafeUMx::lemma_spec_new(!(u8::MAX as usize));
        SafeUMx::lemma_spec_converted(l);
    }
    (upper.into_safe_integral() & mask) | low
}

/// `upper` with its low bits replaced by `lower`: `(upper & !u16::MAX) | lower`.
/// The result is poisoned when either operand is, and checked exactly when
/// it is valid.
pub fn merge_umx_with_u16<P1, P2>(upper: P1, lower: P2) -> (r: SafeUMx) where
    P1: IntoSafeIntegral<Output = SafeUMx>,
    P2: IntoSafeIntegral<Output = SafeU16>,
    ensures
        r.raw() == (upper.safe_view().raw() & !(u16::MAX as usize)) | (lower.safe_view().raw() as usize),
        r.poisoned() == (upper.safe_view().poisoned() || lower.safe_view().poisoned()),
        r.unchecked() == r.poisoned(),
{
    let mask = to_umx(!(u16::MAX as usize));
    let low = to_umx(lower);
    proof {
        let l = lower.safe_view();
        l.raw().lemma_bounds();
        SafeUMx::lemma_spec_new(!(u16::MAX as usize));
        SafeUMx::lemma_spec_converted(l);
    }
    (upper.into_safe_integral() & mask) | low
}

/// `upper` with its low bits replaced by `lower`: `(upper & !u32::MAX) | lower`.
/// The result is poisoned when either operand is, and checked exactly when
/// it is valid.
pub fn merge_umx_with_u32<P1, P2>(upper: P1, lower: P2) -> (r: SafeUMx) where
    P1: IntoSafeIntegral<Output = SafeUMx>,
    P2: IntoSafeIntegral<Output = SafeU32>,
    ensures
        r.raw() == (upper.safe_view().raw() & !(u32::MAX as usize)) | (lower.safe_view().raw() as usize),
        r.poisoned() == (upper.safe_view().poisoned() || lower.safe_view().poisoned()),
        r.unchecked() == r.poisoned(),
{
    let mask = to_umx(!(u32::MAX as usize));
    let low = to_umx(lower);
    proof {
        let l = lower.safe_view();
        l.raw().lemma_bounds();
        SafeUMx::lemma_spec_new(!(u32::MAX as usize));
        SafeUMx::lemma_spec_converted(l);
    }
    (upper.into_safe_integral() & mask) | low
}

/// Converting `n` to the width `Y` and then to the width `X` gives back the
/// number and the states of `n` when that number fits both widths; when it
/// does not, the final result is poisoned.
pub proof fn lemma_conversion_round_trip<X: Integer, Y: Integer, T: Integer>(n: SafeIntegral<T>)
    ensures
        ({
            let r = SafeIntegral::<X>::spec_converted(SafeIntegral::<Y>::spec_converted(n));
            fits::<X>(n.num()) && fits::<Y>(n.num()) ==> r.num() == n.num() && r.poisoned()
                == n.poisoned() && r.unchecked() == n.unchecked()
        }),
        !(fits::<X>(n.num()) && fits::<Y>(n.num())) ==> SafeIntegral::<X>::spec_converted(
            SafeIntegral::<Y>::spec_converted(n),
        ).poisoned(),
{
    let mid = SafeIntegral::<Y>::spec_converted(n);
    SafeIntegral::<Y>::lemma_spec_converted(n);
    SafeIntegral::<X>::lemma_spec_converted(mid);
}

} // verus!
