//! The capability sets that every native integer width supplies: named
//! constants, checked arithmetic, and lossless-or-none conversions.
use vstd::prelude::*;

verus! {

/// The absolute value of `x`.
pub open spec fn abs(x: int) -> int {
    if x < 0 {
        -x
    } else {
        x
    }
}

/// Division that rounds toward zero, as the native division does.
pub open spec fn div_trunc(a: int, b: int) -> int {
    if (a < 0) == (b < 0) {
        abs(a) / abs(b)
    } else {
        -(abs(a) / abs(b))
    }
}

/// The remainder that goes with `div_trunc`: it takes the sign of `a`.
pub open spec fn rem_trunc(a: int, b: int) -> int {
    if a < 0 {
        -(abs(a) % abs(b))
    } else {
        abs(a) % abs(b)
    }
}

/// Whether `x` is a value of the integer type `T`.
pub open spec fn fits<T: Integer>(x: int) -> bool {
    T::lowest() <= x <= T::highest()
}

/// The operations whose result may leave the range of the type.
pub enum ArithOp {
    Add,
    Sub,
    Mul,
    Div,
    Rem,
}

/// What the checked primitive of `op` returns on `a` and `b` in the type `T`:
/// the exact result, or `None` on overflow and on division by zero.
pub open spec fn checked_op<T: Integer>(op: ArithOp, a: int, b: int) -> Option<int> {
    match op {
        ArithOp::Add => if fits::<T>(a + b) {
            Some(a + b)
        } else {
            None
        },
        ArithOp::Sub => if fits::<T>(a - b) {
            Some(a - b)
        } else {
            None
        },
        ArithOp::Mul => if fits::<T>(a * b) {
            Some(a * b)
        } else {
            None
        },
        ArithOp::Div => if b != 0 && fits::<T>(div_trunc(a, b)) {
            Some(div_trunc(a, b))
        } else {
            None
        },
        ArithOp::Rem => if b != 0 && !(a == T::lowest() && b == -1) && fits::<T>(rem_trunc(a, b)) {
            Some(rem_trunc(a, b))
        } else {
            None
        },
    }
}

/// A native integer width: its named constants, its checked arithmetic and
/// its conversions to every other width. Nothing here panics or wraps.
pub trait Integer: Sized + Copy {
    /// The mathematical value.
    spec fn as_int(self) -> int;

    /// The least value of the type.
    spec fn lowest() -> int;

    /// The greatest value of the type.
    spec fn highest() -> int;

    /// The value of the type that stands for `x`, when `x` is in range.
    spec fn from_int(x: int) -> Self;

    proof fn lemma_bounds(self)
        ensures
            Self::lowest() <= self.as_int() <= Self::highest(),
            Self::from_int(self.as_int()) == self,
            Self::lowest() <= 0 < 3 < Self::highest(),
    ;

    proof fn lemma_from_int(x: int)
        requires
            Self::lowest() <= x <= Self::highest(),
        ensures
            Self::from_int(x).as_int() == x,
    ;

    fn max_value() -> (r: Self)
        ensures
            r.as_int() == Self::highest(),
    ;

    fn min_value() -> (r: Self)
        ensures
            r.as_int() == Self::lowest(),
    ;

    fn magic_0() -> (r: Self)
        ensures
            r.as_int() == 0,
    ;

    fn magic_1() -> (r: Self)
        ensures
            r.as_int() == 1,
    ;

    fn magic_2() -> (r: Self)
        ensures
            r.as_int() == 2,
    ;

    fn magic_3() -> (r: Self)
        ensures
            r.as_int() == 3,
    ;

    fn add_checked(self, rhs: Self) -> (r: Option<Self>)
        ensures
            r is Some <==> Self::lowest() <= self.as_int() + rhs.as_int() <= Self::highest(),
            r matches Some(v) ==> v.as_int() == self.as_int() + rhs.as_int(),
    ;

    fn sub_checked(self, rhs: Self) -> (r: Option<Self>)
        ensures
            r is Some <==> Self::lowest() <= self.as_int() - rhs.as_int() <= Self::highest(),
            r matches Some(v) ==> v.as_int() == self.as_int() - rhs.as_int(),
    ;

    fn mul_checked(self, rhs: Self) -> (r: Option<Self>)
        ensures
            r is Some <==> Self::lowest() <= self.as_int() * rhs.as_int() <= Self::highest(),
            r matches Some(v) ==> v.as_int() == self.as_int() * rhs.as_int(),
    ;

    fn div_checked(self, rhs: Self) -> (r: Option<Self>)
        ensures
            r is Some <==> rhs.as_int() != 0 && Self::lowest() <= div_trunc(self.as_int(), rhs.as_int())
                <= Self::highest(),
            r matches Some(v) ==> v.as_int() == div_trunc(self.as_int(), rhs.as_int()),
    ;

    fn rem_checked(self, rhs: Self) -> (r: Option<Self>)
        ensures
            r is Some <==> rhs.as_int() != 0 && !(self.as_int() == Self::lowest() && rhs.as_int()
                == -1),
            r matches Some(v) ==> v.as_int() == rem_trunc(self.as_int(), rhs.as_int()),
    ;

    fn same_as(self, rhs: Self) -> (r: bool)
        ensures
            r == (self.as_int() == rhs.as_int()),
    ;

    fn less_than(self, rhs: Self) -> (r: bool)
        ensures
            r == (self.as_int() < rhs.as_int()),
    ;

    fn into_i8(self) -> (r: Option<i8>)
        ensures
            r is Some <==> i8::MIN <= self.as_int() <= i8::MAX,
            r matches Some(v) ==> v as int == self.as_int(),
    ;

    fn into_i16(self) -> (r: Option<i16>)
        ensures
            r is Some <==> i16::MIN <= self.as_int() <= i16::MAX,
            r matches Some(v) ==> v as int == self.as_int(),
    ;

    fn into_i32(self) -> (r: Option<i32>)
        ensures
            r is Some <==> i32::MIN <= self.as_int() <= i32::MAX,
            r matches Some(v) ==> v as int == self.as_int(),
    ;

    fn into_i64(self) -> (r: Option<i64>)
        ensures
            r is Some <==> i64::MIN <= self.as_int() <= i64::MAX,
            r matches Some(v) ==> v as int == self.as_int(),
    ;

    fn into_u8(self) -> (r: Option<u8>)
        ensures
            r is Some <==> u8::MIN <= self.as_int() <= u8::MAX,
            r matches Some(v) ==> v as int == self.as_int(),
    ;

    fn into_u16(self) -> (r: Option<u16>)
        ensures
            r is Some <==> u16::MIN <= self.as_int() <= u16::MAX,
            r matches Some(v) ==> v as int == self.as_int(),
    ;

    fn into_u32(self) -> (r: Option<u32>)
        ensures
            r is Some <==> u32::MIN <= self.as_int() <= u32::MAX,
            r matches Some(v) ==> v as int == self.as_int(),
    ;

    fn into_u64(self) -> (r: Option<u64>)
        ensures
            r is Some <==> u64::MIN <= self.as_int() <= u64::MAX,
            r matches Some(v) ==> v as int == self.as_int(),
    ;

    fn into_usize(self) -> (r: Option<usize>)
        ensures
            r is Some <==> usize::MIN <= self.as_int() <= usize::MAX,
            r matches Some(v) ==> v as int == self.as_int(),
    ;
}

/// A signed width: negative constants and checked negation.
pub trait SignedInteger: Integer {
    fn magic_neg_1() -> (r: Self)
        ensures
            r.as_int() == -1,
    ;

    fn magic_neg_2() -> (r: Self)
        ensures
            r.as_int() == -2,
    ;

    fn magic_neg_3() -> (r: Self)
        ensures
            r.as_int() == -3,
    ;

    fn neg_checked(self) -> (r: Option<Self>)
        ensures
            r is Some <==> Self::lowest() <= -self.as_int() <= Self::highest(),
            r matches Some(v) ==> v.as_int() == -self.as_int(),
    ;
}

/// An unsigned width: wrapping shifts, the bitwise operators, and truncating
/// conversions to the other unsigned widths.
pub trait UnsignedInteger: Integer {
    /// The shift left by `k` modulo the width, as the native wrapping shift does.
    spec fn shl_spec(self, k: u32) -> Self;

    /// The shift right by `k` modulo the width, as the native wrapping shift does.
    spec fn shr_spec(self, k: u32) -> Self;

    spec fn and_spec(self, rhs: Self) -> Self;

    spec fn or_spec(self, rhs: Self) -> Self;

    spec fn xor_spec(self, rhs: Self) -> Self;

    spec fn not_spec(self) -> Self;

    proof fn lemma_unsigned()
        ensures
            Self::lowest() == 0,
    ;

    fn shl_wrapping(self, rhs: u32) -> (r: Self)
        ensures
            r == self.shl_spec(rhs),
    ;

    fn shr_wrapping(self, rhs: u32) -> (r: Self)
        ensures
            r == self.shr_spec(rhs),
    ;

    fn bit_and(self, rhs: Self) -> (r: Self)
        ensures
            r == self.and_spec(rhs),
    ;

    fn bit_or(self, rhs: Self) -> (r: Self)
        ensures
            r == self.or_spec(rhs),
    ;

    fn bit_xor(self, rhs: Self) -> (r: Self)
        ensures
            r == self.xor_spec(rhs),
    ;

    fn bit_not(self) -> (r: Self)
        ensures
            r == self.not_spec(),
    ;

    fn into_u8_unsafe(self) -> (r: u8)
        ensures
            r == self.as_int() as u8,
    ;

    fn into_u16_unsafe(self) -> (r: u16)
        ensures
            r == self.as_int() as u16,
    ;

    fn into_u32_unsafe(self) -> (r: u32)
        ensures
            r == self.as_int() as u32,
    ;

    fn into_u64_unsafe(self) -> (r: u64)
        ensures
            r == self.as_int() as u64,
    ;

    fn into_usize_unsafe(self) -> (r: usize)
        ensures
            r == self.as_int() as usize,
    ;
}

impl Integer for i8 {
    open spec fn as_int(self) -> int {
        self as int
    }

    open spec fn lowest() -> int {
        i8::MIN as int
    }

    open spec fn highest() -> int {
        i8::MAX as int
    }

    open spec fn from_int(x: int) -> Self {
        x as i8
    }

    proof fn lemma_bounds(self) {
    }

    proof fn lemma_from_int(x: int) {
    }

    fn max_value() -> (r: Self) {
        i8::MAX
    }

    fn min_value() -> (r: Self) {
        i8::MIN
    }

    fn magic_0() -> (r: Self) {
        0
    }

    fn magic_1() -> (r: Self) {
        1
    }

    fn magic_2() -> (r: Self) {
        2
    }

    fn magic_3() -> (r: Self) {
        3
    }

    fn add_checked(self, rhs: Self) -> (r: Option<Self>) {
        self.checked_add(rhs)
    }

    fn sub_checked(self, rhs: Self) -> (r: Option<Self>) {
        self.checked_sub(rhs)
    }

    fn mul_checked(self, rhs: Self) -> (r: Option<Self>) {
        self.checked_mul(rhs)
    }

    fn div_checked(self, rhs: Self) -> (r: Option<Self>) {
        self.checked_div(rhs)
    }

    fn rem_checked(self, rhs: Self) -> (r: Option<Self>) {
        self.checked_rem(rhs)
    }

    fn same_as(self, rhs: Self) -> (r: bool) {
        self == rhs
    }

    fn less_than(self, rhs: Self) -> (r: bool) {
        self < rhs
    }

    fn into_i8(self) -> (r: Option<i8>) {
        Some(self as i8)
    }

    fn into_i16(self) -> (r: Option<i16>) {
        Some(self as i16)
    }

    fn into_i32(self) -> (r: Option<i32>) {
        Some(self as i32)
    }

    fn into_i64(self) -> (r: Option<i64>) {
        Some(self as i64)
    }

    fn into_u8(self) -> (r: Option<u8>) {
        let wide = self as i128;
        if wide < u8::MIN as i128 || wide > u8::MAX as i128 {
            return None;
        }
        Some(self as u8)
    }

    fn into_u16(self) -> (r: Option<u16>) {
        let wide = self as i128;
        if wide < u16::MIN as i128 || wide > u16::MAX as i128 {
            return None;
        }
        Some(self as u16)
    }

    fn into_u32(self) -> (r: Option<u32>) {
        let wide = self as i128;
        if wide < u32::MIN as i128 || wide > u32::MAX as i128 {
            return None;
        }
        Some(self as u32)
    }

    fn into_u64(self) -> (r: Option<u64>) {
        let wide = self as i128;
        if wide < u64::MIN as i128 || wide > u64::MAX as i128 {
            return None;
        }
        Some(self as u64)
    }

    fn into_usize(self) -> (r: Option<usize>) {
        let wide = self as i128;
        if wide < usize::MIN as i128 || wide > usize::MAX as i128 {
            return None;
        }
        Some(self as usize)
    }
}

impl SignedInteger for i8 {
    fn magic_neg_1() -> (r: Self) {
        -1
    }

    fn magic_neg_2() -> (r: Self) {
        -2
    }

    fn magic_neg_3() -> (r: Self) {
        -3
    }

    fn neg_checked(self) -> (r: Option<Self>) {
        if self == i8::MIN {
            None
        } else {
            Some(-self)
        }
    }
}

impl Integer for i16 {
    open spec fn as_int(self) -> int {
        self as int
    }

    open spec fn lowest() -> int {
        i16::MIN as int
    }

    open spec fn highest() -> int {
        i16::MAX as int
    }

    open spec fn from_int(x: int) -> Self {
        x as i16
    }

    proof fn lemma_bounds(self) {
    }

    proof fn lemma_from_int(x: int) {
    }

    fn max_value() -> (r: Self) {
        i16::MAX
    }

    fn min_value() -> (r: Self) {
        i16::MIN
    }

    fn magic_0() -> (r: Self) {
        0
    }

    fn magic_1() -> (r: Self) {
        1
    }

    fn magic_2() -> (r: Self) {
        2
    }

    fn magic_3() -> (r: Self) {
        3
    }

    fn add_checked(self, rhs: Self) -> (r: Option<Self>) {
        self.checked_add(rhs)
    }

    fn sub_checked(self, rhs: Self) -> (r: Option<Self>) {
        self.checked_sub(rhs)
    }

    fn mul_checked(self, rhs: Self) -> (r: Option<Self>) {
        self.checked_mul(rhs)
    }

    fn div_checked(self, rhs: Self) -> (r: Option<Self>) {
        self.checked_div(rhs)
    }

    fn rem_checked(self, rhs: Self) -> (r: Option<Self>) {
        self.checked_rem(rhs)
    }

    fn same_as(self, rhs: Self) -> (r: bool) {
        self == rhs
    }

    fn less_than(self, rhs: Self) -> (r: bool) {
        self < rhs
    }

    fn into_i8(self) -> (r: Option<i8>) {
        let wide = self as i128;
        if wide < i8::MIN as i128 || wide > i8::MAX as i128 {
            return None;
        }
        Some(self as i8)
    }

    fn into_i16(self) -> (r: Option<i16>) {
        Some(self as i16)
    }

    fn into_i32(self) -> (r: Option<i32>) {
        Some(self as i32)
    }

    fn into_i64(self) -> (r: Option<i64>) {
        Some(self as i64)
    }

    fn into_u8(self) -> (r: Option<u8>) {
        let wide = self as i128;
        if wide < u8::MIN as i128 || wide > u8::MAX as i128 {
            return None;
        }
        Some(self as u8)
    }

    fn into_u16(self) -> (r: Option<u16>) {
        let wide = self as i128;
        if wide < u16::MIN as i128 || wide > u16::MAX as i128 {
            return None;
        }
        Some(self as u16)
    }

    fn into_u32(self) -> (r: Option<u32>) {
        let wide = self as i128;
        if wide < u32::MIN as i128 || wide > u32::MAX as i128 {
            return None;
        }
        Some(self as u32)
    }

    fn into_u64(self) -> (r: Option<u64>) {
        let wide = self as i128;
        if wide < u64::MIN as i128 || wide > u64::MAX as i128 {
            return None;
        }
        Some(self as u64)
    }

    fn into_usize(self) -> (r: Option<usize>) {
        let wide = self as i128;
        if wide < usize::MIN as i128 || wide > usize::MAX as i128 {
            return None;
        }
        Some(self as usize)
    }
}

impl SignedInteger for i16 {
    fn magic_neg_1() -> (r: Self) {
        -1
    }

    fn magic_neg_2() -> (r: Self) {
        -2
    }

    fn magic_neg_3() -> (r: Self) {
        -3
    }

    fn neg_checked(self) -> (r: Option<Self>) {
        if self == i16::MIN {
            None
        } else {
            Some(-self)
        }
    }
}

impl Integer for i32 {
    open spec fn as_int(self) -> int {
        self as int
    }

    open spec fn lowest() -> int {
        i32::MIN as int
    }

    open spec fn highest() -> int {
        i32::MAX as int
    }

    open spec fn from_int(x: int) -> Self {
        x as i32
    }

    proof fn lemma_bounds(self) {
    }

    proof fn lemma_from_int(x: int) {
    }

    fn max_value() -> (r: Self) {
        i32::MAX
    }

    fn min_value() -> (r: Self) {
        i32::MIN
    }

    fn magic_0() -> (r: Self) {
        0
    }

    fn magic_1() -> (r: Self) {
        1
    }

    fn magic_2() -> (r: Self) {
        2
    }

    fn magic_3() -> (r: Self) {
        3
    }

    fn add_checked(self, rhs: Self) -> (r: Option<Self>) {
        self.checked_add(rhs)
    }

    fn sub_checked(self, rhs: Self) -> (r: Option<Self>) {
        self.checked_sub(rhs)
    }

    fn mul_checked(self, rhs: Self) -> (r: Option<Self>) {
        self.checked_mul(rhs)
    }

    fn div_checked(self, rhs: Self) -> (r: Option<Self>) {
        self.checked_div(rhs)
    }

    fn rem_checked(self, rhs: Self) -> (r: Option<Self>) {
        self.checked_rem(rhs)
    }

    fn same_as(self, rhs: Self) -> (r: bool) {
        self == rhs
    }

    fn less_than(self, rhs: Self) -> (r: bool) {
        self < rhs
    }

    fn into_i8(self) -> (r: Option<i8>) {
        let wide = self as i128;
        if wide < i8::MIN as i128 || wide > i8::MAX as i128 {
            return None;
        }
        Some(self as i8)
    }

    fn into_i16(self) -> (r: Option<i16>) {
        let wide = self as i128;
        if wide < i16::MIN as i128 || wide > i16::MAX as i128 {
            return None;
        }
        Some(self as i16)
    }

    fn into_i32(self) -> (r: Option<i32>) {
        Some(self as i32)
    }

    fn into_i64(self) -> (r: Option<i64>) {
        Some(self as i64)
    }

    fn into_u8(self) -> (r: Option<u8>) {
        let wide = self as i128;
        if wide < u8::MIN as i128 || wide > u8::MAX as i128 {
            return None;
        }
        Some(self as u8)
    }

    fn into_u16(self) -> (r: Option<u16>) {
        let wide = self as i128;
        if wide < u16::MIN as i128 || wide > u16::MAX as i128 {
            return None;
        }
        Some(self as u16)
    }

    fn into_u32(self) -> (r: Option<u32>) {
        let wide = self as i128;
        if wide < u32::MIN as i128 || wide > u32::MAX as i128 {
            return None;
        }
        Some(self as u32)
    }

    fn into_u64(self) -> (r: Option<u64>) {
        let wide = self as i128;
        if wide < u64::MIN as i128 || wide > u64::MAX as i128 {
            return None;
        }
        Some(self as u64)
    }

    fn into_usize(self) -> (r: Option<usize>) {
        let wide = self as i128;
        if wide < usize::MIN as i128 || wide > usize::MAX as i128 {
            return None;
        }
        Some(self as usize)
    }
}

impl SignedInteger for i32 {
    fn magic_neg_1() -> (r: Self) {
        -1
    }

    fn magic_neg_2() -> (r: Self) {
        -2
    }

    fn magic_neg_3() -> (r: Self) {
        -3
    }

    fn neg_checked(self) -> (r: Option<Self>) {
        if self == i32::MIN {
            None
        } else {
            Some(-self)
        }
    }
}

impl Integer for i64 {
    open spec fn as_int(self) -> int {
        self as int
    }

    open spec fn lowest() -> int {
        i64::MIN as int
    }

    open spec fn highest() -> int {
        i64::MAX as int
    }

    open spec fn from_int(x: int) -> Self {
        x as i64
    }

    proof fn lemma_bounds(self) {
    }

    proof fn lemma_from_int(x: int) {
    }

    fn max_value() -> (r: Self) {
        i64::MAX
    }

    fn min_value() -> (r: Self) {
        i64::MIN
    }

    fn magic_0() -> (r: Self) {
        0
    }

    fn magic_1() -> (r: Self) {
        1
    }

    fn magic_2() -> (r: Self) {
        2
    }

    fn magic_3() -> (r: Self) {
        3
    }

    fn add_checked(self, rhs: Self) -> (r: Option<Self>) {
        self.checked_add(rhs)
    }

    fn sub_checked(self, rhs: Self) -> (r: Option<Self>) {
        self.checked_sub(rhs)
    }

    fn mul_checked(self, rhs: Self) -> (r: Option<Self>) {
        self.checked_mul(rhs)
    }

    fn div_checked(self, rhs: Self) -> (r: Option<Self>) {
        self.checked_div(rhs)
    }

    fn rem_checked(self, rhs: Self) -> (r: Option<Self>) {
        self.checked_rem(rhs)
    }

    fn same_as(self, rhs: Self) -> (r: bool) {
        self == rhs
    }

    fn less_than(self, rhs: Self) -> (r: bool) {
        self < rhs
    }

    fn into_i8(self) -> (r: Option<i8>) {
        let wide = self as i128;
        if wide < i8::MIN as i128 || wide > i8::MAX as i128 {
            return None;
        }
        Some(self as i8)
    }

    fn into_i16(self) -> (r: Option<i16>) {
        let wide = self as i128;
        if wide < i16::MIN as i128 || wide > i16::MAX as i128 {
            return None;
        }
        Some(self as i16)
    }

    fn into_i32(self) -> (r: Option<i32>) {
        let wide = self as i128;
        if wide < i32::MIN as i128 || wide > i32::MAX as i128 {
            return None;
        }
        Some(self as i32)
    }

    fn into_i64(self) -> (r: Option<i64>) {
        Some(self as i64)
    }

    fn into_u8(self) -> (r: Option<u8>) {
        let wide = self as i128;
        if wide < u8::MIN as i128 || wide > u8::MAX as i128 {
            return None;
        }
        Some(self as u8)
    }

    fn into_u16(self) -> (r: Option<u16>) {
        let wide = self as i128;
        if wide < u16::MIN as i128 || wide > u16::MAX as i128 {
            return None;
        }
        Some(self as u16)
    }

    fn into_u32(self) -> (r: Option<u32>) {
        let wide = self as i128;
        if wide < u32::MIN as i128 || wide > u32::MAX as i128 {
            return None;
        }
        Some(self as u32)
    }

    fn into_u64(self) -> (r: Option<u64>) {
        let wide = self as i128;
        if wide < u64::MIN as i128 || wide > u64::MAX as i128 {
            return None;
        }
        Some(self as u64)
    }

    fn into_usize(self) -> (r: Option<usize>) {
        let wide = self as i128;
        if wide < usize::MIN as i128 || wide > usize::MAX as i128 {
            return None;
        }
        Some(self as usize)
    }
}

impl SignedInteger for i64 {
    fn magic_neg_1() -> (r: Self) {
        -1
    }

    fn magic_neg_2() -> (r: Self) {
        -2
    }

    fn magic_neg_3() -> (r: Self) {
        -3
    }

    fn neg_checked(self) -> (r: Option<Self>) {
        if self == i64::MIN {
            None
        } else {
            Some(-self)
        }
    }
}

impl Integer for u8 {
    open spec fn as_int(self) -> int {
        self as int
    }

    open spec fn lowest() -> int {
        u8::MIN as int
    }

    open spec fn highest() -> int {
        u8::MAX as int
    }

    open spec fn from_int(x: int) -> Self {
        x as u8
    }

    proof fn lemma_bounds(self) {
    }

    proof fn lemma_from_int(x: int) {
    }

    fn max_value() -> (r: Self) {
        u8::MAX
    }

    fn min_value() -> (r: Self) {
        u8::MIN
    }

    fn magic_0() -> (r: Self) {
        0
    }

    fn magic_1() -> (r: Self) {
        1
    }

    fn magic_2() -> (r: Self) {
        2
    }

    fn magic_3() -> (r: Self) {
        3
    }

    fn add_checked(self, rhs: Self) -> (r: Option<Self>) {
        self.checked_add(rhs)
    }

    fn sub_checked(self, rhs: Self) -> (r: Option<Self>) {
        self.checked_sub(rhs)
    }

    fn mul_checked(self, rhs: Self) -> (r: Option<Self>) {
        self.checked_mul(rhs)
    }

    fn div_checked(self, rhs: Self) -> (r: Option<Self>) {
        self.checked_div(rhs)
    }

    fn rem_checked(self, rhs: Self) -> (r: Option<Self>) {
        self.checked_rem(rhs)
    }

    fn same_as(self, rhs: Self) -> (r: bool) {
        self == rhs
    }

    fn less_than(self, rhs: Self) -> (r: bool) {
        self < rhs
    }

    fn into_i8(self) -> (r: Option<i8>) {
        let wide = self as i128;
        if wide < i8::MIN as i128 || wide > i8::MAX as i128 {
            return None;
        }
        Some(self as i8)
    }

    fn into_i16(self) -> (r: Option<i16>) {
        Some(self as i16)
    }

    fn into_i32(self) -> (r: Option<i32>) {
        Some(self as i32)
    }

    fn into_i64(self) -> (r: Option<i64>) {
        Some(self as i64)
    }

    fn into_u8(self) -> (r: Option<u8>) {
        Some(self as u8)
    }

    fn into_u16(self) -> (r: Option<u16>) {
        Some(self as u16)
    }

    fn into_u32(self) -> (r: Option<u32>) {
        Some(self as u32)
    }

    fn into_u64(self) -> (r: Option<u64>) {
        Some(self as u64)
    }

    fn into_usize(self) -> (r: Option<usize>) {
        Some(self as usize)
    }
}

impl UnsignedInteger for u8 {
    open spec fn shl_spec(self, k: u32) -> Self {
        self.wrapping_shl(k)
    }

    open spec fn shr_spec(self, k: u32) -> Self {
        self.wrapping_shr(k)
    }

    open spec fn and_spec(self, rhs: Self) -> Self {
        self & rhs
    }

    open spec fn or_spec(self, rhs: Self) -> Self {
        self | rhs
    }

    open spec fn xor_spec(self, rhs: Self) -> Self {
        self ^ rhs
    }

    open spec fn not_spec(self) -> Self {
        !self
    }

    proof fn lemma_unsigned() {
    }

    fn shl_wrapping(self, rhs: u32) -> (r: Self) {
        self.wrapping_shl(rhs)
    }

    fn shr_wrapping(self, rhs: u32) -> (r: Self) {
        self.wrapping_shr(rhs)
    }

    fn bit_and(self, rhs: Self) -> (r: Self) {
        self & rhs
    }

    fn bit_or(self, rhs: Self) -> (r: Self) {
        self | rhs
    }

    fn bit_xor(self, rhs: Self) -> (r: Self) {
        self ^ rhs
    }

    fn bit_not(self) -> (r: Self) {
        !self
    }

    fn into_u8_unsafe(self) -> (r: u8) {
        self as u8
    }

    fn into_u16_unsafe(self) -> (r: u16) {
        self as u16
    }

    fn into_u32_unsafe(self) -> (r: u32) {
        self as u32
    }

    fn into_u64_unsafe(self) -> (r: u64) {
        self as u64
    }

    fn into_usize_unsafe(self) -> (r: usize) {
        self as usize
    }
}

impl Integer for u16 {
    open spec fn as_int(self) -> int {
        self as int
    }

    open spec fn lowest() -> int {
        u16::MIN as int
    }

    open spec fn highest() -> int {
        u16::MAX as int
    }

    open spec fn from_int(x: int) -> Self {
        x as u16
    }

    proof fn lemma_bounds(self) {
    }

    proof fn lemma_from_int(x: int) {
    }

    fn max_value() -> (r: Self) {
        u16::MAX
    }

    fn min_value() -> (r: Self) {
        u16::MIN
    }

    fn magic_0() -> (r: Self) {
        0
    }

    fn magic_1() -> (r: Self) {
        1
    }

    fn magic_2() -> (r: Self) {
        2
    }

    fn magic_3() -> (r: Self) {
        3
    }

    fn add_checked(self, rhs: Self) -> (r: Option<Self>) {
        self.checked_add(rhs)
    }

    fn sub_checked(self, rhs: Self) -> (r: Option<Self>) {
        self.checked_sub(rhs)
    }

    fn mul_checked(self, rhs: Self) -> (r: Option<Self>) {
        self.checked_mul(rhs)
    }

    fn div_checked(self, rhs: Self) -> (r: Option<Self>) {
        self.checked_div(rhs)
    }

    fn rem_checked(self, rhs: Self) -> (r: Option<Self>) {
        self.checked_rem(rhs)
    }

    fn same_as(self, rhs: Self) -> (r: bool) {
        self == rhs
    }

    fn less_than(self, rhs: Self) -> (r: bool) {
        self < rhs
    }

    fn into_i8(self) -> (r: Option<i8>) {
        let wide = self as i128;
        if wide < i8::MIN as i128 || wide > i8::MAX as i128 {
            return None;
        }
        Some(self as i8)
    }

    fn into_i16(self) -> (r: Option<i16>) {
        let wide = self as i128;
        if wide < i16::MIN as i128 || wide > i16::MAX as i128 {
            return None;
        }
        Some(self as i16)
    }

    fn into_i32(self) -> (r: Option<i32>) {
        Some(self as i32)
    }

    fn into_i64(self) -> (r: Option<i64>) {
        Some(self as i64)
    }

    fn into_u8(self) -> (r: Option<u8>) {
        let wide = self as i128;
        if wide < u8::MIN as i128 || wide > u8::MAX as i128 {
            return None;
        }
        Some(self as u8)
    }

    fn into_u16(self) -> (r: Option<u16>) {
        Some(self as u16)
    }

    fn into_u32(self) -> (r: Option<u32>) {
        Some(self as u32)
    }

    fn into_u64(self) -> (r: Option<u64>) {
        Some(self as u64)
    }

    fn into_usize(self) -> (r: Option<usize>) {
        Some(self as usize)
    }
}

impl UnsignedInteger for u16 {
    open spec fn shl_spec(self, k: u32) -> Self {
        self.wrapping_shl(k)
    }

    open spec fn shr_spec(self, k: u32) -> Self {
        self.wrapping_shr(k)
    }

    open spec fn and_spec(self, rhs: Self) -> Self {
        self & rhs
    }

    open spec fn or_spec(self, rhs: Self) -> Self {
        self | rhs
    }

    open spec fn xor_spec(self, rhs: Self) -> Self {
        self ^ rhs
    }

    open spec fn not_spec(self) -> Self {
        !self
    }

    proof fn lemma_unsigned() {
    }

    fn shl_wrapping(self, rhs: u32) -> (r: Self) {
        self.wrapping_shl(rhs)
    }

    fn shr_wrapping(self, rhs: u32) -> (r: Self) {
        self.wrapping_shr(rhs)
    }

    fn bit_and(self, rhs: Self) -> (r: Self) {
        self & rhs
    }

    fn bit_or(self, rhs: Self) -> (r: Self) {
        self | rhs
    }

    fn bit_xor(self, rhs: Self) -> (r: Self) {
        self ^ rhs
    }

    fn bit_not(self) -> (r: Self) {
        !self
    }

    fn into_u8_unsafe(self) -> (r: u8) {
        #[verifier::truncate]
        (self as u8)
    }

    fn into_u16_unsafe(self) -> (r: u16) {
        self as u16
    }

    fn into_u32_unsafe(self) -> (r: u32) {
        self as u32
    }

    fn into_u64_unsafe(self) -> (r: u64) {
        self as u64
    }

    fn into_usize_unsafe(self) -> (r: usize) {
        self as usize
    }
}

impl Integer for u32 {
    open spec fn as_int(self) -> int {
        self as int
    }

    open spec fn lowest() -> int {
        u32::MIN as int
    }

    open spec fn highest() -> int {
        u32::MAX as int
    }

    open spec fn from_int(x: int) -> Self {
        x as u32
    }

    proof fn lemma_bounds(self) {
    }

    proof fn lemma_from_int(x: int) {
    }

    fn max_value() -> (r: Self) {
        u32::MAX
    }

    fn min_value() -> (r: Self) {
        u32::MIN
    }

    fn magic_0() -> (r: Self) {
        0
    }

    fn magic_1() -> (r: Self) {
        1
    }

    fn magic_2() -> (r: Self) {
        2
    }

    fn magic_3() -> (r: Self) {
        3
    }

    fn add_checked(self, rhs: Self) -> (r: Option<Self>) {
        self.checked_add(rhs)
    }

    fn sub_checked(self, rhs: Self) -> (r: Option<Self>) {
        self.checked_sub(rhs)
    }

    fn mul_checked(self, rhs: Self) -> (r: Option<Self>) {
        self.checked_mul(rhs)
    }

    fn div_checked(self, rhs: Self) -> (r: Option<Self>) {
        self.checked_div(rhs)
    }

    fn rem_checked(self, rhs: Self) -> (r: Option<Self>) {
        self.checked_rem(rhs)
    }

    fn same_as(self, rhs: Self) -> (r: bool) {
        self == rhs
    }

    fn less_than(self, rhs: Self) -> (r: bool) {
        self < rhs
    }

    fn into_i8(self) -> (r: Option<i8>) {
        let wide = self as i128;
        if wide < i8::MIN as i128 || wide > i8::MAX as i128 {
            return None;
        }
        Some(self as i8)
    }

    fn into_i16(self) -> (r: Option<i16>) {
        let wide = self as i128;
        if wide < i16::MIN as i128 || wide > i16::MAX as i128 {
            return None;
        }
        Some(self as i16)
    }

    fn into_i32(self) -> (r: Option<i32>) {
        let wide = self as i128;
        if wide < i32::MIN as i128 || wide > i32::MAX as i128 {
            return None;
        }
        Some(self as i32)
    }

    fn into_i64(self) -> (r: Option<i64>) {
        Some(self as i64)
    }

    fn into_u8(self) -> (r: Option<u8>) {
        let wide = self as i128;
        if wide < u8::MIN as i128 || wide > u8::MAX as i128 {
            return None;
        }
        Some(self as u8)
    }

    fn into_u16(self) -> (r: Option<u16>) {
        let wide = self as i128;
        if wide < u16::MIN as i128 || wide > u16::MAX as i128 {
            return None;
        }
        Some(self as u16)
    }

    fn into_u32(self) -> (r: Option<u32>) {
        Some(self as u32)
    }

    fn into_u64(self) -> (r: Option<u64>) {
        Some(self as u64)
    }

    fn into_usize(self) -> (r: Option<usize>) {
        Some(self as usize)
    }
}

impl UnsignedInteger for u32 {
    open spec fn shl_spec(self, k: u32) -> Self {
        self.wrapping_shl(k)
    }

    open spec fn shr_spec(self, k: u32) -> Self {
        self.wrapping_shr(k)
    }

    open spec fn and_spec(self, rhs: Self) -> Self {
        self & rhs
    }

    open spec fn or_spec(self, rhs: Self) -> Self {
        self | rhs
    }

    open spec fn xor_spec(self, rhs: Self) -> Self {
        self ^ rhs
    }

    open spec fn not_spec(self) -> Self {
        !self
    }

    proof fn lemma_unsigned() {
    }

    fn shl_wrapping(self, rhs: u32) -> (r: Self) {
        self.wrapping_shl(rhs)
    }

    fn shr_wrapping(self, rhs: u32) -> (r: Self) {
        self.wrapping_shr(rhs)
    }

    fn bit_and(self, rhs: Self) -> (r: Self) {
        self & rhs
    }

    fn bit_or(self, rhs: Self) -> (r: Self) {
        self | rhs
    }

    fn bit_xor(self, rhs: Self) -> (r: Self) {
        self ^ rhs
    }

    fn bit_not(self) -> (r: Self) {
        !self
    }

    fn into_u8_unsafe(self) -> (r: u8) {
        #[verifier::truncate]
        (self as u8)
    }

    fn into_u16_unsafe(self) -> (r: u16) {
        #[verifier::truncate]
        (self as u16)
    }

    fn into_u32_unsafe(self) -> (r: u32) {
        self as u32
    }

    fn into_u64_unsafe(self) -> (r: u64) {
        self as u64
    }

    fn into_usize_unsafe(self) -> (r: usize) {
        self as usize
    }
}

impl Integer for u64 {
    open spec fn as_int(self) -> int {
        self as int
    }

    open spec fn lowest() -> int {
        u64::MIN as int
    }

    open spec fn highest() -> int {
        u64::MAX as int
    }

    open spec fn from_int(x: int) -> Self {
        x as u64
    }

    proof fn lemma_bounds(self) {
    }

    proof fn lemma_from_int(x: int) {
    }

    fn max_value() -> (r: Self) {
        u64::MAX
    }

    fn min_value() -> (r: Self) {
        u64::MIN
    }

    fn magic_0() -> (r: Self) {
        0
    }

    fn magic_1() -> (r: Self) {
        1
    }

    fn magic_2() -> (r: Self) {
        2
    }

    fn magic_3() -> (r: Self) {
        3
    }

    fn add_checked(self, rhs: Self) -> (r: Option<Self>) {
        self.checked_add(rhs)
    }

    fn sub_checked(self, rhs: Self) -> (r: Option<Self>) {
        self.checked_sub(rhs)
    }

    fn mul_checked(self, rhs: Self) -> (r: Option<Self>) {
        self.checked_mul(rhs)
    }

    fn div_checked(self, rhs: Self) -> (r: Option<Self>) {
        self.checked_div(rhs)
    }

    fn rem_checked(self, rhs: Self) -> (r: Option<Self>) {
        self.checked_rem(rhs)
    }

    fn same_as(self, rhs: Self) -> (r: bool) {
        self == rhs
    }

    fn less_than(self, rhs: Self) -> (r: bool) {
        self < rhs
    }

    fn into_i8(self) -> (r: Option<i8>) {
        let wide = self as i128;
        if wide < i8::MIN as i128 || wide > i8::MAX as i128 {
            return None;
        }
        Some(self as i8)
    }

    fn into_i16(self) -> (r: Option<i16>) {
        let wide = self as i128;
        if wide < i16::MIN as i128 || wide > i16::MAX as i128 {
            return None;
        }
        Some(self as i16)
    }

    fn into_i32(self) -> (r: Option<i32>) {
        let wide = self as i128;
        if wide < i32::MIN as i128 || wide > i32::MAX as i128 {
            return None;
        }
        Some(self as i32)
    }

    fn into_i64(self) -> (r: Option<i64>) {
        let wide = self as i128;
        if wide < i64::MIN as i128 || wide > i64::MAX as i128 {
            return None;
        }
        Some(self as i64)
    }

    fn into_u8(self) -> (r: Option<u8>) {
        let wide = self as i128;
        if wide < u8::MIN as i128 || wide > u8::MAX as i128 {
            return None;
        }
        Some(self as u8)
    }

    fn into_u16(self) -> (r: Option<u16>) {
        let wide = self as i128;
        if wide < u16::MIN as i128 || wide > u16::MAX as i128 {
            return None;
        }
        Some(self as u16)
    }

    fn into_u32(self) -> (r: Option<u32>) {
        let wide = self as i128;
        if wide < u32::MIN as i128 || wide > u32::MAX as i128 {
            return None;
        }
        Some(self as u32)
    }

    fn into_u64(self) -> (r: Option<u64>) {
        Some(self as u64)
    }

    fn into_usize(self) -> (r: Option<usize>) {
        let wide = self as i128;
        if wide < usize::MIN as i128 || wide > usize::MAX as i128 {
            return None;
        }
        Some(self as usize)
    }
}

impl UnsignedInteger for u64 {
    open spec fn shl_spec(self, k: u32) -> Self {
        self.wrapping_shl(k)
    }

    open spec fn shr_spec(self, k: u32) -> Self {
        self.wrapping_shr(k)
    }

    open spec fn and_spec(self, rhs: Self) -> Self {
        self & rhs
    }

    open spec fn or_spec(self, rhs: Self) -> Self {
        self | rhs
    }

    open spec fn xor_spec(self, rhs: Self) -> Self {
        self ^ rhs
    }

    open spec fn not_spec(self) -> Self {
        !self
    }

    proof fn lemma_unsigned() {
    }

    fn shl_wrapping(self, rhs: u32) -> (r: Self) {
        self.wrapping_shl(rhs)
    }

    fn shr_wrapping(self, rhs: u32) -> (r: Self) {
        self.wrapping_shr(rhs)
    }

    fn bit_and(self, rhs: Self) -> (r: Self) {
        self & rhs
    }

    fn bit_or(self, rhs: Self) -> (r: Self) {
        self | rhs
    }

    fn bit_xor(self, rhs: Self) -> (r: Self) {
        self ^ rhs
    }

    fn bit_not(self) -> (r: Self) {
        !self
    }

    fn into_u8_unsafe(self) -> (r: u8) {
        #[verifier::truncate]
        (self as u8)
    }

    fn into_u16_unsafe(self) -> (r: u16) {
        #[verifier::truncate]
        (self as u16)
    }

    fn into_u32_unsafe(self) -> (r: u32) {
        #[verifier::truncate]
        (self as u32)
    }

    fn into_u64_unsafe(self) -> (r: u64) {
        self as u64
    }

    fn into_usize_unsafe(self) -> (r: usize) {
        #[verifier::truncate]
        (self as usize)
    }
}

impl Integer for usize {
    open spec fn as_int(self) -> int {
        self as int
    }

    open spec fn lowest() -> int {
        usize::MIN as int
    }

    open spec fn highest() -> int {
        usize::MAX as int
    }

    open spec fn from_int(x: int) -> Self {
        x as usize
    }

    proof fn lemma_bounds(self) {
    }

    proof fn lemma_from_int(x: int) {
    }

    fn max_value() -> (r: Self) {
        usize::MAX
    }

    fn min_value() -> (r: Self) {
        usize::MIN
    }

    fn magic_0() -> (r: Self) {
        0
    }

    fn magic_1() -> (r: Self) {
        1
    }

    fn magic_2() -> (r: Self) {
        2
    }

    fn magic_3() -> (r: Self) {
        3
    }

    fn add_checked(self, rhs: Self) -> (r: Option<Self>) {
        self.checked_add(rhs)
    }

    fn sub_checked(self, rhs: Self) -> (r: Option<Self>) {
        self.checked_sub(rhs)
    }

    fn mul_checked(self, rhs: Self) -> (r: Option<Self>) {
        self.checked_mul(rhs)
    }

    fn div_checked(self, rhs: Self) -> (r: Option<Self>) {
        self.checked_div(rhs)
    }

    fn rem_checked(self, rhs: Self) -> (r: Option<Self>) {
        self.checked_rem(rhs)
    }

    fn same_as(self, rhs: Self) -> (r: bool) {
        self == rhs
    }

    fn less_than(self, rhs: Self) -> (r: bool) {
        self < rhs
    }

    fn into_i8(self) -> (r: Option<i8>) {
        let wide = self as i128;
        if wide < i8::MIN as i128 || wide > i8::MAX as i128 {
            return None;
        }
        Some(self as i8)
    }

    fn into_i16(self) -> (r: Option<i16>) {
        let wide = self as i128;
        if wide < i16::MIN as i128 || wide > i16::MAX as i128 {
            return None;
        }
        Some(self as i16)
    }

    fn into_i32(self) -> (r: Option<i32>) {
        let wide = self as i128;
        if wide < i32::MIN as i128 || wide > i32::MAX as i128 {
            return None;
        }
        Some(self as i32)
    }

    fn into_i64(self) -> (r: Option<i64>) {
        let wide = self as i128;
        if wide < i64::MIN as i128 || wide > i64::MAX as i128 {
            return None;
        }
        Some(self as i64)
    }

    fn into_u8(self) -> (r: Option<u8>) {
        let wide = self as i128;
        if wide < u8::MIN as i128 || wide > u8::MAX as i128 {
            return None;
        }
        Some(self as u8)
    }

    fn into_u16(self) -> (r: Option<u16>) {
        let wide = self as i128;
        if wide < u16::MIN as i128 || wide > u16::MAX as i128 {
            return None;
        }
        Some(self as u16)
    }

    fn into_u32(self) -> (r: Option<u32>) {
        let wide = self as i128;
        if wide < u32::MIN as i128 || wide > u32::MAX as i128 {
            return None;
        }
        Some(self as u32)
    }

    fn into_u64(self) -> (r: Option<u64>) {
        Some(self as u64)
    }

    fn into_usize(self) -> (r: Option<usize>) {
        let wide = self as i128;
        if wide < usize::MIN as i128 || wide > usize::MAX as i128 {
            return None;
        }
        Some(self as usize)
    }
}

impl UnsignedInteger for usize {
    open spec fn shl_spec(self, k: u32) -> Self {
        self.wrapping_shl(k)
    }

    open spec fn shr_spec(self, k: u32) -> Self {
        self.wrapping_shr(k)
    }

    open spec fn and_spec(self, rhs: Self) -> Self {
        self & rhs
    }

    open spec fn or_spec(self, rhs: Self) -> Self {
        self | rhs
    }

    open spec fn xor_spec(self, rhs: Self) -> Self {
        self ^ rhs
    }

    open spec fn not_spec(self) -> Self {
        !self
    }

    proof fn lemma_unsigned() {
    }

    fn shl_wrapping(self, rhs: u32) -> (r: Self) {
        self.wrapping_shl(rhs)
    }

    fn shr_wrapping(self, rhs: u32) -> (r: Self) {
        self.wrapping_shr(rhs)
    }

    fn bit_and(self, rhs: Self) -> (r: Self) {
        self & rhs
    }

    fn bit_or(self, rhs: Self) -> (r: Self) {
        self | rhs
    }

    fn bit_xor(self, rhs: Self) -> (r: Self) {
        self ^ rhs
    }

    fn bit_not(self) -> (r: Self) {
        !self
    }

    fn into_u8_unsafe(self) -> (r: u8) {
        #[verifier::truncate]
        (self as u8)
    }

    fn into_u16_unsafe(self) -> (r: u16) {
        #[verifier::truncate]
        (self as u16)
    }

    fn into_u32_unsafe(self) -> (r: u32) {
        #[verifier::truncate]
        (self as u32)
    }

    fn into_u64_unsafe(self) -> (r: u64) {
        self as u64
    }

    fn into_usize_unsafe(self) -> (r: usize) {
        #[verifier::truncate]
        (self as usize)
    }
}

} // verus!
