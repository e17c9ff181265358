//! `SafeIntegral<T>`: an integer of width `T` that carries a poisoned state
//! and a must-check state through every operation.
use crate::integer::checked_op;
use crate::integer::fits;
use crate::integer::ArithOp;
use crate::integer::Integer;
use crate::integer::SignedInteger;
use crate::integer::UnsignedInteger;
use core::cmp::Ordering;
use core::ops::AddAssign;
use core::ops::BitAndAssign;
use core::ops::BitOrAssign;
use core::ops::BitXorAssign;
use core::ops::DivAssign;
use core::ops::MulAssign;
use core::ops::RemAssign;
use core::ops::ShlAssign;
use core::ops::ShrAssign;
use core::ops::SubAssign;
use vstd::prelude::*;

verus! {

/// An integer that remembers whether an overflow, a division by zero or a
/// lossy conversion happened on it or on a value it was computed from
/// (poisoned), and whether that state has been inspected since the last
/// operation that demands an inspection (unchecked).
#[derive(Clone, Copy, Debug)]
pub struct SafeIntegral<T> {
    val: T,
    poisoned: bool,
    unchecked: bool,
}

/// The order of two mathematical integers.
pub open spec fn order_of(a: int, b: int) -> Ordering {
    if a < b {
        Ordering::Less
    } else if a > b {
        Ordering::Greater
    } else {
        Ordering::Equal
    }
}

/// The value that a shift by an amount of `k` leaves: the wrapping shift
/// when the amount fits a `u32`, zero when it does not.
pub open spec fn shl_value<T: UnsignedInteger>(v: T, k: int) -> T {
    if 0 <= k <= u32::MAX {
        v.shl_spec(k as u32)
    } else {
        T::from_int(0)
    }
}

/// See `shl_value`.
pub open spec fn shr_value<T: UnsignedInteger>(v: T, k: int) -> T {
    if 0 <= k <= u32::MAX {
        v.shr_spec(k as u32)
    } else {
        T::from_int(0)
    }
}

impl<T: Integer> SafeIntegral<T> {
    /// The stored integer; it means nothing once the value is poisoned.
    pub closed spec fn raw(self) -> T {
        self.val
    }

    /// Whether an overflow, a division by zero or a lossy conversion
    /// happened on this value or on one it was computed from.
    pub closed spec fn poisoned(self) -> bool {
        self.poisoned
    }

    /// Whether the poisoned state has not been inspected since the last
    /// arithmetic that produced the value.
    pub closed spec fn unchecked(self) -> bool {
        self.unchecked
    }

    /// The mathematical value of the stored integer.
    pub open spec fn num(self) -> int {
        self.raw().as_int()
    }

    /// Whether the value may be read: it is valid and it has been checked.
    pub open spec fn readable(self) -> bool {
        !self.poisoned() && !self.unchecked()
    }

    /// The value that `new(v)` makes.
    pub closed spec fn spec_new(v: T) -> Self {
        SafeIntegral { val: v, poisoned: false, unchecked: false }
    }

    /// The value that `failure()` makes.
    pub closed spec fn spec_failure() -> Self {
        SafeIntegral { val: T::from_int(0), poisoned: true, unchecked: true }
    }

    /// A value of width `T` holding `v`, with the two states of `flags`.
    pub closed spec fn spec_with_flags<U: Integer>(v: T, flags: SafeIntegral<U>) -> Self {
        SafeIntegral { val: v, poisoned: flags.poisoned, unchecked: flags.unchecked }
    }

    /// What a conversion of `other` to the width `T` yields: the same number
    /// with the same states when it fits, a poisoned unchecked zero when not.
    pub closed spec fn spec_converted<U: Integer>(other: SafeIntegral<U>) -> Self {
        if fits::<T>(other.num()) {
            SafeIntegral {
                val: T::from_int(other.num()),
                poisoned: other.poisoned,
                unchecked: other.unchecked,
            }
        } else {
            Self::spec_failure()
        }
    }

    /// The result of the arithmetic `op` on `self` and a right operand whose
    /// number is `b` and whose poisoned state is `rhs_poisoned`.
    pub closed spec fn arith(self, op: ArithOp, b: int, rhs_poisoned: bool) -> Self {
        match checked_op::<T>(op, self.num(), b) {
            Some(x) => SafeIntegral {
                val: T::from_int(x),
                poisoned: self.poisoned || rhs_poisoned,
                unchecked: true,
            },
            None => SafeIntegral { val: self.val, poisoned: true, unchecked: true },
        }
    }

    /// The result of an operation that cannot overflow (shift, bitwise,
    /// complement): the new integer `v`, the poisoned states joined, and the
    /// value checked exactly when it is valid.
    pub closed spec fn settled(self, v: T, rhs_poisoned: bool) -> Self {
        SafeIntegral {
            val: v,
            poisoned: self.poisoned || rhs_poisoned,
            unchecked: self.poisoned || rhs_poisoned,
        }
    }

    /// How the result `r` of the arithmetic `op` relates to its operands:
    /// poisoned exactly when an operand was or the checked primitive gives no
    /// value, never checked, and holding the exact result when there is one.
    pub open spec fn is_arith_result(r: Self, a: Self, op: ArithOp, b: int, rhs_poisoned: bool) -> bool {
        &&& r.poisoned() == (a.poisoned() || rhs_poisoned || checked_op::<T>(op, a.num(), b) is None)
        &&& r.unchecked()
        &&& checked_op::<T>(op, a.num(), b) matches Some(x) ==> r.num() == x
        &&& checked_op::<T>(op, a.num(), b) is None ==> r.raw() == a.raw()
    }

    /// How the result `r` of an operation that cannot overflow relates to its
    /// operands: it holds `v`, it is poisoned exactly when an operand was, and
    /// it is checked exactly when it is valid.
    pub open spec fn is_settled_result(r: Self, a: Self, v: T, rhs_poisoned: bool) -> bool {
        &&& r.raw() == v
        &&& r.poisoned() == (a.poisoned() || rhs_poisoned)
        &&& r.unchecked() == r.poisoned()
    }

    /// Poison is monotonic under arithmetic: the result of `op` is poisoned
    /// exactly when an operand was poisoned or the checked primitive gives no
    /// value, and it is unchecked whether or not the operation succeeded.
    pub proof fn lemma_arith(self, op: ArithOp, b: int, rhs_poisoned: bool)
        ensures
            Self::is_arith_result(self.arith(op, b, rhs_poisoned), self, op, b, rhs_poisoned),
    {
        self.val.lemma_bounds();
        if let Some(x) = checked_op::<T>(op, self.num(), b) {
            T::lemma_from_int(x);
        }
    }

    /// Shifts, bitwise operators and the complement never need checking: their
    /// result is poisoned exactly when an operand was, and it is checked
    /// whenever the operands are valid.
    pub proof fn lemma_settled(self, v: T, rhs_poisoned: bool)
        ensures
            Self::is_settled_result(self.settled(v, rhs_poisoned), self, v, rhs_poisoned),
    {
    }

    pub proof fn lemma_spec_new(v: T)
        ensures
            Self::spec_new(v).raw() == v,
            !Self::spec_new(v).poisoned(),
            !Self::spec_new(v).unchecked(),
    {
    }

    pub proof fn lemma_spec_failure()
        ensures
            Self::spec_failure().num() == 0,
            Self::spec_failure().poisoned(),
            Self::spec_failure().unchecked(),
    {
        T::from_int(0).lemma_bounds();
        T::lemma_from_int(0);
    }

    pub proof fn lemma_spec_converted<U: Integer>(other: SafeIntegral<U>)
        ensures
            fits::<T>(other.num()) ==> Self::spec_converted(other).num() == other.num(),
            !fits::<T>(other.num()) ==> Self::spec_converted(other).num() == 0,
            Self::spec_converted(other).poisoned() == (other.poisoned() || !fits::<T>(other.num())),
            Self::spec_converted(other).unchecked() == (other.unchecked() || !fits::<T>(other.num())),
    {
        Self::lemma_spec_failure();
        if fits::<T>(other.num()) {
            T::lemma_from_int(other.num());
        }
    }

    /// How the result `r` of converting `other` to the width `T` relates to
    /// it: poisoned and unchecked when `other` was or when its number does not
    /// fit, and the same number when it fits.
    pub open spec fn is_conversion_of<U: Integer>(r: Self, other: SafeIntegral<U>) -> bool {
        &&& r.poisoned() == (other.poisoned() || !fits::<T>(other.num()))
        &&& r.unchecked() == (other.unchecked() || !fits::<T>(other.num()))
        &&& fits::<T>(other.num()) ==> r.num() == other.num()
        &&& !fits::<T>(other.num()) ==> r.num() == 0
    }

    pub proof fn lemma_converted_fits<U: Integer>(v: T, other: SafeIntegral<U>)
        requires
            v.as_int() == other.num(),
        ensures
            Self::spec_converted(other) == Self::spec_with_flags(v, other),
            Self::is_conversion_of(Self::spec_converted(other), other),
    {
        v.lemma_bounds();
        Self::lemma_spec_converted(other);
    }

    pub proof fn lemma_converted_lossy<U: Integer>(other: SafeIntegral<U>)
        requires
            !fits::<T>(other.num()),
        ensures
            Self::spec_converted(other) == Self::spec_failure(),
            Self::is_conversion_of(Self::spec_converted(other), other),
    {
        Self::lemma_spec_converted(other);
    }

    /// A valid, checked value holding `val`.
    pub fn new(val: T) -> (r: Self)
        ensures
            r == Self::spec_new(val),
            r.raw() == val,
            !r.poisoned(),
            !r.unchecked(),
    {
        SafeIntegral { val, poisoned: false, unchecked: false }
    }

    /// A value of width `T` holding `val`, with the poisoned and unchecked
    /// states of `flags`, which may be of another width.
    pub fn new_with_flags_from<U: Integer>(val: T, flags: SafeIntegral<U>) -> (r: Self)
        ensures
            r == Self::spec_with_flags(val, flags),
            r.raw() == val,
            r.poisoned() == flags.poisoned(),
            r.unchecked() == flags.unchecked(),
    {
        SafeIntegral { val, poisoned: flags.poisoned, unchecked: flags.unchecked }
    }

    /// As `new_with_flags_from`, where `val` is the outcome of a conversion:
    /// when the conversion gave no value the result is a poisoned, unchecked
    /// zero whatever the states of `flags`.
    pub fn new_from_option_with_flags_from<U: Integer>(val: Option<T>, flags: SafeIntegral<U>) -> (r: Self)
        ensures
            val matches Some(v) ==> r == Self::spec_with_flags(v, flags),
            val is None ==> r == Self::spec_failure(),
            val matches Some(v) ==> r.raw() == v && r.poisoned() == flags.poisoned() && r.unchecked()
                == flags.unchecked(),
            val is None ==> r.num() == 0 && r.poisoned() && r.unchecked(),
    {
        proof {
            Self::lemma_spec_failure();
        }
        match val {
            Some(v) => SafeIntegral { val: v, poisoned: flags.poisoned, unchecked: flags.unchecked },
            None => Self::failure(),
        }
    }

    pub fn max_value() -> (r: Self)
        ensures
            r.num() == T::highest(),
            !r.poisoned(),
            !r.unchecked(),
    {
        Self::new(T::max_value())
    }

    pub fn min_value() -> (r: Self)
        ensures
            r.num() == T::lowest(),
            !r.poisoned(),
            !r.unchecked(),
    {
        Self::new(T::min_value())
    }

    pub fn magic_0() -> (r: Self)
        ensures
            r.num() == 0,
            !r.poisoned(),
            !r.unchecked(),
    {
        Self::new(T::magic_0())
    }

    pub fn magic_1() -> (r: Self)
        ensures
            r.num() == 1,
            !r.poisoned(),
            !r.unchecked(),
    {
        Self::new(T::magic_1())
    }

    pub fn magic_2() -> (r: Self)
        ensures
            r.num() == 2,
            !r.poisoned(),
            !r.unchecked(),
    {
        Self::new(T::magic_2())
    }

    pub fn magic_3() -> (r: Self)
        ensures
            r.num() == 3,
            !r.poisoned(),
            !r.unchecked(),
    {
        Self::new(T::magic_3())
    }

    /// The stored integer, to be written in place; the states are kept.
    pub fn data_as_ref(&mut self) -> (r: &mut T)
        ensures
            *r == old(self).raw(),
            final(self).raw() == *final(r),
            final(self).poisoned() == old(self).poisoned(),
            final(self).unchecked() == old(self).unchecked(),
    {
        &mut self.val
    }

    /// The stored integer, whatever the states.
    pub fn cdata_as_ref(&self) -> (r: &T)
        ensures
            *r == self.raw(),
    {
        &self.val
    }

    /// Reads the value. Reading a poisoned value, or one not checked since
    /// the arithmetic that made it, is a contract violation.
    pub fn get(&self) -> (r: T)
        requires
            self.readable(),
        ensures
            r == self.raw(),
    {
        vstd::pervasive::runtime_assert(!self.poisoned);
        vstd::pervasive::runtime_assert(!self.unchecked);
        self.val
    }

    /// The stored integer, without any contract on the states.
    pub fn get_unsafe(&self) -> (r: &T)
        ensures
            *r == self.raw(),
    {
        &self.val
    }

    /// Whether the value is greater than zero; a read, as `get` is.
    pub fn is_pos(&self) -> (r: bool)
        requires
            self.readable(),
        ensures
            r == (self.num() > 0),
    {
        vstd::pervasive::runtime_assert(!self.poisoned);
        vstd::pervasive::runtime_assert(!self.unchecked);
        T::magic_0().less_than(self.val)
    }

    /// Whether the value is zero; a read, as `get` is.
    pub fn is_zero(&self) -> (r: bool)
        requires
            self.readable(),
        ensures
            r == (self.num() == 0),
    {
        vstd::pervasive::runtime_assert(!self.poisoned);
        vstd::pervasive::runtime_assert(!self.unchecked);
        self.val.same_as(T::magic_0())
    }

    /// Whether the value is poisoned. This is the inspection that the
    /// arithmetic asks for: afterwards a valid value is checked.
    pub fn is_poisoned(&mut self) -> (r: bool)
        ensures
            r == old(self).poisoned(),
            final(self).raw() == old(self).raw(),
            final(self).poisoned() == old(self).poisoned(),
            final(self).unchecked() == old(self).poisoned(),
    {
        self.unchecked = self.poisoned;
        self.poisoned
    }

    /// Whether the value is poisoned, without counting as an inspection.
    pub fn is_invalid(&self) -> (r: bool)
        ensures
            r == self.poisoned(),
    {
        self.poisoned
    }

    /// Whether the value is not poisoned, without counting as an inspection.
    pub fn is_valid(&self) -> (r: bool)
        ensures
            r == !self.poisoned(),
    {
        !self.is_invalid()
    }

    /// Whether the value is poisoned or zero; counts as an inspection.
    pub fn is_zero_or_poisoned(&mut self) -> (r: bool)
        ensures
            r == (old(self).poisoned() || old(self).num() == 0),
            final(self).raw() == old(self).raw(),
            final(self).poisoned() == old(self).poisoned(),
            final(self).unchecked() == old(self).poisoned(),
    {
        if self.is_poisoned() {
            return true;
        }
        self.val.same_as(T::magic_0())
    }

    /// Whether the value is poisoned or zero, without counting as an inspection.
    pub fn is_zero_or_invalid(&self) -> (r: bool)
        ensures
            r == (self.poisoned() || self.num() == 0),
    {
        if self.is_invalid() {
            return true;
        }
        self.val.same_as(T::magic_0())
    }

    /// The same value, checked. Asserts that the caller knows by other means
    /// that the value is not poisoned: calling it on a poisoned value is a
    /// contract violation.
    pub fn checked(&self) -> (r: Self)
        requires
            !self.poisoned(),
        ensures
            r.raw() == self.raw(),
            !r.poisoned(),
            !r.unchecked(),
    {
        vstd::pervasive::runtime_assert(!self.poisoned);
        SafeIntegral { val: self.val, poisoned: self.poisoned, unchecked: false }
    }

    pub fn is_unchecked(&self) -> (r: bool)
        ensures
            r == self.unchecked(),
    {
        self.unchecked
    }

    pub fn is_checked(&self) -> (r: bool)
        ensures
            r == !self.unchecked(),
    {
        !self.is_unchecked()
    }

    pub fn is_valid_and_checked(&self) -> (r: bool)
        ensures
            r == self.readable(),
    {
        if self.is_invalid() {
            return false;
        }
        if self.is_unchecked() {
            return false;
        }
        true
    }

    /// A poisoned, unchecked zero.
    pub fn failure() -> (r: Self)
        ensures
            r == Self::spec_failure(),
            r.num() == 0,
            r.poisoned(),
            r.unchecked(),
    {
        proof {
            Self::lemma_spec_failure();
        }
        let zero = T::magic_0();
        proof {
            zero.lemma_bounds();
        }
        SafeIntegral { val: zero, poisoned: true, unchecked: true }
    }

    /// The greater of the two by value, or `failure()` when either is
    /// poisoned. Neither operand is read in the sense of `get`.
    pub fn max(&self, rhs: Self) -> (r: Self)
        ensures
            (self.poisoned() || rhs.poisoned()) ==> r == Self::spec_failure(),
            !(self.poisoned() || rhs.poisoned()) ==> r == (if self.num() > rhs.num() {
                *self
            } else {
                rhs
            }),
    {
        if self.is_invalid() {
            return Self::failure();
        }
        if rhs.is_invalid() {
            return Self::failure();
        }
        if rhs.val.less_than(self.val) {
            return *self;
        }
        rhs
    }

    /// The lesser of the two by value, or `failure()` when either is
    /// poisoned. Neither operand is read in the sense of `get`.
    pub fn min(&self, rhs: Self) -> (r: Self)
        ensures
            (self.poisoned() || rhs.poisoned()) ==> r == Self::spec_failure(),
            !(self.poisoned() || rhs.poisoned()) ==> r == (if self.num() < rhs.num() {
                *self
            } else {
                rhs
            }),
    {
        if self.is_invalid() {
            return Self::failure();
        }
        if rhs.is_invalid() {
            return Self::failure();
        }
        if self.val.less_than(rhs.val) {
            return *self;
        }
        rhs
    }

    /// Applies the arithmetic `op` with a right operand `b` whose poisoned
    /// state is `rhs_poisoned`.
    fn arith_assign(&mut self, op: ArithOp, b: T, rhs_poisoned: bool)
        ensures
            *final(self) == old(self).arith(op, b.as_int(), rhs_poisoned),
            Self::is_arith_result(*final(self), *old(self), op, b.as_int(), rhs_poisoned),
    {
        proof {
            self.lemma_arith(op, b.as_int(), rhs_poisoned);
            self.val.lemma_bounds();
            b.lemma_bounds();
        }
        let outcome = match op {
            ArithOp::Add => self.val.add_checked(b),
            ArithOp::Sub => self.val.sub_checked(b),
            ArithOp::Mul => self.val.mul_checked(b),
            ArithOp::Div => self.val.div_checked(b),
            ArithOp::Rem => self.val.rem_checked(b),
        };
        match outcome {
            Some(v) => {
                proof {
                    v.lemma_bounds();
                }
                self.val = v;
                self.poisoned = self.poisoned || rhs_poisoned;
                self.unchecked = true;
            },
            None => {
                self.poisoned = true;
                self.unchecked = true;
            },
        }
    }
}

impl<T: SignedInteger> SafeIntegral<T> {

    pub fn magic_neg_1() -> (r: Self)
        ensures
            r.num() == -1,
            !r.poisoned(),
            !r.unchecked(),
    {
        Self::new(T::magic_neg_1())
    }

    pub fn magic_neg_2() -> (r: Self)
        ensures
            r.num() == -2,
            !r.poisoned(),
            !r.unchecked(),
    {
        Self::new(T::magic_neg_2())
    }

    pub fn magic_neg_3() -> (r: Self)
        ensures
            r.num() == -3,
            !r.poisoned(),
            !r.unchecked(),
    {
        Self::new(T::magic_neg_3())
    }

    /// Whether the value is less than zero; a read, as `get` is.
    pub fn is_neg(&self) -> (r: bool)
        requires
            self.readable(),
        ensures
            r == (self.num() < 0),
    {
        vstd::pervasive::runtime_assert(!self.poisoned);
        vstd::pervasive::runtime_assert(!self.unchecked);
        self.val.less_than(T::magic_0())
    }
}

impl<T: UnsignedInteger> SafeIntegral<T> {
    fn settle(&mut self, v: T, rhs_poisoned: bool)
        ensures
            *final(self) == old(self).settled(v, rhs_poisoned),
            Self::is_settled_result(*final(self), *old(self), v, rhs_poisoned),
    {
        self.val = v;
        self.poisoned = self.poisoned || rhs_poisoned;
        self.unchecked = self.poisoned;
    }

    fn shifted_left(&self, k: T) -> (r: T)
        ensures
            r == shl_value(self.raw(), k.as_int()),
    {
        match k.into_u32() {
            Some(n) => self.val.shl_wrapping(n),
            None => {
                let zero = T::magic_0();
                proof {
                    zero.lemma_bounds();
                    k.lemma_bounds();
                    T::lemma_unsigned();
                }
                zero
            },
        }
    }

    fn shifted_right(&self, k: T) -> (r: T)
        ensures
            r == shr_value(self.raw(), k.as_int()),
    {
        match k.into_u32() {
            Some(n) => self.val.shr_wrapping(n),
            None => {
                let zero = T::magic_0();
                proof {
                    zero.lemma_bounds();
                    k.lemma_bounds();
                    T::lemma_unsigned();
                }
                zero
            },
        }
    }
}

/// A valid, checked value holding `val`.
pub fn make_safe<T: Integer>(val: T) -> (r: SafeIntegral<T>)
    ensures
        r.raw() == val,
        !r.poisoned(),
        !r.unchecked(),
{
    SafeIntegral::<T>::new(val)
}

impl<T: Integer> Default for SafeIntegral<T> {
    fn default() -> (r: Self)
        ensures
            r.num() == 0,
            !r.poisoned(),
            !r.unchecked(),
    {
        Self::magic_0()
    }
}

impl<T: Integer> PartialEq for SafeIntegral<T> {
    /// Equal when both can be read and hold the same number; a value that
    /// cannot be read equals nothing.
    fn eq(&self, rhs: &Self) -> (r: bool) {
        !self.poisoned && !self.unchecked && !rhs.poisoned && !rhs.unchecked && self.val.same_as(rhs.val)
    }
}

impl<T: Integer> vstd::std_specs::cmp::PartialEqSpecImpl for SafeIntegral<T> {
    open spec fn obeys_eq_spec() -> bool {
        true
    }

    open spec fn eq_spec(&self, rhs: &Self) -> bool {
        self.readable() && rhs.readable() && self.num() == rhs.num()
    }
}

impl<T: Integer> PartialEq<T> for SafeIntegral<T> {
    fn eq(&self, rhs: &T) -> (r: bool) {
        !self.poisoned && !self.unchecked && self.val.same_as(*rhs)
    }
}

impl<T: Integer> vstd::std_specs::cmp::PartialEqSpecImpl<T> for SafeIntegral<T> {
    open spec fn obeys_eq_spec() -> bool {
        true
    }

    open spec fn eq_spec(&self, rhs: &T) -> bool {
        self.readable() && self.num() == rhs.as_int()
    }
}

impl<T: Integer> PartialOrd for SafeIntegral<T> {
    /// The order of the numbers when both can be read; `None` otherwise.
    fn partial_cmp(&self, rhs: &Self) -> (r: Option<Ordering>) {
        if self.poisoned || self.unchecked || rhs.poisoned || rhs.unchecked {
            None
        } else if self.val.less_than(rhs.val) {
            Some(Ordering::Less)
        } else if rhs.val.less_than(self.val) {
            Some(Ordering::Greater)
        } else {
            Some(Ordering::Equal)
        }
    }
}

impl<T: Integer> vstd::std_specs::cmp::PartialOrdSpecImpl for SafeIntegral<T> {
    open spec fn obeys_partial_cmp_spec() -> bool {
        true
    }

    open spec fn partial_cmp_spec(&self, rhs: &Self) -> Option<Ordering> {
        if self.readable() && rhs.readable() {
            Some(order_of(self.num(), rhs.num()))
        } else {
            None
        }
    }
}

impl<T: Integer> PartialOrd<T> for SafeIntegral<T> {
    fn partial_cmp(&self, rhs: &T) -> (r: Option<Ordering>) {
        if self.poisoned || self.unchecked {
            None
        } else if self.val.less_than(*rhs) {
            Some(Ordering::Less)
        } else if rhs.less_than(self.val) {
            Some(Ordering::Greater)
        } else {
            Some(Ordering::Equal)
        }
    }
}

impl<T: Integer> vstd::std_specs::cmp::PartialOrdSpecImpl<T> for SafeIntegral<T> {
    open spec fn obeys_partial_cmp_spec() -> bool {
        true
    }

    open spec fn partial_cmp_spec(&self, rhs: &T) -> Option<Ordering> {
        if self.readable() {
            Some(order_of(self.num(), rhs.as_int()))
        } else {
            None
        }
    }
}

impl<T: Integer> core::ops::AddAssign for SafeIntegral<T> {
    fn add_assign(&mut self, rhs: Self)
        ensures
            *final(self) == old(self).arith(ArithOp::Add, rhs.num(), rhs.poisoned()),
            Self::is_arith_result(*final(self), *old(self), ArithOp::Add, rhs.num(), rhs.poisoned()),
    {
        self.arith_assign(ArithOp::Add, rhs.val, rhs.poisoned);
    }
}

impl<T: Integer> vstd::std_specs::ops::AddSpecImpl for SafeIntegral<T> {
    open spec fn obeys_add_spec() -> bool {
        true
    }

    open spec fn add_req(self, rhs: Self) -> bool {
        true
    }

    open spec fn add_spec(self, rhs: Self) -> Self {
        self.arith(ArithOp::Add, rhs.num(), rhs.poisoned())
    }
}

impl<T: Integer> core::ops::Add for SafeIntegral<T> {
    type Output = Self;

    fn add(self, rhs: Self) -> (r: Self)
        ensures
            Self::is_arith_result(r, self, ArithOp::Add, rhs.num(), rhs.poisoned()),
    {
        let mut ret = self;
        ret.add_assign(rhs);
        ret
    }
}

impl<T: Integer> core::ops::AddAssign<T> for SafeIntegral<T> {
    fn add_assign(&mut self, rhs: T)
        ensures
            *final(self) == old(self).arith(ArithOp::Add, rhs.as_int(), false),
            Self::is_arith_result(*final(self), *old(self), ArithOp::Add, rhs.as_int(), false),
    {
        self.arith_assign(ArithOp::Add, rhs, false);
    }
}

impl<T: Integer> vstd::std_specs::ops::AddSpecImpl<T> for SafeIntegral<T> {
    open spec fn obeys_add_spec() -> bool {
        true
    }

    open spec fn add_req(self, rhs: T) -> bool {
        true
    }

    open spec fn add_spec(self, rhs: T) -> Self {
        self.arith(ArithOp::Add, rhs.as_int(), false)
    }
}

impl<T: Integer> core::ops::Add<T> for SafeIntegral<T> {
    type Output = Self;

    fn add(self, rhs: T) -> (r: Self)
        ensures
            Self::is_arith_result(r, self, ArithOp::Add, rhs.as_int(), false),
    {
        let mut ret = self;
        ret.add_assign(rhs);
        ret
    }
}

impl<T: Integer> core::ops::SubAssign for SafeIntegral<T> {
    fn sub_assign(&mut self, rhs: Self)
        ensures
            *final(self) == old(self).arith(ArithOp::Sub, rhs.num(), rhs.poisoned()),
            Self::is_arith_result(*final(self), *old(self), ArithOp::Sub, rhs.num(), rhs.poisoned()),
    {
        self.arith_assign(ArithOp::Sub, rhs.val, rhs.poisoned);
    }
}

impl<T: Integer> vstd::std_specs::ops::SubSpecImpl for SafeIntegral<T> {
    open spec fn obeys_sub_spec() -> bool {
        true
    }

    open spec fn sub_req(self, rhs: Self) -> bool {
        true
    }

    open spec fn sub_spec(self, rhs: Self) -> Self {
        self.arith(ArithOp::Sub, rhs.num(), rhs.poisoned())
    }
}

impl<T: Integer> core::ops::Sub for SafeIntegral<T> {
    type Output = Self;

    fn sub(self, rhs: Self) -> (r: Self)
        ensures
            Self::is_arith_result(r, self, ArithOp::Sub, rhs.num(), rhs.poisoned()),
    {
        let mut ret = self;
        ret.sub_assign(rhs);
        ret
    }
}

impl<T: Integer> core::ops::SubAssign<T> for SafeIntegral<T> {
    fn sub_assign(&mut self, rhs: T)
        ensures
            *final(self) == old(self).arith(ArithOp::Sub, rhs.as_int(), false),
            Self::is_arith_result(*final(self), *old(self), ArithOp::Sub, rhs.as_int(), false),
    {
        self.arith_assign(ArithOp::Sub, rhs, false);
    }
}

impl<T: Integer> vstd::std_specs::ops::SubSpecImpl<T> for SafeIntegral<T> {
    open spec fn obeys_sub_spec() -> bool {
        true
    }

    open spec fn sub_req(self, rhs: T) -> bool {
        true
    }

    open spec fn sub_spec(self, rhs: T) -> Self {
        self.arith(ArithOp::Sub, rhs.as_int(), false)
    }
}

impl<T: Integer> core::ops::Sub<T> for SafeIntegral<T> {
    type Output = Self;

    fn sub(self, rhs: T) -> (r: Self)
        ensures
            Self::is_arith_result(r, self, ArithOp::Sub, rhs.as_int(), false),
    {
        let mut ret = self;
        ret.sub_assign(rhs);
        ret
    }
}

impl<T: Integer> core::ops::MulAssign for SafeIntegral<T> {
    fn mul_assign(&mut self, rhs: Self)
        ensures
            *final(self) == old(self).arith(ArithOp::Mul, rhs.num(), rhs.poisoned()),
            Self::is_arith_result(*final(self), *old(self), ArithOp::Mul, rhs.num(), rhs.poisoned()),
    {
        self.arith_assign(ArithOp::Mul, rhs.val, rhs.poisoned);
    }
}

impl<T: Integer> vstd::std_specs::ops::MulSpecImpl for SafeIntegral<T> {
    open spec fn obeys_mul_spec() -> bool {
        true
    }

    open spec fn mul_req(self, rhs: Self) -> bool {
        true
    }

    open spec fn mul_spec(self, rhs: Self) -> Self {
        self.arith(ArithOp::Mul, rhs.num(), rhs.poisoned())
    }
}

impl<T: Integer> core::ops::Mul for SafeIntegral<T> {
    type Output = Self;

    fn mul(self, rhs: Self) -> (r: Self)
        ensures
            Self::is_arith_result(r, self, ArithOp::Mul, rhs.num(), rhs.poisoned()),
    {
        let mut ret = self;
        ret.mul_assign(rhs);
        ret
    }
}

impl<T: Integer> core::ops::MulAssign<T> for SafeIntegral<T> {
    fn mul_assign(&mut self, rhs: T)
        ensures
            *final(self) == old(self).arith(ArithOp::Mul, rhs.as_int(), false),
            Self::is_arith_result(*final(self), *old(self), ArithOp::Mul, rhs.as_int(), false),
    {
        self.arith_assign(ArithOp::Mul, rhs, false);
    }
}

impl<T: Integer> vstd::std_specs::ops::MulSpecImpl<T> for SafeIntegral<T> {
    open spec fn obeys_mul_spec() -> bool {
        true
    }

    open spec fn mul_req(self, rhs: T) -> bool {
        true
    }

    open spec fn mul_spec(self, rhs: T) -> Self {
        self.arith(ArithOp::Mul, rhs.as_int(), false)
    }
}

impl<T: Integer> core::ops::Mul<T> for SafeIntegral<T> {
    type Output = Self;

    fn mul(self, rhs: T) -> (r: Self)
        ensures
            Self::is_arith_result(r, self, ArithOp::Mul, rhs.as_int(), false),
    {
        let mut ret = self;
        ret.mul_assign(rhs);
        ret
    }
}

impl<T: Integer> core::ops::DivAssign for SafeIntegral<T> {
    fn div_assign(&mut self, rhs: Self)
        ensures
            *final(self) == old(self).arith(ArithOp::Div, rhs.num(), rhs.poisoned()),
            Self::is_arith_result(*final(self), *old(self), ArithOp::Div, rhs.num(), rhs.poisoned()),
    {
        self.arith_assign(ArithOp::Div, rhs.val, rhs.poisoned);
    }
}

impl<T: Integer> vstd::std_specs::ops::DivSpecImpl for SafeIntegral<T> {
    open spec fn obeys_div_spec() -> bool {
        true
    }

    open spec fn div_req(self, rhs: Self) -> bool {
        true
    }

    open spec fn div_spec(self, rhs: Self) -> Self {
        self.arith(ArithOp::Div, rhs.num(), rhs.poisoned())
    }
}

impl<T: Integer> core::ops::Div for SafeIntegral<T> {
    type Output = Self;

    fn div(self, rhs: Self) -> (r: Self)
        ensures
            Self::is_arith_result(r, self, ArithOp::Div, rhs.num(), rhs.poisoned()),
    {
        let mut ret = self;
        ret.div_assign(rhs);
        ret
    }
}

impl<T: Integer> core::ops::DivAssign<T> for SafeIntegral<T> {
    fn div_assign(&mut self, rhs: T)
        ensures
            *final(self) == old(self).arith(ArithOp::Div, rhs.as_int(), false),
            Self::is_arith_result(*final(self), *old(self), ArithOp::Div, rhs.as_int(), false),
    {
        self.arith_assign(ArithOp::Div, rhs, false);
    }
}

impl<T: Integer> vstd::std_specs::ops::DivSpecImpl<T> for SafeIntegral<T> {
    open spec fn obeys_div_spec() -> bool {
        true
    }

    open spec fn div_req(self, rhs: T) -> bool {
        true
    }

    open spec fn div_spec(self, rhs: T) -> Self {
        self.arith(ArithOp::Div, rhs.as_int(), false)
    }
}

impl<T: Integer> core::ops::Div<T> for SafeIntegral<T> {
    type Output = Self;

    fn div(self, rhs: T) -> (r: Self)
        ensures
            Self::is_arith_result(r, self, ArithOp::Div, rhs.as_int(), false),
    {
        let mut ret = self;
        ret.div_assign(rhs);
        ret
    }
}

impl<T: Integer> core::ops::RemAssign for SafeIntegral<T> {
    fn rem_assign(&mut self, rhs: Self)
        ensures
            *final(self) == old(self).arith(ArithOp::Rem, rhs.num(), rhs.poisoned()),
            Self::is_arith_result(*final(self), *old(self), ArithOp::Rem, rhs.num(), rhs.poisoned()),
    {
        self.arith_assign(ArithOp::Rem, rhs.val, rhs.poisoned);
    }
}

impl<T: Integer> vstd::std_specs::ops::RemSpecImpl for SafeIntegral<T> {
    open spec fn obeys_rem_spec() -> bool {
        true
    }

    open spec fn rem_req(self, rhs: Self) -> bool {
        true
    }

    open spec fn rem_spec(self, rhs: Self) -> Self {
        self.arith(ArithOp::Rem, rhs.num(), rhs.poisoned())
    }
}

impl<T: Integer> core::ops::Rem for SafeIntegral<T> {
    type Output = Self;

    fn rem(self, rhs: Self) -> (r: Self)
        ensures
            Self::is_arith_result(r, self, ArithOp::Rem, rhs.num(), rhs.poisoned()),
    {
        let mut ret = self;
        ret.rem_assign(rhs);
        ret
    }
}

impl<T: Integer> core::ops::RemAssign<T> for SafeIntegral<T> {
    fn rem_assign(&mut self, rhs: T)
        ensures
            *final(self) == old(self).arith(ArithOp::Rem, rhs.as_int(), false),
            Self::is_arith_result(*final(self), *old(self), ArithOp::Rem, rhs.as_int(), false),
    {
        self.arith_assign(ArithOp::Rem, rhs, false);
    }
}

impl<T: Integer> vstd::std_specs::ops::RemSpecImpl<T> for SafeIntegral<T> {
    open spec fn obeys_rem_spec() -> bool {
        true
    }

    open spec fn rem_req(self, rhs: T) -> bool {
        true
    }

    open spec fn rem_spec(self, rhs: T) -> Self {
        self.arith(ArithOp::Rem, rhs.as_int(), false)
    }
}

impl<T: Integer> core::ops::Rem<T> for SafeIntegral<T> {
    type Output = Self;

    fn rem(self, rhs: T) -> (r: Self)
        ensures
            Self::is_arith_result(r, self, ArithOp::Rem, rhs.as_int(), false),
    {
        let mut ret = self;
        ret.rem_assign(rhs);
        ret
    }
}

impl<T: UnsignedInteger> core::ops::ShlAssign for SafeIntegral<T> {
    fn shl_assign(&mut self, rhs: Self)
        ensures
            *final(self) == old(self).settled(shl_value(old(self).raw(), rhs.num()), rhs.poisoned()),
            Self::is_settled_result(*final(self), *old(self), shl_value(old(self).raw(), rhs.num()), rhs.poisoned()),
    {
        let v = self.shifted_left(rhs.val);
        self.settle(v, rhs.poisoned);
    }
}

impl<T: UnsignedInteger> vstd::std_specs::ops::ShlSpecImpl for SafeIntegral<T> {
    open spec fn obeys_shl_spec() -> bool {
        true
    }

    open spec fn shl_req(self, rhs: Self) -> bool {
        true
    }

    open spec fn shl_spec(self, rhs: Self) -> Self {
        self.settled(shl_value(self.raw(), rhs.num()), rhs.poisoned())
    }
}

impl<T: UnsignedInteger> core::ops::Shl for SafeIntegral<T> {
    type Output = Self;

    fn shl(self, rhs: Self) -> (r: Self)
        ensures
            Self::is_settled_result(r, self, shl_value(self.raw(), rhs.num()), rhs.poisoned()),
    {
        let mut ret = self;
        ret.shl_assign(rhs);
        ret
    }
}

impl<T: UnsignedInteger> core::ops::ShlAssign<T> for SafeIntegral<T> {
    fn shl_assign(&mut self, rhs: T)
        ensures
            *final(self) == old(self).settled(shl_value(old(self).raw(), rhs.as_int()), false),
            Self::is_settled_result(*final(self), *old(self), shl_value(old(self).raw(), rhs.as_int()), false),
    {
        let v = self.shifted_left(rhs);
        self.settle(v, false);
    }
}

impl<T: UnsignedInteger> vstd::std_specs::ops::ShlSpecImpl<T> for SafeIntegral<T> {
    open spec fn obeys_shl_spec() -> bool {
        true
    }

    open spec fn shl_req(self, rhs: T) -> bool {
        true
    }

    open spec fn shl_spec(self, rhs: T) -> Self {
        self.settled(shl_value(self.raw(), rhs.as_int()), false)
    }
}

impl<T: UnsignedInteger> core::ops::Shl<T> for SafeIntegral<T> {
    type Output = Self;

    fn shl(self, rhs: T) -> (r: Self)
        ensures
            Self::is_settled_result(r, self, shl_value(self.raw(), rhs.as_int()), false),
    {
        let mut ret = self;
        ret.shl_assign(rhs);
        ret
    }
}

impl<T: UnsignedInteger> core::ops::ShrAssign for SafeIntegral<T> {
    fn shr_assign(&mut self, rhs: Self)
        ensures
            *final(self) == old(self).settled(shr_value(old(self).raw(), rhs.num()), rhs.poisoned()),
            Self::is_settled_result(*final(self), *old(self), shr_value(old(self).raw(), rhs.num()), rhs.poisoned()),
    {
        let v = self.shifted_right(rhs.val);
        self.settle(v, rhs.poisoned);
    }
}

impl<T: UnsignedInteger> vstd::std_specs::ops::ShrSpecImpl for SafeIntegral<T> {
    open spec fn obeys_shr_spec() -> bool {
        true
    }

    open spec fn shr_req(self, rhs: Self) -> bool {
        true
    }

    open spec fn shr_spec(self, rhs: Self) -> Self {
        self.settled(shr_value(self.raw(), rhs.num()), rhs.poisoned())
    }
}

impl<T: UnsignedInteger> core::ops::Shr for SafeIntegral<T> {
    type Output = Self;

    fn shr(self, rhs: Self) -> (r: Self)
        ensures
            Self::is_settled_result(r, self, shr_value(self.raw(), rhs.num()), rhs.poisoned()),
    {
        let mut ret = self;
        ret.shr_assign(rhs);
        ret
    }
}

impl<T: UnsignedInteger> core::ops::ShrAssign<T> for SafeIntegral<T> {
    fn shr_assign(&mut self, rhs: T)
        ensures
            *final(self) == old(self).settled(shr_value(old(self).raw(), rhs.as_int()), false),
            Self::is_settled_result(*final(self), *old(self), shr_value(old(self).raw(), rhs.as_int()), false),
    {
        let v = self.shifted_right(rhs);
        self.settle(v, false);
    }
}

impl<T: UnsignedInteger> vstd::std_specs::ops::ShrSpecImpl<T> for SafeIntegral<T> {
    open spec fn obeys_shr_spec() -> bool {
        true
    }

    open spec fn shr_req(self, rhs: T) -> bool {
        true
    }

    open spec fn shr_spec(self, rhs: T) -> Self {
        self.settled(shr_value(self.raw(), rhs.as_int()), false)
    }
}

impl<T: UnsignedInteger> core::ops::Shr<T> for SafeIntegral<T> {
    type Output = Self;

    fn shr(self, rhs: T) -> (r: Self)
        ensures
            Self::is_settled_result(r, self, shr_value(self.raw(), rhs.as_int()), false),
    {
        let mut ret = self;
        ret.shr_assign(rhs);
        ret
    }
}

impl<T: UnsignedInteger> core::ops::BitAndAssign for SafeIntegral<T> {
    fn bitand_assign(&mut self, rhs: Self)
        ensures
            *final(self) == old(self).settled(old(self).raw().and_spec(rhs.raw()), rhs.poisoned()),
            Self::is_settled_result(*final(self), *old(self), old(self).raw().and_spec(rhs.raw()), rhs.poisoned()),
    {
        let v = self.val.bit_and(rhs.val);
        self.settle(v, rhs.poisoned);
    }
}

impl<T: UnsignedInteger> vstd::std_specs::ops::BitAndSpecImpl for SafeIntegral<T> {
    open spec fn obeys_bitand_spec() -> bool {
        true
    }

    open spec fn bitand_req(self, rhs: Self) -> bool {
        true
    }

    open spec fn bitand_spec(self, rhs: Self) -> Self {
        self.settled(self.raw().and_spec(rhs.raw()), rhs.poisoned())
    }
}

impl<T: UnsignedInteger> core::ops::BitAnd for SafeIntegral<T> {
    type Output = Self;

    fn bitand(self, rhs: Self) -> (r: Self)
        ensures
            Self::is_settled_result(r, self, self.raw().and_spec(rhs.raw()), rhs.poisoned()),
    {
        let mut ret = self;
        ret.bitand_assign(rhs);
        ret
    }
}

impl<T: UnsignedInteger> core::ops::BitAndAssign<T> for SafeIntegral<T> {
    fn bitand_assign(&mut self, rhs: T)
        ensures
            *final(self) == old(self).settled(old(self).raw().and_spec(rhs), false),
            Self::is_settled_result(*final(self), *old(self), old(self).raw().and_spec(rhs), false),
    {
        let v = self.val.bit_and(rhs);
        self.settle(v, false);
    }
}

impl<T: UnsignedInteger> vstd::std_specs::ops::BitAndSpecImpl<T> for SafeIntegral<T> {
    open spec fn obeys_bitand_spec() -> bool {
        true
    }

    open spec fn bitand_req(self, rhs: T) -> bool {
        true
    }

    open spec fn bitand_spec(self, rhs: T) -> Self {
        self.settled(self.raw().and_spec(rhs), false)
    }
}

impl<T: UnsignedInteger> core::ops::BitAnd<T> for SafeIntegral<T> {
    type Output = Self;

    fn bitand(self, rhs: T) -> (r: Self)
        ensures
            Self::is_settled_result(r, self, self.raw().and_spec(rhs), false),
    {
        let mut ret = self;
        ret.bitand_assign(rhs);
        ret
    }
}

impl<T: UnsignedInteger> core::ops::BitOrAssign for SafeIntegral<T> {
    fn bitor_assign(&mut self, rhs: Self)
        ensures
            *final(self) == old(self).settled(old(self).raw().or_spec(rhs.raw()), rhs.poisoned()),
            Self::is_settled_result(*final(self), *old(self), old(self).raw().or_spec(rhs.raw()), rhs.poisoned()),
    {
        let v = self.val.bit_or(rhs.val);
        self.settle(v, rhs.poisoned);
    }
}

impl<T: UnsignedInteger> vstd::std_specs::ops::BitOrSpecImpl for SafeIntegral<T> {
    open spec fn obeys_bitor_spec() -> bool {
        true
    }

    open spec fn bitor_req(self, rhs: Self) -> bool {
        true
    }

    open spec fn bitor_spec(self, rhs: Self) -> Self {
        self.settled(self.raw().or_spec(rhs.raw()), rhs.poisoned())
    }
}

impl<T: UnsignedInteger> core::ops::BitOr for SafeIntegral<T> {
    type Output = Self;

    fn bitor(self, rhs: Self) -> (r: Self)
        ensures
            Self::is_settled_result(r, self, self.raw().or_spec(rhs.raw()), rhs.poisoned()),
    {
        let mut ret = self;
        ret.bitor_assign(rhs);
        ret
    }
}

impl<T: UnsignedInteger> core::ops::BitOrAssign<T> for SafeIntegral<T> {
    fn bitor_assign(&mut self, rhs: T)
        ensures
            *final(self) == old(self).settled(old(self).raw().or_spec(rhs), false),
            Self::is_settled_result(*final(self), *old(self), old(self).raw().or_spec(rhs), false),
    {
        let v = self.val.bit_or(rhs);
        self.settle(v, false);
    }
}

impl<T: UnsignedInteger> vstd::std_specs::ops::BitOrSpecImpl<T> for SafeIntegral<T> {
    open spec fn obeys_bitor_spec() -> bool {
        true
    }

    open spec fn bitor_req(self, rhs: T) -> bool {
        true
    }

    open spec fn bitor_spec(self, rhs: T) -> Self {
        self.settled(self.raw().or_spec(rhs), false)
    }
}

impl<T: UnsignedInteger> core::ops::BitOr<T> for SafeIntegral<T> {
    type Output = Self;

    fn bitor(self, rhs: T) -> (r: Self)
        ensures
            Self::is_settled_result(r, self, self.raw().or_spec(rhs), false),
    {
        let mut ret = self;
        ret.bitor_assign(rhs);
        ret
    }
}

impl<T: UnsignedInteger> core::ops::BitXorAssign for SafeIntegral<T> {
    fn bitxor_assign(&mut self, rhs: Self)
        ensures
            *final(self) == old(self).settled(old(self).raw().xor_spec(rhs.raw()), rhs.poisoned()),
            Self::is_settled_result(*final(self), *old(self), old(self).raw().xor_spec(rhs.raw()), rhs.poisoned()),
    {
        let v = self.val.bit_xor(rhs.val);
        self.settle(v, rhs.poisoned);
    }
}

impl<T: UnsignedInteger> vstd::std_specs::ops::BitXorSpecImpl for SafeIntegral<T> {
    open spec fn obeys_bitxor_spec() -> bool {
        true
    }

    open spec fn bitxor_req(self, rhs: Self) -> bool {
        true
    }

    open spec fn bitxor_spec(self, rhs: Self) -> Self {
        self.settled(self.raw().xor_spec(rhs.raw()), rhs.poisoned())
    }
}

impl<T: UnsignedInteger> core::ops::BitXor for SafeIntegral<T> {
    type Output = Self;

    fn bitxor(self, rhs: Self) -> (r: Self)
        ensures
            Self::is_settled_result(r, self, self.raw().xor_spec(rhs.raw()), rhs.poisoned()),
    {
        let mut ret = self;
        ret.bitxor_assign(rhs);
        ret
    }
}

impl<T: UnsignedInteger> core::ops::BitXorAssign<T> for SafeIntegral<T> {
    fn bitxor_assign(&mut self, rhs: T)
        ensures
            *final(self) == old(self).settled(old(self).raw().xor_spec(rhs), false),
            Self::is_settled_result(*final(self), *old(self), old(self).raw().xor_spec(rhs), false),
    {
        let v = self.val.bit_xor(rhs);
        self.settle(v, false);
    }
}

impl<T: UnsignedInteger> vstd::std_specs::ops::BitXorSpecImpl<T> for SafeIntegral<T> {
    open spec fn obeys_bitxor_spec() -> bool {
        true
    }

    open spec fn bitxor_req(self, rhs: T) -> bool {
        true
    }

    open spec fn bitxor_spec(self, rhs: T) -> Self {
        self.settled(self.raw().xor_spec(rhs), false)
    }
}

impl<T: UnsignedInteger> core::ops::BitXor<T> for SafeIntegral<T> {
    type Output = Self;

    fn bitxor(self, rhs: T) -> (r: Self)
        ensures
            Self::is_settled_result(r, self, self.raw().xor_spec(rhs), false),
    {
        let mut ret = self;
        ret.bitxor_assign(rhs);
        ret
    }
}

impl<T: UnsignedInteger> vstd::std_specs::ops::NotSpecImpl for SafeIntegral<T> {
    open spec fn obeys_not_spec() -> bool {
        true
    }

    open spec fn not_req(self) -> bool {
        true
    }

    open spec fn not_spec(self) -> Self {
        self.settled(self.raw().not_spec(), false)
    }
}

impl<T: UnsignedInteger> core::ops::Not for SafeIntegral<T> {
    type Output = Self;

    fn not(self) -> (r: Self)
        ensures
            Self::is_settled_result(r, self, self.raw().not_spec(), false),
    {
        let mut ret = self;
        let v = ret.val.bit_not();
        ret.settle(v, false);
        ret
    }
}

impl<T: SignedInteger> SafeIntegral<T> {
    /// The result of negating `self`: poisoned when `self` was or when the
    /// negation leaves the range, and checked exactly when valid.
    pub closed spec fn negated(self) -> Self {
        if fits::<T>(-self.num()) {
            SafeIntegral { val: T::from_int(-self.num()), poisoned: self.poisoned, unchecked: self.poisoned }
        } else {
            SafeIntegral { val: self.val, poisoned: true, unchecked: true }
        }
    }

    pub proof fn lemma_negated(self)
        ensures
            self.negated().poisoned() == (self.poisoned() || !fits::<T>(-self.num())),
            self.negated().unchecked() == self.negated().poisoned(),
            fits::<T>(-self.num()) ==> self.negated().num() == -self.num(),
            !fits::<T>(-self.num()) ==> self.negated().raw() == self.raw(),
    {
        if fits::<T>(-self.num()) {
            T::lemma_from_int(-self.num());
        }
    }
}

impl<T: SignedInteger> vstd::std_specs::ops::NegSpecImpl for SafeIntegral<T> {
    open spec fn obeys_neg_spec() -> bool {
        true
    }

    open spec fn neg_req(self) -> bool {
        true
    }

    open spec fn neg_spec(self) -> Self {
        self.negated()
    }
}

impl<T: SignedInteger> core::ops::Neg for SafeIntegral<T> {
    type Output = Self;

    fn neg(self) -> (r: Self)
        ensures
            r.poisoned() == (self.poisoned() || !fits::<T>(-self.num())),
            r.unchecked() == r.poisoned(),
            fits::<T>(-self.num()) ==> r.num() == -self.num(),
            !fits::<T>(-self.num()) ==> r.raw() == self.raw(),
    {
        proof {
            self.lemma_negated();
            self.val.lemma_bounds();
        }
        let mut ret = self;
        match self.val.neg_checked() {
            Some(v) => {
                proof {
                    v.lemma_bounds();
                }
                ret.val = v;
                ret.unchecked = ret.poisoned;
            },
            None => {
                ret.poisoned = true;
                ret.unchecked = true;
            },
        }
        ret
    }
}

/// Poison is permanent: every value computed from a poisoned value by
/// arithmetic, a shift, a bitwise operator or a conversion is poisoned too.
pub proof fn lemma_poison_is_permanent<T: Integer, U: Integer>(
    a: SafeIntegral<T>,
    op: ArithOp,
    b: int,
    rhs_poisoned: bool,
    v: T,
)
    requires
        a.poisoned(),
    ensures
        a.arith(op, b, rhs_poisoned).poisoned(),
        a.settled(v, rhs_poisoned).poisoned(),
        SafeIntegral::<U>::spec_converted(a).poisoned(),
{
    a.lemma_arith(op, b, rhs_poisoned);
    SafeIntegral::<U>::lemma_spec_converted(a);
}

/// A value made by arithmetic cannot be read until it is checked, even when
/// it is valid: `get` asks for a readable value, and the result of `op` is
/// unchecked; `is_poisoned` on a valid result, or `checked`, makes it
/// readable.
pub proof fn lemma_arithmetic_result_must_be_checked<T: Integer>(
    a: SafeIntegral<T>,
    op: ArithOp,
    b: int,
    rhs_poisoned: bool,
)
    ensures
        !a.arith(op, b, rhs_poisoned).readable(),
{
    a.lemma_arith(op, b, rhs_poisoned);
}

/// Negation keeps poison too.
pub proof fn lemma_negation_keeps_poison<T: SignedInteger>(a: SafeIntegral<T>)
    requires
        a.poisoned(),
    ensures
        a.negated().poisoned(),
{
    a.lemma_negated();
}

pub type SafeI8 = SafeIntegral<i8>;

pub type SafeI16 = SafeIntegral<i16>;

pub type SafeI32 = SafeIntegral<i32>;

pub type SafeI64 = SafeIntegral<i64>;

pub type SafeU8 = SafeIntegral<u8>;

pub type SafeU16 = SafeIntegral<u16>;

pub type SafeU32 = SafeIntegral<u32>;

pub type SafeU64 = SafeIntegral<u64>;

pub type SafeUMx = SafeIntegral<usize>;

} // verus!
