//! `SafeIdx`: a pointer-width index whose arithmetic poisons on overflow and
//! never asks to be checked.
use crate::integer::checked_op;
use crate::integer::ArithOp;
use crate::integer::Integer;
use crate::safe_integral::order_of;
use crate::safe_integral::SafeUMx;
use core::cmp::Ordering;
use core::ops::AddAssign;
use core::ops::SubAssign;
use vstd::prelude::*;

verus! {

/// A non-negative index into the pointer-width address space. Its add and
/// subtract poison on overflow and underflow; reading a poisoned index is a
/// contract violation.
#[derive(Clone, Copy, Debug)]
pub struct SafeIdx {
    val: usize,
    poisoned: bool,
}

impl SafeIdx {
    /// The stored index; it means nothing once the index is poisoned.
    pub closed spec fn raw(self) -> usize {
        self.val
    }

    pub closed spec fn poisoned(self) -> bool {
        self.poisoned
    }

    /// The result of the add or subtract `op` on `self` and a right operand
    /// whose number is `b` and whose poisoned state is `rhs_poisoned`.
    pub closed spec fn arith(self, op: ArithOp, b: int, rhs_poisoned: bool) -> Self {
        match checked_op::<usize>(op, self.val as int, b) {
            Some(x) => SafeIdx { val: x as usize, poisoned: self.poisoned || rhs_poisoned },
            None => SafeIdx { val: self.val, poisoned: true },
        }
    }

    /// How the result `r` of the add or subtract `op` relates to its operands.
    pub open spec fn is_arith_result(r: Self, a: Self, op: ArithOp, b: int, rhs_poisoned: bool) -> bool {
        &&& r.poisoned() == (a.poisoned() || rhs_poisoned || checked_op::<usize>(op, a.raw() as int, b) is None)
        &&& checked_op::<usize>(op, a.raw() as int, b) matches Some(x) ==> r.raw() == x
        &&& checked_op::<usize>(op, a.raw() as int, b) is None ==> r.raw() == a.raw()
    }

    /// A valid index holding `val`.
    pub fn new(val: usize) -> (r: Self)
        ensures
            r.raw() == val,
            !r.poisoned(),
    {
        SafeIdx { val, poisoned: false }
    }

    /// The index that a valid `SafeUMx` holds. Building an index from a
    /// poisoned value is a contract violation: an index is never poisoned
    /// from the start.
    pub fn new_from(val: SafeUMx) -> (r: Self)
        requires
            !val.poisoned(),
        ensures
            r.raw() == val.raw(),
            !r.poisoned(),
    {
        vstd::pervasive::runtime_assert(!val.is_invalid());
        SafeIdx { val: *val.cdata_as_ref(), poisoned: val.is_invalid() }
    }

    pub fn max_value() -> (r: Self)
        ensures
            r.raw() == usize::MAX,
            !r.poisoned(),
    {
        Self::new(usize::MAX)
    }

    pub fn min_value() -> (r: Self)
        ensures
            r.raw() == 0,
            !r.poisoned(),
    {
        Self::new(0)
    }

    pub fn magic_0() -> (r: Self)
        ensures
            r.raw() == 0,
            !r.poisoned(),
    {
        Self::new(0)
    }

    pub fn magic_1() -> (r: Self)
        ensures
            r.raw() == 1,
            !r.poisoned(),
    {
        Self::new(1)
    }

    pub fn magic_2() -> (r: Self)
        ensures
            r.raw() == 2,
            !r.poisoned(),
    {
        Self::new(2)
    }

    pub fn magic_3() -> (r: Self)
        ensures
            r.raw() == 3,
            !r.poisoned(),
    {
        Self::new(3)
    }

    /// The stored index, to be written in place; the poisoned state is kept.
    pub fn data_as_ref(&mut self) -> (r: &mut usize)
        ensures
            *r == old(self).raw(),
            final(self).raw() == *final(r),
            final(self).poisoned() == old(self).poisoned(),
    {
        &mut self.val
    }

    /// The stored index, whatever the poisoned state.
    pub fn cdata_as_ref(&self) -> (r: &usize)
        ensures
            *r == self.raw(),
    {
        &self.val
    }

    /// Reads the index; reading a poisoned index is a contract violation.
    pub fn get(&self) -> (r: usize)
        requires
            !self.poisoned(),
        ensures
            r == self.raw(),
    {
        vstd::pervasive::runtime_assert(!self.poisoned);
        self.val
    }

    /// Whether the index is greater than zero; a read, as `get` is.
    pub fn is_pos(&self) -> (r: bool)
        requires
            !self.poisoned(),
        ensures
            r == (self.raw() > 0),
    {
        vstd::pervasive::runtime_assert(!self.poisoned);
        self.val > 0
    }

    /// Whether the index is zero; a read, as `get` is.
    pub fn is_zero(&self) -> (r: bool)
        requires
            !self.poisoned(),
        ensures
            r == (self.raw() == 0),
    {
        vstd::pervasive::runtime_assert(!self.poisoned);
        self.val == 0
    }

    pub fn is_invalid(&self) -> (r: bool)
        ensures
            r == self.poisoned(),
    {
        self.poisoned
    }

    pub fn is_valid(&self) -> (r: bool)
        ensures
            r == !self.poisoned(),
    {
        !self.is_invalid()
    }

    fn arith_assign(&mut self, op: ArithOp, b: usize, rhs_poisoned: bool)
        requires
            op is Add || op is Sub,
        ensures
            *final(self) == old(self).arith(op, b as int, rhs_poisoned),
            Self::is_arith_result(*final(self), *old(self), op, b as int, rhs_poisoned),
    {
        let outcome = match op {
            ArithOp::Add => self.val.checked_add(b),
            _ => self.val.checked_sub(b),
        };
        match outcome {
            Some(v) => {
                self.val = v;
                self.poisoned = self.poisoned || rhs_poisoned;
            },
            None => {
                self.poisoned = true;
            },
        }
    }
}

impl Default for SafeIdx {
    fn default() -> (r: Self)
        ensures
            r.raw() == 0,
            !r.poisoned(),
    {
        Self::new(0)
    }
}

impl PartialEq for SafeIdx {
    /// Equal when both are valid and hold the same index; a poisoned index
    /// equals nothing.
    fn eq(&self, rhs: &Self) -> (r: bool) {
        !self.poisoned && !rhs.poisoned && self.val == rhs.val
    }
}

impl vstd::std_specs::cmp::PartialEqSpecImpl for SafeIdx {
    open spec fn obeys_eq_spec() -> bool {
        true
    }

    open spec fn eq_spec(&self, rhs: &Self) -> bool {
        !self.poisoned() && !rhs.poisoned() && self.raw() == rhs.raw()
    }
}

impl PartialEq<usize> for SafeIdx {
    fn eq(&self, rhs: &usize) -> (r: bool) {
        !self.poisoned && self.val == *rhs
    }
}

impl vstd::std_specs::cmp::PartialEqSpecImpl<usize> for SafeIdx {
    open spec fn obeys_eq_spec() -> bool {
        true
    }

    open spec fn eq_spec(&self, rhs: &usize) -> bool {
        !self.poisoned() && self.raw() == *rhs
    }
}

impl PartialEq<SafeUMx> for SafeIdx {
    fn eq(&self, rhs: &SafeUMx) -> (r: bool) {
        !self.poisoned && rhs.is_valid_and_checked() && self.val == *rhs.cdata_as_ref()
    }
}

impl vstd::std_specs::cmp::PartialEqSpecImpl<SafeUMx> for SafeIdx {
    open spec fn obeys_eq_spec() -> bool {
        true
    }

    open spec fn eq_spec(&self, rhs: &SafeUMx) -> bool {
        !self.poisoned() && rhs.readable() && self.raw() == rhs.raw()
    }
}

impl PartialOrd for SafeIdx {
    /// The order of the indices when both are valid; `None` otherwise.
    fn partial_cmp(&self, rhs: &Self) -> (r: Option<Ordering>) {
        if self.poisoned || rhs.poisoned {
            None
        } else {
            Some(self.val.cmp(&rhs.val))
        }
    }
}

impl vstd::std_specs::cmp::PartialOrdSpecImpl for SafeIdx {
    open spec fn obeys_partial_cmp_spec() -> bool {
        true
    }

    open spec fn partial_cmp_spec(&self, rhs: &Self) -> Option<Ordering> {
        if !self.poisoned() && !rhs.poisoned() {
            Some(order_of(self.raw() as int, rhs.raw() as int))
        } else {
            None
        }
    }
}

impl PartialOrd<usize> for SafeIdx {
    fn partial_cmp(&self, rhs: &usize) -> (r: Option<Ordering>) {
        if self.poisoned {
            None
        } else {
            Some(self.val.cmp(rhs))
        }
    }
}

impl vstd::std_specs::cmp::PartialOrdSpecImpl<usize> for SafeIdx {
    open spec fn obeys_partial_cmp_spec() -> bool {
        true
    }

    open spec fn partial_cmp_spec(&self, rhs: &usize) -> Option<Ordering> {
        if !self.poisoned() {
            Some(order_of(self.raw() as int, *rhs as int))
        } else {
            None
        }
    }
}

impl PartialOrd<SafeUMx> for SafeIdx {
    fn partial_cmp(&self, rhs: &SafeUMx) -> (r: Option<Ordering>) {
        if self.poisoned || !rhs.is_valid_and_checked() {
            None
        } else {
            Some(self.val.cmp(rhs.cdata_as_ref()))
        }
    }
}

impl vstd::std_specs::cmp::PartialOrdSpecImpl<SafeUMx> for SafeIdx {
    open spec fn obeys_partial_cmp_spec() -> bool {
        true
    }

    open spec fn partial_cmp_spec(&self, rhs: &SafeUMx) -> Option<Ordering> {
        if !self.poisoned() && rhs.readable() {
            Some(order_of(self.raw() as int, rhs.num()))
        } else {
            None
        }
    }
}

impl core::ops::AddAssign for SafeIdx {
    fn add_assign(&mut self, rhs: Self)
        ensures
            *final(self) == old(self).arith(ArithOp::Add, rhs.raw() as int, rhs.poisoned()),
            Self::is_arith_result(*final(self), *old(self), ArithOp::Add, rhs.raw() as int, rhs.poisoned()),
    {
        self.arith_assign(ArithOp::Add, rhs.val, rhs.poisoned);
    }
}

impl vstd::std_specs::ops::AddSpecImpl for SafeIdx {
    open spec fn obeys_add_spec() -> bool {
        true
    }

    open spec fn add_req(self, rhs: Self) -> bool {
        true
    }

    open spec fn add_spec(self, rhs: Self) -> Self {
        self.arith(ArithOp::Add, rhs.raw() as int, rhs.poisoned())
    }
}

impl core::ops::Add for SafeIdx {
    type Output = Self;

    fn add(self, rhs: Self) -> (r: Self)
        ensures
            Self::is_arith_result(r, self, ArithOp::Add, rhs.raw() as int, rhs.poisoned()),
    {
        let mut ret = self;
        ret.add_assign(rhs);
        ret
    }
}

impl core::ops::AddAssign<usize> for SafeIdx {
    fn add_assign(&mut self, rhs: usize)
        ensures
            *final(self) == old(self).arith(ArithOp::Add, rhs as int, false),
            Self::is_arith_result(*final(self), *old(self), ArithOp::Add, rhs as int, false),
    {
        self.arith_assign(ArithOp::Add, rhs, false);
    }
}

impl vstd::std_specs::ops::AddSpecImpl<usize> for SafeIdx {
    open spec fn obeys_add_spec() -> bool {
        true
    }

    open spec fn add_req(self, rhs: usize) -> bool {
        true
    }

    open spec fn add_spec(self, rhs: usize) -> Self {
        self.arith(ArithOp::Add, rhs as int, false)
    }
}

impl core::ops::Add<usize> for SafeIdx {
    type Output = Self;

    fn add(self, rhs: usize) -> (r: Self)
        ensures
            Self::is_arith_result(r, self, ArithOp::Add, rhs as int, false),
    {
        let mut ret = self;
        ret.add_assign(rhs);
        ret
    }
}

impl core::ops::SubAssign for SafeIdx {
    fn sub_assign(&mut self, rhs: Self)
        ensures
            *final(self) == old(self).arith(ArithOp::Sub, rhs.raw() as int, rhs.poisoned()),
            Self::is_arith_result(*final(self), *old(self), ArithOp::Sub, rhs.raw() as int, rhs.poisoned()),
    {
        self.arith_assign(ArithOp::Sub, rhs.val, rhs.poisoned);
    }
}

impl vstd::std_specs::ops::SubSpecImpl for SafeIdx {
    open spec fn obeys_sub_spec() -> bool {
        true
    }

    open spec fn sub_req(self, rhs: Self) -> bool {
        true
    }

    open spec fn sub_spec(self, rhs: Self) -> Self {
        self.arith(ArithOp::Sub, rhs.raw() as int, rhs.poisoned())
    }
}

impl core::ops::Sub for SafeIdx {
    type Output = Self;

    fn sub(self, rhs: Self) -> (r: Self)
        ensures
            Self::is_arith_result(r, self, ArithOp::Sub, rhs.raw() as int, rhs.poisoned()),
    {
        let mut ret = self;
        ret.sub_assign(rhs);
        ret
    }
}

impl core::ops::SubAssign<usize> for SafeIdx {
    fn sub_assign(&mut self, rhs: usize)
        ensures
            *final(self) == old(self).arith(ArithOp::Sub, rhs as int, false),
            Self::is_arith_result(*final(self), *old(self), ArithOp::Sub, rhs as int, false),
    {
        self.arith_assign(ArithOp::Sub, rhs, false);
    }
}

impl vstd::std_specs::ops::SubSpecImpl<usize> for SafeIdx {
    open spec fn obeys_sub_spec() -> bool {
        true
    }

    open spec fn sub_req(self, rhs: usize) -> bool {
        true
    }

    open spec fn sub_spec(self, rhs: usize) -> Self {
        self.arith(ArithOp::Sub, rhs as int, false)
    }
}

impl core::ops::Sub<usize> for SafeIdx {
    type Output = Self;

    fn sub(self, rhs: usize) -> (r: Self)
        ensures
            Self::is_arith_result(r, self, ArithOp::Sub, rhs as int, false),
    {
        let mut ret = self;
        ret.sub_assign(rhs);
        ret
    }
}

} // verus!
