//! Fixed-width integer representations and their checked primitives.
use vstd::prelude::*;

verus! {

/// Truncating division on mathematical integers: the quotient rounds
/// toward zero, as machine division does.
pub open spec fn trunc_div(x: int, d: int) -> int {
    let q = abs(x) / abs(d);
    if (x < 0) != (d < 0) {
        -q
    } else {
        q
    }
}

/// The remainder that goes with `trunc_div`: it takes the sign of the dividend.
pub open spec fn trunc_rem(x: int, d: int) -> int {
    let r = abs(x) % abs(d);
    if x < 0 {
        -r
    } else {
        r
    }
}

/// The remainder is smaller than the divisor in magnitude.
pub proof fn lemma_trunc_rem_bound(x: int, d: int)
    requires
        d != 0,
    ensures
        abs(trunc_rem(x, d)) < abs(d),
        x == 0 ==> trunc_rem(x, d) == 0,
{
    let (a, b) = (abs(x), abs(d));
    assert(0 <= a % b < b) by (nonlinear_arith)
        requires
            a >= 0,
            b > 0,
    ;
    assert(0int % b == 0) by (nonlinear_arith)
        requires
            b > 0,
    ;
}

pub open spec fn abs(x: int) -> int {
    if x < 0 {
        -x
    } else {
        x
    }
}

/// A fixed-width integer type with checked primitives.
///
/// `int_value` is the mathematical value of an element, `min_int ..= max_int`
/// the range the width can hold, and `from_int` the element that holds a
/// value of that range.
pub trait CheckedPrimitive: Sized + Copy {
    spec fn int_value(self) -> int;

    spec fn min_int() -> int;

    spec fn max_int() -> int;

    spec fn from_int(v: int) -> Self;

    /// The range holds zero, and a signed range is two's complement.
    proof fn lemma_range()
        ensures
            Self::min_int() <= 0 <= Self::max_int(),
            Self::min_int() < 0 ==> Self::min_int() == -Self::max_int() - 1,
    ;

    proof fn lemma_value_in_range(x: Self)
        ensures
            Self::min_int() <= x.int_value() <= Self::max_int(),
    ;

    proof fn lemma_from_int(v: int)
        requires
            Self::min_int() <= v <= Self::max_int(),
        ensures
            Self::from_int(v).int_value() == v,
    ;

    proof fn lemma_from_value(x: Self)
        ensures
            Self::from_int(x.int_value()) == x,
    ;

    /// The element holding `v`, where the width holds it.
    fn from_i128(v: i128) -> (r: Option<Self>)
        ensures
            r == (if Self::min_int() <= v <= Self::max_int() { Some(Self::from_int(v as int)) } else { None }),
    ;

    fn checked_add_prim(self, rhs: Self) -> (r: Option<Self>)
        ensures
            r == (if Self::min_int() <= self.int_value() + rhs.int_value() <= Self::max_int() { Some(Self::from_int(self.int_value() + rhs.int_value())) } else { None }),
    ;

    fn checked_sub_prim(self, rhs: Self) -> (r: Option<Self>)
        ensures
            r == (if Self::min_int() <= self.int_value() - rhs.int_value() <= Self::max_int() { Some(Self::from_int(self.int_value() - rhs.int_value())) } else { None }),
    ;

    fn checked_mul_prim(self, rhs: Self) -> (r: Option<Self>)
        ensures
            r == (if Self::min_int() <= self.int_value() * rhs.int_value() <= Self::max_int() { Some(Self::from_int(self.int_value() * rhs.int_value())) } else { None }),
    ;

    fn checked_div_prim(self, rhs: Self) -> (r: Option<Self>)
        ensures
            rhs.int_value() == 0 ==> r is None,
            rhs.int_value() != 0 ==> r == (if Self::min_int() <= trunc_div(self.int_value(), rhs.int_value()) <= Self::max_int() { Some(Self::from_int(trunc_div(self.int_value(), rhs.int_value()))) } else { None }),
    ;

    fn checked_rem_prim(self, rhs: Self) -> (r: Option<Self>)
        ensures
            rhs.int_value() == 0 ==> r is None,
            rhs.int_value() != 0 ==> r == (if Self::min_int() <= trunc_rem(self.int_value(), rhs.int_value()) <= Self::max_int() { Some(Self::from_int(trunc_rem(self.int_value(), rhs.int_value()))) } else { None }),
    ;

    fn checked_neg_prim(self) -> (r: Option<Self>)
        ensures
            r == (if Self::min_int() <= -self.int_value() <= Self::max_int() { Some(Self::from_int(-self.int_value())) } else { None }),
    ;
}

/// Whether the width of `T` holds the value `v`.
pub open spec fn in_range<T: CheckedPrimitive>(v: int) -> bool {
    T::min_int() <= v <= T::max_int()
}

impl CheckedPrimitive for u8 {
    open spec fn int_value(self) -> int {
        self as int
    }

    open spec fn min_int() -> int {
        0
    }

    open spec fn max_int() -> int {
        u8::MAX as int
    }

    open spec fn from_int(v: int) -> u8 {
        v as u8
    }

    proof fn lemma_range() {
    }

    proof fn lemma_value_in_range(x: u8) {
    }

    proof fn lemma_from_int(v: int) {
    }

    proof fn lemma_from_value(x: u8) {
    }

    fn from_i128(v: i128) -> (r: Option<u8>) {
        if 0 <= v && v <= u8::MAX as i128 {
            Some(v as u8)
        } else {
            None
        }
    }

    fn checked_add_prim(self, rhs: u8) -> (r: Option<u8>) {
        self.checked_add(rhs)
    }

    fn checked_sub_prim(self, rhs: u8) -> (r: Option<u8>) {
        self.checked_sub(rhs)
    }

    fn checked_mul_prim(self, rhs: u8) -> (r: Option<u8>) {
        self.checked_mul(rhs)
    }

    fn checked_div_prim(self, rhs: u8) -> (r: Option<u8>) {
        self.checked_div(rhs)
    }

    fn checked_rem_prim(self, rhs: u8) -> (r: Option<u8>) {
        self.checked_rem(rhs)
    }

    /// Only zero has a negation that an unsigned width holds.
    fn checked_neg_prim(self) -> (r: Option<u8>) {
        if self == 0 {
            Some(0)
        } else {
            None
        }
    }
}

impl CheckedPrimitive for u16 {
    open spec fn int_value(self) -> int {
        self as int
    }

    open spec fn min_int() -> int {
        0
    }

    open spec fn max_int() -> int {
        u16::MAX as int
    }

    open spec fn from_int(v: int) -> u16 {
        v as u16
    }

    proof fn lemma_range() {
    }

    proof fn lemma_value_in_range(x: u16) {
    }

    proof fn lemma_from_int(v: int) {
    }

    proof fn lemma_from_value(x: u16) {
    }

    fn from_i128(v: i128) -> (r: Option<u16>) {
        if 0 <= v && v <= u16::MAX as i128 {
            Some(v as u16)
        } else {
            None
        }
    }

    fn checked_add_prim(self, rhs: u16) -> (r: Option<u16>) {
        self.checked_add(rhs)
    }

    fn checked_sub_prim(self, rhs: u16) -> (r: Option<u16>) {
        self.checked_sub(rhs)
    }

    fn checked_mul_prim(self, rhs: u16) -> (r: Option<u16>) {
        self.checked_mul(rhs)
    }

    fn checked_div_prim(self, rhs: u16) -> (r: Option<u16>) {
        self.checked_div(rhs)
    }

    fn checked_rem_prim(self, rhs: u16) -> (r: Option<u16>) {
        self.checked_rem(rhs)
    }

    /// Only zero has a negation that an unsigned width holds.
    fn checked_neg_prim(self) -> (r: Option<u16>) {
        if self == 0 {
            Some(0)
        } else {
            None
        }
    }
}

impl CheckedPrimitive for u32 {
    open spec fn int_value(self) -> int {
        self as int
    }

    open spec fn min_int() -> int {
        0
    }

    open spec fn max_int() -> int {
        u32::MAX as int
    }

    open spec fn from_int(v: int) -> u32 {
        v as u32
    }

    proof fn lemma_range() {
    }

    proof fn lemma_value_in_range(x: u32) {
    }

    proof fn lemma_from_int(v: int) {
    }

    proof fn lemma_from_value(x: u32) {
    }

    fn from_i128(v: i128) -> (r: Option<u32>) {
        if 0 <= v && v <= u32::MAX as i128 {
            Some(v as u32)
        } else {
            None
        }
    }

    fn checked_add_prim(self, rhs: u32) -> (r: Option<u32>) {
        self.checked_add(rhs)
    }

    fn checked_sub_prim(self, rhs: u32) -> (r: Option<u32>) {
        self.checked_sub(rhs)
    }

    fn checked_mul_prim(self, rhs: u32) -> (r: Option<u32>) {
        self.checked_mul(rhs)
    }

    fn checked_div_prim(self, rhs: u32) -> (r: Option<u32>) {
        self.checked_div(rhs)
    }

    fn checked_rem_prim(self, rhs: u32) -> (r: Option<u32>) {
        self.checked_rem(rhs)
    }

    /// Only zero has a negation that an unsigned width holds.
    fn checked_neg_prim(self) -> (r: Option<u32>) {
        if self == 0 {
            Some(0)
        } else {
            None
        }
    }
}

impl CheckedPrimitive for u64 {
    open spec fn int_value(self) -> int {
        self as int
    }

    open spec fn min_int() -> int {
        0
    }

    open spec fn max_int() -> int {
        u64::MAX as int
    }

    open spec fn from_int(v: int) -> u64 {
        v as u64
    }

    proof fn lemma_range() {
    }

    proof fn lemma_value_in_range(x: u64) {
    }

    proof fn lemma_from_int(v: int) {
    }

    proof fn lemma_from_value(x: u64) {
    }

    fn from_i128(v: i128) -> (r: Option<u64>) {
        if 0 <= v && v <= u64::MAX as i128 {
            Some(v as u64)
        } else {
            None
        }
    }

    fn checked_add_prim(self, rhs: u64) -> (r: Option<u64>) {
        self.checked_add(rhs)
    }

    fn checked_sub_prim(self, rhs: u64) -> (r: Option<u64>) {
        self.checked_sub(rhs)
    }

    fn checked_mul_prim(self, rhs: u64) -> (r: Option<u64>) {
        self.checked_mul(rhs)
    }

    fn checked_div_prim(self, rhs: u64) -> (r: Option<u64>) {
        self.checked_div(rhs)
    }

    fn checked_rem_prim(self, rhs: u64) -> (r: Option<u64>) {
        self.checked_rem(rhs)
    }

    /// Only zero has a negation that an unsigned width holds.
    fn checked_neg_prim(self) -> (r: Option<u64>) {
        if self == 0 {
            Some(0)
        } else {
            None
        }
    }
}

impl CheckedPrimitive for u128 {
    open spec fn int_value(self) -> int {
        self as int
    }

    open spec fn min_int() -> int {
        0
    }

    open spec fn max_int() -> int {
        u128::MAX as int
    }

    open spec fn from_int(v: int) -> u128 {
        v as u128
    }

    proof fn lemma_range() {
    }

    proof fn lemma_value_in_range(x: u128) {
    }

    proof fn lemma_from_int(v: int) {
    }

    proof fn lemma_from_value(x: u128) {
    }

    fn from_i128(v: i128) -> (r: Option<u128>) {
        if v >= 0 {
            Some(v as u128)
        } else {
            None
        }
    }

    fn checked_add_prim(self, rhs: u128) -> (r: Option<u128>) {
        self.checked_add(rhs)
    }

    fn checked_sub_prim(self, rhs: u128) -> (r: Option<u128>) {
        self.checked_sub(rhs)
    }

    fn checked_mul_prim(self, rhs: u128) -> (r: Option<u128>) {
        self.checked_mul(rhs)
    }

    fn checked_div_prim(self, rhs: u128) -> (r: Option<u128>) {
        self.checked_div(rhs)
    }

    fn checked_rem_prim(self, rhs: u128) -> (r: Option<u128>) {
        self.checked_rem(rhs)
    }

    /// Only zero has a negation that an unsigned width holds.
    fn checked_neg_prim(self) -> (r: Option<u128>) {
        if self == 0 {
            Some(0)
        } else {
            None
        }
    }
}

impl CheckedPrimitive for usize {
    open spec fn int_value(self) -> int {
        self as int
    }

    open spec fn min_int() -> int {
        0
    }

    open spec fn max_int() -> int {
        usize::MAX as int
    }

    open spec fn from_int(v: int) -> usize {
        v as usize
    }

    proof fn lemma_range() {
    }

    proof fn lemma_value_in_range(x: usize) {
    }

    proof fn lemma_from_int(v: int) {
    }

    proof fn lemma_from_value(x: usize) {
    }

    fn from_i128(v: i128) -> (r: Option<usize>) {
        if 0 <= v && v <= usize::MAX as i128 {
            Some(v as usize)
        } else {
            None
        }
    }

    fn checked_add_prim(self, rhs: usize) -> (r: Option<usize>) {
        self.checked_add(rhs)
    }

    fn checked_sub_prim(self, rhs: usize) -> (r: Option<usize>) {
        self.checked_sub(rhs)
    }

    fn checked_mul_prim(self, rhs: usize) -> (r: Option<usize>) {
        self.checked_mul(rhs)
    }

    fn checked_div_prim(self, rhs: usize) -> (r: Option<usize>) {
        self.checked_div(rhs)
    }

    fn checked_rem_prim(self, rhs: usize) -> (r: Option<usize>) {
        self.checked_rem(rhs)
    }

    /// Only zero has a negation that an unsigned width holds.
    fn checked_neg_prim(self) -> (r: Option<usize>) {
        if self == 0 {
            Some(0)
        } else {
            None
        }
    }
}

impl CheckedPrimitive for i8 {
    open spec fn int_value(self) -> int {
        self as int
    }

    open spec fn min_int() -> int {
        i8::MIN as int
    }

    open spec fn max_int() -> int {
        i8::MAX as int
    }

    open spec fn from_int(v: int) -> i8 {
        v as i8
    }

    proof fn lemma_range() {
    }

    proof fn lemma_value_in_range(x: i8) {
    }

    proof fn lemma_from_int(v: int) {
    }

    proof fn lemma_from_value(x: i8) {
    }

    fn from_i128(v: i128) -> (r: Option<i8>) {
        if i8::MIN as i128 <= v && v <= i8::MAX as i128 {
            Some(v as i8)
        } else {
            None
        }
    }

    fn checked_add_prim(self, rhs: i8) -> (r: Option<i8>) {
        self.checked_add(rhs)
    }

    fn checked_sub_prim(self, rhs: i8) -> (r: Option<i8>) {
        self.checked_sub(rhs)
    }

    fn checked_mul_prim(self, rhs: i8) -> (r: Option<i8>) {
        self.checked_mul(rhs)
    }

    fn checked_div_prim(self, rhs: i8) -> (r: Option<i8>) {
        self.checked_div(rhs)
    }

    fn checked_rem_prim(self, rhs: i8) -> (r: Option<i8>) {
        if rhs == -1 {
            proof {
                assert(abs(self as int) % 1 == 0) by (nonlinear_arith);
            }
            Some(0)
        } else {
            proof {
                if rhs != 0 {
                    lemma_trunc_rem_bound(self as int, rhs as int);
                }
            }
            self.checked_rem(rhs)
        }
    }

    fn checked_neg_prim(self) -> (r: Option<i8>) {
        if self == i8::MIN {
            None
        } else {
            Some(-self)
        }
    }
}

impl CheckedPrimitive for i16 {
    open spec fn int_value(self) -> int {
        self as int
    }

    open spec fn min_int() -> int {
        i16::MIN as int
    }

    open spec fn max_int() -> int {
        i16::MAX as int
    }

    open spec fn from_int(v: int) -> i16 {
        v as i16
    }

    proof fn lemma_range() {
    }

    proof fn lemma_value_in_range(x: i16) {
    }

    proof fn lemma_from_int(v: int) {
    }

    proof fn lemma_from_value(x: i16) {
    }

    fn from_i128(v: i128) -> (r: Option<i16>) {
        if i16::MIN as i128 <= v && v <= i16::MAX as i128 {
            Some(v as i16)
        } else {
            None
        }
    }

    fn checked_add_prim(self, rhs: i16) -> (r: Option<i16>) {
        self.checked_add(rhs)
    }

    fn checked_sub_prim(self, rhs: i16) -> (r: Option<i16>) {
        self.checked_sub(rhs)
    }

    fn checked_mul_prim(self, rhs: i16) -> (r: Option<i16>) {
        self.checked_mul(rhs)
    }

    fn checked_div_prim(self, rhs: i16) -> (r: Option<i16>) {
        self.checked_div(rhs)
    }

    fn checked_rem_prim(self, rhs: i16) -> (r: Option<i16>) {
        if rhs == -1 {
            proof {
                assert(abs(self as int) % 1 == 0) by (nonlinear_arith);
            }
            Some(0)
        } else {
            proof {
                if rhs != 0 {
                    lemma_trunc_rem_bound(self as int, rhs as int);
                }
            }
            self.checked_rem(rhs)
        }
    }

    fn checked_neg_prim(self) -> (r: Option<i16>) {
        if self == i16::MIN {
            None
        } else {
            Some(-self)
        }
    }
}

impl CheckedPrimitive for i32 {
    open spec fn int_value(self) -> int {
        self as int
    }

    open spec fn min_int() -> int {
        i32::MIN as int
    }

    open spec fn max_int() -> int {
        i32::MAX as int
    }

    open spec fn from_int(v: int) -> i32 {
        v as i32
    }

    proof fn lemma_range() {
    }

    proof fn lemma_value_in_range(x: i32) {
    }

    proof fn lemma_from_int(v: int) {
    }

    proof fn lemma_from_value(x: i32) {
    }

    fn from_i128(v: i128) -> (r: Option<i32>) {
        if i32::MIN as i128 <= v && v <= i32::MAX as i128 {
            Some(v as i32)
        } else {
            None
        }
    }

    fn checked_add_prim(self, rhs: i32) -> (r: Option<i32>) {
        self.checked_add(rhs)
    }

    fn checked_sub_prim(self, rhs: i32) -> (r: Option<i32>) {
        self.checked_sub(rhs)
    }

    fn checked_mul_prim(self, rhs: i32) -> (r: Option<i32>) {
        self.checked_mul(rhs)
    }

    fn checked_div_prim(self, rhs: i32) -> (r: Option<i32>) {
        self.checked_div(rhs)
    }

    fn checked_rem_prim(self, rhs: i32) -> (r: Option<i32>) {
        if rhs == -1 {
            proof {
                assert(abs(self as int) % 1 == 0) by (nonlinear_arith);
            }
            Some(0)
        } else {
            proof {
                if rhs != 0 {
                    lemma_trunc_rem_bound(self as int, rhs as int);
                }
            }
            self.checked_rem(rhs)
        }
    }

    fn checked_neg_prim(self) -> (r: Option<i32>) {
        if self == i32::MIN {
            None
        } else {
            Some(-self)
        }
    }
}

impl CheckedPrimitive for i64 {
    open spec fn int_value(self) -> int {
        self as int
    }

    open spec fn min_int() -> int {
        i64::MIN as int
    }

    open spec fn max_int() -> int {
        i64::MAX as int
    }

    open spec fn from_int(v: int) -> i64 {
        v as i64
    }

    proof fn lemma_range() {
    }

    proof fn lemma_value_in_range(x: i64) {
    }

    proof fn lemma_from_int(v: int) {
    }

    proof fn lemma_from_value(x: i64) {
    }

    fn from_i128(v: i128) -> (r: Option<i64>) {
        if i64::MIN as i128 <= v && v <= i64::MAX as i128 {
            Some(v as i64)
        } else {
            None
        }
    }

    fn checked_add_prim(self, rhs: i64) -> (r: Option<i64>) {
        self.checked_add(rhs)
    }

    fn checked_sub_prim(self, rhs: i64) -> (r: Option<i64>) {
        self.checked_sub(rhs)
    }

    fn checked_mul_prim(self, rhs: i64) -> (r: Option<i64>) {
        self.checked_mul(rhs)
    }

    fn checked_div_prim(self, rhs: i64) -> (r: Option<i64>) {
        self.checked_div(rhs)
    }

    fn checked_rem_prim(self, rhs: i64) -> (r: Option<i64>) {
        if rhs == -1 {
            proof {
                assert(abs(self as int) % 1 == 0) by (nonlinear_arith);
            }
            Some(0)
        } else {
            proof {
                if rhs != 0 {
                    lemma_trunc_rem_bound(self as int, rhs as int);
                }
            }
            self.checked_rem(rhs)
        }
    }

    fn checked_neg_prim(self) -> (r: Option<i64>) {
        if self == i64::MIN {
            None
        } else {
            Some(-self)
        }
    }
}

impl CheckedPrimitive for i128 {
    open spec fn int_value(self) -> int {
        self as int
    }

    open spec fn min_int() -> int {
        i128::MIN as int
    }

    open spec fn max_int() -> int {
        i128::MAX as int
    }

    open spec fn from_int(v: int) -> i128 {
        v as i128
    }

    proof fn lemma_range() {
    }

    proof fn lemma_value_in_range(x: i128) {
    }

    proof fn lemma_from_int(v: int) {
    }

    proof fn lemma_from_value(x: i128) {
    }

    fn from_i128(v: i128) -> (r: Option<i128>) {
        Some(v)
    }

    fn checked_add_prim(self, rhs: i128) -> (r: Option<i128>) {
        self.checked_add(rhs)
    }

    fn checked_sub_prim(self, rhs: i128) -> (r: Option<i128>) {
        self.checked_sub(rhs)
    }

    fn checked_mul_prim(self, rhs: i128) -> (r: Option<i128>) {
        self.checked_mul(rhs)
    }

    fn checked_div_prim(self, rhs: i128) -> (r: Option<i128>) {
        self.checked_div(rhs)
    }

    fn checked_rem_prim(self, rhs: i128) -> (r: Option<i128>) {
        if rhs == -1 {
            proof {
                assert(abs(self as int) % 1 == 0) by (nonlinear_arith);
            }
            Some(0)
        } else {
            proof {
                if rhs != 0 {
                    lemma_trunc_rem_bound(self as int, rhs as int);
                }
            }
            self.checked_rem(rhs)
        }
    }

    fn checked_neg_prim(self) -> (r: Option<i128>) {
        if self == i128::MIN {
            None
        } else {
            Some(-self)
        }
    }
}

} // verus!
