//! 256-bit integers held as four 64-bit limbs, least significant first:
//! unsigned, and signed in two's complement. Their checked primitives are
//! alloy's `U256` and `I256`.
use vstd::prelude::*;

use vstd::arithmetic::div_mod::{
    lemma_fundamental_div_mod, lemma_fundamental_div_mod_converse_div,
    lemma_fundamental_div_mod_converse_mod, lemma_mod_pos_bound, lemma_small_mod,
};

use crate::primitive::{abs, lemma_trunc_rem_bound, trunc_div, trunc_rem, CheckedPrimitive};

verus! {

/// The base of one limb.
pub open spec fn limb_base() -> int {
    0x1_0000_0000_0000_0000
}

/// The largest value of 256 bits.
pub open spec fn u256_max() -> int {
    limb_base() * limb_base() * limb_base() * limb_base() - 1
}

#[derive(Debug, Clone, Copy, PartialEq, Eq, Structural)]
pub struct U256 {
    pub l0: u64,
    pub l1: u64,
    pub l2: u64,
    pub l3: u64,
}

/// The limbs of `v`, for `0 <= v <= u256_max()`.
pub open spec fn u256_of(v: int) -> U256 {
    let b = limb_base();
    U256 {
        l0: (v % b) as u64,
        l1: ((v / b) % b) as u64,
        l2: ((v / b / b) % b) as u64,
        l3: ((v / b / b / b) % b) as u64,
    }
}

proof fn lemma_horner_step(x: int, t: int, k: int)
    requires
        0 <= x < limb_base(),
        0 <= t < k,
    ensures
        0 <= x + limb_base() * t < limb_base() * k,
{
    let b = limb_base();
    assert(0 <= x + b * t < b * k) by (nonlinear_arith)
        requires
            0 <= x < b,
            0 <= t < k,
    ;
}

/// Splits `v` into its lowest limb and the rest, with a bound on the rest.
proof fn lemma_split(v: int, k: int)
    requires
        0 <= v < limb_base() * k,
    ensures
        v == v % limb_base() + limb_base() * (v / limb_base()),
        0 <= v % limb_base() < limb_base(),
        0 <= v / limb_base() < k,
{
    let b = limb_base();
    lemma_fundamental_div_mod(v, b);
    lemma_mod_pos_bound(v, b);
    let q = v / b;
    let r = v % b;
    assert(0 <= q < k) by (nonlinear_arith)
        requires
            v == b * q + r,
            0 <= r < b,
            0 <= v < b * k,
            b > 0,
    ;
}

/// The limb of `v` below `limb_base() * t + x` and the rest above it.
proof fn lemma_join(x: int, t: int)
    requires
        0 <= x < limb_base(),
    ensures
        (x + limb_base() * t) % limb_base() == x,
        (x + limb_base() * t) / limb_base() == t,
{
    let b = limb_base();
    let v = x + b * t;
    assert(v == t * b + x) by (nonlinear_arith)
        requires
            v == x + b * t,
    ;
    lemma_fundamental_div_mod_converse_mod(v, b, t, x);
    lemma_fundamental_div_mod_converse_div(v, b, t, x);
}

impl U256 {
    pub fn from_u128(v: u128) -> (r: U256)
        ensures
            r.int_value() == v,
            r == u256_of(v as int),
            r.l2 == 0 && r.l3 == 0,
    {
        let lo = (v % 0x1_0000_0000_0000_0000) as u64;
        let hi = (v / 0x1_0000_0000_0000_0000) as u64;
        proof {
            let b = limb_base();
            lemma_split(v as int, b);
            lemma_small_mod((v as int / b) as nat, b as nat);
            assert(v as int / b / b == 0);
            assert(0int % b == 0);
        }
        U256 { l0: lo, l1: hi, l2: 0, l3: 0 }
    }

    pub fn max_value() -> (r: U256)
        ensures
            r.int_value() == u256_max(),
    {
        U256 { l0: u64::MAX, l1: u64::MAX, l2: u64::MAX, l3: u64::MAX }
    }

    pub fn min_value() -> (r: U256)
        ensures
            r.int_value() == 0,
    {
        U256 { l0: 0, l1: 0, l2: 0, l3: 0 }
    }

    /// The limbs, least significant first.
    pub fn limbs(self) -> (r: [u64; 4])
        ensures
            r@ == seq![self.l0, self.l1, self.l2, self.l3],
    {
        [self.l0, self.l1, self.l2, self.l3]
    }

    pub fn from_limbs(l: [u64; 4]) -> (r: U256)
        ensures
            seq![r.l0, r.l1, r.l2, r.l3] == l@,
    {
        let r = U256 { l0: l[0], l1: l[1], l2: l[2], l3: l[3] };
        assert(seq![r.l0, r.l1, r.l2, r.l3] =~= l@);
        r
    }
}

/// Relies on `alloy_primitives::U256::checked_add` (ruint's `Uint::checked_add`):
/// the sum, or `None` on overflow. `from_limbs` cannot panic at 256 bits.
#[verifier::external_body]
fn u256_checked_add(a: U256, b: U256) -> (r: Option<U256>)
    ensures
        r == (if a.int_value() + b.int_value() <= u256_max() {
            Some(u256_of(a.int_value() + b.int_value()))
        } else {
            None
        }),
{
    alloy_primitives::U256::from_limbs(a.limbs()).checked_add(
        alloy_primitives::U256::from_limbs(b.limbs()),
    ).map(|v| U256::from_limbs(v.into_limbs()))
}

/// Relies on `alloy_primitives::U256::checked_sub` (ruint's `Uint::checked_sub`):
/// the difference, or `None` below zero.
#[verifier::external_body]
fn u256_checked_sub(a: U256, b: U256) -> (r: Option<U256>)
    ensures
        r == (if a.int_value() - b.int_value() >= 0 {
            Some(u256_of(a.int_value() - b.int_value()))
        } else {
            None
        }),
{
    alloy_primitives::U256::from_limbs(a.limbs()).checked_sub(
        alloy_primitives::U256::from_limbs(b.limbs()),
    ).map(|v| U256::from_limbs(v.into_limbs()))
}

/// Relies on `alloy_primitives::U256::checked_mul` (ruint's `Uint::checked_mul`):
/// the product, or `None` on overflow.
#[verifier::external_body]
fn u256_checked_mul(a: U256, b: U256) -> (r: Option<U256>)
    ensures
        r == (if a.int_value() * b.int_value() <= u256_max() {
            Some(u256_of(a.int_value() * b.int_value()))
        } else {
            None
        }),
{
    alloy_primitives::U256::from_limbs(a.limbs()).checked_mul(
        alloy_primitives::U256::from_limbs(b.limbs()),
    ).map(|v| U256::from_limbs(v.into_limbs()))
}

/// Relies on `alloy_primitives::U256::checked_div` (ruint's `Uint::checked_div`):
/// the floor quotient, or `None` for a zero divisor.
#[verifier::external_body]
fn u256_checked_div(a: U256, b: U256) -> (r: Option<U256>)
    ensures
        r == (if b.int_value() == 0 {
            None
        } else {
            Some(u256_of(a.int_value() / b.int_value()))
        }),
{
    alloy_primitives::U256::from_limbs(a.limbs()).checked_div(
        alloy_primitives::U256::from_limbs(b.limbs()),
    ).map(|v| U256::from_limbs(v.into_limbs()))
}

/// Relies on `alloy_primitives::U256::checked_rem` (ruint's `Uint::checked_rem`):
/// the remainder, or `None` for a zero divisor.
#[verifier::external_body]
fn u256_checked_rem(a: U256, b: U256) -> (r: Option<U256>)
    ensures
        r == (if b.int_value() == 0 {
            None
        } else {
            Some(u256_of(a.int_value() % b.int_value()))
        }),
{
    alloy_primitives::U256::from_limbs(a.limbs()).checked_rem(
        alloy_primitives::U256::from_limbs(b.limbs()),
    ).map(|v| U256::from_limbs(v.into_limbs()))
}

/// Relies on `alloy_primitives::U256::checked_neg` (ruint's `Uint::checked_neg`):
/// `None` unless the value is zero.
#[verifier::external_body]
fn u256_checked_neg(a: U256) -> (r: Option<U256>)
    ensures
        r == (if a.int_value() == 0 {
            Some(u256_of(0))
        } else {
            None
        }),
{
    alloy_primitives::U256::from_limbs(a.limbs()).checked_neg().map(
        |v| U256::from_limbs(v.into_limbs()),
    )
}

impl CheckedPrimitive for U256 {
    open spec fn int_value(self) -> int {
        let b = limb_base();
        self.l0 + b * (self.l1 + b * (self.l2 + b * self.l3))
    }

    open spec fn min_int() -> int {
        0
    }

    open spec fn max_int() -> int {
        u256_max()
    }

    open spec fn from_int(v: int) -> U256 {
        u256_of(v)
    }

    proof fn lemma_range() {
        let b = limb_base();
        assert(b * b * b * b >= 1) by (nonlinear_arith)
            requires
                b > 0,
        ;
    }

    proof fn lemma_value_in_range(x: U256) {
        let b = limb_base();
        lemma_horner_step(x.l2 as int, x.l3 as int, b);
        lemma_horner_step(x.l1 as int, x.l2 + b * x.l3, b * b);
        lemma_horner_step(x.l0 as int, x.l1 + b * (x.l2 + b * x.l3), b * b * b);
        assert(b * (b * (b * b)) == b * b * b * b) by (nonlinear_arith);
        assert(b * (b * b) == b * b * b) by (nonlinear_arith);
    }

    proof fn lemma_from_int(v: int) {
        let b = limb_base();
        assert(b * (b * (b * b)) == b * b * b * b) by (nonlinear_arith);
        assert(b * (b * b) == b * b * b) by (nonlinear_arith);
        lemma_split(v, b * b * b);
        let q1 = v / b;
        lemma_split(q1, b * b);
        let q2 = q1 / b;
        lemma_split(q2, b);
        let q3 = q2 / b;
        lemma_small_mod(q3 as nat, b as nat);
    }

    proof fn lemma_from_value(x: U256) {
        let b = limb_base();
        let t2 = x.l2 + b * x.l3;
        let t1 = x.l1 + b * t2;
        let v = x.l0 + b * t1;
        lemma_join(x.l0 as int, t1);
        lemma_join(x.l1 as int, t2);
        lemma_join(x.l2 as int, x.l3 as int);
        lemma_small_mod(x.l3 as nat, b as nat);
    }

    fn from_i128(v: i128) -> (r: Option<U256>) {
        if v >= 0 {
            Some(U256::from_u128(v as u128))
        } else {
            None
        }
    }

    fn checked_add_prim(self, rhs: U256) -> (r: Option<U256>) {
        proof {
            U256::lemma_value_in_range(self);
            U256::lemma_value_in_range(rhs);
        }
        u256_checked_add(self, rhs)
    }

    fn checked_sub_prim(self, rhs: U256) -> (r: Option<U256>) {
        proof {
            U256::lemma_value_in_range(self);
            U256::lemma_value_in_range(rhs);
        }
        u256_checked_sub(self, rhs)
    }

    fn checked_mul_prim(self, rhs: U256) -> (r: Option<U256>) {
        proof {
            U256::lemma_value_in_range(self);
            U256::lemma_value_in_range(rhs);
            let (x, y) = (self.int_value(), rhs.int_value());
            assert(x * y >= 0) by (nonlinear_arith)
                requires
                    x >= 0,
                    y >= 0,
            ;
        }
        u256_checked_mul(self, rhs)
    }

    fn checked_div_prim(self, rhs: U256) -> (r: Option<U256>) {
        proof {
            U256::lemma_value_in_range(self);
            U256::lemma_value_in_range(rhs);
            let (x, y) = (self.int_value(), rhs.int_value());
            if y != 0 {
                assert(0 <= x / y <= x) by (nonlinear_arith)
                    requires
                        x >= 0,
                        y > 0,
                ;
            }
        }
        u256_checked_div(self, rhs)
    }

    fn checked_rem_prim(self, rhs: U256) -> (r: Option<U256>) {
        proof {
            U256::lemma_value_in_range(self);
            U256::lemma_value_in_range(rhs);
            let (x, y) = (self.int_value(), rhs.int_value());
            if y != 0 {
                assert(0 <= x % y < y) by (nonlinear_arith)
                    requires
                        x >= 0,
                        y > 0,
                ;
            }
        }
        u256_checked_rem(self, rhs)
    }

    fn checked_neg_prim(self) -> (r: Option<U256>) {
        proof {
            U256::lemma_value_in_range(self);
        }
        u256_checked_neg(self)
    }
}

/// The two's-complement bit pattern of a signed 256-bit integer.
#[derive(Debug, Clone, Copy, PartialEq, Eq, Structural)]
pub struct I256 {
    pub bits: U256,
}

/// The least value of a signed 256-bit integer, negated.
pub open spec fn i256_half() -> int {
    (u256_max() + 1) / 2
}

/// The signed value of an unsigned bit pattern.
pub open spec fn signed_of(u: int) -> int {
    if u >= i256_half() {
        u - (u256_max() + 1)
    } else {
        u
    }
}

/// The unsigned bit pattern of a signed value.
pub open spec fn pattern_of(v: int) -> int {
    if v < 0 {
        v + (u256_max() + 1)
    } else {
        v
    }
}

proof fn lemma_half()
    ensures
        i256_half() * 2 == u256_max() + 1,
        i256_half() > 0,
{
    let b = limb_base();
    assert(b * b * b * b == 2 * (b * b * b * (b / 2))) by (nonlinear_arith)
        requires
            b == 0x1_0000_0000_0000_0000,
    ;
}

/// Truncating division never grows the magnitude, and a divisor of magnitude
/// two or more at least halves it.
proof fn lemma_trunc_div_bound(x: int, d: int)
    requires
        d != 0,
    ensures
        abs(trunc_div(x, d)) <= abs(x),
        abs(d) >= 2 ==> 2 * abs(trunc_div(x, d)) <= abs(x),
{
    let (a, b) = (abs(x), abs(d));
    assert(a / b <= a && (b >= 2 ==> 2 * (a / b) <= a) && a / b >= 0) by (nonlinear_arith)
        requires
            a >= 0,
            b >= 1,
    ;
}

impl I256 {
    pub fn max_value() -> (r: I256)
        ensures
            r.int_value() == i256_half() - 1,
    {
        proof {
            lemma_half();
        }
        I256 { bits: U256 { l0: u64::MAX, l1: u64::MAX, l2: u64::MAX, l3: 0x7fff_ffff_ffff_ffff } }
    }

    pub fn min_value() -> (r: I256)
        ensures
            r.int_value() == -i256_half(),
    {
        proof {
            lemma_half();
        }
        I256 { bits: U256 { l0: 0, l1: 0, l2: 0, l3: 0x8000_0000_0000_0000 } }
    }

    pub fn minus_one() -> (r: I256)
        ensures
            r.int_value() == -1,
    {
        proof {
            lemma_half();
        }
        I256 { bits: U256::max_value() }
    }
}

/// Relies on `alloy_primitives::I256::checked_add`: the sum, or `None` on
/// overflow. `from_limbs` cannot panic at 256 bits.
#[verifier::external_body]
fn i256_checked_add(a: I256, b: I256) -> (r: Option<I256>)
    ensures
        r == (if -i256_half() <= a.int_value() + b.int_value() < i256_half() {
            Some(I256::from_int(a.int_value() + b.int_value()))
        } else {
            None
        }),
{
    alloy_primitives::I256::from_limbs(a.bits.limbs()).checked_add(
        alloy_primitives::I256::from_limbs(b.bits.limbs()),
    ).map(|v| I256 { bits: U256::from_limbs(v.into_limbs()) })
}

/// Relies on `alloy_primitives::I256::checked_sub`: the difference, or `None`
/// on overflow.
#[verifier::external_body]
fn i256_checked_sub(a: I256, b: I256) -> (r: Option<I256>)
    ensures
        r == (if -i256_half() <= a.int_value() - b.int_value() < i256_half() {
            Some(I256::from_int(a.int_value() - b.int_value()))
        } else {
            None
        }),
{
    alloy_primitives::I256::from_limbs(a.bits.limbs()).checked_sub(
        alloy_primitives::I256::from_limbs(b.bits.limbs()),
    ).map(|v| I256 { bits: U256::from_limbs(v.into_limbs()) })
}

/// Relies on `alloy_primitives::I256::checked_mul`: the product, or `None` on
/// overflow.
#[verifier::external_body]
fn i256_checked_mul(a: I256, b: I256) -> (r: Option<I256>)
    ensures
        r == (if -i256_half() <= a.int_value() * b.int_value() < i256_half() {
            Some(I256::from_int(a.int_value() * b.int_value()))
        } else {
            None
        }),
{
    alloy_primitives::I256::from_limbs(a.bits.limbs()).checked_mul(
        alloy_primitives::I256::from_limbs(b.bits.limbs()),
    ).map(|v| I256 { bits: U256::from_limbs(v.into_limbs()) })
}

/// Relies on `alloy_primitives::I256::checked_div`: the quotient rounded
/// toward zero, or `None` for a zero divisor or the minimum over minus one.
#[verifier::external_body]
fn i256_checked_div(a: I256, b: I256) -> (r: Option<I256>)
    ensures
        r == (if b.int_value() == 0 || (a.int_value() == -i256_half() && b.int_value() == -1) {
            None
        } else {
            Some(I256::from_int(trunc_div(a.int_value(), b.int_value())))
        }),
{
    alloy_primitives::I256::from_limbs(a.bits.limbs()).checked_div(
        alloy_primitives::I256::from_limbs(b.bits.limbs()),
    ).map(|v| I256 { bits: U256::from_limbs(v.into_limbs()) })
}

/// Relies on `alloy_primitives::I256::checked_rem`: the remainder with the
/// dividend's sign, or `None` for a zero divisor or the minimum over minus one.
#[verifier::external_body]
fn i256_checked_rem(a: I256, b: I256) -> (r: Option<I256>)
    ensures
        r == (if b.int_value() == 0 || (a.int_value() == -i256_half() && b.int_value() == -1) {
            None
        } else {
            Some(I256::from_int(trunc_rem(a.int_value(), b.int_value())))
        }),
{
    alloy_primitives::I256::from_limbs(a.bits.limbs()).checked_rem(
        alloy_primitives::I256::from_limbs(b.bits.limbs()),
    ).map(|v| I256 { bits: U256::from_limbs(v.into_limbs()) })
}

/// Relies on `alloy_primitives::I256::checked_neg`: `None` for the minimum.
#[verifier::external_body]
fn i256_checked_neg(a: I256) -> (r: Option<I256>)
    ensures
        r == (if a.int_value() == -i256_half() {
            None
        } else {
            Some(I256::from_int(-a.int_value()))
        }),
{
    alloy_primitives::I256::from_limbs(a.bits.limbs()).checked_neg().map(
        |v| I256 { bits: U256::from_limbs(v.into_limbs()) },
    )
}

impl CheckedPrimitive for I256 {
    open spec fn int_value(self) -> int {
        signed_of(self.bits.int_value())
    }

    open spec fn min_int() -> int {
        -i256_half()
    }

    open spec fn max_int() -> int {
        i256_half() - 1
    }

    open spec fn from_int(v: int) -> I256 {
        I256 { bits: u256_of(pattern_of(v)) }
    }

    proof fn lemma_range() {
        lemma_half();
    }

    proof fn lemma_value_in_range(x: I256) {
        lemma_half();
        U256::lemma_value_in_range(x.bits);
    }

    proof fn lemma_from_int(v: int) {
        lemma_half();
        U256::lemma_from_int(pattern_of(v));
    }

    proof fn lemma_from_value(x: I256) {
        lemma_half();
        U256::lemma_value_in_range(x.bits);
        U256::lemma_from_value(x.bits);
    }

    fn from_i128(v: i128) -> (r: Option<I256>) {
        proof {
            lemma_half();
        }
        if v >= 0 {
            let bits = U256::from_u128(v as u128);
            Some(I256 { bits })
        } else {
            let shifted = (v + i128::MAX) + 1;
            let pattern = (shifted as u128) + 0x8000_0000_0000_0000_0000_0000_0000_0000;
            let low = U256::from_u128(pattern);
            let bits = U256 { l0: low.l0, l1: low.l1, l2: u64::MAX, l3: u64::MAX };
            proof {
                let b = limb_base();
                assert(pattern as int == v + b * b);
                assert(bits.int_value() == v + (u256_max() + 1)) by (nonlinear_arith)
                    requires
                        low.l0 + b * (low.l1 + b * (0 + b * 0)) == v + b * b,
                        bits.int_value() == low.l0 + b * (low.l1 + b * ((b - 1) + b * (b - 1))),
                        u256_max() == b * b * b * b - 1,
                ;
                U256::lemma_from_value(bits);
            }
            Some(I256 { bits })
        }
    }

    fn checked_add_prim(self, rhs: I256) -> (r: Option<I256>) {
        i256_checked_add(self, rhs)
    }

    fn checked_sub_prim(self, rhs: I256) -> (r: Option<I256>) {
        i256_checked_sub(self, rhs)
    }

    fn checked_mul_prim(self, rhs: I256) -> (r: Option<I256>) {
        i256_checked_mul(self, rhs)
    }

    fn checked_div_prim(self, rhs: I256) -> (r: Option<I256>) {
        proof {
            I256::lemma_value_in_range(self);
            I256::lemma_value_in_range(rhs);
            if rhs.int_value() != 0 {
                lemma_trunc_div_bound(self.int_value(), rhs.int_value());
            }
        }
        i256_checked_div(self, rhs)
    }

    fn checked_rem_prim(self, rhs: I256) -> (r: Option<I256>) {
        let minus_one = I256::minus_one();
        proof {
            I256::lemma_value_in_range(self);
            I256::lemma_value_in_range(rhs);
            I256::lemma_from_value(rhs);
            I256::lemma_from_value(minus_one);
        }
        if rhs == minus_one {
            proof {
                assert(abs(self.int_value()) % 1 == 0) by (nonlinear_arith);
                I256::lemma_from_value(I256::from_int(0));
            }
            Some(I256 { bits: U256::min_value() })
        } else {
            proof {
                if rhs.int_value() != 0 {
                    lemma_trunc_rem_bound(self.int_value(), rhs.int_value());
                }
            }
            i256_checked_rem(self, rhs)
        }
    }

    fn checked_neg_prim(self) -> (r: Option<I256>) {
        i256_checked_neg(self)
    }
}

} // verus!
