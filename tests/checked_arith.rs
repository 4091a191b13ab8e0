use checked_math::checked::{Checked, CheckedError};
use checked_math::primitive::CheckedPrimitive;
use checked_math::wide::{I256, U256};

fn l<T>(v: T) -> Checked<T> {
    Checked::Value(v)
}

#[test]
fn test_checked_add() {
    assert_eq!(l(1u8) + l(2u8), l(3u8));
    assert_eq!(l(255u8) + l(1u8), Checked::Failed(CheckedError::Add));

    assert_eq!(l(U256::from_u128(1)) + l(U256::from_u128(2)), l(U256::from_u128(3)));
    assert_eq!(Checked::Value(U256::max_value()) + l(U256::from_u128(1)), Checked::Failed(CheckedError::Add));

    assert_eq!(l(64i8) + l(63i8), l(127i8));
    assert_eq!(l(-64i8) + l(63i8), l(-1i8));
    assert_eq!(l(64i8) + l(64i8), Checked::Failed(CheckedError::Add));
}

#[test]
fn test_checked_sub() {
    assert_eq!(l(3u8) - l(2u8), l(1u8));
    assert_eq!(l(0u8) - l(1u8), Checked::Failed(CheckedError::Sub));

    assert_eq!(l(U256::from_u128(3)) - l(U256::from_u128(2)), l(U256::from_u128(1)));
    assert_eq!(Checked::Value(U256::min_value()) - l(U256::from_u128(1)), Checked::Failed(CheckedError::Sub));

    assert_eq!(l(64i8) - l(63i8), l(1i8));
    assert_eq!(l(-64i8) - l(64i8), l(-128i8));
    assert_eq!(l(-64i8) - l(65i8), Checked::Failed(CheckedError::Sub));
}

#[test]
fn test_checked_mul() {
    assert_eq!(l(3u8) * l(2u8), l(6u8));
    assert_eq!(l(32u8) * l(8u8), Checked::Failed(CheckedError::Mul));
}

#[test]
fn test_checked_div() {
    assert_eq!(l(6u8) / l(2u8), l(3u8));
    assert_eq!(l(0u8) / l(1u8), l(0u8));
    assert_eq!(l(1u8) / l(0u8), Checked::Failed(CheckedError::Div));
}

#[test]
fn test_checked_rem() {
    assert_eq!(l(5u8) % l(2u8), l(1u8));
    assert_eq!(l(0u8) % l(1u8), l(0u8));
    assert_eq!(l(1u8) % l(0u8), Checked::Failed(CheckedError::Rem));
}

#[test]
fn in_range_results_are_exact() {
    assert_eq!(l(1_000_000i64) * l(-3i64), l(-3_000_000i64));
    assert_eq!(l(-7i32) / l(2i32), l(-3i32));
    assert_eq!(l(-7i32) % l(2i32), l(-1i32));
    assert_eq!(l(7i32) % l(-2i32), l(1i32));
    assert_eq!(l(u128::MAX - 1) + l(1u128), l(u128::MAX));
    assert_eq!(l(10usize) - l(10usize), l(0usize));
}

#[test]
fn boundaries_fail_with_their_kind() {
    assert_eq!(l(i32::MAX) + l(1i32), Checked::Failed(CheckedError::Add));
    assert_eq!(l(i32::MIN) - l(1i32), Checked::Failed(CheckedError::Sub));
    assert_eq!(-l(i32::MIN), Checked::Failed(CheckedError::Neg));
    assert_eq!(-l(i64::MIN), Checked::Failed(CheckedError::Neg));
    assert_eq!(-l(5i16), l(-5i16));
    assert_eq!(l(u64::MAX) + l(1u64), Checked::Failed(CheckedError::Add));
    assert_eq!(l(0u16) - l(1u16), Checked::Failed(CheckedError::Sub));
}

#[test]
fn unsigned_negation_holds_only_zero() {
    assert_eq!(-l(0u32), l(0u32));
    assert_eq!(-l(1u32), Checked::Failed(CheckedError::Neg));
}

#[test]
fn signed_minimum_over_minus_one() {
    assert_eq!(l(i8::MIN) / l(-1i8), Checked::Failed(CheckedError::Div));
    assert_eq!(l(i8::MIN) % l(-1i8), l(0i8));
}

#[test]
fn division_by_zero_for_every_dividend() {
    for x in [i16::MIN, -1, 0, 1, i16::MAX] {
        assert_eq!(l(x) / l(0i16), Checked::Failed(CheckedError::Div));
        assert_eq!(l(x) % l(0i16), Checked::Failed(CheckedError::Rem));
    }
    for n in [i16::MIN, -1, 1, i16::MAX] {
        assert_eq!(l(0i16) / l(n), l(0i16));
    }
}

#[test]
fn errors_absorb_left_first() {
    let a: Checked<i32> = Checked::Failed(CheckedError::Mul);
    let b: Checked<i32> = Checked::Failed(CheckedError::Div);
    assert_eq!(a + b, Checked::Failed(CheckedError::Mul));
    assert_eq!(a + l(1), Checked::Failed(CheckedError::Mul));
    assert_eq!(l(1) - b, Checked::Failed(CheckedError::Div));
    assert_eq!(-a, Checked::Failed(CheckedError::Mul));
}

#[test]
fn lift_and_into_result() {
    assert_eq!(Checked::lift(9u8), l(9u8));
    assert_eq!(l(9u8).into_result(), Ok(9u8));
    assert_eq!(Checked::<u8>::Failed(CheckedError::Rem).into_result(), Err(CheckedError::Rem));
}

#[test]
fn wide_arithmetic_carries_across_limbs() {
    let big = U256::from_u128(u128::MAX);
    let sum = (l(big) + l(U256::from_u128(1))).into_result().unwrap();
    assert_eq!(sum, U256 { l0: 0, l1: 0, l2: 1, l3: 0 });
    assert_eq!(l(sum) - l(U256::from_u128(1)), l(big));
    let sq = (l(big) * l(big)).into_result().unwrap();
    assert_eq!(sq.limbs(), [1, 0, u64::MAX - 1, u64::MAX]);
    assert_eq!(l(sq) / l(big), l(big));
    assert_eq!(l(U256::from_u128(17)) % l(U256::from_u128(5)), l(U256::from_u128(2)));
    assert_eq!(l(sq) * l(U256::from_u128(2)), Checked::Failed(CheckedError::Mul));
    assert_eq!(l(sq) / l(U256::min_value()), Checked::Failed(CheckedError::Div));
    assert_eq!(l(sq) % l(U256::min_value()), Checked::Failed(CheckedError::Rem));
    assert_eq!(-l(U256::min_value()), l(U256::min_value()));
    assert_eq!(-l(U256::from_u128(4)), Checked::Failed(CheckedError::Neg));
    assert_eq!(U256::from_limbs([5, 6, 7, 8]).limbs(), [5, 6, 7, 8]);
}

fn i(v: i128) -> Checked<I256> {
    Checked::Value(I256::from_i128(v).unwrap())
}

#[test]
fn signed_wide_arithmetic() {
    assert_eq!(i(64) + i(63), i(127));
    assert_eq!(i(-64) + i(63), i(-1));
    assert_eq!(i(-64) - i(65), i(-129));
    assert_eq!(I256::from_i128(-1), Some(I256::minus_one()));
    assert_eq!(i(i128::MIN) * i(2), i(i128::MIN) + i(i128::MIN));
    assert_eq!(i(-7) / i(2), i(-3));
    assert_eq!(i(-7) % i(2), i(-1));
    assert_eq!(i(7) % i(-2), i(1));
    assert_eq!(i(0) / i(-5), i(0));
    assert_eq!(-i(5), i(-5));
}

#[test]
fn signed_wide_boundaries() {
    let max = Checked::Value(I256::max_value());
    let min = Checked::Value(I256::min_value());
    assert_eq!(max + i(1), Checked::Failed(CheckedError::Add));
    assert_eq!(min - i(1), Checked::Failed(CheckedError::Sub));
    assert_eq!(-min, Checked::Failed(CheckedError::Neg));
    assert_eq!(min / i(-1), Checked::Failed(CheckedError::Div));
    assert_eq!(min % i(-1), i(0));
    assert_eq!(min / i(1), min);
    assert_eq!(max * i(2), Checked::Failed(CheckedError::Mul));
    assert_eq!(i(3) / i(0), Checked::Failed(CheckedError::Div));
    assert_eq!(i(3) % i(0), Checked::Failed(CheckedError::Rem));
}
