//! The checked value: a result of fixed-width arithmetic or the kind of
//! operation that failed.
use vstd::prelude::*;

use crate::primitive::{in_range, trunc_div, trunc_rem, CheckedPrimitive};

verus! {

/// Which checked operation failed.
#[derive(Debug, Clone, Copy, PartialEq, Eq, Structural)]
pub enum CheckedError {
    Add,
    Sub,
    Mul,
    Div,
    Rem,
    Neg,
}

/// Another name for `CheckedError`.
pub type CheckedMathError = CheckedError;

/// A value of `T`, or the kind of the first checked operation that failed
/// while computing it.
#[derive(Debug, Clone, Copy, PartialEq, Eq)]
pub enum Checked<T> {
    Value(T),
    Failed(CheckedError),
}

/// The exact mathematical result of operation `op` on `x` and `y` (`y` is
/// ignored by `Neg`), or `None` where it has none (a zero divisor).
pub open spec fn exact_result(op: CheckedError, x: int, y: int) -> Option<int> {
    match op {
        CheckedError::Add => Some(x + y),
        CheckedError::Sub => Some(x - y),
        CheckedError::Mul => Some(x * y),
        CheckedError::Div => if y == 0 {
            None
        } else {
            Some(trunc_div(x, y))
        },
        CheckedError::Rem => if y == 0 {
            None
        } else {
            Some(trunc_rem(x, y))
        },
        CheckedError::Neg => Some(-x),
    }
}

/// The checked primitive: the exact result where `T` holds it, else `Failed(op)`.
pub open spec fn checked_value<T: CheckedPrimitive>(op: CheckedError, x: T, y: T) -> Checked<T> {
    match exact_result(op, x.int_value(), y.int_value()) {
        Some(v) => if in_range::<T>(v) {
            Checked::Value(T::from_int(v))
        } else {
            Checked::Failed(op)
        },
        None => Checked::Failed(op),
    }
}

/// Binary operation `op` on checked operands: the left error wins, then the
/// right one, and only two values reach the checked primitive.
pub open spec fn checked_binary<T: CheckedPrimitive>(
    op: CheckedError,
    a: Checked<T>,
    b: Checked<T>,
) -> Checked<T> {
    match a {
        Checked::Failed(e) => Checked::Failed(e),
        Checked::Value(x) => match b {
            Checked::Failed(e) => Checked::Failed(e),
            Checked::Value(y) => checked_value(op, x, y),
        },
    }
}

/// Negation of a checked operand: an error passes through unchanged.
pub open spec fn checked_negation<T: CheckedPrimitive>(a: Checked<T>) -> Checked<T> {
    match a {
        Checked::Failed(e) => Checked::Failed(e),
        Checked::Value(x) => checked_value(CheckedError::Neg, x, x),
    }
}

impl<T> Checked<T> {
    /// Lifts a raw value: always `Value`.
    pub fn lift(value: T) -> (r: Checked<T>)
        ensures
            r == Checked::<T>::Value(value),
    {
        Checked::Value(value)
    }

    /// Hands the value or the error over as a `Result`, for `?`.
    pub fn into_result(self) -> (r: Result<T, CheckedError>)
        ensures
            self matches Checked::Value(v) ==> r == Ok::<T, CheckedError>(v),
            self matches Checked::Failed(e) ==> r == Err::<T, CheckedError>(e),
    {
        match self {
            Checked::Value(v) => Ok(v),
            Checked::Failed(e) => Err(e),
        }
    }
}

/// The bind of two checked operands: an error of `a`, else an error of `b`,
/// else the checked primitive `op` on the two values.
fn apply_checked<T: CheckedPrimitive>(op: CheckedError, a: Checked<T>, b: Checked<T>) -> (r: Checked<T>)
    requires
        op != CheckedError::Neg,
    ensures
        r == checked_binary(op, a, b),
{
    let x = match a {
        Checked::Failed(e) => return Checked::Failed(e),
        Checked::Value(x) => x,
    };
    let y = match b {
        Checked::Failed(e) => return Checked::Failed(e),
        Checked::Value(y) => y,
    };
    let r = match op {
        CheckedError::Add => x.checked_add_prim(y),
        CheckedError::Sub => x.checked_sub_prim(y),
        CheckedError::Mul => x.checked_mul_prim(y),
        CheckedError::Div => x.checked_div_prim(y),
        _ => x.checked_rem_prim(y),
    };
    match r {
        Some(v) => Checked::Value(v),
        None => Checked::Failed(op),
    }
}

impl<T: CheckedPrimitive> core::ops::Add for Checked<T> {
    type Output = Checked<T>;

    fn add(self, rhs: Checked<T>) -> (r: Checked<T>) {
        apply_checked(CheckedError::Add, self, rhs)
    }
}

impl<T: CheckedPrimitive> vstd::std_specs::ops::AddSpecImpl for Checked<T> {
    open spec fn obeys_add_spec() -> bool {
        true
    }

    open spec fn add_req(self, rhs: Checked<T>) -> bool {
        true
    }

    open spec fn add_spec(self, rhs: Checked<T>) -> Checked<T> {
        checked_binary(CheckedError::Add, self, rhs)
    }
}

impl<T: CheckedPrimitive> core::ops::Sub for Checked<T> {
    type Output = Checked<T>;

    fn sub(self, rhs: Checked<T>) -> (r: Checked<T>) {
        apply_checked(CheckedError::Sub, self, rhs)
    }
}

impl<T: CheckedPrimitive> vstd::std_specs::ops::SubSpecImpl for Checked<T> {
    open spec fn obeys_sub_spec() -> bool {
        true
    }

    open spec fn sub_req(self, rhs: Checked<T>) -> bool {
        true
    }

    open spec fn sub_spec(self, rhs: Checked<T>) -> Checked<T> {
        checked_binary(CheckedError::Sub, self, rhs)
    }
}

impl<T: CheckedPrimitive> core::ops::Mul for Checked<T> {
    type Output = Checked<T>;

    fn mul(self, rhs: Checked<T>) -> (r: Checked<T>) {
        apply_checked(CheckedError::Mul, self, rhs)
    }
}

impl<T: CheckedPrimitive> vstd::std_specs::ops::MulSpecImpl for Checked<T> {
    open spec fn obeys_mul_spec() -> bool {
        true
    }

    open spec fn mul_req(self, rhs: Checked<T>) -> bool {
        true
    }

    open spec fn mul_spec(self, rhs: Checked<T>) -> Checked<T> {
        checked_binary(CheckedError::Mul, self, rhs)
    }
}

impl<T: CheckedPrimitive> core::ops::Div for Checked<T> {
    type Output = Checked<T>;

    fn div(self, rhs: Checked<T>) -> (r: Checked<T>) {
        apply_checked(CheckedError::Div, self, rhs)
    }
}

impl<T: CheckedPrimitive> vstd::std_specs::ops::DivSpecImpl for Checked<T> {
    open spec fn obeys_div_spec() -> bool {
        true
    }

    open spec fn div_req(self, rhs: Checked<T>) -> bool {
        true
    }

    open spec fn div_spec(self, rhs: Checked<T>) -> Checked<T> {
        checked_binary(CheckedError::Div, self, rhs)
    }
}

impl<T: CheckedPrimitive> core::ops::Rem for Checked<T> {
    type Output = Checked<T>;

    fn rem(self, rhs: Checked<T>) -> (r: Checked<T>) {
        apply_checked(CheckedError::Rem, self, rhs)
    }
}

impl<T: CheckedPrimitive> vstd::std_specs::ops::RemSpecImpl for Checked<T> {
    open spec fn obeys_rem_spec() -> bool {
        true
    }

    open spec fn rem_req(self, rhs: Checked<T>) -> bool {
        true
    }

    open spec fn rem_spec(self, rhs: Checked<T>) -> Checked<T> {
        checked_binary(CheckedError::Rem, self, rhs)
    }
}

impl<T: CheckedPrimitive> core::ops::Neg for Checked<T> {
    type Output = Checked<T>;

    fn neg(self) -> (r: Checked<T>) {
        let x = match self {
            Checked::Failed(e) => return Checked::Failed(e),
            Checked::Value(x) => x,
        };
        match x.checked_neg_prim() {
            Some(v) => Checked::Value(v),
            None => Checked::Failed(CheckedError::Neg),
        }
    }
}

impl<T: CheckedPrimitive> vstd::std_specs::ops::NegSpecImpl for Checked<T> {
    open spec fn obeys_neg_spec() -> bool {
        true
    }

    open spec fn neg_req(self) -> bool {
        true
    }

    open spec fn neg_spec(self) -> Checked<T> {
        checked_negation(self)
    }
}

/// In-range arithmetic is exact: where the mathematical result of a binary
/// operation on two values exists and the width holds it, the checked
/// operation yields exactly that value.
pub proof fn lemma_in_range_exact<T: CheckedPrimitive>(op: CheckedError, a: T, b: T, v: int)
    requires
        op != CheckedError::Neg,
        exact_result(op, a.int_value(), b.int_value()) == Some(v),
        in_range::<T>(v),
    ensures
        checked_binary(op, Checked::Value(a), Checked::Value(b)) == Checked::<T>::Value(T::from_int(v)),
        T::from_int(v).int_value() == v,
{
    T::lemma_from_int(v);
}

/// Where a value of the width holds the exact result, the checked operation
/// yields that very value.
pub proof fn lemma_in_range_value<T: CheckedPrimitive>(op: CheckedError, a: T, b: T, c: T)
    requires
        op != CheckedError::Neg,
        exact_result(op, a.int_value(), b.int_value()) == Some(c.int_value()),
    ensures
        checked_binary(op, Checked::Value(a), Checked::Value(b)) == Checked::<T>::Value(c),
{
    T::lemma_value_in_range(c);
    T::lemma_from_value(c);
}

/// The bounds of a width: its maximum plus one fails as an addition, its
/// minimum minus one fails as a subtraction, and negating the minimum of a
/// signed width fails as a negation.
pub proof fn lemma_boundaries<T: CheckedPrimitive>(max: T, min: T, one: T)
    requires
        max.int_value() == T::max_int(),
        min.int_value() == T::min_int(),
        one.int_value() == 1,
    ensures
        checked_binary(CheckedError::Add, Checked::Value(max), Checked::Value(one))
            == Checked::<T>::Failed(CheckedError::Add),
        checked_binary(CheckedError::Sub, Checked::Value(min), Checked::Value(one))
            == Checked::<T>::Failed(CheckedError::Sub),
        T::min_int() < 0 ==> checked_negation(Checked::Value(min)) == Checked::<T>::Failed(
            CheckedError::Neg,
        ),
{
    T::lemma_range();
    T::lemma_value_in_range(max);
    T::lemma_value_in_range(min);
}

/// Division and remainder by zero fail with their own kind, whatever the
/// dividend; zero divided by any other value is zero.
pub proof fn lemma_division_by_zero<T: CheckedPrimitive>(x: T, zero: T, n: T)
    requires
        zero.int_value() == 0,
        n.int_value() != 0,
    ensures
        checked_binary(CheckedError::Div, Checked::Value(x), Checked::Value(zero))
            == Checked::<T>::Failed(CheckedError::Div),
        checked_binary(CheckedError::Rem, Checked::Value(x), Checked::Value(zero))
            == Checked::<T>::Failed(CheckedError::Rem),
        checked_binary(CheckedError::Div, Checked::Value(zero), Checked::Value(n))
            == Checked::<T>::Value(zero),
{
    assert(trunc_div(0, n.int_value()) == 0) by (nonlinear_arith)
        requires
            n.int_value() != 0,
    ;
    lemma_in_range_value(CheckedError::Div, zero, n, zero);
}

/// Errors absorb: the left operand's error is the result whatever the right
/// operand is, and the right operand's error is the result when the left one
/// is a value.
pub proof fn lemma_error_precedence<T: CheckedPrimitive>(
    op: CheckedError,
    k: CheckedError,
    b: Checked<T>,
    x: T,
)
    ensures
        checked_binary(op, Checked::Failed(k), b) == Checked::<T>::Failed(k),
        checked_binary(op, Checked::Value(x), Checked::Failed(k)) == Checked::<T>::Failed(k),
        checked_negation(Checked::<T>::Failed(k)) == Checked::<T>::Failed(k),
{
}

} // verus!
