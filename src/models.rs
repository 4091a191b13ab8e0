//! Arithmetic written against the checked domain: every operator goes
//! through `Checked`, and the first failure becomes the function's error.
use vstd::prelude::*;

use crate::checked::{Checked, CheckedError};

verus! {

#[derive(Debug, Clone, Copy, PartialEq, Eq, Structural)]
pub enum Error {
    CheckedError(CheckedError),
}

impl From<CheckedError> for Error {
    fn from(e: CheckedError) -> (r: Error) {
        Error::CheckedError(e)
    }
}

impl vstd::std_specs::convert::FromSpecImpl<CheckedError> for Error {
    open spec fn obeys_from_spec() -> bool {
        true
    }

    open spec fn from_spec(e: CheckedError) -> Error {
        Error::CheckedError(e)
    }
}

fn id(x: i32) -> (r: Result<i32, Error>)
    ensures
        r == Ok::<i32, Error>(x),
{
    Ok(x)
}

/// What `example` yields: `1 + x + -(y + y)` with `x = 2`, or the kind of
/// the first operation that leaves the `i32` range.
pub open spec fn example_result(y: int) -> Result<i32, Error> {
    if !(i32::MIN <= 2 * y <= i32::MAX) {
        Err(Error::CheckedError(CheckedError::Add))
    } else if 2 * y == i32::MIN {
        Err(Error::CheckedError(CheckedError::Neg))
    } else if 3 - 2 * y > i32::MAX {
        Err(Error::CheckedError(CheckedError::Add))
    } else {
        Ok((3 - 2 * y) as i32)
    }
}

/// Computes `1 + x + -id(y + y)` with `x = 1 + 1`, every operator checked and
/// evaluated left to right.
pub fn example(y: i32) -> (r: Result<i32, Error>)
    ensures
        r == example_result(y as int),
{
    let x: i32 = 1 + 1;
    let a = match (Checked::Value(1i32) + Checked::Value(x)).into_result() {
        Ok(v) => v,
        Err(e) => return Err(Error::from(e)),
    };
    let s = match (Checked::Value(y) + Checked::Value(y)).into_result() {
        Ok(v) => v,
        Err(e) => return Err(Error::from(e)),
    };
    let i = match id(s) {
        Ok(v) => v,
        Err(e) => return Err(e),
    };
    let n = match core::ops::Neg::neg(Checked::Value(i)).into_result() {
        Ok(v) => v,
        Err(e) => return Err(Error::from(e)),
    };
    match (Checked::Value(a) + Checked::Value(n)).into_result() {
        Ok(v) => Ok(v),
        Err(e) => Err(Error::from(e)),
    }
}

} // verus!
