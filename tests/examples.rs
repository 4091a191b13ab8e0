use checked_math::checked::CheckedError;
use checked_math::models::{self, Error};
use checked_math::non_models;

#[test]
fn example_example_test() {
    assert_eq!(non_models::example(3), -3);
    assert_eq!(non_models::example(0), 3);
}

#[test]
fn checked_example_matches_plain_in_range() {
    assert_eq!(models::example(3), Ok(-3));
    assert_eq!(models::example(0), Ok(3));
    assert_eq!(models::example(-1000), Ok(2003));
}

#[test]
fn checked_example_reports_the_first_failure() {
    assert_eq!(models::example(i32::MAX), Err(Error::CheckedError(CheckedError::Add)));
    assert_eq!(models::example(i32::MIN / 2), Err(Error::CheckedError(CheckedError::Neg)));
    assert_eq!(models::example(i32::MIN / 2 + 1), Err(Error::CheckedError(CheckedError::Add)));
}
