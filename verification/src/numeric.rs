//! The numeric primitives that the stores build on, taken from the `num` crate.
//!
//! Each function here makes one call into `num`. The verifier does not look
//! inside that crate, so the contracts below are taken on trust from its source.

use vstd::prelude::*;

verus! {

/// Calls `num::Zero::zero` for `u32`.
///
/// Trusted: the additive identity of `u32` is the number 0.
#[verifier::external_body]
pub(crate) fn zero_u32() -> (r: u32)
    ensures
        r == 0,
{
    num::Zero::zero()
}

/// Calls `num::One::one` for `u32`.
///
/// Trusted: the multiplicative identity of `u32` is the number 1.
#[verifier::external_body]
pub(crate) fn one_u32() -> (r: u32)
    ensures
        r == 1,
{
    num::One::one()
}

/// Calls `num::Zero::zero` for `u128`.
///
/// Trusted: the additive identity of `u128` is the number 0.
#[verifier::external_body]
pub(crate) fn zero_u128() -> (r: u128)
    ensures
        r == 0,
{
    num::Zero::zero()
}

/// Calls `num::CheckedAdd::checked_add` for `u128`.
///
/// Trusted: the result is the sum where it fits in a `u128`, and `None` where it
/// does not.
#[verifier::external_body]
pub(crate) fn checked_add_u128(a: u128, b: u128) -> (r: Option<u128>)
    ensures
        a + b <= u128::MAX ==> r == Some((a + b) as u128),
        a + b > u128::MAX ==> r.is_none(),
{
    num::CheckedAdd::checked_add(&a, &b)
}

/// Calls `num::CheckedSub::checked_sub` for `u128`.
///
/// Trusted: the result is the difference where the subtrahend does not exceed the
/// minuend, and `None` where it does.
#[verifier::external_body]
pub(crate) fn checked_sub_u128(a: u128, b: u128) -> (r: Option<u128>)
    ensures
        b <= a ==> r == Some((a - b) as u128),
        b > a ==> r.is_none(),
{
    num::CheckedSub::checked_sub(&a, &b)
}

} // verus!
