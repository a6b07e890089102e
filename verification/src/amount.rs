//! Token amounts.
//!
//! Amounts are `fvm_shared::econ::TokenAmount` values: integers of arbitrary
//! precision, counted in indivisible units (atto). Their arithmetic is done by
//! that crate; this module states what each operation computes.

use fvm_shared::econ::TokenAmount;
use vstd::prelude::*;

verus! {

/// `fvm_shared::econ::TokenAmount`: nothing is known of a value but what
/// `atto` says of it.
#[verifier::external_type_specification]
#[verifier::external_body]
pub struct ExTokenAmount(fvm_shared::econ::TokenAmount);

/// The integer that a token amount holds: its number of indivisible units.
pub uninterp spec fn atto(t: TokenAmount) -> int;

/// `TokenAmount::from_atto` on a `u64`: the amount of `n` units.
#[verifier::external_body]
pub(crate) fn amount_from_atto(n: u64) -> (r: TokenAmount)
    ensures
        atto(r) == n,
{
    TokenAmount::from_atto(n)
}

/// `Clone::clone` of `TokenAmount`: an amount of the same number of units.
pub assume_specification[ <TokenAmount as Clone>::clone ](a: &TokenAmount) -> (r: TokenAmount)
    ensures
        atto(r) == atto(*a),
;

/// `Add` of two `&TokenAmount`: the sum, which cannot overflow.
#[verifier::external_body]
pub(crate) fn amount_add(a: &TokenAmount, b: &TokenAmount) -> (r: TokenAmount)
    ensures
        atto(r) == atto(*a) + atto(*b),
{
    a + b
}

/// `Sub` of two `&TokenAmount`: the difference, negative where `b` is the larger.
#[verifier::external_body]
pub(crate) fn amount_sub(a: &TokenAmount, b: &TokenAmount) -> (r: TokenAmount)
    ensures
        atto(r) == atto(*a) - atto(*b),
{
    a - b
}

/// `PartialOrd::lt` of `TokenAmount`: the order of the integers.
#[verifier::external_body]
pub(crate) fn amount_lt(a: &TokenAmount, b: &TokenAmount) -> (r: bool)
    ensures
        r == (atto(*a) < atto(*b)),
{
    a < b
}

/// `TokenAmount::div_floor` by a `u64`: the quotient, rounded down.
#[verifier::external_body]
pub(crate) fn amount_div_floor(a: &TokenAmount, d: u64) -> (r: TokenAmount)
    requires
        d > 0,
    ensures
        atto(r) == atto(*a) / (d as int),
{
    a.div_floor(d)
}

} // verus!
