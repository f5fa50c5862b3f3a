//! Amounts of the rebasing L- and B-tokens as shown to their holders.

use vstd::prelude::*;

use crate::decimal::{cw_checked_multiply_ratio, mul_floor, ratio_floor, uint_mul_decimal, Decimal};

verus! {

/// The amount of tokens displayed in the API. The contract keeps a 1:1 mapping
/// to the base tokens; the amount actually stored is
/// `display_amount / multiplier`.
#[derive(Clone, Copy, Debug, PartialEq, Eq, Structural)]
pub struct DisplayAmount(u128);

impl View for DisplayAmount {
    type V = u128;

    /// The displayed amount.
    closed spec fn view(&self) -> u128 {
        self.0
    }
}

impl DisplayAmount {
    /// The displayed amount of a stored amount: `floor(amount * multiplier)`.
    pub fn from_stored_amount(multiplier: Decimal, amount: u128) -> (r: DisplayAmount)
        requires
            mul_floor(amount as int, multiplier.atomics as int) <= u128::MAX,
        ensures
            r@ == mul_floor(amount as int, multiplier.atomics as int),
    {
        DisplayAmount(uint_mul_decimal(amount, multiplier))
    }

    /// Zero.
    pub fn zero() -> (r: DisplayAmount)
        ensures
            r@ == 0,
    {
        DisplayAmount(0)
    }

    /// A displayed amount given directly.
    pub fn raw(amount: u128) -> (r: DisplayAmount)
        ensures
            r@ == amount,
    {
        DisplayAmount(amount)
    }

    /// The stored amount of this displayed amount: `floor(self / multiplier)`.
    pub fn to_stored_amount(self, multiplier: Decimal) -> (r: u128)
        requires
            multiplier.atomics > 0,
            ratio_floor(self@ as int, multiplier.atomics as int) <= u128::MAX,
        ensures
            r == ratio_floor(self@ as int, multiplier.atomics as int),
    {
        // the 256-bit quotient is narrowed back with `unwrap`, which the
        // bound in `requires` keeps from failing
        match cw_checked_multiply_ratio(self.0, crate::decimal::DECIMAL_FRACTIONAL, multiplier.atomics) {
            Some(v) => v,
            None => {
                assert(false);
                0
            },
        }
    }

    /// Whether the amount is zero.
    pub fn is_zero(&self) -> (r: bool)
        ensures
            r == (self@ == 0),
    {
        self.0 == 0
    }

    /// The displayed amount.
    pub fn display_amount(&self) -> (r: u128)
        ensures
            r == self@,
    {
        self.0
    }
}

/// Law: storing a displayed amount never gives back more than was stored:
/// `to_stored_amount(from_stored_amount(a)) <= a`, and the round trip is exact
/// for a multiplier of one.
pub proof fn law_display_round_trip(amount: u128, multiplier: Decimal)
    requires
        multiplier.atomics > 0,
    ensures
        ratio_floor(mul_floor(amount as int, multiplier.atomics as int), multiplier.atomics as int)
            <= amount,
        multiplier.atomics == crate::decimal::frac() ==> ratio_floor(
            mul_floor(amount as int, multiplier.atomics as int),
            multiplier.atomics as int,
        ) == amount,
{
    let a = amount as int;
    let m = multiplier.atomics as int;
    let f = crate::decimal::frac();
    let shown = mul_floor(a, m);
    vstd::arithmetic::div_mod::lemma_fundamental_div_mod(a * m, f);
    vstd::arithmetic::div_mod::lemma_mod_bound(a * m, f);
    assert(shown * f <= a * m) by (nonlinear_arith)
        requires
            a * m == f * shown + (a * m) % f,
            (a * m) % f >= 0,
    ;
    vstd::arithmetic::div_mod::lemma_div_is_ordered(shown * f, a * m, m);
    assert(a * m / m == a) by (nonlinear_arith)
        requires
            m > 0,
    ;
    if m == f {
        assert(a * m / f == a) by (nonlinear_arith)
            requires
                m == f,
                f > 0,
        ;
        assert(a * f / m == a) by (nonlinear_arith)
            requires
                m == f,
                f > 0,
        ;
    }
}

/// Query a token contract sends to its controller (the market).
#[derive(Clone, Debug, PartialEq, Eq)]
pub enum ControllerQuery {
    /// How much `account` may transfer of the token contract `token`.
    TransferableAmount { token: String, account: String },
}

/// Metadata of an L- or B-token contract.
#[derive(Clone, Debug, PartialEq, Eq)]
pub struct TokenInfoResponse {
    pub name: String,
    pub symbol: String,
    pub decimals: u8,
    pub total_supply: DisplayAmount,
}

} // verus!
