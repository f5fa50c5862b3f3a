//! Exchange rates between two native denominations.

use vstd::prelude::*;

use crate::coin::NativeCoin;
use crate::decimal::{mul_floor, uint_mul_decimal, Decimal};

verus! {

/// How many `buy_denom` tokens one `sell_denom` token is worth.
#[derive(Clone, Debug, PartialEq, Eq)]
pub struct PriceRate {
    pub sell_denom: String,
    pub buy_denom: String,
    pub rate_sell_per_buy: Decimal,
}

/// A coin that was to be priced is not in the rate's sell denomination.
#[derive(Clone, Copy, Debug, PartialEq, Eq, Structural)]
pub struct PriceError;

/// Whether converting `amount` at the rate overflows.
pub open spec fn price_conversion_overflows(amount: u128, rate: PriceRate) -> bool {
    mul_floor(amount as int, rate.rate_sell_per_buy.atomics as int) > u128::MAX
}

/// The value of a coin in the rate's buy denomination, floored; an error when
/// the coin is not in the sell denomination.
pub fn coin_times_price_rate(coin: &NativeCoin, rate: &PriceRate) -> (r: Result<NativeCoin, PriceError>)
    requires
        !price_conversion_overflows(coin.amount, *rate),
    ensures
        coin.denom@ != rate.sell_denom@ ==> r == Err::<NativeCoin, PriceError>(PriceError),
        coin.denom@ == rate.sell_denom@ ==> (r matches Ok(c) && c.denom@ == rate.buy_denom@
            && c.amount == mul_floor(coin.amount as int, rate.rate_sell_per_buy.atomics as int)),
{
    if coin.denom.eq(&rate.sell_denom) {
        Ok(
            NativeCoin {
                denom: rate.buy_denom.clone(),
                amount: uint_mul_decimal(coin.amount, rate.rate_sell_per_buy),
            },
        )
    } else {
        Err(PriceError)
    }
}

} // verus!
