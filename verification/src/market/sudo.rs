//! Governance adjustments of a market's parameters.

use vstd::prelude::*;

use crate::decimal::Decimal;
use crate::interest::{Interest, TokensInfo};
use crate::market::execute::helpers::{charge_aborts, charge_interest, spec_charge};
use crate::market::{Config, ContractError, MarketMsg};

verus! {

/// Sets the collateral ratio.
pub fn adjust_collateral_ratio(cfg: &mut Config, new_ratio: Decimal)
    ensures
        *final(cfg) == (Config { collateral_ratio: new_ratio, ..*old(cfg) }),
{
    cfg.collateral_ratio = new_ratio;
}

/// Sets the reserve factor.
pub fn adjust_reserve_factor(cfg: &mut Config, new_factor: Decimal)
    ensures
        *final(cfg) == (Config { reserve_factor: new_factor, ..*old(cfg) }),
{
    cfg.reserve_factor = new_factor;
}

/// Sets the price oracle.
pub fn adjust_price_oracle(cfg: &mut Config, new_oracle: String)
    ensures
        *final(cfg) == (Config { price_oracle: new_oracle, ..*old(cfg) }),
{
    cfg.price_oracle = new_oracle;
}

/// Sets or removes the market cap.
pub fn adjust_market_cap(cfg: &mut Config, new_cap: Option<u128>)
    ensures
        *final(cfg) == (Config { market_cap: new_cap, ..*old(cfg) }),
{
    cfg.market_cap = new_cap;
}

/// Sets the interest rate curve after charging the interest pending at `now`
/// under the old curve. The configuration stored is the one read before
/// charging, with the new curve: only the reserve and the rebase messages of
/// the charge are kept.
pub fn adjust_interest_rates(
    cfg: &mut Config,
    reserve: &mut u128,
    tokens_info: &TokensInfo,
    now: u64,
    new_interest_rates: Interest,
) -> (r: Result<Vec<MarketMsg>, ContractError>)
    requires
        !charge_aborts(*old(cfg), *old(reserve), *tokens_info, now),
    ensures
        match spec_charge(*old(cfg), *old(reserve), *tokens_info, now) {
            Ok((_c, res, msgs)) => r matches Ok(v) && v@ == msgs && *final(reserve) == res
                && *final(cfg) == (Config { rates: new_interest_rates, ..*old(cfg) }),
            Err(e) => r == Err::<Vec<MarketMsg>, ContractError>(e),
        },
{
    let mut stored = cfg.clone_config();
    let msgs = charge_interest(cfg, reserve, tokens_info, now)?;
    stored.rates = new_interest_rates;
    *cfg = stored;
    Ok(msgs)
}

} // verus!
