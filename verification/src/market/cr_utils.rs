//! Helpers on the credit available to an account.

use vstd::prelude::*;

use crate::coin::{Token, TokenView};
use crate::credit_line::{response_in_token, CreditLineResponse};
use crate::decimal::{frac, ratio_floor, Decimal, DECIMAL_FRACTIONAL};
use crate::market::{Config, ContractError};
use crate::price::PriceRate;

verus! {

/// Division by a zero decimal.
#[derive(Clone, Copy, Debug, PartialEq, Eq, Structural)]
pub struct DivideByZeroError;

/// `top / bottom`, floored; an error when `bottom` is zero.
pub fn divide(top: u128, bottom: Decimal) -> (r: Result<u128, DivideByZeroError>)
    requires
        top * frac() <= u128::MAX,
    ensures
        bottom.atomics == 0 ==> r == Err::<u128, DivideByZeroError>(DivideByZeroError),
        bottom.atomics != 0 ==> r == Ok::<u128, DivideByZeroError>(
            ratio_floor(top as int, bottom.atomics as int) as u128,
        ),
{
    let scaled = top * DECIMAL_FRACTIONAL;
    if bottom.atomics == 0 {
        Err(DivideByZeroError)
    } else {
        Ok(scaled / bottom.atomics)
    }
}

/// `a - b`, or 0 when `b > a`.
pub open spec fn saturating_sub(a: u128, b: u128) -> u128 {
    if a > b { (a - b) as u128 } else { 0 }
}

/// The common tokens an account may still borrow: its credit line minus its
/// debt, across all markets.
pub open spec fn available_common(credit: CreditLineResponse) -> u128 {
    saturating_sub(credit.credit_line.amount, credit.debt.amount)
}

/// Local tokens worth `common_tokens` common tokens at the price.
pub open spec fn spec_available_local_tokens(price: PriceRate, common_tokens: u128) -> Result<
    u128,
    ContractError,
> {
    if price.rate_sell_per_buy.atomics == 0 {
        Err(ContractError::ZeroPrice)
    } else {
        Ok(ratio_floor(common_tokens as int, price.rate_sell_per_buy.atomics as int) as u128)
    }
}

/// Market tokens an account may still borrow given its total credit line.
pub open spec fn spec_available_tokens(cfg: Config, credit: CreditLineResponse, price: PriceRate) -> Result<
    u128,
    ContractError,
> {
    if !response_in_token(credit, Token::Native(cfg.common_token)) {
        Err(ContractError::InvalidCommonTokenDenom)
    } else {
        spec_available_local_tokens(price, available_common(credit))
    }
}

/// Whether converting to local tokens aborts on these values: only once the
/// credit line was found to be in the common token.
pub open spec fn available_tokens_aborts(cfg: Config, credit: CreditLineResponse) -> bool {
    &&& response_in_token(credit, Token::Native(cfg.common_token))
    &&& available_common(credit) * frac() > u128::MAX
}

/// Local tokens worth `common_tokens` common tokens, at the market's price of
/// the local token in common tokens.
pub fn available_local_tokens(price: &PriceRate, common_tokens: u128) -> (r: Result<u128, ContractError>)
    requires
        common_tokens * frac() <= u128::MAX,
    ensures
        r == spec_available_local_tokens(*price, common_tokens),
{
    match divide(common_tokens, price.rate_sell_per_buy) {
        Ok(v) => Ok(v),
        Err(_) => Err(ContractError::ZeroPrice),
    }
}

/// The market tokens the account may still borrow, given its total credit
/// line from the credit agency and the market's price.
pub fn query_available_tokens(config: &Config, credit: &CreditLineResponse, price: &PriceRate) -> (r:
    Result<u128, ContractError>)
    requires
        !available_tokens_aborts(*config, *credit),
    ensures
        r == spec_available_tokens(*config, *credit, *price),
{
    let credit = match credit.validate(&Token::Native(config.common_token.clone())) {
        Ok(v) => v,
        Err(_) => return Err(ContractError::InvalidCommonTokenDenom),
    };
    // credit still available to the account amongst all markets
    let available_common = if credit.credit_line > credit.debt {
        credit.credit_line - credit.debt
    } else {
        0
    };
    available_local_tokens(price, available_common)
}

/// Whether the account may borrow `amount` more market tokens.
pub fn can_borrow(config: &Config, credit: &CreditLineResponse, price: &PriceRate, amount: u128) -> (r:
    Result<bool, ContractError>)
    requires
        !available_tokens_aborts(*config, *credit),
    ensures
        r == (match spec_available_tokens(*config, *credit, *price) {
            Ok(available) => Ok::<bool, ContractError>(amount <= available),
            Err(e) => Err(e),
        }),
{
    let available = query_available_tokens(config, credit, price)?;
    Ok(amount <= available)
}

/// The L-tokens the account may transfer or withdraw: the available credit
/// divided by the collateral ratio, and, for an account without debt, at
/// least its whole L-token balance.
pub open spec fn spec_transferable_amount(
    cfg: Config,
    credit: CreditLineResponse,
    price: PriceRate,
    ltoken_balance: u128,
) -> Result<u128, ContractError> {
    match spec_available_tokens(cfg, credit, price) {
        Err(e) => Err(e),
        Ok(available) => if cfg.collateral_ratio.atomics == 0 {
            Err(ContractError::ZeroCollateralRatio)
        } else {
            let can_transfer = ratio_floor(available as int, cfg.collateral_ratio.atomics as int);
            if credit.debt.amount == 0 && ltoken_balance > can_transfer {
                Ok(ltoken_balance)
            } else {
                Ok(can_transfer as u128)
            }
        },
    }
}

/// Whether computing the transferable amount aborts on these values.
pub open spec fn transferable_aborts(cfg: Config, credit: CreditLineResponse, price: PriceRate) -> bool {
    ||| available_tokens_aborts(cfg, credit)
    ||| (spec_available_tokens(cfg, credit, price) matches Ok(a) && a * frac() > u128::MAX)
}

/// Whether converting the account's available credit to local tokens would
/// abort (see `available_tokens_aborts`).
pub fn available_tokens_overflow(config: &Config, credit: &CreditLineResponse) -> (r: bool)
    ensures
        r == available_tokens_aborts(*config, *credit),
{
    match credit.validate(&Token::Native(config.common_token.clone())) {
        Err(_) => false,
        Ok(values) => {
            let available = if values.credit_line > values.debt {
                values.credit_line - values.debt
            } else {
                0
            };
            available.checked_mul(DECIMAL_FRACTIONAL).is_none()
        },
    }
}

/// Whether computing the transferable amount would abort (see
/// `transferable_aborts`).
pub fn transferable_overflows(config: &Config, credit: &CreditLineResponse, price: &PriceRate) -> (r: bool)
    ensures
        r == transferable_aborts(*config, *credit, *price),
{
    if available_tokens_overflow(config, credit) {
        return true;
    }
    match query_available_tokens(config, credit, price) {
        Ok(available) => available.checked_mul(DECIMAL_FRACTIONAL).is_none(),
        Err(_) => false,
    }
}

/// The L-tokens the account may transfer or withdraw.
pub fn transferable_amount(
    config: &Config,
    credit: &CreditLineResponse,
    price: &PriceRate,
    ltoken_balance: u128,
) -> (r: Result<u128, ContractError>)
    requires
        !transferable_aborts(*config, *credit, *price),
    ensures
        r == spec_transferable_amount(*config, *credit, *price, ltoken_balance),
{
    let values = match credit.validate(&Token::Native(config.common_token.clone())) {
        Ok(v) => v,
        Err(_) => return Err(ContractError::InvalidCommonTokenDenom),
    };
    let available = query_available_tokens(config, credit, price)?;
    let mut can_transfer = match divide(available, config.collateral_ratio) {
        Ok(v) => v,
        Err(_) => return Err(ContractError::ZeroCollateralRatio),
    };
    if values.debt == 0 && ltoken_balance > can_transfer {
        can_transfer = ltoken_balance;
    }
    Ok(can_transfer)
}

/// `floor(floor(x * 10^18 / p) * p / 10^18) <= x`: converting common tokens
/// to local tokens and back never gains anything.
pub(crate) proof fn lemma_convert_back(x: int, p: int)
    requires
        x >= 0,
        p > 0,
    ensures
        crate::decimal::mul_floor(ratio_floor(x, p), p) <= x,
{
    let f = frac();
    let q = ratio_floor(x, p);
    vstd::arithmetic::div_mod::lemma_fundamental_div_mod(x * f, p);
    vstd::arithmetic::div_mod::lemma_mod_bound(x * f, p);
    assert(q * p <= x * f) by (nonlinear_arith)
        requires
            x * f == p * q + (x * f) % p,
            (x * f) % p >= 0,
    ;
    vstd::arithmetic::div_mod::lemma_div_is_ordered(q * p, x * f, f);
    assert(x * f / f == x) by (nonlinear_arith)
        requires
            f > 0,
    ;
}

/// Law: an account may only borrow within its credit line: once it borrows
/// any amount the market allows, its debt, counting the new loan at the
/// market's price, does not exceed its credit line.
pub proof fn law_borrow_within_credit_line(
    cfg: Config,
    credit: CreditLineResponse,
    price: PriceRate,
    amount: u128,
)
    requires
        spec_available_tokens(cfg, credit, price) matches Ok(available) && amount <= available,
        amount > 0,
    ensures
        credit.debt.amount + crate::decimal::mul_floor(
            amount as int,
            price.rate_sell_per_buy.atomics as int,
        ) <= credit.credit_line.amount,
{
    let p = price.rate_sell_per_buy.atomics as int;
    let avail = available_common(credit) as int;
    let a = ratio_floor(avail, p);
    assert(p > 0);
    assert(avail > 0) by {
        if avail == 0 {
            let f = frac();
            assert(0 * f / p == 0) by (nonlinear_arith)
                requires
                    p > 0,
            ;
            assert(a == 0);
        }
    }
    lemma_convert_back(avail, p);
    assert(crate::decimal::mul_floor(amount as int, p) <= crate::decimal::mul_floor(a, p)) by {
        assert(amount * p <= a * p) by (nonlinear_arith)
            requires
                amount <= a,
                p > 0,
        ;
        vstd::arithmetic::div_mod::lemma_div_is_ordered(amount * p, a * p, frac());
    }
}

/// Law: an account with debt may only withdraw or transfer L-tokens whose
/// value, weighted by the collateral ratio, fits in its spare credit (credit
/// line minus debt), so what remains still covers its debt.
pub proof fn law_withdraw_within_credit_line(
    cfg: Config,
    credit: CreditLineResponse,
    price: PriceRate,
    ltoken_balance: u128,
    amount: u128,
)
    requires
        !transferable_aborts(cfg, credit, price),
        spec_transferable_amount(cfg, credit, price, ltoken_balance) matches Ok(t) && amount <= t,
        credit.debt.amount > 0,
    ensures
        amount * price.rate_sell_per_buy.atomics * cfg.collateral_ratio.atomics
            <= available_common(credit) * frac() * frac(),
{
    let p = price.rate_sell_per_buy.atomics as int;
    let r = cfg.collateral_ratio.atomics as int;
    let f = frac();
    let ac = available_common(credit) as int;
    let a = ratio_floor(ac, p);
    let t = ratio_floor(a, r);
    vstd::arithmetic::div_mod::lemma_fundamental_div_mod(ac * f, p);
    vstd::arithmetic::div_mod::lemma_mod_bound(ac * f, p);
    vstd::arithmetic::div_mod::lemma_fundamental_div_mod(a * f, r);
    vstd::arithmetic::div_mod::lemma_mod_bound(a * f, r);
    assert(a * p <= ac * f) by (nonlinear_arith)
        requires
            ac * f == p * a + (ac * f) % p,
            (ac * f) % p >= 0,
    ;
    assert(t * r <= a * f) by (nonlinear_arith)
        requires
            a * f == r * t + (a * f) % r,
            (a * f) % r >= 0,
    ;
    assert(ac * f >= 0) by (nonlinear_arith)
        requires
            ac >= 0,
            f > 0,
    ;
    vstd::arithmetic::div_mod::lemma_div_pos_is_pos(ac * f, p);
    vstd::arithmetic::div_mod::lemma_div_is_ordered_by_denominator(ac * f, 1, p);
    assert(a * f >= 0) by (nonlinear_arith)
        requires
            a >= 0,
            f > 0,
    ;
    vstd::arithmetic::div_mod::lemma_div_pos_is_pos(a * f, r);
    vstd::arithmetic::div_mod::lemma_div_is_ordered_by_denominator(a * f, 1, r);
    assert(amount * p * r <= ac * f * f) by (nonlinear_arith)
        requires
            0 <= amount <= t,
            t * r <= a * f,
            a * p <= ac * f,
            p > 0,
            r > 0,
            f > 0,
    ;
}

} // verus!
