//! Queries of the market.

use vstd::prelude::*;

use crate::coin::{NativeCoin, Token};
use crate::credit_line::{response_in_token, response_values, CreditLineResponse, CreditLineValues};
use crate::decimal::{
    checked_uint_mul_decimal, cw_checked_multiply_ratio, frac, mul_floor, pow_aborts, pow_overflows,
    spec_checked_pow, uint_mul_decimal, Decimal, OverflowError, DECIMAL_FRACTIONAL,
};
use crate::interest::{
    calculate_interest, calculate_interest_aborts, calculate_interest_overflows, epochs_passed, spec_calculate_interest,
    spec_epochs_passed, spec_utilisation, utilisation, utilisation_overflows, TokensInfo,
    SECONDS_IN_YEAR,
};
use crate::market::cr_utils::{
    query_available_tokens, spec_available_tokens, spec_transferable_amount, transferable_aborts,
    available_tokens_aborts,
};
use crate::market::{Config, ContractError};
use crate::market::execute::helpers::{charge_aborts, spec_charge};
use crate::price::{coin_times_price_rate, PriceRate};

verus! {

/// Balances of L- and B-tokens of an account.
#[derive(Clone, Copy, Debug, PartialEq, Eq, Structural)]
pub struct TokensBalanceResponse {
    pub ltokens: u128,
    pub btokens: u128,
}

/// Amount of tokens an account may transfer.
#[derive(Clone, Copy, Debug, PartialEq, Eq, Structural)]
pub struct TransferableAmountResponse {
    pub transferable: u128,
}

/// Current interest rate, utilisation and charge period (in seconds).
#[derive(Clone, Copy, Debug, PartialEq, Eq, Structural)]
pub struct InterestResponse {
    pub interest: Decimal,
    pub utilisation: Decimal,
    pub charge_period: u64,
}

/// Yearly yields for borrowers and lenders.
#[derive(Clone, Copy, Debug, PartialEq, Eq, Structural)]
pub struct ApyResponse {
    /// Interest a borrower pays over a year.
    pub borrower: Decimal,
    /// Interest a lender earns over a year.
    pub lender: Decimal,
}

/// Handler for `Configuration`: the configuration as it will be once pending
/// interest is charged at time `now`.
pub fn config(cfg: &Config, now: u64) -> (r: Config)
    requires
        cfg.last_charged <= now,
        cfg.interest_charge_period > 0,
    ensures
        r == (Config {
            last_charged: (cfg.last_charged + spec_epochs_passed(*cfg, now)
                * cfg.interest_charge_period) as u64,
            ..*cfg
        }),
{
    let unhandled = epochs_passed(cfg, now);
    let period = cfg.interest_charge_period;
    proof {
        let d = now - cfg.last_charged;
        vstd::arithmetic::div_mod::lemma_fundamental_div_mod(d as int, period as int);
        vstd::arithmetic::div_mod::lemma_mod_bound(d as int, period as int);
        assert(unhandled * period <= d) by (nonlinear_arith)
            requires
                d == period * unhandled + d % (period as int),
                d % (period as int) >= 0,
        ;
    }
    let mut config = cfg.clone_config();
    config.last_charged = config.last_charged + unhandled * period;
    config
}

/// The pending interest update at time `now`, if any.
pub open spec fn pending_update(cfg: Config, reserve: u128, info: TokensInfo, now: u64) -> Result<
    Option<crate::interest::InterestUpdate>,
    OverflowError,
> {
    spec_calculate_interest(
        cfg,
        info.ltoken.total_supply@,
        info.btoken.total_supply@,
        reserve,
        spec_epochs_passed(cfg, now) as u64,
    )
}

/// Whether computing the pending interest aborts.
pub open spec fn pending_aborts(cfg: Config, reserve: u128, info: TokensInfo, now: u64) -> bool {
    ||| now < cfg.last_charged
    ||| cfg.interest_charge_period == 0
    ||| calculate_interest_aborts(
        cfg,
        info.ltoken.total_supply@,
        info.btoken.total_supply@,
        reserve,
        spec_epochs_passed(cfg, now) as u64,
    )
}

/// Law: the queries see pending interest: the configuration and reserve they
/// report are those that charging the interest at the same moment stores, and
/// they fail exactly when charging does.
pub proof fn law_queries_see_pending_interest(cfg: Config, reserve: u128, tokens_info: TokensInfo, now: u64)
    requires
        !charge_aborts(cfg, reserve, tokens_info, now),
    ensures
        spec_charge(cfg, reserve, tokens_info, now) is Err <==> pending_update(
            cfg,
            reserve,
            tokens_info,
            now,
        ) is Err,
        spec_charge(cfg, reserve, tokens_info, now) matches Ok((c, res, _)) ==> c == (Config {
            last_charged: (cfg.last_charged + spec_epochs_passed(cfg, now)
                * cfg.interest_charge_period) as u64,
            ..cfg
        }) && res == (match pending_update(cfg, reserve, tokens_info, now) {
            Ok(Some(u)) => u.reserve,
            _ => reserve,
        }),
{
}

/// A balance grown by a rebase ratio: `balance + floor(balance * ratio)`.
pub open spec fn grown(balance: u128, ratio: Decimal) -> int {
    balance + mul_floor(balance as int, ratio.atomics as int)
}

/// Handler for `TokensBalance`: the account's L- and B-token balances with the
/// pending interest applied.
pub fn tokens_balance(
    cfg: &Config,
    reserve: u128,
    ltoken_balance: u128,
    btoken_balance: u128,
    tokens_info: &TokensInfo,
    now: u64,
) -> (r: Result<TokensBalanceResponse, ContractError>)
    requires
        !pending_aborts(*cfg, reserve, *tokens_info, now),
        pending_update(*cfg, reserve, *tokens_info, now) matches Ok(Some(u)) ==> grown(
            ltoken_balance,
            u.ltoken_ratio,
        ) <= u128::MAX && grown(btoken_balance, u.btoken_ratio) <= u128::MAX,
    ensures
        match pending_update(*cfg, reserve, *tokens_info, now) {
            Err(e) => r == Err::<TokensBalanceResponse, ContractError>(ContractError::Overflow(e)),
            Ok(None) => r == Ok::<TokensBalanceResponse, ContractError>(
                TokensBalanceResponse { ltokens: ltoken_balance, btokens: btoken_balance },
            ),
            Ok(Some(u)) => r == Ok::<TokensBalanceResponse, ContractError>(
                TokensBalanceResponse {
                    ltokens: grown(ltoken_balance, u.ltoken_ratio) as u128,
                    btokens: grown(btoken_balance, u.btoken_ratio) as u128,
                },
            ),
        },
{
    let mut ltokens = ltoken_balance;
    let mut btokens = btoken_balance;
    if let Some(update) = calculate_interest(cfg, tokens_info, reserve, epochs_passed(cfg, now))? {
        ltokens = ltokens + uint_mul_decimal(ltokens, update.ltoken_ratio);
        btokens = btokens + uint_mul_decimal(btokens, update.btoken_ratio);
    }
    Ok(TokensBalanceResponse { ltokens, btokens })
}

/// Handler for `TransferableAmount`: B-tokens are never transferable; of
/// L-tokens, as much as the credit line allows.
pub fn transferable_amount(
    cfg: &Config,
    token: &String,
    account_credit: &CreditLineResponse,
    price: &PriceRate,
    ltoken_balance: u128,
) -> (r: Result<TransferableAmountResponse, ContractError>)
    requires
        token@ != cfg.btoken_contract@ && token@ == cfg.ltoken_contract@ ==> !transferable_aborts(
            *cfg,
            *account_credit,
            *price,
        ),
    ensures
        token@ == cfg.btoken_contract@ ==> r == Ok::<TransferableAmountResponse, ContractError>(
            TransferableAmountResponse { transferable: 0 },
        ),
        token@ != cfg.btoken_contract@ && token@ == cfg.ltoken_contract@ ==> r == (match spec_transferable_amount(
            *cfg,
            *account_credit,
            *price,
            ltoken_balance,
        ) {
            Ok(t) => Ok::<TransferableAmountResponse, ContractError>(
                TransferableAmountResponse { transferable: t },
            ),
            Err(e) => Err(e),
        }),
        token@ != cfg.btoken_contract@ && token@ != cfg.ltoken_contract@ ==> (r matches Err(
            ContractError::UnrecognisedToken(t),
        ) && t@ == token@),
{
    if token.eq(&cfg.btoken_contract) {
        Ok(TransferableAmountResponse { transferable: 0 })
    } else if token.eq(&cfg.ltoken_contract) {
        let transferable = crate::market::cr_utils::transferable_amount(
            cfg,
            account_credit,
            price,
            ltoken_balance,
        )?;
        Ok(TransferableAmountResponse { transferable })
    } else {
        Err(ContractError::UnrecognisedToken(token.clone()))
    }
}

/// The smallest of three amounts.
pub open spec fn min3(a: u128, b: u128, c: u128) -> u128 {
    let ab = if a < b { a } else { b };
    if ab < c { ab } else { c }
}

/// Law: the smallest of three amounts is at most each of them and is one of
/// them.
pub proof fn law_min3_is_the_least(a: u128, b: u128, c: u128)
    ensures
        min3(a, b, c) <= a,
        min3(a, b, c) <= b,
        min3(a, b, c) <= c,
        min3(a, b, c) == a || min3(a, b, c) == b || min3(a, b, c) == c,
{
}

/// Handler for `Withdrawable`: what the account may withdraw now, limited by
/// its credit line, its L-token balance and the market's base-asset balance.
pub fn withdrawable(
    cfg: &Config,
    account_credit: &CreditLineResponse,
    price: &PriceRate,
    ltoken_balance: u128,
    market_balance: u128,
) -> (r: Result<NativeCoin, ContractError>)
    requires
        !transferable_aborts(*cfg, *account_credit, *price),
    ensures
        match spec_transferable_amount(*cfg, *account_credit, *price, ltoken_balance) {
            Err(e) => r == Err::<NativeCoin, ContractError>(e),
            Ok(t) => r matches Ok(c) && c.denom@ == cfg.market_token@ && c.amount == min3(
                t,
                ltoken_balance,
                market_balance,
            ),
        },
        // never more than the account may transfer, than it holds, or than
        // the market holds; and exactly one of those
        r matches Ok(c) ==> c.amount <= ltoken_balance && c.amount <= market_balance && (
        spec_transferable_amount(*cfg, *account_credit, *price, ltoken_balance) matches Ok(t)
            && c.amount <= t && (c.amount == t || c.amount == ltoken_balance || c.amount
            == market_balance)),
{
    let transferable = crate::market::cr_utils::transferable_amount(
        cfg,
        account_credit,
        price,
        ltoken_balance,
    )?;
    let allowed = if transferable < ltoken_balance { transferable } else { ltoken_balance };
    let amount = if allowed < market_balance { allowed } else { market_balance };
    Ok(NativeCoin { denom: cfg.market_token.clone(), amount })
}

/// Handler for `Borrowable`: what the account may borrow now, limited by its
/// credit line and the market's base-asset balance.
pub fn borrowable(
    cfg: &Config,
    account_credit: &CreditLineResponse,
    price: &PriceRate,
    market_balance: u128,
) -> (r: Result<NativeCoin, ContractError>)
    requires
        !available_tokens_aborts(*cfg, *account_credit),
    ensures
        match spec_available_tokens(*cfg, *account_credit, *price) {
            Err(e) => r == Err::<NativeCoin, ContractError>(e),
            Ok(a) => r matches Ok(c) && c.denom@ == cfg.market_token@ && c.amount == (if a
                < market_balance {
                a
            } else {
                market_balance
            }),
        },
{
    let available = query_available_tokens(cfg, account_credit, price)?;
    let amount = if available < market_balance { available } else { market_balance };
    Ok(NativeCoin { denom: cfg.market_token.clone(), amount })
}

/// Handler for `Interest`: the current utilisation and the rate it gives.
pub fn interest(cfg: &Config, tokens_info: &TokensInfo) -> (r: InterestResponse)
    requires
        !utilisation_overflows(tokens_info.ltoken.total_supply@, tokens_info.btoken.total_supply@),
        cfg.rates.rate_fits(
            spec_utilisation(tokens_info.ltoken.total_supply@, tokens_info.btoken.total_supply@)
                as u128,
        ),
    ensures
        r.utilisation.atomics == spec_utilisation(
            tokens_info.ltoken.total_supply@,
            tokens_info.btoken.total_supply@,
        ),
        r.interest.atomics == cfg.rates.spec_rate(r.utilisation.atomics),
        r.charge_period == cfg.interest_charge_period,
{
    let utilisation = utilisation(tokens_info);
    let interest = cfg.rates.calculate_interest_rate(utilisation);
    InterestResponse { interest, utilisation, charge_period: cfg.interest_charge_period }
}

/// Handler for `PriceMarketLocalPerCommon`: the price of the market token in
/// common tokens; 1:1 when they are the same, otherwise the oracle's rate.
pub fn price_market_local_per_common(cfg: &Config, oracle_rate: Option<Decimal>) -> (r: PriceRate)
    requires
        cfg.common_token@ != cfg.market_token@ ==> oracle_rate is Some,
    ensures
        r.sell_denom@ == cfg.market_token@,
        r.buy_denom@ == cfg.common_token@,
        cfg.common_token@ == cfg.market_token@ ==> r.rate_sell_per_buy.atomics == DECIMAL_FRACTIONAL,
        cfg.common_token@ != cfg.market_token@ ==> r.rate_sell_per_buy == oracle_rate->0,
{
    if cfg.common_token.eq(&cfg.market_token) {
        PriceRate {
            sell_denom: cfg.market_token.clone(),
            buy_denom: cfg.common_token.clone(),
            rate_sell_per_buy: Decimal::one(),
        }
    } else {
        let rate = match oracle_rate {
            Some(r) => r,
            None => Decimal::zero(),
        };
        PriceRate {
            sell_denom: cfg.market_token.clone(),
            buy_denom: cfg.common_token.clone(),
            rate_sell_per_buy: rate,
        }
    }
}

/// The price of the market token in common tokens, as an amount of atomics.
pub open spec fn local_per_common(cfg: Config, oracle_rate: Option<Decimal>) -> u128 {
    if cfg.common_token@ == cfg.market_token@ {
        DECIMAL_FRACTIONAL
    } else {
        oracle_rate->0.atomics
    }
}

/// The credit line an account has on this market given its (already grown)
/// collateral and debt in market tokens: both converted to common tokens, and
/// the collateral weighted by the collateral ratio.
pub open spec fn spec_credit_values(cfg: Config, price: u128, collateral: u128, debt: u128) -> CreditLineValues {
    if collateral == 0 && debt == 0 {
        CreditLineValues { collateral: 0, credit_line: 0, debt: 0 }
    } else {
        let c = mul_floor(collateral as int, price as int);
        CreditLineValues {
            collateral: c as u128,
            credit_line: mul_floor(c, cfg.collateral_ratio.atomics as int) as u128,
            debt: mul_floor(debt as int, price as int) as u128,
        }
    }
}

/// Law: with a collateral ratio of at most one, the credit line never exceeds
/// the collateral it is drawn against.
pub proof fn law_credit_line_within_collateral(cfg: Config, price: u128, collateral: u128, debt: u128)
    requires
        cfg.collateral_ratio.atomics <= DECIMAL_FRACTIONAL,
        !credit_values_abort(cfg, price, collateral, debt),
    ensures
        spec_credit_values(cfg, price, collateral, debt).credit_line <= spec_credit_values(
            cfg,
            price,
            collateral,
            debt,
        ).collateral,
{
    if !(collateral == 0 && debt == 0) {
        let c = mul_floor(collateral as int, price as int);
        let r = cfg.collateral_ratio.atomics as int;
        let f = frac();
        assert(c >= 0) by (nonlinear_arith)
            requires
                c == collateral * price / f,
                f > 0,
        ;
        assert(c * r <= c * f) by (nonlinear_arith)
            requires
                c >= 0,
                r <= f,
        ;
        vstd::arithmetic::div_mod::lemma_div_is_ordered(c * r, c * f, f);
        assert(c * f / f == c) by (nonlinear_arith)
            requires
                f > 0,
        ;
    }
}

/// Whether computing the credit line aborts on these balances.
pub open spec fn credit_values_abort(cfg: Config, price: u128, collateral: u128, debt: u128) -> bool {
    &&& !(collateral == 0 && debt == 0)
    &&& {
        ||| mul_floor(collateral as int, price as int) > u128::MAX
        ||| mul_floor(debt as int, price as int) > u128::MAX
        ||| mul_floor(
            mul_floor(collateral as int, price as int),
            cfg.collateral_ratio.atomics as int,
        ) > u128::MAX
    }
}

/// Collateral and debt of the account, grown by the pending interest.
pub open spec fn grown_balances(cfg: Config, reserve: u128, info: TokensInfo, now: u64, l: u128, b: u128) -> (int, int) {
    match pending_update(cfg, reserve, info, now) {
        Ok(Some(u)) => (grown(l, u.ltoken_ratio), grown(b, u.btoken_ratio)),
        _ => (l as int, b as int),
    }
}

/// Handler for `CreditLine`: the account's credit line on this market, in
/// common tokens, with the pending interest applied.
pub fn credit_line(
    cfg: &Config,
    reserve: u128,
    ltoken_balance: u128,
    btoken_balance: u128,
    tokens_info: &TokensInfo,
    oracle_rate: Option<Decimal>,
    now: u64,
) -> (r: Result<CreditLineResponse, ContractError>)
    requires
        !pending_aborts(*cfg, reserve, *tokens_info, now),
        grown_balances(*cfg, reserve, *tokens_info, now, ltoken_balance, btoken_balance).0 <= u128::MAX,
        grown_balances(*cfg, reserve, *tokens_info, now, ltoken_balance, btoken_balance).1 <= u128::MAX,
        cfg.common_token@ != cfg.market_token@ && (ltoken_balance != 0 || btoken_balance != 0)
            ==> oracle_rate is Some,
        !credit_values_abort(
            *cfg,
            local_per_common(*cfg, oracle_rate),
            grown_balances(*cfg, reserve, *tokens_info, now, ltoken_balance, btoken_balance).0 as u128,
            grown_balances(*cfg, reserve, *tokens_info, now, ltoken_balance, btoken_balance).1 as u128,
        ),
    ensures
        match pending_update(*cfg, reserve, *tokens_info, now) {
            Err(e) => r == Err::<CreditLineResponse, ContractError>(ContractError::Overflow(e)),
            Ok(_) => r matches Ok(resp) && response_in_token(resp, Token::Native(cfg.common_token))
                && response_values(resp) == spec_credit_values(
                *cfg,
                local_per_common(*cfg, oracle_rate),
                grown_balances(*cfg, reserve, *tokens_info, now, ltoken_balance, btoken_balance).0 as u128,
                grown_balances(*cfg, reserve, *tokens_info, now, ltoken_balance, btoken_balance).1 as u128,
            ),
        },
{
    let mut collateral = NativeCoin { denom: cfg.market_token.clone(), amount: ltoken_balance };
    let mut debt = NativeCoin { denom: cfg.market_token.clone(), amount: btoken_balance };
    // simulate charging interest for the periods not charged yet
    if let Some(update) = calculate_interest(cfg, tokens_info, reserve, epochs_passed(cfg, now))? {
        collateral.amount = collateral.amount + uint_mul_decimal(collateral.amount, update.ltoken_ratio);
        debt.amount = debt.amount + uint_mul_decimal(debt.amount, update.btoken_ratio);
    }
    if collateral.amount == 0 && debt.amount == 0 {
        return Ok(CreditLineValues::zero().make_response(Token::Native(cfg.common_token.clone())));
    }
    let price_ratio = price_market_local_per_common(cfg, oracle_rate);
    let collateral = match coin_times_price_rate(&collateral, &price_ratio) {
        Ok(c) => c,
        Err(_) => return Err(ContractError::Price),
    };
    let debt = match coin_times_price_rate(&debt, &price_ratio) {
        Ok(c) => c.amount,
        Err(_) => return Err(ContractError::Price),
    };
    let credit_line = uint_mul_decimal(collateral.amount, cfg.collateral_ratio);
    Ok(
        CreditLineValues::new(collateral.amount, credit_line, debt).make_response(
            Token::Native(cfg.common_token.clone()),
        ),
    )
}

/// Handler for `Reserve`: the reserve once pending interest is charged.
pub fn reserve(cfg: &Config, stored_reserve: u128, tokens_info: &TokensInfo, now: u64) -> (r: Result<
    u128,
    ContractError,
>)
    requires
        !pending_aborts(*cfg, stored_reserve, *tokens_info, now),
    ensures
        r == (match pending_update(*cfg, stored_reserve, *tokens_info, now) {
            Err(e) => Err::<u128, ContractError>(ContractError::Overflow(e)),
            Ok(None) => Ok(stored_reserve),
            Ok(Some(u)) => Ok(u.reserve),
        }),
{
    match calculate_interest(cfg, tokens_info, stored_reserve, epochs_passed(cfg, now))? {
        Some(update) => Ok(update.reserve),
        None => Ok(stored_reserve),
    }
}

/// Number of charge periods in a year.
pub open spec fn charge_periods(cfg: Config) -> int {
    (SECONDS_IN_YEAR as int) / (cfg.interest_charge_period as int)
}

/// The borrower's yearly yield: `(1 + rate / periods)^periods - 1`.
pub open spec fn spec_borrower_apy(cfg: Config, rate: u128) -> Result<Decimal, OverflowError> {
    let growth = (DECIMAL_FRACTIONAL + rate / (charge_periods(cfg) as u128)) as u128;
    match spec_checked_pow(growth, charge_periods(cfg) as u32) {
        Err(e) => Err(e),
        Ok(p) => Ok(Decimal { atomics: (p.atomics - DECIMAL_FRACTIONAL) as u128 }),
    }
}

/// The lender's yearly yield: the borrowers' yield times the utilisation,
/// less the reserve's share.
pub open spec fn spec_lender_apy(cfg: Config, borrower: Decimal, utilisation: u128) -> int {
    mul_floor(
        mul_floor(borrower.atomics as int, utilisation as int),
        DECIMAL_FRACTIONAL - cfg.reserve_factor.atomics,
    )
}

/// Law: lenders never earn a higher yield than borrowers pay, as long as no
/// more is borrowed than supplied and the reserve factor is at most one.
pub proof fn law_lenders_earn_at_most_borrowers_pay(cfg: Config, borrower: Decimal, utilisation: u128)
    requires
        utilisation <= DECIMAL_FRACTIONAL,
        cfg.reserve_factor.atomics <= DECIMAL_FRACTIONAL,
    ensures
        0 <= spec_lender_apy(cfg, borrower, utilisation) <= borrower.atomics,
{
    let f = frac();
    let b = borrower.atomics as int;
    let u = utilisation as int;
    let k = f - cfg.reserve_factor.atomics;
    let x = mul_floor(b, u);
    assert(0 <= b * u <= b * f) by (nonlinear_arith)
        requires
            0 <= u <= f,
            b >= 0,
    ;
    vstd::arithmetic::div_mod::lemma_div_is_ordered(b * u, b * f, f);
    vstd::arithmetic::div_mod::lemma_div_pos_is_pos(b * u, f);
    assert(b * f / f == b) by (nonlinear_arith)
        requires
            f > 0,
    ;
    assert(0 <= x * k <= x * f) by (nonlinear_arith)
        requires
            0 <= k <= f,
            x >= 0,
    ;
    vstd::arithmetic::div_mod::lemma_div_is_ordered(x * k, x * f, f);
    vstd::arithmetic::div_mod::lemma_div_pos_is_pos(x * k, f);
    assert(x * f / f == x) by (nonlinear_arith)
        requires
            f > 0,
    ;
}

/// Whether computing the yields aborts on these values.
pub open spec fn apy_aborts(cfg: Config, info: TokensInfo) -> bool {
    let util = spec_utilisation(info.ltoken.total_supply@, info.btoken.total_supply@);
    let rate = cfg.rates.spec_rate(util as u128);
    ||| cfg.interest_charge_period == 0
    ||| charge_periods(cfg) == 0
    ||| utilisation_overflows(info.ltoken.total_supply@, info.btoken.total_supply@)
    ||| !cfg.rates.rate_fits(util as u128)
    ||| DECIMAL_FRACTIONAL + rate / charge_periods(cfg) > u128::MAX
    ||| pow_aborts(
        (DECIMAL_FRACTIONAL + rate / charge_periods(cfg)) as u128,
        charge_periods(cfg) as u32,
    )
    ||| cfg.reserve_factor.atomics > DECIMAL_FRACTIONAL
    ||| match spec_borrower_apy(cfg, rate as u128) {
        Err(_) => false,
        Ok(b) => mul_floor(b.atomics as int, util) > u128::MAX,
    }
}

/// Handler for `Apy`: the yearly yields of borrowers and lenders at the
/// current utilisation, compounding once per charge period.
pub fn apy(cfg: &Config, tokens_info: &TokensInfo) -> (r: Result<ApyResponse, ContractError>)
    requires
        !apy_aborts(*cfg, *tokens_info),
    ensures
        ({
            let util = spec_utilisation(
                tokens_info.ltoken.total_supply@,
                tokens_info.btoken.total_supply@,
            );
            match spec_borrower_apy(*cfg, cfg.rates.spec_rate(util as u128) as u128) {
                Err(e) => r == Err::<ApyResponse, ContractError>(ContractError::Overflow(e)),
                Ok(b) => r matches Ok(a) && a.borrower == b && a.lender.atomics == spec_lender_apy(
                    *cfg,
                    b,
                    util as u128,
                ),
            }
        }),
{
    let charge_periods = SECONDS_IN_YEAR / (cfg.interest_charge_period as u128);
    let utilisation = utilisation(tokens_info);
    let rate = cfg.rates.calculate_interest_rate(utilisation);
    let growth = Decimal::one().add(rate.div_uint(charge_periods));
    proof {
        vstd::arithmetic::div_mod::lemma_div_is_ordered_by_denominator(
            SECONDS_IN_YEAR as int,
            1,
            cfg.interest_charge_period as int,
        );
    }
    let p = match growth.checked_pow(charge_periods as u32) {
        Ok(p) => p,
        Err(e) => return Err(ContractError::Overflow(e)),
    };
    proof {
        crate::interest::law_pow_at_least_one(growth.atomics, charge_periods as u32);
    }
    let borrower = p.sub(Decimal::one());
    proof {
        let x = mul_floor(borrower.atomics as int, utilisation.atomics as int);
        let y = DECIMAL_FRACTIONAL - cfg.reserve_factor.atomics;
        assert(0 <= y <= frac());
        assert(x >= 0) by {
            vstd::arithmetic::div_mod::lemma_div_pos_is_pos(
                borrower.atomics * utilisation.atomics,
                frac(),
            );
        }
        assert(mul_floor(x, y) <= x) by {
            assert(x * y <= x * frac()) by (nonlinear_arith)
                requires
                    x >= 0,
                    y <= frac(),
            ;
            vstd::arithmetic::div_mod::lemma_div_is_ordered(x * y, x * frac(), frac());
            vstd::arithmetic::div_mod::lemma_div_by_multiple(x, frac());
        }
    }
    let lender = borrower.mul(utilisation).mul(Decimal::one().sub(cfg.reserve_factor));
    Ok(ApyResponse { borrower, lender })
}

/// Whether computing the pending interest would abort (see `pending_aborts`),
/// which the queries' callers must rule out first.
pub fn pending_overflows(cfg: &Config, reserve: u128, tokens_info: &TokensInfo, now: u64) -> (r: bool)
    ensures
        r == pending_aborts(*cfg, reserve, *tokens_info, now),
{
    if now < cfg.last_charged || cfg.interest_charge_period == 0 {
        return true;
    }
    calculate_interest_overflows(cfg, tokens_info, reserve, epochs_passed(cfg, now))
}

/// Whether a balance grown by `ratio` does not fit.
fn grown_overflows(balance: u128, ratio: Decimal) -> (r: bool)
    ensures
        r == (grown(balance, ratio) > u128::MAX),
{
    match checked_uint_mul_decimal(balance, ratio) {
        None => true,
        Some(m) => balance.checked_add(m).is_none(),
    }
}

/// Whether `tokens_balance` would abort on these values.
pub open spec fn tokens_balance_aborts(
    cfg: Config,
    reserve: u128,
    ltoken_balance: u128,
    btoken_balance: u128,
    info: TokensInfo,
    now: u64,
) -> bool {
    ||| pending_aborts(cfg, reserve, info, now)
    ||| (pending_update(cfg, reserve, info, now) matches Ok(Some(u)) && (grown(
        ltoken_balance,
        u.ltoken_ratio,
    ) > u128::MAX || grown(btoken_balance, u.btoken_ratio) > u128::MAX))
}

/// Whether `tokens_balance` would abort, which its callers must rule out
/// first.
pub fn tokens_balance_overflows(
    cfg: &Config,
    reserve: u128,
    ltoken_balance: u128,
    btoken_balance: u128,
    tokens_info: &TokensInfo,
    now: u64,
) -> (r: bool)
    ensures
        r == tokens_balance_aborts(*cfg, reserve, ltoken_balance, btoken_balance, *tokens_info, now),
{
    if pending_overflows(cfg, reserve, tokens_info, now) {
        return true;
    }
    match calculate_interest(cfg, tokens_info, reserve, epochs_passed(cfg, now)) {
        Ok(Some(update)) => grown_overflows(ltoken_balance, update.ltoken_ratio) || grown_overflows(
            btoken_balance,
            update.btoken_ratio,
        ),
        _ => false,
    }
}

/// Whether `credit_line` would abort on these values.
pub open spec fn credit_line_aborts(
    cfg: Config,
    reserve: u128,
    ltoken_balance: u128,
    btoken_balance: u128,
    info: TokensInfo,
    oracle_rate: Option<Decimal>,
    now: u64,
) -> bool {
    let g = grown_balances(cfg, reserve, info, now, ltoken_balance, btoken_balance);
    ||| pending_aborts(cfg, reserve, info, now)
    ||| g.0 > u128::MAX
    ||| g.1 > u128::MAX
    ||| credit_values_abort(cfg, local_per_common(cfg, oracle_rate), g.0 as u128, g.1 as u128)
}

/// Whether `credit_line` would abort, which its callers must rule out first.
pub fn credit_line_overflows(
    cfg: &Config,
    reserve: u128,
    ltoken_balance: u128,
    btoken_balance: u128,
    tokens_info: &TokensInfo,
    oracle_rate: Option<Decimal>,
    now: u64,
) -> (r: bool)
    requires
        cfg.common_token@ != cfg.market_token@ && (ltoken_balance != 0 || btoken_balance != 0)
            ==> oracle_rate is Some,
    ensures
        r == credit_line_aborts(*cfg, reserve, ltoken_balance, btoken_balance, *tokens_info, oracle_rate, now),
{
    if pending_overflows(cfg, reserve, tokens_info, now) {
        return true;
    }
    let mut collateral = ltoken_balance;
    let mut debt = btoken_balance;
    if let Ok(Some(update)) = calculate_interest(cfg, tokens_info, reserve, epochs_passed(cfg, now)) {
        if grown_overflows(ltoken_balance, update.ltoken_ratio) || grown_overflows(
            btoken_balance,
            update.btoken_ratio,
        ) {
            return true;
        }
        collateral = ltoken_balance + uint_mul_decimal(ltoken_balance, update.ltoken_ratio);
        debt = btoken_balance + uint_mul_decimal(btoken_balance, update.btoken_ratio);
    }
    if collateral == 0 && debt == 0 {
        return false;
    }
    let price = price_market_local_per_common(cfg, oracle_rate).rate_sell_per_buy;
    match checked_uint_mul_decimal(collateral, price) {
        None => true,
        Some(c) => checked_uint_mul_decimal(debt, price).is_none() || checked_uint_mul_decimal(
            c,
            cfg.collateral_ratio,
        ).is_none(),
    }
}

/// Whether `interest` would abort on these supplies, which its callers must
/// rule out first.
pub fn interest_overflows(cfg: &Config, tokens_info: &TokensInfo) -> (r: bool)
    ensures
        r == (utilisation_overflows(tokens_info.ltoken.total_supply@, tokens_info.btoken.total_supply@)
            || !cfg.rates.rate_fits(
            spec_utilisation(tokens_info.ltoken.total_supply@, tokens_info.btoken.total_supply@)
                as u128,
        )),
{
    let supplied = tokens_info.ltoken.total_supply.display_amount();
    let borrowed = tokens_info.btoken.total_supply.display_amount();
    let utilisation = if supplied == 0 {
        Decimal::zero()
    } else {
        match cw_checked_multiply_ratio(borrowed, DECIMAL_FRACTIONAL, supplied) {
            Some(u) => Decimal::raw(u),
            None => return true,
        }
    };
    cfg.rates.checked_interest_rate(utilisation).is_none()
}

/// Whether `apy` would abort, which its callers must rule out first.
pub fn apy_overflows(cfg: &Config, tokens_info: &TokensInfo) -> (r: bool)
    ensures
        r == apy_aborts(*cfg, *tokens_info),
{
    if cfg.interest_charge_period == 0 {
        return true;
    }
    let charge_periods = SECONDS_IN_YEAR / (cfg.interest_charge_period as u128);
    if charge_periods == 0 {
        return true;
    }
    if interest_overflows(cfg, tokens_info) {
        return true;
    }
    let utilisation = utilisation(tokens_info);
    let rate = cfg.rates.calculate_interest_rate(utilisation);
    let growth = match DECIMAL_FRACTIONAL.checked_add(rate.atomics / charge_periods) {
        Some(g) => Decimal::raw(g),
        None => return true,
    };
    proof {
        vstd::arithmetic::div_mod::lemma_div_is_ordered_by_denominator(
            SECONDS_IN_YEAR as int,
            1,
            cfg.interest_charge_period as int,
        );
    }
    if pow_overflows(growth, charge_periods as u32) {
        return true;
    }
    if cfg.reserve_factor.atomics > DECIMAL_FRACTIONAL {
        return true;
    }
    match growth.checked_pow(charge_periods as u32) {
        Err(_) => false,
        Ok(p) => {
            proof {
                crate::interest::law_pow_at_least_one(growth.atomics, charge_periods as u32);
            }
            checked_uint_mul_decimal(p.atomics - DECIMAL_FRACTIONAL, utilisation).is_none()
        },
    }
}

} // verus!
