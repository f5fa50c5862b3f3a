//! Interest rates and their accrual over charge periods.

use vstd::prelude::*;

use crate::decimal::{
    checked_uint_mul_decimal, cw_checked_multiply_ratio, frac, mul_floor, pow_aborts, pow_loop,
    pow_overflows, ratio_floor, spec_checked_mul, spec_checked_pow, uint_mul_decimal, Decimal,
    OverflowError, DECIMAL_FRACTIONAL,
};
use crate::market::{Config, ContractError};
use crate::decimal::law_pow_of_whole_number;
use vstd::arithmetic::power::pow;
use crate::token::TokenInfoResponse;

verus! {

/// Seconds in a (365-day) year.
pub const SECONDS_IN_YEAR: u128 = 31_536_000;

/// An interest rate curve: the yearly rate as a function of utilisation.
#[derive(Clone, Copy, Debug, PartialEq, Eq, Structural)]
pub enum Interest {
    /// `rate = base + slope * utilisation`
    Linear { base: Decimal, slope: Decimal },
}

impl Interest {
    /// The yearly rate, in atomics, at the given utilisation (in atomics).
    pub open spec fn spec_rate(self, utilisation: u128) -> int {
        match self {
            Interest::Linear { base, slope } => base.atomics + mul_floor(
                slope.atomics as int,
                utilisation as int,
            ),
        }
    }

    /// Whether the rate at the given utilisation is representable.
    pub open spec fn rate_fits(self, utilisation: u128) -> bool {
        match self {
            Interest::Linear { base, slope } => {
                &&& mul_floor(slope.atomics as int, utilisation as int) <= u128::MAX
                &&& self.spec_rate(utilisation) <= u128::MAX
            },
        }
    }

    /// The yearly interest rate at the given utilisation.
    /// The yearly rate at the given utilisation, when it is representable.
    pub fn checked_interest_rate(&self, utilisation: Decimal) -> (r: Option<Decimal>)
        ensures
            r is Some == self.rate_fits(utilisation.atomics),
            r matches Some(d) ==> d.atomics == self.spec_rate(utilisation.atomics),
    {
        match self {
            Interest::Linear { base, slope } => match checked_uint_mul_decimal(slope.atomics, utilisation) {
                None => None,
                Some(m) => match base.atomics.checked_add(m) {
                    None => None,
                    Some(rate) => Some(Decimal::raw(rate)),
                },
            },
        }
    }

    pub fn calculate_interest_rate(&self, utilisation: Decimal) -> (r: Decimal)
        requires
            self.rate_fits(utilisation.atomics),
        ensures
            r.atomics == self.spec_rate(utilisation.atomics),
    {
        match self {
            Interest::Linear { base, slope } => base.add(slope.mul(utilisation)),
        }
    }
}

/// Total supplies of the L-token (lent) and B-token (borrowed) of a market.
#[derive(Clone, Debug, PartialEq, Eq)]
pub struct TokensInfo {
    pub ltoken: TokenInfoResponse,
    pub btoken: TokenInfoResponse,
}

/// Values to update once interest is charged for all pending charge periods.
#[derive(Clone, Copy, Debug, PartialEq, Eq, Structural)]
pub struct InterestUpdate {
    /// The new reserve.
    pub reserve: u128,
    /// The ratio to rebase L-tokens by.
    pub ltoken_ratio: Decimal,
    /// The ratio to rebase B-tokens by.
    pub btoken_ratio: Decimal,
}

/// Number of whole charge periods between the last charge and `now`.
pub open spec fn spec_epochs_passed(cfg: Config, now: u64) -> int {
    (now - cfg.last_charged) / (cfg.interest_charge_period as int)
}

/// Number of whole charge periods since interest was last charged.
pub fn epochs_passed(cfg: &Config, now: u64) -> (r: u64)
    requires
        cfg.last_charged <= now,
        cfg.interest_charge_period > 0,
    ensures
        r == spec_epochs_passed(*cfg, now),
{
    (now - cfg.last_charged) / cfg.interest_charge_period
}

/// Utilisation `borrowed / supplied` in atomics, or 0 when nothing is supplied.
pub open spec fn spec_utilisation(supplied: u128, borrowed: u128) -> int {
    if supplied == 0 {
        0
    } else {
        ratio_floor(borrowed as int, supplied as int)
    }
}

/// Whether computing the utilisation overflows.
pub open spec fn utilisation_overflows(supplied: u128, borrowed: u128) -> bool {
    spec_utilisation(supplied, borrowed) > u128::MAX
}

/// The current utilisation: B-token supply over L-token supply.
pub fn utilisation(tokens_info: &TokensInfo) -> (r: Decimal)
    requires
        !utilisation_overflows(tokens_info.ltoken.total_supply@, tokens_info.btoken.total_supply@),
    ensures
        r.atomics == spec_utilisation(
            tokens_info.ltoken.total_supply@,
            tokens_info.btoken.total_supply@,
        ),
{
    if tokens_info.ltoken.total_supply.is_zero() {
        Decimal::zero()
    } else {
        Decimal::from_ratio(
            tokens_info.btoken.total_supply.display_amount(),
            tokens_info.ltoken.total_supply.display_amount(),
        )
    }
}

/// `SECONDS_IN_YEAR * 10^18`, the denominator of the per-period rate.
pub open spec fn year_fraction() -> int {
    SECONDS_IN_YEAR * frac()
}

/// `1 + rate * period / year` in atomics: the growth factor of one charge period.
pub open spec fn period_growth(rate: u128, period: u64) -> int {
    frac() + ratio_floor(period * rate, year_fraction())
}

/// Whether compounding the rate over the epochs aborts.
pub open spec fn compounding_aborts(rate: u128, period: u64, epochs: u64) -> bool {
    ||| period * rate > u128::MAX
    ||| pow_aborts(period_growth(rate, period) as u128, epochs as u32)
}

/// The interest accrued over `epochs` charge periods, compounded every period:
/// `(1 + rate * period / year)^epochs - 1`, each step floored.
pub open spec fn spec_compounded_rate(rate: u128, period: u64, epochs: u64) -> Result<
    Decimal,
    OverflowError,
> {
    match spec_checked_pow(period_growth(rate, period) as u128, epochs as u32) {
        Ok(p) => Ok(Decimal { atomics: (p.atomics - frac()) as u128 }),
        Err(e) => Err(e),
    }
}

proof fn lemma_period_growth_bounds(n: int)
    requires
        0 <= n <= u128::MAX,
    ensures
        ratio_floor(n, year_fraction()) == n / (SECONDS_IN_YEAR as int),
        frac() + ratio_floor(n, year_fraction()) <= u128::MAX,
{
    let s = frac();
    let y = SECONDS_IN_YEAR as int;
    assert(year_fraction() == s * y) by (nonlinear_arith)
        requires
            s == 1_000_000_000_000_000_000int,
            y == 31_536_000int,
            year_fraction() == y * s,
    ;
    vstd::arithmetic::div_mod::lemma_div_denominator(n * s, s, y);
    vstd::arithmetic::div_mod::lemma_div_by_multiple(n, s);
    vstd::arithmetic::div_mod::lemma_div_is_ordered(n, u128::MAX as int, y);
    assert(u128::MAX as int / y + s <= u128::MAX) by (nonlinear_arith)
        requires
            s == 1_000_000_000_000_000_000int,
            y == 31_536_000int,
    ;
}

/// Floored products of factors of at least `1.0` stay at least `1.0`.
proof fn lemma_mul_floor_at_least_one(a: int, b: int)
    requires
        a >= frac(),
        b >= frac(),
    ensures
        mul_floor(a, b) >= frac(),
{
    let s = frac();
    assert(a * b >= s * s) by (nonlinear_arith)
        requires
            a >= s,
            b >= s,
            s > 0,
    ;
    vstd::arithmetic::div_mod::lemma_div_is_ordered(s * s, a * b, s);
    vstd::arithmetic::div_mod::lemma_div_by_multiple(s, s);
}

proof fn lemma_pow_loop_at_least_one(x: u128, y: u128, k: u32)
    requires
        x >= DECIMAL_FRACTIONAL,
        y >= DECIMAL_FRACTIONAL,
    ensures
        pow_loop(x, y, k) matches Ok((xf, yf)) ==> xf >= DECIMAL_FRACTIONAL && yf
            >= DECIMAL_FRACTIONAL,
    decreases k,
{
    if k > 1 {
        lemma_mul_floor_at_least_one(x as int, x as int);
        lemma_mul_floor_at_least_one(x as int, y as int);
        if k % 2 == 0 {
            if let Ok(x2) = spec_checked_mul(x, x) {
                lemma_pow_loop_at_least_one(x2.atomics, y, k / 2);
            }
        } else {
            if let Ok(y2) = spec_checked_mul(x, y) {
                if let Ok(x2) = spec_checked_mul(x, x) {
                    lemma_pow_loop_at_least_one(x2.atomics, y2.atomics, ((k - 1) / 2) as u32);
                }
            }
        }
    }
}

/// Law: a power of a decimal that is at least `1.0` is at least `1.0`.
pub proof fn law_pow_at_least_one(x: u128, n: u32)
    requires
        x >= DECIMAL_FRACTIONAL,
        !pow_aborts(x, n),
    ensures
        spec_checked_pow(x, n) matches Ok(p) ==> p.atomics >= DECIMAL_FRACTIONAL,
{
    if n != 0 {
        lemma_pow_loop_at_least_one(x, DECIMAL_FRACTIONAL, n);
        if let Ok((xf, yf)) = pow_loop(x, DECIMAL_FRACTIONAL, n) {
            lemma_mul_floor_at_least_one(xf as int, yf as int);
        }
    }
}

/// The interest accrued over `epochs_passed` charge periods of `charge_period`
/// seconds at the yearly `interest_rate`, compounded every period.
pub fn compounded_interest_rate(interest_rate: Decimal, charge_period: u64, epochs_passed: u64) -> (r:
    Result<Decimal, OverflowError>)
    requires
        !compounding_aborts(interest_rate.atomics, charge_period, epochs_passed),
    ensures
        r == spec_compounded_rate(interest_rate.atomics, charge_period, epochs_passed),
{
    let numerator = (charge_period as u128) * interest_rate.atomics;
    proof {
        lemma_period_growth_bounds(numerator as int);
        assert(SECONDS_IN_YEAR * DECIMAL_FRACTIONAL == year_fraction());
    }
    let scaled = Decimal::from_ratio(numerator, SECONDS_IN_YEAR * DECIMAL_FRACTIONAL);
    let growth = Decimal::one().add(scaled);
    let p = growth.checked_pow(epochs_passed as u32)?;
    proof {
        law_pow_at_least_one(growth.atomics, epochs_passed as u32);
    }
    Ok(p.sub(Decimal::one()))
}

/// The interest charge for `epochs` pending charge periods on a market with
/// `supplied` L-tokens, `borrowed` B-tokens and reserve `old_reserve`: nothing
/// when no period passed or nothing is supplied; otherwise the new reserve and
/// the rebase ratios of both tokens.
pub open spec fn spec_calculate_interest(
    cfg: Config,
    supplied: u128,
    borrowed: u128,
    old_reserve: u128,
    epochs: u64,
) -> Result<Option<InterestUpdate>, OverflowError> {
    if epochs == 0 || supplied == 0 {
        Ok(None)
    } else {
        let rate = cfg.rates.spec_rate(spec_utilisation(supplied, borrowed) as u128) as u128;
        match spec_compounded_rate(rate, cfg.interest_charge_period, epochs) {
            Err(e) => Err(e),
            Ok(btoken_ratio) => {
                let charged = mul_floor(borrowed as int, btoken_ratio.atomics as int);
                let reserve = old_reserve + mul_floor(charged, cfg.reserve_factor.atomics as int);
                let base_asset = supplied + old_reserve - borrowed;
                let l_supply = borrowed + base_asset - reserve;
                Ok(
                    Some(
                        InterestUpdate {
                            reserve: reserve as u128,
                            ltoken_ratio: Decimal { atomics: ratio_floor(charged, l_supply) as u128 },
                            btoken_ratio,
                        },
                    ),
                )
            },
        }
    }
}

/// Whether charging interest aborts on these values: some intermediate amount
/// overflows or underflows, or the L-token supply left to rebase is zero.
pub open spec fn calculate_interest_aborts(
    cfg: Config,
    supplied: u128,
    borrowed: u128,
    old_reserve: u128,
    epochs: u64,
) -> bool {
    &&& epochs != 0
    &&& supplied != 0
    &&& {
        let util = spec_utilisation(supplied, borrowed);
        let rate = cfg.rates.spec_rate(util as u128);
        ||| utilisation_overflows(supplied, borrowed)
        ||| !cfg.rates.rate_fits(util as u128)
        ||| compounding_aborts(rate as u128, cfg.interest_charge_period, epochs)
        ||| match spec_compounded_rate(rate as u128, cfg.interest_charge_period, epochs) {
            Err(_) => false,
            Ok(btoken_ratio) => {
                let charged = mul_floor(borrowed as int, btoken_ratio.atomics as int);
                let reserve = old_reserve + mul_floor(charged, cfg.reserve_factor.atomics as int);
                let base_asset = supplied + old_reserve - borrowed;
                let l_supply = borrowed + base_asset - reserve;
                ||| charged > u128::MAX
                ||| mul_floor(charged, cfg.reserve_factor.atomics as int) > u128::MAX
                ||| reserve > u128::MAX
                ||| supplied + old_reserve > u128::MAX
                ||| base_asset < 0
                ||| borrowed + base_asset > u128::MAX
                ||| l_supply <= 0
                ||| ratio_floor(charged, l_supply) > u128::MAX
            },
        }
    }
}

/// New values after applying all pending interest charges, given the market
/// configuration, the token supplies, the current reserve and the number of
/// charge periods passed.
pub fn calculate_interest(
    cfg: &Config,
    tokens_info: &TokensInfo,
    old_reserve: u128,
    epochs_passed: u64,
) -> (r: Result<Option<InterestUpdate>, ContractError>)
    requires
        !calculate_interest_aborts(
            *cfg,
            tokens_info.ltoken.total_supply@,
            tokens_info.btoken.total_supply@,
            old_reserve,
            epochs_passed,
        ),
    ensures
        r == (match spec_calculate_interest(
            *cfg,
            tokens_info.ltoken.total_supply@,
            tokens_info.btoken.total_supply@,
            old_reserve,
            epochs_passed,
        ) {
            Ok(u) => Ok::<Option<InterestUpdate>, ContractError>(u),
            Err(e) => Err(ContractError::Overflow(e)),
        }),
{
    if epochs_passed == 0 {
        return Ok(None);
    }
    let supplied = tokens_info.ltoken.total_supply.display_amount();
    let borrowed = tokens_info.btoken.total_supply.display_amount();
    // if there are no L-tokens, no interest is charged
    if supplied == 0 {
        return Ok(None);
    }
    let interest = cfg.rates.calculate_interest_rate(utilisation(tokens_info));
    let btoken_ratio = match compounded_interest_rate(
        interest,
        cfg.interest_charge_period,
        epochs_passed,
    ) {
        Ok(v) => v,
        Err(e) => return Err(ContractError::Overflow(e)),
    };
    // only a portion of the charged interest goes to the reserve
    let charged_interest = uint_mul_decimal(borrowed, btoken_ratio);
    let reserve = old_reserve + uint_mul_decimal(charged_interest, cfg.reserve_factor);
    // the old reserve is part of the base asset held by the market
    let base_asset_balance = supplied + old_reserve - borrowed;
    let l_supply = borrowed + base_asset_balance - reserve;
    let ltoken_ratio = Decimal::from_ratio(charged_interest, l_supply);
    Ok(Some(InterestUpdate { reserve, ltoken_ratio, btoken_ratio }))
}

/// Whether `calculate_interest` would abort on these values, which its
/// callers must rule out first.
pub fn calculate_interest_overflows(
    cfg: &Config,
    tokens_info: &TokensInfo,
    old_reserve: u128,
    epochs_passed: u64,
) -> (r: bool)
    ensures
        r == calculate_interest_aborts(
            *cfg,
            tokens_info.ltoken.total_supply@,
            tokens_info.btoken.total_supply@,
            old_reserve,
            epochs_passed,
        ),
{
    if epochs_passed == 0 {
        return false;
    }
    let supplied = tokens_info.ltoken.total_supply.display_amount();
    let borrowed = tokens_info.btoken.total_supply.display_amount();
    if supplied == 0 {
        return false;
    }
    let utilisation = match cw_checked_multiply_ratio(borrowed, DECIMAL_FRACTIONAL, supplied) {
        Some(u) => Decimal::raw(u),
        None => return true,
    };
    let interest = match cfg.rates.checked_interest_rate(utilisation) {
        Some(rate) => rate,
        None => return true,
    };
    if (cfg.interest_charge_period as u128).checked_mul(interest.atomics).is_none() {
        return true;
    }
    let numerator = (cfg.interest_charge_period as u128) * interest.atomics;
    proof {
        lemma_period_growth_bounds(numerator as int);
        assert(SECONDS_IN_YEAR * DECIMAL_FRACTIONAL == year_fraction());
    }
    let growth = Decimal::one().add(Decimal::from_ratio(numerator, SECONDS_IN_YEAR * DECIMAL_FRACTIONAL));
    if pow_overflows(growth, epochs_passed as u32) {
        return true;
    }
    let btoken_ratio = match compounded_interest_rate(interest, cfg.interest_charge_period, epochs_passed) {
        Ok(v) => v,
        Err(_) => return false,
    };
    let charged = match checked_uint_mul_decimal(borrowed, btoken_ratio) {
        Some(v) => v,
        None => return true,
    };
    let to_reserve = match checked_uint_mul_decimal(charged, cfg.reserve_factor) {
        Some(v) => v,
        None => return true,
    };
    let reserve = match old_reserve.checked_add(to_reserve) {
        Some(v) => v,
        None => return true,
    };
    let held = match supplied.checked_add(old_reserve) {
        Some(v) => v,
        None => return true,
    };
    if held < borrowed {
        return true;
    }
    let total = match borrowed.checked_add(held - borrowed) {
        Some(v) => v,
        None => return true,
    };
    if total <= reserve {
        return true;
    }
    cw_checked_multiply_ratio(charged, DECIMAL_FRACTIONAL, total - reserve).is_none()
}

/// Law: where the growth of one charge period is a whole number `m`, so that
/// nothing is rounded, charging `k` periods at once grows the B-tokens exactly
/// as much as charging them one period at a time at the same rate: one period
/// gives the ratio `m - 1`, so `k` single charges multiply the B-tokens by
/// `m^k`, and `k` periods at once give the ratio `m^k - 1`.
pub proof fn law_compounding_without_rounding(rate: u128, period: u64, m: int, k: u64)
    requires
        period * rate <= u128::MAX,
        period_growth(rate, period) == m * frac(),
        m >= 1,
        1 <= k <= u32::MAX,
        pow(m, k as nat) * frac() <= u128::MAX,
    ensures
        !compounding_aborts(rate, period, 1),
        spec_compounded_rate(rate, period, 1) == Ok::<Decimal, OverflowError>(
            Decimal { atomics: ((m - 1) * frac()) as u128 },
        ),
        !compounding_aborts(rate, period, k),
        spec_compounded_rate(rate, period, k) == Ok::<Decimal, OverflowError>(
            Decimal { atomics: ((pow(m, k as nat) - 1) * frac()) as u128 },
        ),
{
    let f = frac();
    vstd::arithmetic::power::lemma_pow1(m);
    vstd::arithmetic::power::lemma_pow_increases(m as nat, 1, k as nat);
    assert(m * f <= pow(m, k as nat) * f) by (nonlinear_arith)
        requires
            m <= pow(m, k as nat),
            f > 0,
    ;
    law_pow_of_whole_number(m, 1);
    law_pow_of_whole_number(m, k as u32);
    assert((k as u32) as nat == k as nat);
    assert(pow(m, k as nat) * f - f == (pow(m, k as nat) - 1) * f) by (nonlinear_arith);
    assert(m * f - f == (m - 1) * f) by (nonlinear_arith);
}

/// Law: charging interest never lowers the reserve, whatever the supplies.
pub proof fn law_reserve_never_decreases(
    cfg: Config,
    supplied: u128,
    borrowed: u128,
    old_reserve: u128,
    epochs: u64,
)
    requires
        !calculate_interest_aborts(cfg, supplied, borrowed, old_reserve, epochs),
    ensures
        spec_calculate_interest(cfg, supplied, borrowed, old_reserve, epochs) matches Ok(Some(u))
            ==> u.reserve >= old_reserve,
{
    if let Ok(Some(u)) = spec_calculate_interest(cfg, supplied, borrowed, old_reserve, epochs) {
        let rate = cfg.rates.spec_rate(spec_utilisation(supplied, borrowed) as u128) as u128;
        if let Ok(btoken_ratio) = spec_compounded_rate(rate, cfg.interest_charge_period, epochs) {
            let charged = mul_floor(borrowed as int, btoken_ratio.atomics as int);
            lemma_mul_floor_nonneg(borrowed as int, btoken_ratio.atomics as int);
            lemma_mul_floor_nonneg(charged, cfg.reserve_factor.atomics as int);
        }
    }
}

/// Law: while nothing is borrowed, lenders earn nothing and the reserve stays.
pub proof fn law_nothing_borrowed_nothing_earned(
    cfg: Config,
    supplied: u128,
    old_reserve: u128,
    epochs: u64,
)
    requires
        !calculate_interest_aborts(cfg, supplied, 0, old_reserve, epochs),
    ensures
        spec_calculate_interest(cfg, supplied, 0, old_reserve, epochs) matches Ok(Some(u))
            ==> u.reserve == old_reserve && u.ltoken_ratio.atomics == 0,
{
    if let Ok(Some(u)) = spec_calculate_interest(cfg, supplied, 0, old_reserve, epochs) {
        let rate = cfg.rates.spec_rate(spec_utilisation(supplied, 0) as u128) as u128;
        if let Ok(btoken_ratio) = spec_compounded_rate(rate, cfg.interest_charge_period, epochs) {
            assert(mul_floor(0, btoken_ratio.atomics as int) == 0);
            assert(mul_floor(0, cfg.reserve_factor.atomics as int) == 0);
            let l_supply = supplied + old_reserve - old_reserve;
            assert(l_supply > 0);
            assert(ratio_floor(0, l_supply) == 0) by (nonlinear_arith)
                requires
                    l_supply > 0,
                    ratio_floor(0, l_supply) == 0 * frac() / l_supply,
            ;
        }
    }
}

/// Law: the utilisation is a fraction between zero and one while no more is
/// borrowed than supplied.
pub proof fn law_utilisation_at_most_one(supplied: u128, borrowed: u128)
    requires
        borrowed <= supplied,
    ensures
        0 <= spec_utilisation(supplied, borrowed) <= frac(),
{
    if supplied != 0 {
        let f = frac();
        assert(borrowed * f <= supplied * f) by (nonlinear_arith)
            requires
                borrowed <= supplied,
                f > 0,
        ;
        assert(borrowed * f >= 0) by (nonlinear_arith)
            requires
                f > 0,
        ;
        vstd::arithmetic::div_mod::lemma_div_is_ordered(borrowed * f, supplied * f, supplied as int);
        vstd::arithmetic::div_mod::lemma_div_pos_is_pos(borrowed * f, supplied as int);
        assert(supplied * f / (supplied as int) == f) by (nonlinear_arith)
            requires
                supplied > 0,
        ;
    }
}

/// `floor(a * b / 10^18)` is not negative for non-negative `a` and `b`.
proof fn lemma_mul_floor_nonneg(a: int, b: int)
    requires
        a >= 0,
        b >= 0,
    ensures
        mul_floor(a, b) >= 0,
{
    assert(a * b >= 0) by (nonlinear_arith)
        requires
            a >= 0,
            b >= 0,
    ;
}

} // verus!
