//! Steps shared by the market's handlers.

use vstd::prelude::*;

use crate::coin::NativeCoin;
use crate::decimal::{Decimal, DECIMAL_FRACTIONAL};
use crate::interest::{
    calculate_interest, calculate_interest_aborts, calculate_interest_overflows, epochs_passed, spec_calculate_interest,
    spec_epochs_passed, InterestUpdate, TokensInfo,
};
use crate::market::{Config, ContractError, MarketMsg};

verus! {

/// The rebase messages applying an interest update: B-tokens grow by the
/// borrowers' interest, L-tokens by the lenders' share.
pub open spec fn rebase_msgs(cfg: Config, update: InterestUpdate) -> Seq<MarketMsg> {
    seq![
        MarketMsg::Rebase {
            token_contract: cfg.btoken_contract,
            ratio: Decimal { atomics: (update.btoken_ratio.atomics + DECIMAL_FRACTIONAL) as u128 },
        },
        MarketMsg::Rebase {
            token_contract: cfg.ltoken_contract,
            ratio: Decimal { atomics: (update.ltoken_ratio.atomics + DECIMAL_FRACTIONAL) as u128 },
        },
    ]
}

/// Charging all pending interest at time `now`: the configuration with every
/// passed charge period marked as charged, the new reserve, and the rebase
/// messages; or the overflow that made it fail.
pub open spec fn spec_charge(cfg: Config, reserve: u128, info: TokensInfo, now: u64) -> Result<
    (Config, u128, Seq<MarketMsg>),
    ContractError,
> {
    let epochs = spec_epochs_passed(cfg, now);
    let new_cfg = Config {
        last_charged: (cfg.last_charged + epochs * cfg.interest_charge_period) as u64,
        ..cfg
    };
    match spec_calculate_interest(
        cfg,
        info.ltoken.total_supply@,
        info.btoken.total_supply@,
        reserve,
        epochs as u64,
    ) {
        Err(e) => Err(ContractError::Overflow(e)),
        Ok(None) => Ok((new_cfg, reserve, Seq::empty())),
        Ok(Some(u)) => Ok((new_cfg, u.reserve, rebase_msgs(new_cfg, u))),
    }
}

/// Whether charging interest aborts on these values.
pub open spec fn charge_aborts(cfg: Config, reserve: u128, info: TokensInfo, now: u64) -> bool {
    let epochs = spec_epochs_passed(cfg, now);
    ||| now < cfg.last_charged
    ||| cfg.interest_charge_period == 0
    ||| calculate_interest_aborts(
        cfg,
        info.ltoken.total_supply@,
        info.btoken.total_supply@,
        reserve,
        epochs as u64,
    )
    ||| match spec_calculate_interest(
        cfg,
        info.ltoken.total_supply@,
        info.btoken.total_supply@,
        reserve,
        epochs as u64,
    ) {
        Ok(Some(u)) => u.btoken_ratio.atomics + DECIMAL_FRACTIONAL > u128::MAX
            || u.ltoken_ratio.atomics + DECIMAL_FRACTIONAL > u128::MAX,
        _ => false,
    }
}

/// Whether charging interest at time `now` would abort, which the handlers'
/// callers must rule out first.
pub fn charge_overflows(cfg: &Config, reserve: u128, tokens_info: &TokensInfo, now: u64) -> (r: bool)
    ensures
        r == charge_aborts(*cfg, reserve, *tokens_info, now),
{
    if now < cfg.last_charged || cfg.interest_charge_period == 0 {
        return true;
    }
    let epochs = epochs_passed(cfg, now);
    if calculate_interest_overflows(cfg, tokens_info, reserve, epochs) {
        return true;
    }
    match calculate_interest(cfg, tokens_info, reserve, epochs) {
        Ok(Some(update)) => update.btoken_ratio.atomics > u128::MAX - DECIMAL_FRACTIONAL
            || update.ltoken_ratio.atomics > u128::MAX - DECIMAL_FRACTIONAL,
        _ => false,
    }
}

/// Charges all interest pending at time `now`: marks the passed charge periods
/// as charged, stores the new reserve and returns the rebase messages for the
/// L- and B-token contracts. To be called before every mint or burn.
pub fn charge_interest(cfg: &mut Config, reserve: &mut u128, tokens_info: &TokensInfo, now: u64) -> (r:
    Result<Vec<MarketMsg>, ContractError>)
    requires
        !charge_aborts(*old(cfg), *old(reserve), *tokens_info, now),
    ensures
        match spec_charge(*old(cfg), *old(reserve), *tokens_info, now) {
            Ok((c, res, msgs)) => r matches Ok(v) && v@ == msgs && *final(cfg) == c && *final(reserve)
                == res,
            Err(e) => r == Err::<Vec<MarketMsg>, ContractError>(e),
        },
        // every whole period up to `now` is charged, and no more
        r is Ok ==> final(cfg).last_charged <= now && now - final(cfg).last_charged
            < old(cfg).interest_charge_period && (final(cfg).last_charged - old(cfg).last_charged)
            % (old(cfg).interest_charge_period as int) == 0,
{
    let epochs = epochs_passed(cfg, now);
    let period = cfg.interest_charge_period;
    proof {
        let d = now - old(cfg).last_charged;
        vstd::arithmetic::div_mod::lemma_fundamental_div_mod(d as int, period as int);
        vstd::arithmetic::div_mod::lemma_mod_bound(d as int, period as int);
        vstd::arithmetic::div_mod::lemma_div_pos_is_pos(d as int, period as int);
        vstd::arithmetic::mul::lemma_mul_is_commutative(epochs as int, period as int);
        vstd::arithmetic::div_mod::lemma_mod_multiples_basic(epochs as int, period as int);
        assert(epochs * period <= d) by (nonlinear_arith)
            requires
                d == period * epochs + d % (period as int),
                d % (period as int) >= 0,
                epochs * period == period * epochs,
        ;
    }
    cfg.last_charged = cfg.last_charged + epochs * period;
    if epochs == 0 {
        return Ok(Vec::new());
    }
    match calculate_interest(cfg, tokens_info, *reserve, epochs)? {
        Some(update) => {
            *reserve = update.reserve;
            let mut msgs = Vec::new();
            msgs.push(
                MarketMsg::Rebase {
                    token_contract: cfg.btoken_contract.clone(),
                    ratio: update.btoken_ratio.add(Decimal::one()),
                },
            );
            msgs.push(
                MarketMsg::Rebase {
                    token_contract: cfg.ltoken_contract.clone(),
                    ratio: update.ltoken_ratio.add(Decimal::one()),
                },
            );
            Ok(msgs)
        },
        None => Ok(Vec::new()),
    }
}

/// Law: while no charge period has passed since the last charge, charging
/// interest cannot abort, returns no messages and leaves the configuration
/// and the reserve as they are, whatever the token supplies; so charging twice
/// at the same moment has the effect of charging once.
pub proof fn law_no_period_no_charge(cfg: Config, reserve: u128, tokens_info: TokensInfo, now: u64)
    requires
        cfg.interest_charge_period > 0,
        cfg.last_charged <= now,
        spec_epochs_passed(cfg, now) == 0,
    ensures
        !charge_aborts(cfg, reserve, tokens_info, now),
        spec_charge(cfg, reserve, tokens_info, now) == Ok::<
            (Config, u128, Seq<MarketMsg>),
            ContractError,
        >((cfg, reserve, Seq::empty())),
{
    assert(Config { last_charged: (cfg.last_charged + 0 * cfg.interest_charge_period) as u64, ..cfg }
        == cfg);
}

/// Law: charging interest twice at the same moment charges nothing the second
/// time: the configuration and the reserve stay, and no rebase is sent.
pub proof fn law_charge_idempotent(
    cfg: Config,
    reserve: u128,
    tokens_info: TokensInfo,
    later_tokens_info: TokensInfo,
    now: u64,
)
    requires
        !charge_aborts(cfg, reserve, tokens_info, now),
    ensures
        spec_charge(cfg, reserve, tokens_info, now) matches Ok((c, res, _)) ==> spec_charge(
            c,
            res,
            later_tokens_info,
            now,
        ) == Ok::<(Config, u128, Seq<MarketMsg>), ContractError>((c, res, Seq::empty())),
{
    if let Ok((c, res, _)) = spec_charge(cfg, reserve, tokens_info, now) {
        let period = cfg.interest_charge_period as int;
        let d = now - cfg.last_charged;
        let epochs = spec_epochs_passed(cfg, now);
        vstd::arithmetic::div_mod::lemma_fundamental_div_mod(d, period);
        vstd::arithmetic::div_mod::lemma_mod_bound(d, period);
        vstd::arithmetic::mul::lemma_mul_is_commutative(epochs, period);
        assert(c.last_charged == cfg.last_charged + epochs * period);
        let rest = now - c.last_charged;
        assert(0 <= rest < period);
        vstd::arithmetic::div_mod::lemma_basic_div(rest, period);
        assert(spec_epochs_passed(c, now) == 0);
        assert(Config { last_charged: (c.last_charged + 0 * period) as u64, ..c } == c);
    }
}

/// The amount sent along a message, if the funds are a single coin of the
/// market token.
pub open spec fn spec_funds_amount(funds: Seq<NativeCoin>, market_token: Seq<char>) -> Option<u128> {
    if funds.len() == 1 && funds[0].denom@ == market_token {
        Some(funds[0].amount)
    } else {
        None
    }
}

/// The error reported for funds that are not a single coin of the market token.
pub open spec fn is_funds_error(e: ContractError, funds: Seq<NativeCoin>, market_token: Seq<char>) -> bool {
    if funds.len() == 0 {
        e == ContractError::NoFundsSent
    } else if funds.len() == 1 {
        e matches ContractError::InvalidDenom(d) && d@ == market_token
    } else {
        e matches ContractError::ExtraDenoms(d) && d@ == market_token
    }
}

/// The outcome of validating funds: their amount, or the matching error.
pub open spec fn funds_outcome<T>(r: Result<T, ContractError>, funds: Seq<NativeCoin>, market_token: Seq<char>) -> bool {
    r matches Err(e) && is_funds_error(e, funds, market_token)
}

/// Validates the funds sent with a message and returns their amount: they
/// must be a single coin of the market token.
pub fn validate_funds(funds: &Vec<NativeCoin>, market_token_denom: &String) -> (r: Result<
    u128,
    ContractError,
>)
    ensures
        match spec_funds_amount(funds@, market_token_denom@) {
            Some(a) => r == Ok::<u128, ContractError>(a),
            None => funds_outcome(r, funds@, market_token_denom@),
        },
{
    if funds.len() == 0 {
        Err(ContractError::NoFundsSent)
    } else if funds.len() == 1 {
        if funds[0].denom.eq(market_token_denom) {
            Ok(funds[0].amount)
        } else {
            Err(ContractError::InvalidDenom(market_token_denom.clone()))
        }
    } else {
        Err(ContractError::ExtraDenoms(market_token_denom.clone()))
    }
}

/// The message that makes `account` enter this market at the credit agency.
pub fn enter_market(cfg: &Config, account: &String) -> (r: MarketMsg)
    ensures
        r == (MarketMsg::EnterMarket { credit_agency: cfg.credit_agency, account: *account }),
{
    MarketMsg::EnterMarket { credit_agency: cfg.credit_agency.clone(), account: account.clone() }
}

/// Mints `funds_sent` L-tokens to `account` after charging interest, and
/// makes the account enter the market.
pub fn deposit_to(
    cfg: &mut Config,
    reserve: &mut u128,
    tokens_info: &TokensInfo,
    now: u64,
    account: &String,
    funds_sent: u128,
) -> (r: Result<Vec<MarketMsg>, ContractError>)
    requires
        !charge_aborts(*old(cfg), *old(reserve), *tokens_info, now),
    ensures
        match spec_charge(*old(cfg), *old(reserve), *tokens_info, now) {
            Ok((c, res, msgs)) => r matches Ok(v) && v@ == msgs + seq![
                MarketMsg::Mint {
                    token_contract: c.ltoken_contract,
                    recipient: *account,
                    amount: funds_sent,
                },
                MarketMsg::EnterMarket { credit_agency: c.credit_agency, account: *account },
            ] && *final(cfg) == c && *final(reserve) == res,
            Err(e) => r == Err::<Vec<MarketMsg>, ContractError>(e),
        },
{
    let mut msgs = charge_interest(cfg, reserve, tokens_info, now)?;
    msgs.push(
        MarketMsg::Mint {
            token_contract: cfg.ltoken_contract.clone(),
            recipient: account.clone(),
            amount: funds_sent,
        },
    );
    msgs.push(enter_market(cfg, account));
    Ok(msgs)
}

} // verus!
