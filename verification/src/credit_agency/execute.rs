//! Handlers of the credit agency's execute messages.

use vstd::prelude::*;

use crate::coin::{coin_native, Coin, CoinError, NativeCoin, Token, TokenView};
use crate::credit_agency::query::{addrs, market};
use crate::oracle::str_lt_spec;
use crate::credit_agency::{AgencyMsg, Config, ContractError, MarketConfig, MarketState};
use crate::credit_line::{
    response_in_token, response_values, sum_collateral, sum_credit_line, sum_debt, sum_fits,
    CreditLineResponse, CreditLineValues,
};
use crate::credit_agency::query::{all_values, lemma_lines_sum, lines_sum, sum_lines, LinesSum};
use crate::decimal::{
    checked_uint_mul_decimal, frac, mul_floor, ratio_floor, uint_mul_decimal, Decimal, DECIMAL_FRACTIONAL,
};
use crate::market::InstantiateMsg as MarketInstantiateMsg;
use std::collections::HashMap;

verus! {

broadcast use vstd::std_specs::hash::group_hash_axioms;

/// `top / bottom`, floored; `None` when `bottom` is zero.
pub fn divide(top: u128, bottom: Decimal) -> (r: Option<u128>)
    requires
        top * frac() <= u128::MAX,
    ensures
        bottom.atomics == 0 ==> r is None,
        bottom.atomics != 0 ==> r == Some(ratio_floor(top as int, bottom.atomics as int) as u128),
{
    let scaled = top * DECIMAL_FRACTIONAL;
    if bottom.atomics == 0 {
        None
    } else {
        Some(scaled / bottom.atomics)
    }
}

/// The message instantiating a market for `market_token` as configured.
pub open spec fn market_instantiate_msg(cfg: Config, market_cfg: MarketConfig, market_token: String) -> MarketInstantiateMsg {
    MarketInstantiateMsg {
        name: market_cfg.name,
        symbol: market_cfg.symbol,
        decimals: market_cfg.decimals,
        token_id: cfg.isotonic_token_id,
        market_token: Token::Native(market_token),
        market_cap: market_cfg.market_cap,
        interest_rate: market_cfg.interest_rate,
        distributed_token: Token::Native(cfg.reward_token),
        interest_charge_period: market_cfg.interest_charge_period,
        common_token: Token::Native(cfg.common_token),
        collateral_ratio: market_cfg.collateral_ratio,
        price_oracle: market_cfg.price_oracle,
        reserve_factor: market_cfg.reserve_factor,
    }
}

/// Law: a market is instantiated with the configuration requested for it,
/// unchanged, and with the agency's token code, reward token and common token.
pub proof fn law_market_gets_its_configuration(cfg: Config, market_cfg: MarketConfig, market_token: String)
    ensures
        ({
            let msg = market_instantiate_msg(cfg, market_cfg, market_token);
            &&& msg.name == market_cfg.name
            &&& msg.symbol == market_cfg.symbol
            &&& msg.decimals == market_cfg.decimals
            &&& msg.market_token == Token::Native(market_token)
            &&& msg.market_cap == market_cfg.market_cap
            &&& msg.interest_rate == market_cfg.interest_rate
            &&& msg.interest_charge_period == market_cfg.interest_charge_period
            &&& msg.collateral_ratio == market_cfg.collateral_ratio
            &&& msg.price_oracle == market_cfg.price_oracle
            &&& msg.reserve_factor == market_cfg.reserve_factor
            &&& msg.token_id == cfg.isotonic_token_id
            &&& msg.distributed_token == Token::Native(cfg.reward_token)
            &&& msg.common_token == Token::Native(cfg.common_token)
        }),
{
}

/// Handler for `CreateMarket`: governance creates the market of a native base
/// asset that has none yet; its collateral ratio must stay below the
/// liquidation price. `market_state` is the stored state of the base asset's
/// market and becomes `Instantiating`; `reply_ids` maps reply ids to the base
/// asset whose market they instantiate and gains the next reply id. Returns
/// the instantiation message, which carries that reply id.
pub fn create_market(
    cfg: &Config,
    sender: &String,
    market_cfg: MarketConfig,
    market_state: &mut Option<MarketState>,
    next_reply_id: &mut u64,
    reply_ids: &mut HashMap<u64, String>,
) -> (r: Result<AgencyMsg, ContractError>)
    requires
        *old(next_reply_id) < u64::MAX,
    ensures
        !(market_cfg.market_token is Native) ==> r == Err::<AgencyMsg, ContractError>(
            ContractError::Cw20TokensNotSupported,
        ),
        market_cfg.market_token is Native && sender@ != cfg.gov_contract@ ==> r == Err::<
            AgencyMsg,
            ContractError,
        >(ContractError::Unauthorized),
        market_cfg.market_token is Native && sender@ == cfg.gov_contract@
            && market_cfg.collateral_ratio.atomics >= cfg.liquidation_price.atomics ==> r == Err::<
            AgencyMsg,
            ContractError,
        >(ContractError::MarketCfgCollateralFailure),
        market_cfg.market_token is Native && sender@ == cfg.gov_contract@
            && market_cfg.collateral_ratio.atomics < cfg.liquidation_price.atomics ==> match *old(
            market_state,
        ) {
            Some(MarketState::Instantiating) => r matches Err(ContractError::MarketCreating(t)) && t@
                == market_cfg.market_token->Native_0@,
            Some(MarketState::Ready(_)) => r matches Err(ContractError::MarketAlreadyExists(t)) && t@
                == market_cfg.market_token->Native_0@,
            None => r matches Ok(AgencyMsg::InstantiateMarket { code_id, market_token, msg, reply_id })
                && code_id == cfg.isotonic_market_id && market_token@
                == market_cfg.market_token->Native_0@ && msg == market_instantiate_msg(
                *cfg,
                market_cfg,
                market_token,
            ) && reply_id == *old(next_reply_id) + 1 && *final(next_reply_id) == reply_id
                && *final(market_state) == Some(MarketState::Instantiating) && final(reply_ids)@
                == old(reply_ids)@.insert(reply_id, market_token),
        },
        r is Err ==> *final(next_reply_id) == *old(next_reply_id) && *final(market_state)
            == *old(market_state) && final(reply_ids)@ == old(reply_ids)@,
        // the new market gets the requested configuration unchanged
        r matches Ok(AgencyMsg::InstantiateMarket { code_id, msg, .. }) ==> {
            &&& code_id == cfg.isotonic_market_id
            &&& msg.token_id == cfg.isotonic_token_id
            &&& msg.name == market_cfg.name
            &&& msg.symbol == market_cfg.symbol
            &&& msg.decimals == market_cfg.decimals
            &&& msg.market_token@ == market_cfg.market_token@
            &&& msg.market_cap == market_cfg.market_cap
            &&& msg.interest_rate == market_cfg.interest_rate
            &&& msg.interest_charge_period == market_cfg.interest_charge_period
            &&& msg.collateral_ratio == market_cfg.collateral_ratio
            &&& msg.price_oracle == market_cfg.price_oracle
            &&& msg.reserve_factor == market_cfg.reserve_factor
            &&& msg.distributed_token@ == TokenView::Native(cfg.reward_token@)
            &&& msg.common_token@ == TokenView::Native(cfg.common_token@)
        },
{
    let market_token = match market_cfg.market_token.native() {
        Some(d) => d,
        None => return Err(ContractError::Cw20TokensNotSupported),
    };
    if !sender.eq(&cfg.gov_contract) {
        return Err(ContractError::Unauthorized);
    }
    // the collateral ratio must stay below the liquidation price, otherwise a
    // liquidation could decrease the debt less than the credit line
    if market_cfg.collateral_ratio.atomics >= cfg.liquidation_price.atomics {
        return Err(ContractError::MarketCfgCollateralFailure);
    }
    match market_state {
        Some(MarketState::Instantiating) => return Err(ContractError::MarketCreating(market_token)),
        Some(MarketState::Ready(_)) => return Err(ContractError::MarketAlreadyExists(market_token)),
        None => {},
    }
    *market_state = Some(MarketState::Instantiating);
    *next_reply_id = *next_reply_id + 1;
    reply_ids.insert(*next_reply_id, market_token.clone());
    let msg = MarketInstantiateMsg {
        name: market_cfg.name,
        symbol: market_cfg.symbol,
        decimals: market_cfg.decimals,
        token_id: cfg.isotonic_token_id,
        market_token: Token::Native(market_token.clone()),
        market_cap: market_cfg.market_cap,
        interest_rate: market_cfg.interest_rate,
        distributed_token: Token::Native(cfg.reward_token.clone()),
        interest_charge_period: market_cfg.interest_charge_period,
        common_token: Token::Native(cfg.common_token.clone()),
        collateral_ratio: market_cfg.collateral_ratio,
        price_oracle: market_cfg.price_oracle,
        reserve_factor: market_cfg.reserve_factor,
    };
    Ok(
        AgencyMsg::InstantiateMarket {
            code_id: cfg.isotonic_market_id,
            market_token,
            msg,
            reply_id: *next_reply_id,
        },
    )
}

/// Whether the account's markets contain `market`.
fn contains(markets: &Vec<String>, market: &String) -> (r: bool)
    ensures
        r == addrs(markets@).contains(market@),
{
    crate::credit_agency::query::is_on_market(markets, market).participating
}

/// Whether the addresses are in strictly ascending byte order: sorted and
/// without repetitions, as in the set the markets of an account are kept in.
pub open spec fn strictly_ascending(s: Seq<Seq<char>>) -> bool {
    forall|i: int, j: int| 0 <= i < j < s.len() ==> str_lt_spec(#[trigger] s[i], #[trigger] s[j])
}

/// Handler for `EnterMarket`: the market `market` (the sender) records that
/// the account takes part in it. The markets of an account form a set, kept in
/// ascending order.
pub fn enter_market(entered: &mut Vec<String>, market: String)
    ensures
        addrs(old(entered)@).contains(market@) ==> final(entered)@ == old(entered)@,
        !addrs(old(entered)@).contains(market@) ==> exists|i: int|
            0 <= i <= old(entered)@.len() && final(entered)@ == old(entered)@.insert(i, market),
        addrs(final(entered)@).to_set() == addrs(old(entered)@).to_set().insert(market@),
        strictly_ascending(addrs(old(entered)@)) ==> strictly_ascending(addrs(final(entered)@)),
{
    let ghost before = addrs(entered@);
    if contains(entered, &market) {
        assert(before.to_set() =~= before.to_set().insert(market@));
        return;
    }
    let mut i: usize = 0;
    while i < entered.len() && crate::oracle::str_lt(&entered[i], &market)
        invariant
            i <= entered.len(),
            entered@ == old(entered)@,
            before == addrs(entered@),
            forall|j: int| 0 <= j < i ==> str_lt_spec(#[trigger] before[j], market@),
        decreases entered.len() - i,
    {
        i = i + 1;
    }
    let ghost m = market@;
    entered.insert(i, market);
    let ghost after = addrs(entered@);
    assert(after =~= before.insert(i as int, m));
    proof {
        {
            assert forall|x: Seq<char>| after.to_set().contains(x) <==> before.to_set().insert(m).contains(x) by {
                if after.contains(x) {
                    let k = choose|k: int| 0 <= k < after.len() && after[k] == x;
                    if k < i {
                        assert(before[k] == x);
                    } else if k > i {
                        assert(before[k - 1] == x);
                    }
                }
                if before.contains(x) {
                    let k = choose|k: int| 0 <= k < before.len() && before[k] == x;
                    if k < i {
                        assert(after[k] == x);
                    } else {
                        assert(after[k + 1] == x);
                    }
                }
                if x == m {
                    assert(after[i as int] == x);
                }
            }
            assert(after.to_set() =~= before.to_set().insert(m));
        }
        if strictly_ascending(before) {
            if i < before.len() {
                crate::oracle::law_str_order_total(before[i as int], m);
            }
            assert forall|a: int, b: int| 0 <= a < b < after.len() implies str_lt_spec(
                #[trigger] after[a],
                #[trigger] after[b],
            ) by {
                if b < i {
                    assert(after[a] == before[a] && after[b] == before[b]);
                } else if b == i {
                    assert(after[a] == before[a]);
                } else if a < i {
                    assert(after[a] == before[a] && after[b] == before[b - 1]);
                    assert(str_lt_spec(before[a], m));
                    if b - 1 > i {
                        assert(str_lt_spec(before[i as int], before[b - 1]));
                        crate::oracle::law_str_order_transitive(m, before[i as int], before[b - 1]);
                    }
                    crate::oracle::law_str_order_transitive(before[a], m, before[b - 1]);
                } else if a == i {
                    assert(after[b] == before[b - 1]);
                    if b - 1 > i {
                        assert(str_lt_spec(before[i as int], before[b - 1]));
                        crate::oracle::law_str_order_transitive(m, before[i as int], before[b - 1]);
                    }
                } else {
                    assert(after[a] == before[a - 1] && after[b] == before[b - 1]);
                }
            }
        }
    }
}

/// The markets left after removing every occurrence of `market`.
pub open spec fn without(s: Seq<Seq<char>>, market: Seq<char>) -> Seq<Seq<char>> {
    s.filter(|m: Seq<char>| m != market)
}

/// The markets of credit lines keyed by market.
pub open spec fn line_markets(lines: Seq<(String, CreditLineResponse)>) -> Seq<Seq<char>> {
    lines.map_values(|p: (String, CreditLineResponse)| p.0@)
}

/// The credit lines on the markets other than `market`, in order.
pub open spec fn other_lines(lines: Seq<(String, CreditLineResponse)>, market: Seq<char>) -> Seq<
    CreditLineResponse,
>
    decreases lines.len(),
{
    if lines.len() == 0 {
        Seq::empty()
    } else if lines.last().0@ != market {
        other_lines(lines.drop_last(), market).push(lines.last().1)
    } else {
        other_lines(lines.drop_last(), market)
    }
}

/// The credit lines on the markets other than `market`, in order.
fn lines_except(lines: &Vec<(String, CreditLineResponse)>, market: &String) -> (r: Vec<CreditLineResponse>)
    ensures
        r@ == other_lines(lines@, market@),
{
    let mut others: Vec<CreditLineResponse> = Vec::new();
    let mut i: usize = 0;
    while i < lines.len()
        invariant
            i <= lines.len(),
            others@ == other_lines(lines@.take(i as int), market@),
        decreases lines.len() - i,
    {
        assert(lines@.take(i as int + 1).drop_last() =~= lines@.take(i as int));
        if !lines[i].0.eq(market) {
            let line = &lines[i].1;
            others.push(
                CreditLineResponse {
                    collateral: line.collateral.duplicate(),
                    credit_line: line.credit_line.duplicate(),
                    debt: line.debt.duplicate(),
                },
            );
        }
        i = i + 1;
    }
    assert(lines@.take(lines.len() as int) =~= lines@);
    others
}

/// Whether `exit_market` would abort on these credit lines, which its callers
/// must rule out first: adding up the lines of the markets left overflows
/// before a line in another token is met.
pub fn exit_market_overflows(
    common_token: &String,
    market: &String,
    credit_lines: &Vec<(String, CreditLineResponse)>,
) -> (r: bool)
    ensures
        r == (lines_sum(*common_token, other_lines(credit_lines@, market@)) is Overflow),
{
    match sum_lines(common_token, &lines_except(credit_lines, market)) {
        LinesSum::Overflow => true,
        _ => false,
    }
}

/// The first position of `market` among the entered markets.
fn position(entered: &Vec<String>, market: &String) -> (r: usize)
    ensures
        r == crate::credit_agency::query::find_from(addrs(entered@), market@, 0),
{
    let mut i: usize = 0;
    while i < entered.len() && !entered[i].eq(market)
        invariant
            i <= entered.len(),
            forall|j: int| 0 <= j < i ==> addrs(entered@)[j] != market@,
        decreases entered.len() - i,
    {
        i = i + 1;
    }
    proof {
        lemma_find_from_skip(addrs(entered@), market@, i as int);
    }
    i
}

/// Skipping positions that differ from `x` does not move the first position
/// of `x`.
proof fn lemma_find_from_skip(s: Seq<Seq<char>>, x: Seq<char>, i: int)
    requires
        0 <= i <= s.len(),
        forall|j: int| 0 <= j < i ==> s[j] != x,
        i == s.len() || s[i] == x,
    ensures
        crate::credit_agency::query::find_from(s, x, 0) == i,
    decreases i,
{
    if i > 0 {
        lemma_find_from_skip_prefix(s, x, i - 1);
    }
}

proof fn lemma_find_from_skip_prefix(s: Seq<Seq<char>>, x: Seq<char>, k: int)
    requires
        0 <= k < s.len(),
        forall|j: int| 0 <= j <= k ==> s[j] != x,
    ensures
        crate::credit_agency::query::find_from(s, x, 0) == crate::credit_agency::query::find_from(
            s,
            x,
            k + 1,
        ),
    decreases k,
{
    if k > 0 {
        lemma_find_from_skip_prefix(s, x, k - 1);
    }
}

/// Handler for `ExitMarket`: the sender leaves `market`, provided it owes
/// nothing there and its credit line on the markets left still covers its
/// debt. `credit_lines` holds the sender's credit line on each market it
/// entered, keyed by the market, in the order of `entered`.
pub fn exit_market(
    common_token: &String,
    sender: &String,
    market: &String,
    entered: &mut Vec<String>,
    credit_lines: &Vec<(String, CreditLineResponse)>,
) -> (r: Result<(), ContractError>)
    requires
        line_markets(credit_lines@) == addrs(old(entered)@),
        !(lines_sum(*common_token, other_lines(credit_lines@, market@)) is Overflow),
    ensures
        !addrs(old(entered)@).contains(market@) ==> r == Err::<(), ContractError>(
            ContractError::NotOnMarket { address: *sender, market: *market },
        ),
        addrs(old(entered)@).contains(market@) ==> {
            let line = credit_lines@[crate::credit_agency::query::find_from(
                addrs(old(entered)@),
                market@,
                0,
            )].1;
            let others = other_lines(credit_lines@, market@);
            let all_common = crate::credit_agency::query::all_in_common(*common_token, others);
            let vals = all_values(others);
            &&& line.debt.amount != 0 ==> (r matches Err(
                ContractError::DebtOnMarket { address, market: m, debt },
            ) && address == *sender && m == *market && debt.denom@ == line.debt.denom@ && debt.amount
                == line.debt.amount)
            &&& line.debt.amount == 0 && !all_common ==> r == Err::<(), ContractError>(
                ContractError::InvalidCommonTokenDenom,
            )
            &&& line.debt.amount == 0 && all_common && sum_credit_line(vals) < sum_debt(vals) ==> r
                == Err::<(), ContractError>(
                ContractError::NotEnoughCollat {
                    debt: sum_debt(vals) as u128,
                    credit_line: sum_credit_line(vals) as u128,
                    collateral: sum_collateral(vals) as u128,
                },
            )
            &&& line.debt.amount == 0 && all_common && sum_credit_line(vals) >= sum_debt(vals) ==> r is Ok
                && addrs(final(entered)@) == without(addrs(old(entered)@), market@)
        },
        r is Err ==> final(entered)@ == old(entered)@,
{
    let pos = position(entered, market);
    proof {
        crate::credit_agency::query::lemma_find_from_bounds(addrs(entered@), market@, 0);
        assert(line_markets(credit_lines@).len() == addrs(entered@).len());
    }
    if pos == entered.len() {
        proof {
            assert forall|j: int| 0 <= j < addrs(entered@).len() implies addrs(entered@)[j] != market@ by {}
        }
        return Err(ContractError::NotOnMarket { address: sender.clone(), market: market.clone() });
    }
    assert(addrs(entered@)[pos as int] == market@);
    let market_credit_line = &credit_lines[pos].1;
    if market_credit_line.debt.amount != 0 {
        return Err(
            ContractError::DebtOnMarket {
                address: sender.clone(),
                market: market.clone(),
                debt: market_credit_line.debt.duplicate(),
            },
        );
    }
    let others = lines_except(credit_lines, market);
    proof {
        lemma_lines_sum(*common_token, others@);
    }
    let reduced = match sum_lines(common_token, &others) {
        LinesSum::Total(t) => t,
        _ => return Err(ContractError::InvalidCommonTokenDenom),
    };
    if reduced.credit_line < reduced.debt {
        return Err(
            ContractError::NotEnoughCollat {
                debt: reduced.debt,
                credit_line: reduced.credit_line,
                collateral: reduced.collateral,
            },
        );
    }
    let mut kept: Vec<String> = Vec::new();
    let mut i: usize = 0;
    while i < entered.len()
        invariant
            i <= entered.len(),
            addrs(kept@) == without(addrs(entered@.take(i as int)), market@),
        decreases entered.len() - i,
    {
        let ghost before = entered@.take(i as int);
        assert(addrs(entered@.take(i as int + 1)) =~= addrs(before).push(entered@[i as int]@));
        reveal_with_fuel(Seq::filter, 2);
        if !entered[i].eq(market) {
            kept.push(entered[i].clone());
        }
        proof {
            assert(addrs(entered@.take(i as int + 1)).drop_last() =~= addrs(before));
        }
        i = i + 1;
    }
    assert(entered@.take(entered.len() as int) =~= entered@);
    *entered = kept;
    Ok(())
}

/// Law: once an account entered a market it is on that market, and it stays
/// on every market it was on before.
pub proof fn law_enter_then_on_market(before: Seq<String>, after: Seq<String>, market: String)
    requires
        addrs(after).to_set() == addrs(before).to_set().insert(market@),
    ensures
        addrs(after).contains(market@),
        forall|m: Seq<char>| addrs(before).contains(m) ==> addrs(after).contains(m),
{
    assert(addrs(after).to_set().contains(market@));
    assert forall|m: Seq<char>| addrs(before).contains(m) implies addrs(after).contains(m) by {
        assert(addrs(before).to_set().contains(m));
        assert(addrs(after).to_set().contains(m));
    }
}

/// What is left after removing a market was there before.
proof fn lemma_without_subset(s: Seq<Seq<char>>, market: Seq<char>, x: Seq<char>)
    requires
        without(s, market).contains(x),
    ensures
        s.contains(x),
    decreases s.len(),
{
    reveal_with_fuel(Seq::filter, 1);
    if s.len() > 0 {
        let rest = s.drop_last();
        let kept = without(rest, market);
        if s.last() != market && x == s.last() {
            assert(s[s.len() - 1] == x);
        } else {
            if s.last() != market {
                assert(without(s, market) == kept.push(s.last()));
                let k = choose|k: int| 0 <= k < without(s, market).len() && without(s, market)[k] == x;
                assert(k < kept.len());
                assert(kept[k] == x);
            } else {
                assert(without(s, market) == kept);
            }
            lemma_without_subset(rest, market, x);
            let k = choose|k: int| 0 <= k < rest.len() && rest[k] == x;
            assert(s[k] == x);
        }
    }
}

/// Removing every occurrence of a market keeps the rest in ascending order.
proof fn lemma_without_keeps_order(s: Seq<Seq<char>>, market: Seq<char>)
    requires
        strictly_ascending(s),
    ensures
        strictly_ascending(without(s, market)),
    decreases s.len(),
{
    reveal_with_fuel(Seq::filter, 1);
    if s.len() > 0 {
        let rest = s.drop_last();
        assert(strictly_ascending(rest)) by {
            assert forall|i: int, j: int| 0 <= i < j < rest.len() implies str_lt_spec(
                #[trigger] rest[i],
                #[trigger] rest[j],
            ) by {
                assert(rest[i] == s[i] && rest[j] == s[j]);
            }
        }
        lemma_without_keeps_order(rest, market);
        let kept = without(rest, market);
        if s.last() != market {
            let all = kept.push(s.last());
            assert(without(s, market) == all);
            assert forall|i: int, j: int| 0 <= i < j < all.len() implies str_lt_spec(
                #[trigger] all[i],
                #[trigger] all[j],
            ) by {
                if j == kept.len() {
                    assert(kept.contains(kept[i]));
                    lemma_without_subset(rest, market, kept[i]);
                    let k = choose|k: int| 0 <= k < rest.len() && rest[k] == kept[i];
                    assert(s[k] == kept[i] && s[s.len() - 1] == s.last());
                    assert(all[i] == kept[i] && all[j] == s.last());
                } else {
                    assert(all[i] == kept[i] && all[j] == kept[j]);
                }
            }
        } else {
            assert(without(s, market) == kept);
        }
    }
}

/// Law: once an account exited a market it is no longer on it, it is still on
/// every other market it was on, and its markets stay in ascending order.
pub proof fn law_exit_then_not_on_market(before: Seq<String>, after: Seq<String>, market: String)
    requires
        addrs(after) == without(addrs(before), market@),
    ensures
        !addrs(after).contains(market@),
        forall|m: Seq<char>| m != market@ ==> (addrs(after).contains(m) <==> addrs(before).contains(m)),
        strictly_ascending(addrs(before)) ==> strictly_ascending(addrs(after)),
{
    if strictly_ascending(addrs(before)) {
        lemma_without_keeps_order(addrs(before), market@);
    }
    let f = |m: Seq<char>| m != market@;
    assert(without(addrs(before), market@) == addrs(before).filter(f));
    assert forall|m: Seq<char>| #[trigger] addrs(after).contains(m) implies m != market@ && addrs(
        before,
    ).contains(m) by {
        let i = choose|i: int| 0 <= i < addrs(after).len() && addrs(after)[i] == m;
        addrs(before).lemma_filter_pred(f, i);
        addrs(before).lemma_filter_contains_rev(f, m);
    }
    assert forall|m: Seq<char>| m != market@ && addrs(before).contains(m) implies #[trigger] addrs(
        after,
    ).contains(m) by {
        let i = choose|i: int| 0 <= i < addrs(before).len() && addrs(before)[i] == m;
        addrs(before).lemma_filter_contains(f, i);
    }
}

/// The sell limit of a liquidation, in collateral tokens: the credit line
/// left once `amount_common` of the debt is repaid, divided by the collateral
/// ratio, then by the collateral's price in common tokens; or the error.
pub open spec fn spec_sell_limit(
    values: CreditLineValues,
    amount_common: int,
    collateral_ratio: Decimal,
    collateral_rate: Decimal,
) -> Result<u128, ContractError> {
    if values.debt < amount_common {
        Err(ContractError::Coin(CoinError::Underflow))
    } else if values.credit_line < values.debt - amount_common {
        Err(ContractError::Coin(CoinError::Underflow))
    } else if collateral_ratio.atomics == 0 {
        Err(ContractError::DivisionByZero)
    } else if collateral_rate.atomics == 0 {
        Err(ContractError::DivisionByZero)
    } else {
        let left = values.credit_line - (values.debt - amount_common);
        Ok(
            ratio_floor(
                ratio_floor(left, collateral_ratio.atomics as int),
                collateral_rate.atomics as int,
            ) as u128,
        )
    }
}

/// Law: the sell limit of a liquidation never lets the account lose more
/// credit line than it has left once the repaid debt is gone: selling
/// `sell_limit` collateral, valued at the collateral's price and weighted by
/// its collateral ratio, costs at most the credit line in excess of the debt
/// that remains.
pub proof fn law_sell_limit_within_credit_left(
    values: CreditLineValues,
    amount_common: int,
    collateral_ratio: Decimal,
    collateral_rate: Decimal,
)
    requires
        amount_common >= 0,
        !sell_limit_aborts(values, amount_common, collateral_ratio),
    ensures
        spec_sell_limit(values, amount_common, collateral_ratio, collateral_rate) matches Ok(s)
            ==> mul_floor(
            mul_floor(s as int, collateral_rate.atomics as int),
            collateral_ratio.atomics as int,
        ) <= values.credit_line - (values.debt - amount_common),
{
    if let Ok(s) = spec_sell_limit(values, amount_common, collateral_ratio, collateral_rate) {
        let left = values.credit_line - (values.debt - amount_common);
        let ratio = collateral_ratio.atomics as int;
        let rate = collateral_rate.atomics as int;
        let q = ratio_floor(left, ratio);
        assert(q >= 0) by {
            assert(left * frac() >= 0) by (nonlinear_arith)
                requires
                    left >= 0,
            ;
            vstd::arithmetic::div_mod::lemma_div_pos_is_pos(left * frac(), ratio);
        }
        assert(q * frac() >= 0) by (nonlinear_arith)
            requires
                q >= 0,
        ;
        vstd::arithmetic::div_mod::lemma_div_is_ordered_by_denominator(q * frac(), 1, rate);
        assert(s as int == ratio_floor(q, rate));
        crate::market::cr_utils::lemma_convert_back(q, rate);
        crate::market::cr_utils::lemma_convert_back(left, ratio);
        let m = mul_floor(s as int, rate);
        assert(m * ratio <= q * ratio) by (nonlinear_arith)
            requires
                m <= q,
                ratio > 0,
        ;
        vstd::arithmetic::div_mod::lemma_div_is_ordered(m * ratio, q * ratio, frac());
    }
}

/// Whether computing the sell limit aborts.
pub open spec fn sell_limit_aborts(
    values: CreditLineValues,
    amount_common: int,
    collateral_ratio: Decimal,
) -> bool {
    let left = values.credit_line - (values.debt - amount_common);
    &&& values.debt >= amount_common
    &&& values.credit_line >= values.debt - amount_common
    &&& {
        ||| left * frac() > u128::MAX
        ||| (collateral_ratio.atomics != 0 && ratio_floor(left, collateral_ratio.atomics as int)
            * frac() > u128::MAX)
    }
}

/// The messages of a repayment with collateral: the collateral market
/// withdraws at most `sell_limit` of the account's collateral and swaps it for
/// the repaid tokens, which the debt market then uses to repay the account's
/// debt.
pub open spec fn repayment_msgs(
    r: Result<Vec<AgencyMsg>, ContractError>,
    collateral_market: String,
    debt_market: String,
    account: String,
    sell_limit: u128,
    amount_to_repay: Coin,
    debt_denom: String,
) -> bool {
    r matches Ok(v) && v@.len() == 2 && (v@[0] matches AgencyMsg::SwapWithdrawFrom {
        market,
        account: a,
        sell_limit: s,
        buy,
    } && market == collateral_market && a == account && s == sell_limit && buy.denom@
        == amount_to_repay.denom@ && buy.amount == amount_to_repay.amount) && v@[1]
        == AgencyMsg::RepayTo {
        market: debt_market,
        account,
        amount: amount_to_repay.amount,
        funds: NativeCoin { denom: debt_denom, amount: amount_to_repay.amount },
    }
}

/// The fees of a liquidation, in debt tokens: the liquidation fee, handed to
/// all lenders of the debt market, then the initiation fee, sent to the
/// liquidator; a fee of zero sends nothing.
pub open spec fn fee_msgs(
    debt_market: String,
    liquidator: String,
    debt_denom: String,
    fee: int,
    initiation_fee: int,
) -> Seq<AgencyMsg> {
    (if fee > 0 {
        seq![
            AgencyMsg::DistributeAsLTokens {
                market: debt_market,
                funds: NativeCoin { denom: debt_denom, amount: fee as u128 },
            },
        ]
    } else {
        Seq::empty()
    }) + (if initiation_fee > 0 {
        seq![
            AgencyMsg::BankSend {
                to_address: liquidator,
                funds: NativeCoin { denom: debt_denom, amount: initiation_fee as u128 },
            },
        ]
    } else {
        Seq::empty()
    })
}

/// The amounts of the fees that messages pay out, to the lenders of a market
/// or to an address.
pub open spec fn paid_out(msgs: Seq<AgencyMsg>) -> int
    decreases msgs.len(),
{
    if msgs.len() == 0 {
        0
    } else {
        paid_out(msgs.drop_last()) + match msgs.last() {
            AgencyMsg::DistributeAsLTokens { funds, .. } => funds.amount as int,
            AgencyMsg::BankSend { funds, .. } => funds.amount as int,
            _ => 0,
        }
    }
}

/// Law: the two fees of a liquidation are paid separately: the liquidator is
/// sent exactly the initiation fee whenever it is positive, whatever the
/// liquidation fee, and the lenders get exactly the liquidation fee whenever it
/// is positive; together exactly both fees are paid out, nothing else.
pub proof fn law_fees_paid_separately(
    debt_market: String,
    liquidator: String,
    debt_denom: String,
    fee: u128,
    initiation_fee: u128,
)
    ensures
        ({
            let msgs = fee_msgs(debt_market, liquidator, debt_denom, fee as int, initiation_fee as int);
            &&& paid_out(msgs) == fee + initiation_fee
            &&& msgs.len() == (if fee > 0 { 1int } else { 0 }) + (if initiation_fee > 0 { 1int } else { 0 })
            &&& initiation_fee > 0 ==> msgs.last() == AgencyMsg::BankSend {
                to_address: liquidator,
                funds: NativeCoin { denom: debt_denom, amount: initiation_fee },
            }
            &&& fee > 0 ==> msgs[0] == AgencyMsg::DistributeAsLTokens {
                market: debt_market,
                funds: NativeCoin { denom: debt_denom, amount: fee },
            }
            &&& forall|i: int| 0 <= i < msgs.len() ==> (#[trigger] msgs[i] is BankSend ==> msgs[i]
                == AgencyMsg::BankSend {
                to_address: liquidator,
                funds: NativeCoin { denom: debt_denom, amount: initiation_fee },
            })
        }),
{
    let msgs = fee_msgs(debt_market, liquidator, debt_denom, fee as int, initiation_fee as int);
    reveal_with_fuel(paid_out, 3);
    let d = seq![
        AgencyMsg::DistributeAsLTokens {
            market: debt_market,
            funds: NativeCoin { denom: debt_denom, amount: fee },
        },
    ];
    let b = seq![
        AgencyMsg::BankSend {
            to_address: liquidator,
            funds: NativeCoin { denom: debt_denom, amount: initiation_fee },
        },
    ];
    if fee > 0 && initiation_fee > 0 {
        assert(msgs =~= d + b);
        assert(msgs.drop_last() =~= d);
        assert(d.drop_last() =~= Seq::<AgencyMsg>::empty());
    } else if fee > 0 {
        assert(msgs =~= d);
        assert(d.drop_last() =~= Seq::<AgencyMsg>::empty());
    } else if initiation_fee > 0 {
        assert(msgs =~= b);
        assert(b.drop_last() =~= Seq::<AgencyMsg>::empty());
    } else {
        assert(msgs =~= Seq::<AgencyMsg>::empty());
    }
}

/// Law: a liquidation buys exactly what it repays and pays out: the tokens
/// bought with the collateral are the repaid debt plus the fees sent on, and
/// the liquidator receives the initiation fee whenever it is positive.
pub proof fn law_liquidation_buys_what_it_pays(
    r: Result<Vec<AgencyMsg>, ContractError>,
    collateral_market: String,
    debt_market: String,
    account: String,
    liquidator: String,
    sell_limit: u128,
    amount_to_repay: Coin,
    debt_denom: String,
    fee: u128,
    initiation_fee: u128,
)
    requires
        liquidation_msgs(
            r,
            collateral_market,
            debt_market,
            account,
            liquidator,
            sell_limit,
            amount_to_repay,
            debt_denom,
            fee as int,
            initiation_fee as int,
        ),
    ensures
        r matches Ok(v) && v@.len() >= 2 && (v@[0] matches AgencyMsg::SwapWithdrawFrom { buy, .. }
            && v@[1] matches AgencyMsg::RepayTo { amount, .. } && buy.amount == amount + paid_out(
            v@.skip(2),
        )),
        initiation_fee > 0 ==> (r matches Ok(v) && v@.last() == AgencyMsg::BankSend {
            to_address: liquidator,
            funds: NativeCoin { denom: debt_denom, amount: initiation_fee },
        }),
{
    law_fees_paid_separately(debt_market, liquidator, debt_denom, fee, initiation_fee);
    if let Ok(v) = r {
        assert(v@.skip(2) =~= v@.subrange(2, v@.len() as int));
        let rest = v@.subrange(2, v@.len() as int);
        if initiation_fee > 0 {
            assert(v@.last() == rest.last());
        }
    }
}

/// The messages of a liquidation: the collateral market withdraws at most
/// `sell_limit` of the account's collateral and swaps it for the repaid amount
/// and both fees, the debt market then repays the account's debt with the
/// repaid amount, and the fees are paid out.
pub open spec fn liquidation_msgs(
    r: Result<Vec<AgencyMsg>, ContractError>,
    collateral_market: String,
    debt_market: String,
    account: String,
    liquidator: String,
    sell_limit: u128,
    amount_to_repay: Coin,
    debt_denom: String,
    fee: int,
    initiation_fee: int,
) -> bool {
    r matches Ok(v) && v@.len() >= 2 && (v@[0] matches AgencyMsg::SwapWithdrawFrom {
        market,
        account: a,
        sell_limit: s,
        buy,
    } && market == collateral_market && a == account && s == sell_limit && buy.denom@
        == amount_to_repay.denom@ && buy.amount == amount_to_repay.amount + fee + initiation_fee)
        && v@[1] == AgencyMsg::RepayTo {
        market: debt_market,
        account,
        amount: amount_to_repay.amount,
        funds: NativeCoin { denom: debt_denom, amount: amount_to_repay.amount },
    } && v@.subrange(2, v@.len() as int) == fee_msgs(
        debt_market,
        liquidator,
        debt_denom,
        fee,
        initiation_fee,
    )
}

/// The market address of a stored state, if ready.
pub open spec fn state_addr(state: Option<MarketState>) -> Option<String> {
    match state {
        Some(MarketState::Ready(a)) => Some(a),
        _ => None,
    }
}

/// The error of looking up the market of `denom` in state `state`.
pub open spec fn lookup_error(e: ContractError, denom: Seq<char>, state: Option<MarketState>) -> bool {
    match state {
        None => e matches ContractError::NoMarket(t) && t@ == denom,
        _ => e matches ContractError::MarketCreating(t) && t@ == denom,
    }
}

/// Whether the collateral and debt markets are both ready and the account
/// entered both.
pub open spec fn markets_entered(
    collateral_state: Option<MarketState>,
    debt_state: Option<MarketState>,
    entered: Seq<String>,
) -> bool {
    match (state_addr(collateral_state), state_addr(debt_state)) {
        (Some(c), Some(d)) => addrs(entered).contains(c@) && addrs(entered).contains(d@),
        _ => false,
    }
}

/// Whether a liquidation aborts on an overflow: that is only possible once
/// the markets were found and entered, the total credit line is in common
/// tokens and its debt exceeds its credit line; then converting the repaid
/// amount to common tokens, computing the sell limit, or adding the fees to
/// the repaid amount overflows.
pub open spec fn liquidation_aborts(
    cfg: Config,
    collateral_state: Option<MarketState>,
    debt_state: Option<MarketState>,
    entered: Seq<String>,
    total_credit_line: CreditLineResponse,
    collateral_ratio: Decimal,
    collateral_per_common_rate: Decimal,
    debt_per_common_rate: Decimal,
    amount_to_repay: u128,
) -> bool {
    let values = response_values(total_credit_line);
    let amount_common = mul_floor(amount_to_repay as int, debt_per_common_rate.atomics as int);
    &&& markets_entered(collateral_state, debt_state, entered)
    &&& response_in_token(total_credit_line, Token::Native(cfg.common_token))
    &&& values.debt > values.credit_line
    &&& {
        ||| amount_common > u128::MAX
        ||| sell_limit_aborts(values, amount_common, collateral_ratio)
        ||| (spec_sell_limit(values, amount_common, collateral_ratio, collateral_per_common_rate) is Ok
            && amount_to_repay + mul_floor(amount_to_repay as int, cfg.liquidation_fee.atomics as int)
            + mul_floor(amount_to_repay as int, cfg.liquidation_initiation_fee.atomics as int)
            > u128::MAX)
    }
}

/// Whether a repayment with collateral aborts on an overflow: only once the
/// markets were found and entered, when converting the collateral or the
/// repaid amount to common tokens, or weighting the collateral, overflows.
pub open spec fn repayment_aborts(
    collateral_state: Option<MarketState>,
    debt_state: Option<MarketState>,
    entered: Seq<String>,
    collateral_ratio: Decimal,
    collateral_per_common_rate: Decimal,
    debt_per_common_rate: Decimal,
    max_collateral: u128,
    amount_to_repay: u128,
) -> bool {
    let collateral_common = mul_floor(max_collateral as int, collateral_per_common_rate.atomics as int);
    &&& markets_entered(collateral_state, debt_state, entered)
    &&& {
        ||| collateral_common > u128::MAX
        ||| mul_floor(amount_to_repay as int, debt_per_common_rate.atomics as int) > u128::MAX
        ||| mul_floor(collateral_common, collateral_ratio.atomics as int) > u128::MAX
    }
}

/// Whether the markets of both states are ready and the account entered both.
fn both_entered(
    collateral_state: &Option<MarketState>,
    debt_state: &Option<MarketState>,
    entered: &Vec<String>,
) -> (r: bool)
    ensures
        r == markets_entered(*collateral_state, *debt_state, entered@),
{
    match (collateral_state, debt_state) {
        (Some(MarketState::Ready(c)), Some(MarketState::Ready(d))) => contains(entered, c) && contains(
            entered,
            d,
        ),
        _ => false,
    }
}

/// Whether `liquidate` would abort on these values, which its callers must
/// rule out first.
pub fn liquidation_overflows(
    cfg: &Config,
    collateral_state: &Option<MarketState>,
    debt_state: &Option<MarketState>,
    entered: &Vec<String>,
    total_credit_line: &CreditLineResponse,
    collateral_ratio: Decimal,
    collateral_per_common_rate: Decimal,
    debt_per_common_rate: Decimal,
    amount_to_repay: u128,
) -> (r: bool)
    ensures
        r == liquidation_aborts(
            *cfg,
            *collateral_state,
            *debt_state,
            entered@,
            *total_credit_line,
            collateral_ratio,
            collateral_per_common_rate,
            debt_per_common_rate,
            amount_to_repay,
        ),
{
    if !both_entered(collateral_state, debt_state, entered) {
        return false;
    }
    let values = match total_credit_line.validate(&Token::Native(cfg.common_token.clone())) {
        Ok(v) => v,
        Err(_) => return false,
    };
    if values.debt <= values.credit_line {
        return false;
    }
    let amount_common = match checked_uint_mul_decimal(amount_to_repay, debt_per_common_rate) {
        Some(v) => v,
        None => return true,
    };
    if values.debt < amount_common || values.credit_line < values.debt - amount_common {
        return false;
    }
    let left = values.credit_line - (values.debt - amount_common);
    let scaled = match left.checked_mul(DECIMAL_FRACTIONAL) {
        Some(v) => v,
        None => return true,
    };
    if collateral_ratio.atomics == 0 {
        return false;
    }
    if (scaled / collateral_ratio.atomics).checked_mul(DECIMAL_FRACTIONAL).is_none() {
        return true;
    }
    if collateral_per_common_rate.atomics == 0 {
        return false;
    }
    let fee = match checked_uint_mul_decimal(amount_to_repay, cfg.liquidation_fee) {
        Some(v) => v,
        None => return true,
    };
    let initiation_fee = match checked_uint_mul_decimal(amount_to_repay, cfg.liquidation_initiation_fee) {
        Some(v) => v,
        None => return true,
    };
    match amount_to_repay.checked_add(fee) {
        Some(v) => v.checked_add(initiation_fee).is_none(),
        None => true,
    }
}

/// Whether `repay_with_collateral` would abort on these values, which its
/// callers must rule out first.
pub fn repayment_overflows(
    collateral_state: &Option<MarketState>,
    debt_state: &Option<MarketState>,
    entered: &Vec<String>,
    collateral_ratio: Decimal,
    collateral_per_common_rate: Decimal,
    debt_per_common_rate: Decimal,
    max_collateral: u128,
    amount_to_repay: u128,
) -> (r: bool)
    ensures
        r == repayment_aborts(
            *collateral_state,
            *debt_state,
            entered@,
            collateral_ratio,
            collateral_per_common_rate,
            debt_per_common_rate,
            max_collateral,
            amount_to_repay,
        ),
{
    if !both_entered(collateral_state, debt_state, entered) {
        return false;
    }
    let collateral_common = match checked_uint_mul_decimal(max_collateral, collateral_per_common_rate) {
        Some(v) => v,
        None => return true,
    };
    checked_uint_mul_decimal(amount_to_repay, debt_per_common_rate).is_none()
        || checked_uint_mul_decimal(collateral_common, collateral_ratio).is_none()
}

/// The outcome of looking up the collateral and debt markets of an account
/// and checking it entered both: their addresses, or the error.
pub open spec fn markets_outcome<T>(
    r: Result<T, ContractError>,
    account: String,
    collateral_denom: Seq<char>,
    collateral_state: Option<MarketState>,
    debt_denom: Seq<char>,
    debt_state: Option<MarketState>,
    entered: Seq<String>,
    rest: spec_fn(String, String) -> bool,
) -> bool {
    match (state_addr(collateral_state), state_addr(debt_state)) {
        (None, _) => r matches Err(e) && lookup_error(e, collateral_denom, collateral_state),
        (Some(_), None) => r matches Err(e) && lookup_error(e, debt_denom, debt_state),
        (Some(c), Some(d)) => if !addrs(entered).contains(c@) {
            r == Err::<T, ContractError>(ContractError::NotOnMarket { address: account, market: c })
        } else if !addrs(entered).contains(d@) {
            r == Err::<T, ContractError>(ContractError::NotOnMarket { address: account, market: d })
        } else {
            rest(c, d)
        },
    }
}

/// Looks up the collateral and debt markets and checks that the account
/// entered both.
pub fn liquidation_markets(
    account: &String,
    collateral_denom: &String,
    collateral_state: Option<MarketState>,
    debt_denom: &String,
    debt_state: Option<MarketState>,
    entered: &Vec<String>,
) -> (r: Result<(String, String), ContractError>)
    ensures
        markets_outcome(
            r,
            *account,
            collateral_denom@,
            collateral_state,
            debt_denom@,
            debt_state,
            entered@,
            |c: String, d: String| r == Ok::<(String, String), ContractError>((c, d)),
        ),
{
    let collateral_market = market(collateral_denom, collateral_state)?.market;
    let debt_market = market(debt_denom, debt_state)?.market;
    if !contains(entered, &collateral_market) {
        return Err(ContractError::NotOnMarket { address: account.clone(), market: collateral_market });
    } else if !contains(entered, &debt_market) {
        return Err(ContractError::NotOnMarket { address: account.clone(), market: debt_market });
    }
    Ok((collateral_market, debt_market))
}

/// Handler for `Liquidate`: an account whose debt exceeds its credit line has
/// `amount_to_repay` of its debt repaid from its collateral in
/// `collateral_denom`. Given the stored states of both markets, the markets the
/// account entered, its total credit line, the collateral market's collateral
/// ratio and the prices of both tokens in common tokens. Besides the debt, the
/// collateral pays the liquidation fee, which goes to the lenders of the debt
/// market, and the initiation fee, which goes to the liquidator.
pub fn liquidate(
    cfg: &Config,
    liquidator: &String,
    account: &String,
    collateral_denom: &String,
    collateral_state: Option<MarketState>,
    debt_denom: &String,
    debt_state: Option<MarketState>,
    entered: &Vec<String>,
    total_credit_line: &CreditLineResponse,
    collateral_ratio: Decimal,
    collateral_per_common_rate: Decimal,
    debt_per_common_rate: Decimal,
    amount_to_repay: &Coin,
) -> (r: Result<Vec<AgencyMsg>, ContractError>)
    requires
        !liquidation_aborts(
            *cfg,
            collateral_state,
            debt_state,
            entered@,
            *total_credit_line,
            collateral_ratio,
            collateral_per_common_rate,
            debt_per_common_rate,
            amount_to_repay.amount,
        ),
    ensures
        markets_outcome(
            r,
            *account,
            collateral_denom@,
            collateral_state,
            debt_denom@,
            debt_state,
            entered@,
            |c: String, d: String|
                {
                    let values = response_values(*total_credit_line);
                    if !response_in_token(*total_credit_line, Token::Native(cfg.common_token)) {
                        r == Err::<Vec<AgencyMsg>, ContractError>(
                            ContractError::InvalidCommonTokenDenom,
                        )
                    } else if values.debt <= values.credit_line {
                        r == Err::<Vec<AgencyMsg>, ContractError>(
                            ContractError::LiquidationNotAllowed,
                        )
                    } else {
                        match spec_sell_limit(
                            values,
                            mul_floor(
                                amount_to_repay.amount as int,
                                debt_per_common_rate.atomics as int,
                            ),
                            collateral_ratio,
                            collateral_per_common_rate,
                        ) {
                            Err(e) => r == Err::<Vec<AgencyMsg>, ContractError>(e),
                            Ok(sell_limit) => liquidation_msgs(
                                r,
                                c,
                                d,
                                *account,
                                *liquidator,
                                sell_limit,
                                *amount_to_repay,
                                *debt_denom,
                                mul_floor(
                                    amount_to_repay.amount as int,
                                    cfg.liquidation_fee.atomics as int,
                                ),
                                mul_floor(
                                    amount_to_repay.amount as int,
                                    cfg.liquidation_initiation_fee.atomics as int,
                                ),
                            ),
                        }
                    }
                },
        ),
        // the collateral buys the repaid debt and both fees, which are paid
        // out separately; the liquidator gets the initiation fee
        r matches Ok(v) ==> {
            let fee = mul_floor(amount_to_repay.amount as int, cfg.liquidation_fee.atomics as int);
            let initiation_fee = mul_floor(
                amount_to_repay.amount as int,
                cfg.liquidation_initiation_fee.atomics as int,
            );
            &&& v@.len() >= 2
            &&& (v@[0] matches AgencyMsg::SwapWithdrawFrom { buy, .. } && buy.amount
                == amount_to_repay.amount + fee + initiation_fee)
            &&& (v@[1] matches AgencyMsg::RepayTo { amount, .. } && amount == amount_to_repay.amount)
            &&& paid_out(v@.skip(2)) == fee + initiation_fee
            &&& (initiation_fee > 0 ==> v@.last() == AgencyMsg::BankSend {
                to_address: *liquidator,
                funds: NativeCoin { denom: *debt_denom, amount: initiation_fee as u128 },
            })
        },
{
    let (collateral_market, debt_market) = liquidation_markets(
        account,
        collateral_denom,
        collateral_state,
        debt_denom,
        debt_state,
        entered,
    )?;
    let common = Token::Native(cfg.common_token.clone());
    let values = match total_credit_line.validate(&common) {
        Ok(v) => v,
        Err(_) => return Err(ContractError::InvalidCommonTokenDenom),
    };
    if values.debt <= values.credit_line {
        return Err(ContractError::LiquidationNotAllowed);
    }
    let amount_to_repay_common = coin_native(
        uint_mul_decimal(amount_to_repay.amount, debt_per_common_rate),
        cfg.common_token.clone(),
    );
    let simulated_debt = match total_credit_line.debt.checked_sub(&amount_to_repay_common) {
        Ok(c) => c,
        Err(e) => return Err(ContractError::Coin(e)),
    };
    let left = match total_credit_line.credit_line.checked_sub(&simulated_debt) {
        Ok(c) => c,
        Err(e) => return Err(ContractError::Coin(e)),
    };
    let sell_limit_in_common = match divide(left.amount, collateral_ratio) {
        Some(v) => v,
        None => return Err(ContractError::DivisionByZero),
    };
    let sell_limit = match divide(sell_limit_in_common, collateral_per_common_rate) {
        Some(v) => v,
        None => return Err(ContractError::DivisionByZero),
    };
    let fee = uint_mul_decimal(amount_to_repay.amount, cfg.liquidation_fee);
    let initiation_fee = uint_mul_decimal(amount_to_repay.amount, cfg.liquidation_initiation_fee);
    let buy = Coin {
        denom: amount_to_repay.denom.duplicate(),
        amount: amount_to_repay.amount + fee + initiation_fee,
    };
    let mut msgs = Vec::new();
    msgs.push(
        AgencyMsg::SwapWithdrawFrom {
            market: collateral_market,
            account: account.clone(),
            sell_limit,
            buy,
        },
    );
    msgs.push(
        AgencyMsg::RepayTo {
            market: debt_market.clone(),
            account: account.clone(),
            amount: amount_to_repay.amount,
            funds: NativeCoin { denom: debt_denom.clone(), amount: amount_to_repay.amount },
        },
    );
    if fee > 0 {
        msgs.push(
            AgencyMsg::DistributeAsLTokens {
                market: debt_market,
                funds: NativeCoin { denom: debt_denom.clone(), amount: fee },
            },
        );
    }
    if initiation_fee > 0 {
        msgs.push(
            AgencyMsg::BankSend {
                to_address: liquidator.clone(),
                funds: NativeCoin { denom: debt_denom.clone(), amount: initiation_fee },
            },
        );
    }
    assert(msgs@.subrange(2, msgs@.len() as int) =~= fee_msgs(
        debt_market,
        *liquidator,
        *debt_denom,
        fee as int,
        initiation_fee as int,
    ));
    proof {
        law_fees_paid_separately(debt_market, *liquidator, *debt_denom, fee, initiation_fee);
        assert(msgs@.skip(2) =~= msgs@.subrange(2, msgs@.len() as int));
        if initiation_fee > 0 {
            assert(msgs@.last() == msgs@.subrange(2, msgs@.len() as int).last());
        }
    }
    Ok(msgs)
}

/// The checks of a repayment with collateral: the credit line left once the
/// collateral (in common tokens) is withdrawn must still cover the debt left
/// once `amount_common` is repaid; `Ok(())` when it does.
pub open spec fn spec_repay_check(
    resp: CreditLineResponse,
    common: Seq<char>,
    collateral_common: int,
    collateral_ratio: Decimal,
    amount_common: int,
) -> Result<(), ContractError> {
    let weighted = mul_floor(collateral_common, collateral_ratio.atomics as int);
    if resp.credit_line.denom@ != TokenView::Native(common) {
        Err(ContractError::Coin(CoinError::IncorrectDenoms))
    } else if resp.credit_line.amount < weighted {
        Err(ContractError::Coin(CoinError::Underflow))
    } else if resp.debt.denom@ != TokenView::Native(common) {
        Err(ContractError::Coin(CoinError::IncorrectDenoms))
    } else if resp.debt.amount < amount_common {
        Err(ContractError::Coin(CoinError::Underflow))
    } else if resp.debt.amount - amount_common > resp.credit_line.amount - weighted {
        Err(ContractError::RepayingLoanUsingCollateralFailed)
    } else {
        Ok(())
    }
}

/// Handler for `RepayWithCollateral`: the sender repays `amount_to_repay` of
/// its debt by selling at most `max_collateral` of its collateral, provided it
/// stays collateralised. Given the stored states of both markets, the markets
/// the sender entered, its total credit line, the collateral market's
/// collateral ratio and the prices of both tokens in common tokens.
pub fn repay_with_collateral(
    cfg: &Config,
    sender: &String,
    collateral_denom: &String,
    collateral_state: Option<MarketState>,
    debt_denom: &String,
    debt_state: Option<MarketState>,
    entered: &Vec<String>,
    total_credit_line: &CreditLineResponse,
    collateral_ratio: Decimal,
    collateral_per_common_rate: Decimal,
    debt_per_common_rate: Decimal,
    max_collateral: &Coin,
    amount_to_repay: &Coin,
) -> (r: Result<Vec<AgencyMsg>, ContractError>)
    requires
        !repayment_aborts(
            collateral_state,
            debt_state,
            entered@,
            collateral_ratio,
            collateral_per_common_rate,
            debt_per_common_rate,
            max_collateral.amount,
            amount_to_repay.amount,
        ),
    ensures
        markets_outcome(
            r,
            *sender,
            collateral_denom@,
            collateral_state,
            debt_denom@,
            debt_state,
            entered@,
            |c: String, d: String|
                {
                    let collateral_common = mul_floor(
                        max_collateral.amount as int,
                        collateral_per_common_rate.atomics as int,
                    );
                    match spec_repay_check(
                        *total_credit_line,
                        cfg.common_token@,
                        collateral_common,
                        collateral_ratio,
                        mul_floor(amount_to_repay.amount as int, debt_per_common_rate.atomics as int),
                    ) {
                        Err(e) => r == Err::<Vec<AgencyMsg>, ContractError>(e),
                        Ok(()) => repayment_msgs(
                            r,
                            c,
                            d,
                            *sender,
                            max_collateral.amount,
                            *amount_to_repay,
                            *debt_denom,
                        ),
                    }
                },
        ),
{
    let (collateral_market, debt_market) = liquidation_markets(
        sender,
        collateral_denom,
        collateral_state,
        debt_denom,
        debt_state,
        entered,
    )?;
    let max_collateral_common = coin_native(
        uint_mul_decimal(max_collateral.amount, collateral_per_common_rate),
        cfg.common_token.clone(),
    );
    let amount_to_repay_common = coin_native(
        uint_mul_decimal(amount_to_repay.amount, debt_per_common_rate),
        cfg.common_token.clone(),
    );
    let weighted = Coin {
        denom: max_collateral_common.denom.duplicate(),
        amount: uint_mul_decimal(max_collateral_common.amount, collateral_ratio),
    };
    let simulated_credit_line = match total_credit_line.credit_line.checked_sub(&weighted) {
        Ok(c) => c,
        Err(e) => return Err(ContractError::Coin(e)),
    };
    let simulated_debt = match total_credit_line.debt.checked_sub(&amount_to_repay_common) {
        Ok(c) => c,
        Err(e) => return Err(ContractError::Coin(e)),
    };
    if simulated_debt.amount > simulated_credit_line.amount {
        return Err(ContractError::RepayingLoanUsingCollateralFailed);
    }
    let mut msgs = Vec::new();
    msgs.push(
        AgencyMsg::SwapWithdrawFrom {
            market: collateral_market,
            account: sender.clone(),
            sell_limit: max_collateral.amount,
            buy: amount_to_repay.duplicate(),
        },
    );
    msgs.push(
        AgencyMsg::RepayTo {
            market: debt_market,
            account: sender.clone(),
            amount: amount_to_repay.amount,
            funds: NativeCoin { denom: debt_denom.clone(), amount: amount_to_repay.amount },
        },
    );
    Ok(msgs)
}

} // verus!
