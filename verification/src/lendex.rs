//! The earlier credit agency of the protocol: it creates markets, lists them,
//! sums an account's credit lines over the listed markets and liquidates
//! accounts whose debt exceeds their credit line.

use vstd::prelude::*;

use crate::reply::{opt_bytes, parse_reply_instantiate_data, reply_address};

use crate::coin::{NativeCoin, Token, TokenView};
use crate::credit_agency::query::{
    keys_ascending, list_markets as list_agency_markets, listed, opt_view, page_limit, take_upto,
    MarketResponse as AgencyMarketResponse,
};
use crate::credit_line::{sum_collateral, sum_credit_line, sum_debt, sum_fits, CreditLineValues};
use crate::decimal::{mul_floor, uint_mul_decimal, Decimal};
use crate::interest::Interest;
use std::collections::HashMap;

pub use crate::credit_agency::MarketState;

verus! {

broadcast use vstd::std_specs::hash::group_hash_axioms;

/// Errors of the credit agency.
#[derive(Clone, Debug, PartialEq, Eq)]
pub enum ContractError {
    Price,
    Unauthorized,
    MarketCfgCollateralFailure,
    UnrecognisedReply(u64),
    ReplyParseFailure { id: u64, err: String },
    NoMarket(String),
    MarketCreating(String),
    MarketAlreadyExists(String),
    LiquidationNotAllowed,
    LiquidationOnlyOneDenomRequired,
    LiquidationIncorrectDenom { incorrect: String, common: String },
    LiquidationInsufficientTokens { sent: u128, required: u128 },
    LiquidationInsufficientBTokens { account: String, btokens: u128, debt: u128 },
    InvalidCommonTokenDenom,
}

/// Configuration of the credit agency.
#[derive(Clone, Debug, PartialEq, Eq)]
pub struct Config {
    /// The address that controls the credit agency and can set up markets.
    pub gov_contract: String,
    /// Code id of the market contract.
    pub lendex_market_id: u64,
    /// Code id of the token contract.
    pub lendex_token_id: u64,
    /// Denom distributed as reward to token holders.
    pub reward_token: String,
    /// Common token denom (same for all markets).
    pub common_token: Option<String>,
    /// Price at which liquidated collateral is sold.
    pub liquidation_price: Decimal,
}

/// Parameters of the credit agency.
#[derive(Clone, Debug, PartialEq, Eq)]
pub struct InstantiateMsg {
    pub gov_contract: String,
    pub lendex_market_id: u64,
    pub lendex_token_id: u64,
    pub reward_token: String,
    pub common_token: Option<String>,
    pub liquidation_price: Decimal,
}

/// Parameters of a market to create.
#[derive(Clone, Debug, PartialEq, Eq)]
pub struct MarketConfig {
    /// Name used to create the sub-tokens `Lent ${name}` and `Borrowed ${name}`.
    pub name: String,
    /// Symbol used to create the sub-tokens `L${symbol}` and `B${symbol}`.
    pub symbol: String,
    /// Decimals of the sub-tokens.
    pub decimals: u8,
    /// Native denom of the market token.
    pub market_token: String,
    /// Interest rate curve.
    pub interest_rate: Interest,
    /// Interest charge period, in seconds.
    pub interest_charge_period: u64,
    /// How much may be borrowed per unit of collateral, below one.
    pub collateral_ratio: Decimal,
    /// Address of the price oracle.
    pub price_oracle: String,
}

/// Execute messages of the credit agency.
#[derive(Clone, Debug, PartialEq, Eq)]
pub enum ExecuteMsg {
    CreateMarket(MarketConfig),
    Liquidate { account: String, collateral_denom: String },
}

/// Queries of the credit agency.
#[derive(Clone, Debug, PartialEq, Eq)]
pub enum QueryMsg {
    /// The current configuration.
    Configuration,
    /// The market address of a market token.
    Market { market_token: String },
    /// The base assets and the addresses of the markets handling them, by pages.
    ListMarkets { start_after: Option<String>, limit: Option<u32> },
    /// The sum of an account's credit lines over the markets.
    TotalCreditLine { account: String },
}

/// The market handling a base asset.
#[derive(Clone, Debug, PartialEq, Eq)]
pub struct MarketResponse {
    pub market_token: String,
    pub market: String,
}

/// A page of markets.
#[derive(Clone, Debug, PartialEq, Eq)]
pub struct ListMarketsResponse {
    pub markets: Vec<MarketResponse>,
}

/// Parameters of a new market contract.
#[derive(Clone, Debug, PartialEq, Eq)]
pub struct MarketInstantiateMsg {
    pub name: String,
    pub symbol: String,
    pub decimals: u8,
    pub token_id: u64,
    pub market_token: String,
    pub interest_rate: Interest,
    pub distributed_token: String,
    pub interest_charge_period: u64,
    pub common_token: Option<String>,
    pub collateral_ratio: Decimal,
    pub price_oracle: String,
}

/// A message the credit agency sends as part of its response.
#[derive(Clone, Debug, PartialEq, Eq)]
pub enum LendexMsg {
    /// Instantiate a market contract, replying under `reply_id`.
    InstantiateMarket { code_id: u64, market_token: String, msg: MarketInstantiateMsg, reply_id: u64 },
    /// Have the market repay `amount` of `account`'s debt with `funds`.
    RepayTo { market: String, account: String, amount: u128, funds: NativeCoin },
    /// Have the market move collateral worth `amount` common tokens from
    /// `source` to `destination`, sold at `liquidation_price`.
    TransferFrom {
        market: String,
        source: String,
        destination: String,
        amount: u128,
        liquidation_price: Decimal,
    },
}

/// The configuration of a new credit agency.
pub fn instantiate(msg: InstantiateMsg) -> (r: Config)
    ensures
        r == (Config {
            gov_contract: msg.gov_contract,
            lendex_market_id: msg.lendex_market_id,
            lendex_token_id: msg.lendex_token_id,
            reward_token: msg.reward_token,
            common_token: msg.common_token,
            liquidation_price: msg.liquidation_price,
        }),
{
    Config {
        gov_contract: msg.gov_contract,
        lendex_market_id: msg.lendex_market_id,
        lendex_token_id: msg.lendex_token_id,
        reward_token: msg.reward_token,
        common_token: msg.common_token,
        liquidation_price: msg.liquidation_price,
    }
}

/// The message instantiating a market as configured.
pub open spec fn market_instantiate_msg(cfg: Config, market_cfg: MarketConfig) -> MarketInstantiateMsg {
    MarketInstantiateMsg {
        name: market_cfg.name,
        symbol: market_cfg.symbol,
        decimals: market_cfg.decimals,
        token_id: cfg.lendex_token_id,
        market_token: market_cfg.market_token,
        interest_rate: market_cfg.interest_rate,
        distributed_token: cfg.reward_token,
        interest_charge_period: market_cfg.interest_charge_period,
        common_token: cfg.common_token,
        collateral_ratio: market_cfg.collateral_ratio,
        price_oracle: market_cfg.price_oracle,
    }
}

/// Law: a market is instantiated with the configuration requested for it,
/// unchanged, and with the agency's token code, reward token and common token.
pub proof fn law_market_gets_its_configuration(cfg: Config, market_cfg: MarketConfig)
    ensures
        ({
            let msg = market_instantiate_msg(cfg, market_cfg);
            &&& msg.name == market_cfg.name
            &&& msg.symbol == market_cfg.symbol
            &&& msg.decimals == market_cfg.decimals
            &&& msg.market_token == market_cfg.market_token
            &&& msg.interest_rate == market_cfg.interest_rate
            &&& msg.interest_charge_period == market_cfg.interest_charge_period
            &&& msg.collateral_ratio == market_cfg.collateral_ratio
            &&& msg.price_oracle == market_cfg.price_oracle
            &&& msg.token_id == cfg.lendex_token_id
            &&& msg.distributed_token == cfg.reward_token
            &&& msg.common_token == cfg.common_token
        }),
{
}

/// Handler for `CreateMarket`: governance creates the market of a base asset
/// that has none yet; its collateral ratio must stay below the liquidation
/// price. `market_state` is the stored state of the base asset's market and
/// becomes `Instantiating`; `reply_ids` maps reply ids to the base asset whose
/// market they instantiate and gains the next reply id. Returns the
/// instantiation message, which carries that reply id.
pub fn create_market(
    cfg: &Config,
    sender: &String,
    market_cfg: MarketConfig,
    market_state: &mut Option<MarketState>,
    next_reply_id: &mut u64,
    reply_ids: &mut HashMap<u64, String>,
) -> (r: Result<LendexMsg, ContractError>)
    requires
        *old(next_reply_id) < u64::MAX,
    ensures
        sender@ != cfg.gov_contract@ ==> r == Err::<LendexMsg, ContractError>(
            ContractError::Unauthorized,
        ),
        sender@ == cfg.gov_contract@ && market_cfg.collateral_ratio.atomics
            >= cfg.liquidation_price.atomics ==> r == Err::<LendexMsg, ContractError>(
            ContractError::MarketCfgCollateralFailure,
        ),
        sender@ == cfg.gov_contract@ && market_cfg.collateral_ratio.atomics
            < cfg.liquidation_price.atomics ==> match *old(market_state) {
            Some(MarketState::Instantiating) => r == Err::<LendexMsg, ContractError>(
                ContractError::MarketCreating(market_cfg.market_token),
            ),
            Some(MarketState::Ready(_)) => r == Err::<LendexMsg, ContractError>(
                ContractError::MarketAlreadyExists(market_cfg.market_token),
            ),
            None => r == Ok::<LendexMsg, ContractError>(
                LendexMsg::InstantiateMarket {
                    code_id: cfg.lendex_market_id,
                    market_token: market_cfg.market_token,
                    msg: market_instantiate_msg(*cfg, market_cfg),
                    reply_id: (*old(next_reply_id) + 1) as u64,
                },
            ) && *final(next_reply_id) == *old(next_reply_id) + 1
                && *final(market_state) == Some(MarketState::Instantiating)
                && final(reply_ids)@ == old(reply_ids)@.insert(
                *final(next_reply_id),
                market_cfg.market_token,
            ),
        },
        r is Err ==> *final(next_reply_id) == *old(next_reply_id) && *final(market_state)
            == *old(market_state) && final(reply_ids)@ == old(reply_ids)@,
        // the new market gets the requested configuration unchanged
        r matches Ok(LendexMsg::InstantiateMarket { code_id, msg, .. }) ==> {
            &&& code_id == cfg.lendex_market_id
            &&& msg.token_id == cfg.lendex_token_id
            &&& msg.name == market_cfg.name
            &&& msg.symbol == market_cfg.symbol
            &&& msg.decimals == market_cfg.decimals
            &&& msg.market_token == market_cfg.market_token
            &&& msg.interest_rate == market_cfg.interest_rate
            &&& msg.interest_charge_period == market_cfg.interest_charge_period
            &&& msg.collateral_ratio == market_cfg.collateral_ratio
            &&& msg.price_oracle == market_cfg.price_oracle
            &&& msg.distributed_token == cfg.reward_token
            &&& msg.common_token == cfg.common_token
        },
{
    if !sender.eq(&cfg.gov_contract) {
        return Err(ContractError::Unauthorized);
    }
    // the collateral ratio must stay below the liquidation price, otherwise a
    // liquidation could decrease the debt less than the credit line
    if market_cfg.collateral_ratio.atomics >= cfg.liquidation_price.atomics {
        return Err(ContractError::MarketCfgCollateralFailure);
    }
    match market_state {
        Some(MarketState::Instantiating) => {
            return Err(ContractError::MarketCreating(market_cfg.market_token));
        },
        Some(MarketState::Ready(_)) => {
            return Err(ContractError::MarketAlreadyExists(market_cfg.market_token));
        },
        None => {},
    }
    *market_state = Some(MarketState::Instantiating);
    *next_reply_id = *next_reply_id + 1;
    let market_token = market_cfg.market_token.clone();
    reply_ids.insert(*next_reply_id, market_cfg.market_token.clone());
    let msg = MarketInstantiateMsg {
        name: market_cfg.name,
        symbol: market_cfg.symbol,
        decimals: market_cfg.decimals,
        token_id: cfg.lendex_token_id,
        market_token: market_cfg.market_token,
        interest_rate: market_cfg.interest_rate,
        distributed_token: cfg.reward_token.clone(),
        interest_charge_period: market_cfg.interest_charge_period,
        common_token: cfg.common_token.clone(),
        collateral_ratio: market_cfg.collateral_ratio,
        price_oracle: market_cfg.price_oracle,
    };
    Ok(
        LendexMsg::InstantiateMarket {
            code_id: cfg.lendex_market_id,
            market_token,
            msg,
            reply_id: *next_reply_id,
        },
    )
}

/// Handler for `Market`: the market of a base asset, given its stored state.
pub fn market(market_token: &String, state: Option<MarketState>) -> (r: Result<MarketResponse, ContractError>)
    ensures
        state is None ==> r == Err::<MarketResponse, ContractError>(
            ContractError::NoMarket(*market_token),
        ),
        state == Some(MarketState::Instantiating) ==> r == Err::<MarketResponse, ContractError>(
            ContractError::MarketCreating(*market_token),
        ),
        state matches Some(MarketState::Ready(addr)) ==> r == Ok::<MarketResponse, ContractError>(
            MarketResponse { market_token: *market_token, market: addr },
        ),
{
    let state = match state {
        Some(s) => s,
        None => return Err(ContractError::NoMarket(market_token.clone())),
    };
    match state.to_addr() {
        Some(addr) => Ok(MarketResponse { market_token: market_token.clone(), market: addr }),
        None => Err(ContractError::MarketCreating(market_token.clone())),
    }
}

/// A market response as (token, address).
pub open spec fn response_view(m: MarketResponse) -> (TokenView, Seq<char>) {
    (TokenView::Native(m.market_token@), m.market@)
}

proof fn lemma_listed_native(entries: Seq<(String, MarketState)>, start: Option<Seq<char>>)
    ensures
        forall|j: int|
            0 <= j < listed(entries, start).len() ==> #[trigger] listed(entries, start)[j].0 is Native,
    decreases entries.len(),
{
    if entries.len() > 0 {
        lemma_listed_native(entries.drop_last(), start);
    }
}

/// Handler for `ListMarkets`: given the stored markets in ascending order of
/// base asset, the ready markets after `start_after`, at most `limit` of them
/// (10 by default, 30 at most).
pub fn list_markets(
    entries: &Vec<(String, MarketState)>,
    start_after: Option<String>,
    limit: Option<u32>,
) -> (r: ListMarketsResponse)
    requires
        keys_ascending(entries@),
    ensures
        r.markets@.map_values(|m: MarketResponse| response_view(m)) == take_upto(
            listed(entries@, opt_view(start_after)),
            page_limit(limit),
        ),
{
    let page = list_agency_markets(entries, start_after, limit);
    let ghost expected = page.markets@.map_values(
        |m: AgencyMarketResponse| crate::credit_agency::query::response_view(m),
    );
    proof {
        let all = listed(entries@, opt_view(start_after));
        lemma_listed_native(entries@, opt_view(start_after));
        assert forall|j: int| 0 <= j < expected.len() implies #[trigger] expected[j].0 is Native by {
            assert(expected[j] == take_upto(all, page_limit(limit))[j]);
            assert(all[j].0 is Native);
        }
    }
    let mut markets: Vec<MarketResponse> = Vec::new();
    let mut i: usize = 0;
    while i < page.markets.len()
        invariant
            i <= page.markets.len(),
            expected == page.markets@.map_values(
                |m: AgencyMarketResponse| crate::credit_agency::query::response_view(m),
            ),
            forall|j: int| 0 <= j < expected.len() ==> #[trigger] expected[j].0 is Native,
            markets@.map_values(|m: MarketResponse| response_view(m)) =~= expected.take(i as int),
        decreases page.markets.len() - i,
    {
        let m = &page.markets[i];
        assert(expected[i as int].0 is Native);
        let ghost old_markets = markets@;
        assert(expected.take(i as int + 1) =~= expected.take(i as int).push(expected[i as int]));
        match &m.market_token {
            Token::Native(d) => {
                let resp = MarketResponse { market_token: d.clone(), market: m.market.clone() };
                assert(response_view(resp) == expected[i as int]);
                markets.push(resp);
                assert(markets@ =~= old_markets.push(resp));
                assert(markets@.map_values(|m: MarketResponse| response_view(m)) =~= old_markets.map_values(
                    |m: MarketResponse| response_view(m),
                ).push(response_view(resp)));
            },
            Token::Cw20(_) => {
                assert(false);
            },
        }
        assert(markets@.map_values(|m: MarketResponse| response_view(m)) =~= expected.take(
            i as int + 1,
        ));
        i = i + 1;
    }
    assert(expected.take(page.markets.len() as int) =~= expected);
    ListMarketsResponse { markets }
}

/// Handler for `TotalCreditLine`: the sum of the account's credit lines on the
/// markets of the first page of `ListMarkets`.
pub fn total_credit_line(credit_lines: &Vec<CreditLineValues>) -> (r: CreditLineValues)
    requires
        sum_fits(credit_lines@),
    ensures
        r.collateral == sum_collateral(credit_lines@),
        r.credit_line == sum_credit_line(credit_lines@),
        r.debt == sum_debt(credit_lines@),
{
    CreditLineValues::sum(credit_lines)
}

/// Handler of the reply to a market instantiation: the market of the base
/// asset recorded under the reply id, `market_token`, is ready at the address
/// read from the reply's data.
pub fn handle_market_instantiation_response(
    reply_id: u64,
    data: &Option<Vec<u8>>,
    market_token: String,
) -> (r: Result<(String, MarketState), ContractError>)
    ensures
        match reply_address(opt_bytes(*data)) {
            Err(message) => r matches Err(ContractError::ReplyParseFailure { id, err }) && id
                == reply_id && err@ == message,
            Ok(address) => r matches Ok((key, MarketState::Ready(a))) && key == market_token && a@
                == address,
        },
{
    match parse_reply_instantiate_data(data) {
        Ok(contract_address) => Ok((market_token, MarketState::Ready(contract_address))),
        Err(err) => Err(ContractError::ReplyParseFailure { id: reply_id, err }),
    }
}

/// The funds of a liquidation: exactly one coin.
pub fn liquidation_funds(funds: &Vec<NativeCoin>) -> (r: Result<NativeCoin, ContractError>)
    ensures
        funds@.len() != 1 ==> r == Err::<NativeCoin, ContractError>(
            ContractError::LiquidationOnlyOneDenomRequired,
        ),
        funds@.len() == 1 ==> r == Ok::<NativeCoin, ContractError>(funds@[0]),
{
    if funds.len() != 1 {
        return Err(ContractError::LiquidationOnlyOneDenomRequired);
    }
    let c = &funds[0];
    let coin = NativeCoin { denom: c.denom.clone(), amount: c.amount };
    assert(coin == funds@[0]);
    Ok(coin)
}

/// An account may be liquidated only when its debt exceeds its credit line.
pub fn liquidation_allowed(total: CreditLineValues) -> (r: Result<(), ContractError>)
    ensures
        total.debt <= total.credit_line ==> r == Err::<(), ContractError>(
            ContractError::LiquidationNotAllowed,
        ),
        total.debt > total.credit_line ==> r is Ok,
{
    if total.debt <= total.credit_line {
        Err(ContractError::LiquidationNotAllowed)
    } else {
        Ok(())
    }
}

/// The messages of a liquidation: the debt market repays the account's debt
/// with the funds sent, and the collateral market hands the liquidator
/// collateral worth the funds in common tokens (`rate` common tokens per
/// unit), sold at the liquidation price.
pub fn liquidation_msgs(
    cfg: &Config,
    sender: &String,
    account: &String,
    funds: NativeCoin,
    debt_market: String,
    collateral_market: String,
    rate: Decimal,
) -> (r: Vec<LendexMsg>)
    requires
        mul_floor(funds.amount as int, rate.atomics as int) <= u128::MAX,
    ensures
        r@ == seq![
            LendexMsg::RepayTo {
                market: debt_market,
                account: *account,
                amount: funds.amount,
                funds,
            },
            LendexMsg::TransferFrom {
                market: collateral_market,
                source: *account,
                destination: *sender,
                amount: mul_floor(funds.amount as int, rate.atomics as int) as u128,
                liquidation_price: cfg.liquidation_price,
            },
        ],
{
    let amount = funds.amount;
    let reward = uint_mul_decimal(amount, rate);
    let mut msgs: Vec<LendexMsg> = Vec::new();
    msgs.push(LendexMsg::RepayTo { market: debt_market, account: account.clone(), amount, funds });
    msgs.push(
        LendexMsg::TransferFrom {
            market: collateral_market,
            source: account.clone(),
            destination: sender.clone(),
            amount: reward,
            liquidation_price: cfg.liquidation_price,
        },
    );
    msgs
}

/// Handler for `Liquidate`: the sender repays the debt of `account`, whose
/// debt (summed over the markets as `total`) exceeds its credit line, with the
/// one coin it sent, and receives collateral in `collateral_denom` worth as
/// much in common tokens. Given the stored states of the market of the coin
/// sent and of the collateral market, and the price of the coin in common
/// tokens.
pub fn liquidate(
    cfg: &Config,
    sender: &String,
    account: &String,
    collateral_denom: &String,
    funds: &Vec<NativeCoin>,
    total: CreditLineValues,
    debt_state: Option<MarketState>,
    collateral_state: Option<MarketState>,
    rate: Decimal,
) -> (r: Result<Vec<LendexMsg>, ContractError>)
    requires
        funds@.len() == 1 && total.debt > total.credit_line && (debt_state matches Some(
            MarketState::Ready(_),
        )) && (collateral_state matches Some(MarketState::Ready(_))) ==> mul_floor(
            funds@[0].amount as int,
            rate.atomics as int,
        ) <= u128::MAX,
    ensures
        funds@.len() != 1 ==> r == Err::<Vec<LendexMsg>, ContractError>(
            ContractError::LiquidationOnlyOneDenomRequired,
        ),
        funds@.len() == 1 && total.debt <= total.credit_line ==> r == Err::<
            Vec<LendexMsg>,
            ContractError,
        >(ContractError::LiquidationNotAllowed),
        funds@.len() == 1 && total.debt > total.credit_line ==> match (debt_state, collateral_state) {
            (None, _) => r == Err::<Vec<LendexMsg>, ContractError>(
                ContractError::NoMarket(funds@[0].denom),
            ),
            (Some(MarketState::Instantiating), _) => r == Err::<Vec<LendexMsg>, ContractError>(
                ContractError::MarketCreating(funds@[0].denom),
            ),
            (Some(MarketState::Ready(_)), None) => r == Err::<Vec<LendexMsg>, ContractError>(
                ContractError::NoMarket(*collateral_denom),
            ),
            (Some(MarketState::Ready(_)), Some(MarketState::Instantiating)) => r == Err::<
                Vec<LendexMsg>,
                ContractError,
            >(ContractError::MarketCreating(*collateral_denom)),
            (Some(MarketState::Ready(d)), Some(MarketState::Ready(c))) => r matches Ok(v) && v@
                == seq![
                LendexMsg::RepayTo {
                    market: d,
                    account: *account,
                    amount: funds@[0].amount,
                    funds: funds@[0],
                },
                LendexMsg::TransferFrom {
                    market: c,
                    source: *account,
                    destination: *sender,
                    amount: mul_floor(funds@[0].amount as int, rate.atomics as int) as u128,
                    liquidation_price: cfg.liquidation_price,
                },
            ],
        },
{
    let coin = liquidation_funds(funds)?;
    liquidation_allowed(total)?;
    let debt_market = market(&coin.denom, debt_state)?.market;
    let collateral_market = market(collateral_denom, collateral_state)?.market;
    Ok(liquidation_msgs(cfg, sender, account, coin, debt_market, collateral_market, rate))
}

} // verus!
