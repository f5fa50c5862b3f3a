//! Decision logic of the credit agency: it creates markets, keeps track of
//! the markets each account takes part in, sums credit lines across markets,
//! and drives liquidations and repayments with collateral.

use vstd::prelude::*;

use crate::reply::{opt_bytes, parse_reply_instantiate_data, reply_address};

use crate::coin::{Coin, CoinError, NativeCoin, Token};
use crate::decimal::Decimal;
use crate::interest::Interest;
use crate::market::InstantiateMsg as MarketInstantiateMsg;

pub mod execute;
pub mod query;
pub mod sudo;

verus! {

/// Errors of the credit agency.
#[derive(Clone, Debug, PartialEq, Eq)]
pub enum ContractError {
    Price,
    Coin(CoinError),
    Unauthorized,
    MarketCfgCollateralFailure,
    UnrecognisedReply(u64),
    NoMarket(String),
    MarketCreating(String),
    MarketAlreadyExists(String),
    LiquidationNotAllowed,
    InvalidCommonTokenDenom,
    MarketSearchError { market: String },
    NotOnMarket { address: String, market: String },
    DebtOnMarket { address: String, market: String, debt: Coin },
    NotEnoughCollat { debt: u128, credit_line: u128, collateral: u128 },
    Cw20TokensNotSupported,
    RepayingLoanUsingCollateralFailed,
    LiquidationUndercollateralized,
    DivisionByZero,
    ReplyParseFailure { id: u64, err: String },
}

/// Configuration of the credit agency.
#[derive(Clone, Debug, PartialEq, Eq)]
pub struct Config {
    /// The address that controls the credit agency and can set up markets.
    pub gov_contract: String,
    /// Code id of the market contract.
    pub isotonic_market_id: u64,
    /// Code id of the token contract.
    pub isotonic_token_id: u64,
    /// Denom distributed as reward to token holders.
    pub reward_token: String,
    /// Denom in which credit lines are expressed (same for all markets).
    pub common_token: String,
    /// Price at which collateral is valued in a liquidation; collateral
    /// ratios of markets must stay below it.
    pub liquidation_price: Decimal,
    /// Share of the repaid debt paid to all lenders of the debt market.
    pub liquidation_fee: Decimal,
    /// Share of the repaid debt paid to the account that starts a liquidation.
    pub liquidation_initiation_fee: Decimal,
}

/// Parameters of the credit agency.
#[derive(Clone, Debug, PartialEq, Eq)]
pub struct InstantiateMsg {
    pub gov_contract: String,
    pub isotonic_market_id: u64,
    pub isotonic_token_id: u64,
    pub reward_token: Token,
    pub common_token: Token,
    pub liquidation_price: Decimal,
    pub liquidation_fee: Decimal,
    pub liquidation_initiation_fee: Decimal,
}

/// Parameters of a market to create.
#[derive(Clone, Debug, PartialEq, Eq)]
pub struct MarketConfig {
    pub name: String,
    pub symbol: String,
    pub decimals: u8,
    pub market_token: Token,
    pub market_cap: Option<u128>,
    pub interest_rate: Interest,
    pub interest_charge_period: u64,
    pub collateral_ratio: Decimal,
    pub price_oracle: String,
    pub reserve_factor: Decimal,
}

/// State of the market of a base asset.
#[derive(Clone, Debug, PartialEq, Eq)]
pub enum MarketState {
    /// The market contract is being instantiated.
    Instantiating,
    /// The market contract at this address is up.
    Ready(String),
}

impl MarketState {
    /// The address of the market, once it is ready.
    pub fn to_addr(self) -> (r: Option<String>)
        ensures
            r == (match self {
                MarketState::Instantiating => None::<String>,
                MarketState::Ready(a) => Some(a),
            }),
    {
        match self {
            MarketState::Instantiating => None,
            MarketState::Ready(addr) => Some(addr),
        }
    }
}

/// A message the credit agency sends as part of its response.
#[derive(Clone, Debug, PartialEq, Eq)]
pub enum AgencyMsg {
    /// Instantiate a market contract, replying under `reply_id`.
    InstantiateMarket { code_id: u64, market_token: String, msg: MarketInstantiateMsg, reply_id: u64 },
    /// Have the market burn `account`'s L-tokens worth at most `sell_limit`
    /// and swap them for `buy`.
    SwapWithdrawFrom { market: String, account: String, sell_limit: u128, buy: Coin },
    /// Have the market repay `amount` of `account`'s debt with `funds`.
    RepayTo { market: String, account: String, amount: u128, funds: NativeCoin },
    /// Tell the market the new common token.
    AdjustCommonToken { market: String, new_token: String },
    /// Migrate the market to the code id.
    MigrateMarket { market: String, new_code_id: u64, isotonic_token_id: Option<u64> },
    /// Hand `funds` to the market, to be distributed to all of its lenders.
    DistributeAsLTokens { market: String, funds: NativeCoin },
    /// Send `funds` from the agency to `to_address`.
    BankSend { to_address: String, funds: NativeCoin },
}

/// The configuration of a new credit agency: both tokens must be native.
pub fn instantiate(msg: InstantiateMsg) -> (r: Result<Config, ContractError>)
    ensures
        !(msg.reward_token is Native) || !(msg.common_token is Native) ==> r == Err::<
            Config,
            ContractError,
        >(ContractError::Cw20TokensNotSupported),
        msg.reward_token is Native && msg.common_token is Native ==> (r matches Ok(cfg) && {
            &&& cfg.gov_contract == msg.gov_contract
            &&& cfg.isotonic_market_id == msg.isotonic_market_id
            &&& cfg.isotonic_token_id == msg.isotonic_token_id
            &&& cfg.reward_token@ == msg.reward_token->Native_0@
            &&& cfg.common_token@ == msg.common_token->Native_0@
            &&& cfg.liquidation_price == msg.liquidation_price
            &&& cfg.liquidation_fee == msg.liquidation_fee
            &&& cfg.liquidation_initiation_fee == msg.liquidation_initiation_fee
        }),
{
    let reward_token = match msg.reward_token.native() {
        Some(d) => d,
        None => return Err(ContractError::Cw20TokensNotSupported),
    };
    let common_token = match msg.common_token.native() {
        Some(d) => d,
        None => return Err(ContractError::Cw20TokensNotSupported),
    };
    Ok(
        Config {
            gov_contract: msg.gov_contract,
            isotonic_market_id: msg.isotonic_market_id,
            isotonic_token_id: msg.isotonic_token_id,
            reward_token,
            common_token,
            liquidation_price: msg.liquidation_price,
            liquidation_fee: msg.liquidation_fee,
            liquidation_initiation_fee: msg.liquidation_initiation_fee,
        },
    )
}

/// Handler of the reply to a market instantiation: the market of the base
/// asset recorded under the reply id, `market_token`, is ready at the address
/// read from the reply's data.
pub fn handle_market_instantiation_response(
    reply_id: u64,
    data: &Option<Vec<u8>>,
    market_token: String,
) -> (r: Result<(String, MarketState), ContractError>)
    ensures
        match reply_address(opt_bytes(*data)) {
            Err(message) => r matches Err(ContractError::ReplyParseFailure { id, err }) && id
                == reply_id && err@ == message,
            Ok(address) => r matches Ok((key, MarketState::Ready(a))) && key == market_token && a@
                == address,
        },
{
    match parse_reply_instantiate_data(data) {
        Ok(contract_address) => Ok((market_token, MarketState::Ready(contract_address))),
        Err(err) => Err(ContractError::ReplyParseFailure { id: reply_id, err }),
    }
}

} // verus!
