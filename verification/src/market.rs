//! Decision logic of a lending market: deposits, withdrawals, borrowing,
//! repayment, interest charging and the queries built on them. The market
//! holds the base asset; lenders hold L-tokens and borrowers B-tokens, both
//! rebased as interest accrues.

use vstd::prelude::*;
use vstd::string::StringExecFns;

use crate::coin::Token;
use crate::decimal::{Decimal, OverflowError};
use crate::interest::Interest;
use crate::reply::{opt_bytes, parse_reply_instantiate_data, reply_address};

pub mod cr_utils;
pub mod execute;
pub mod query;
pub mod sudo;

verus! {

/// Errors of the market contract.
#[derive(Clone, Debug, PartialEq, Eq)]
pub enum ContractError {
    Overflow(OverflowError),
    Unauthorized,
    UnrecognisedReply(u64),
    UnrecognisedToken(String),
    NoFundsSent,
    ExtraDenoms(String),
    InvalidDenom(String),
    CannotBorrow { amount: u128, account: String },
    CannotWithdraw { account: String, amount: u128 },
    LiquidationInsufficientBTokens { account: String, btokens: u128 },
    RequiresCreditAgency,
    InvalidCommonTokenDenom,
    Price,
    ZeroPrice,
    ZeroCollateralRatio,
    IncorrectSwapAmountResponse,
    DepositOverCap { attempted_deposit: u128, ltoken_supply: u128, cap: u128 },
    Cw20TokensNotSupported,
    ReplyParseFailure { id: u64, err: String },
}

/// Configuration of a market.
#[derive(Clone, Debug, PartialEq, Eq)]
pub struct Config {
    pub ltoken_contract: String,
    pub btoken_contract: String,
    pub name: String,
    pub symbol: String,
    pub decimals: u8,
    pub token_id: u64,
    /// Denom of the base asset lent and borrowed on this market.
    pub market_token: String,
    /// Optional cap on the total L-token supply.
    pub market_cap: Option<u128>,
    pub rates: Interest,
    /// Length of one charge period, in seconds.
    pub interest_charge_period: u64,
    /// Start of the first charge period not yet charged, in seconds.
    pub last_charged: u64,
    /// Denom in which credit lines are expressed across markets.
    pub common_token: String,
    pub collateral_ratio: Decimal,
    pub price_oracle: String,
    pub credit_agency: String,
    /// Portion of borrower interest that goes to the reserve.
    pub reserve_factor: Decimal,
}

impl Config {
    /// A copy of the configuration.
    pub fn clone_config(&self) -> (r: Config)
        ensures
            r == *self,
    {
        Config {
            ltoken_contract: self.ltoken_contract.clone(),
            btoken_contract: self.btoken_contract.clone(),
            name: self.name.clone(),
            symbol: self.symbol.clone(),
            decimals: self.decimals,
            token_id: self.token_id,
            market_token: self.market_token.clone(),
            market_cap: self.market_cap,
            rates: self.rates,
            interest_charge_period: self.interest_charge_period,
            last_charged: self.last_charged,
            common_token: self.common_token.clone(),
            collateral_ratio: self.collateral_ratio,
            price_oracle: self.price_oracle.clone(),
            credit_agency: self.credit_agency.clone(),
            reserve_factor: self.reserve_factor,
        }
    }
}

/// A message the market sends as part of its response.
#[derive(Clone, Debug, PartialEq, Eq)]
pub enum MarketMsg {
    /// Multiply every balance of the token contract by `ratio`.
    Rebase { token_contract: String, ratio: Decimal },
    /// Mint `amount` displayed tokens to `recipient`.
    Mint { token_contract: String, recipient: String, amount: u128 },
    /// Burn `amount` displayed tokens of `owner`.
    BurnFrom { token_contract: String, owner: String, amount: u128 },
    /// Send base assets from the market.
    BankSend { to_address: String, denom: String, amount: u128 },
    /// Tell the credit agency that `account` takes part in this market.
    EnterMarket { credit_agency: String, account: String },
    /// Swap at most `max_input` of `denom_in` for exactly `output` of the last
    /// denom of the route, through pool `pool_id` and then the `route` steps.
    Swap {
        pool_id: u64,
        denom_in: String,
        denom_out: String,
        route: Vec<(u64, String)>,
        output: u128,
        max_input: u128,
    },
    /// Instantiate a token contract controlled by `controller`, replying under
    /// `reply_id`.
    InstantiateToken {
        code_id: u64,
        name: String,
        symbol: String,
        decimals: u8,
        controller: String,
        distributed_token: Token,
        label: String,
        reply_id: u64,
    },
}

/// Parameters of a new market.
#[derive(Clone, Debug, PartialEq, Eq)]
pub struct InstantiateMsg {
    pub name: String,
    pub symbol: String,
    pub decimals: u8,
    pub token_id: u64,
    pub market_token: Token,
    pub market_cap: Option<u128>,
    pub interest_rate: Interest,
    pub distributed_token: Token,
    pub interest_charge_period: u64,
    pub common_token: Token,
    pub collateral_ratio: Decimal,
    pub price_oracle: String,
    pub reserve_factor: Decimal,
}

/// Reply identifier of the L-token instantiation.
pub const LTOKEN_INIT_REPLY_ID: u64 = 1;

/// Reply identifier of the B-token instantiation.
pub const BTOKEN_INIT_REPLY_ID: u64 = 2;

/// Whether `m` instantiates one of the market's token contracts: its name and
/// symbol are the market's behind the given prefixes, the market at
/// `contract_address` controls it, and the reply comes under `reply_id`.
pub open spec fn is_token_instantiation(
    m: MarketMsg,
    msg: InstantiateMsg,
    contract_address: String,
    name_prefix: Seq<char>,
    symbol_prefix: Seq<char>,
    label_prefix: Seq<char>,
    reply_id: u64,
) -> bool {
    m matches MarketMsg::InstantiateToken {
        code_id,
        name,
        symbol,
        decimals,
        controller,
        distributed_token,
        label,
        reply_id: id,
    } && code_id == msg.token_id && name@ == name_prefix + msg.name@ && symbol@ == symbol_prefix
        + msg.symbol@ && decimals == msg.decimals && controller == contract_address
        && distributed_token == msg.distributed_token && label@ == label_prefix + contract_address@
        && id == reply_id
}

/// The message instantiating one of the market's token contracts.
fn token_instantiation(
    msg: &InstantiateMsg,
    contract_address: &String,
    name_prefix: &str,
    symbol_prefix: &str,
    label_prefix: &str,
    reply_id: u64,
) -> (r: MarketMsg)
    ensures
        is_token_instantiation(
            r,
            *msg,
            *contract_address,
            name_prefix@,
            symbol_prefix@,
            label_prefix@,
            reply_id,
        ),
{
    MarketMsg::InstantiateToken {
        code_id: msg.token_id,
        name: String::from_str(name_prefix).concat(msg.name.as_str()),
        symbol: String::from_str(symbol_prefix).concat(msg.symbol.as_str()),
        decimals: msg.decimals,
        controller: contract_address.clone(),
        distributed_token: msg.distributed_token.duplicate(),
        label: String::from_str(label_prefix).concat(contract_address.as_str()),
        reply_id,
    }
}

/// A new market created by `sender` at time `now` at `contract_address`: its
/// configuration, with the first charge period starting at the last multiple
/// of the period and the token contracts not known yet; an empty reserve; and
/// the instantiations of its L-token ("Lent " and "L" before the market's name
/// and symbol) and B-token ("Borrowed " and "B"). The tokens must be native.
pub fn instantiate(msg: InstantiateMsg, now: u64, sender: String, contract_address: String) -> (r: Result<
    (Config, u128, Vec<MarketMsg>),
    ContractError,
>)
    requires
        msg.interest_charge_period > 0,
    ensures
        !(msg.market_token is Native) ==> r == Err::<(Config, u128, Vec<MarketMsg>), ContractError>(
            ContractError::Cw20TokensNotSupported,
        ),
        msg.market_token is Native && !(msg.common_token is Native) ==> r == Err::<
            (Config, u128, Vec<MarketMsg>),
            ContractError,
        >(ContractError::Cw20TokensNotSupported),
        msg.market_token is Native && msg.common_token is Native ==> (r matches Ok(
            (cfg, reserve, token_msgs),
        ) && {
            &&& cfg.ltoken_contract@.len() == 0
            &&& cfg.btoken_contract@.len() == 0
            &&& cfg.name == msg.name
            &&& cfg.symbol == msg.symbol
            &&& cfg.decimals == msg.decimals
            &&& cfg.token_id == msg.token_id
            &&& cfg.market_token@ == msg.market_token->Native_0@
            &&& cfg.market_cap == msg.market_cap
            &&& cfg.rates == msg.interest_rate
            &&& cfg.interest_charge_period == msg.interest_charge_period
            &&& cfg.last_charged == now - now % msg.interest_charge_period
            &&& cfg.common_token@ == msg.common_token->Native_0@
            &&& cfg.collateral_ratio == msg.collateral_ratio
            &&& cfg.price_oracle == msg.price_oracle
            &&& cfg.credit_agency == sender
            &&& cfg.reserve_factor == msg.reserve_factor
            &&& reserve == 0
            &&& token_msgs@.len() == 2
            &&& is_token_instantiation(
                token_msgs@[0],
                msg,
                contract_address,
                "Lent "@,
                "L"@,
                "ltoken_contract_"@,
                LTOKEN_INIT_REPLY_ID,
            )
            &&& is_token_instantiation(
                token_msgs@[1],
                msg,
                contract_address,
                "Borrowed "@,
                "B"@,
                "btoken_contract_"@,
                BTOKEN_INIT_REPLY_ID,
            )
        }),
{
    let ltoken = token_instantiation(&msg, &contract_address, "Lent ", "L", "ltoken_contract_", LTOKEN_INIT_REPLY_ID);
    let btoken = token_instantiation(
        &msg,
        &contract_address,
        "Borrowed ",
        "B",
        "btoken_contract_",
        BTOKEN_INIT_REPLY_ID,
    );
    let market_token = match msg.market_token.native() {
        Some(d) => d,
        None => return Err(ContractError::Cw20TokensNotSupported),
    };
    let common_token = match msg.common_token.native() {
        Some(d) => d,
        None => return Err(ContractError::Cw20TokensNotSupported),
    };
    let period = msg.interest_charge_period;
    proof {
        vstd::arithmetic::div_mod::lemma_mod_bound(now as int, period as int);
        vstd::arithmetic::div_mod::lemma_fundamental_div_mod(now as int, period as int);
        vstd::arithmetic::div_mod::lemma_div_pos_is_pos(now as int, period as int);
        assert((period as int) * (now as int / period as int) >= 0) by (nonlinear_arith)
            requires
                period > 0,
                now as int / period as int >= 0,
        ;
    }
    let last_charged = now - now % period;
    let mut token_msgs = Vec::new();
    token_msgs.push(ltoken);
    token_msgs.push(btoken);
    let cfg = Config {
        ltoken_contract: String::new(),
        btoken_contract: String::new(),
        name: msg.name,
        symbol: msg.symbol,
        decimals: msg.decimals,
        token_id: msg.token_id,
        market_token,
        market_cap: msg.market_cap,
        rates: msg.interest_rate,
        interest_charge_period: msg.interest_charge_period,
        last_charged,
        common_token,
        collateral_ratio: msg.collateral_ratio,
        price_oracle: msg.price_oracle,
        credit_agency: sender,
        reserve_factor: msg.reserve_factor,
    };
    Ok((cfg, 0, token_msgs))
}

/// Handler of the reply to the instantiation of the L- or B-token contract:
/// records the new contract's address, read from the reply's data.
pub fn token_instantiate_reply(cfg: &mut Config, reply_id: u64, data: &Option<Vec<u8>>) -> (r: Result<
    (),
    ContractError,
>)
    ensures
        reply_id != LTOKEN_INIT_REPLY_ID && reply_id != BTOKEN_INIT_REPLY_ID ==> r
            == Err::<(), ContractError>(ContractError::UnrecognisedReply(reply_id)) && *final(cfg)
            == *old(cfg),
        reply_id == LTOKEN_INIT_REPLY_ID || reply_id == BTOKEN_INIT_REPLY_ID ==> match reply_address(
            opt_bytes(*data),
        ) {
            Err(message) => (r matches Err(ContractError::ReplyParseFailure { id, err }) && id
                == reply_id && err@ == message) && *final(cfg) == *old(cfg),
            Ok(address) => r is Ok && final(cfg).ltoken_contract@ == (if reply_id
                == LTOKEN_INIT_REPLY_ID {
                address
            } else {
                old(cfg).ltoken_contract@
            }) && final(cfg).btoken_contract@ == (if reply_id == BTOKEN_INIT_REPLY_ID {
                address
            } else {
                old(cfg).btoken_contract@
            }) && *final(cfg) == (Config {
                ltoken_contract: final(cfg).ltoken_contract,
                btoken_contract: final(cfg).btoken_contract,
                ..*old(cfg)
            }),
        },
{
    if reply_id != LTOKEN_INIT_REPLY_ID && reply_id != BTOKEN_INIT_REPLY_ID {
        return Err(ContractError::UnrecognisedReply(reply_id));
    }
    let contract_address = match parse_reply_instantiate_data(data) {
        Ok(a) => a,
        Err(err) => return Err(ContractError::ReplyParseFailure { id: reply_id, err }),
    };
    if reply_id == LTOKEN_INIT_REPLY_ID {
        cfg.ltoken_contract = contract_address;
    } else {
        cfg.btoken_contract = contract_address;
    }
    Ok(())
}

/// Parameters of a market migration.
#[derive(Clone, Copy, Debug, PartialEq, Eq, Structural)]
pub struct MigrateMsg {
    /// The code id of the token contracts from now on, if it changes.
    pub isotonic_token_id: Option<u64>,
}

/// Message a market sends to the credit agency.
#[derive(Clone, Debug, PartialEq, Eq)]
pub enum CreditAgencyExecuteMsg {
    /// Ensures the account entered the market sending the message.
    EnterMarket { account: String },
}

/// Query a market sends to the credit agency.
#[derive(Clone, Debug, PartialEq, Eq)]
pub enum QueryTotalCreditLine {
    /// The account's credit line summed over the markets it entered.
    TotalCreditLine { account: String },
}

/// Migration: optionally switch the code id of the token contracts.
pub fn migrate(cfg: &mut Config, msg: MigrateMsg)
    ensures
        *final(cfg) == (match msg.isotonic_token_id {
            Some(id) => Config { token_id: id, ..*old(cfg) },
            None => *old(cfg),
        }),
{
    if let Some(token_id) = msg.isotonic_token_id {
        cfg.token_id = token_id;
    }
}

} // verus!
