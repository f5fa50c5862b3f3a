//! Handlers of the market's execute messages.

use vstd::prelude::*;

use crate::coin::NativeCoin;
use crate::credit_line::CreditLineResponse;
use crate::decimal::{ratio_floor, Decimal};
use crate::interest::TokensInfo;
use crate::market::cr_utils::{
    available_tokens_aborts, available_tokens_overflow, can_borrow, query_available_tokens,
    spec_available_tokens, spec_transferable_amount, transferable_aborts, transferable_amount,
    transferable_overflows,
};
use crate::market::execute::helpers::{
    charge_aborts, charge_overflows, funds_outcome, spec_charge, spec_funds_amount, validate_funds,
};
use crate::market::{Config, ContractError, MarketMsg};
use crate::price::PriceRate;

pub mod helpers;

verus! {

/// Whether the deposit of `amount` would lift the L-token supply over the cap.
pub open spec fn over_cap(cfg: Config, ltoken_supply: u128, amount: u128) -> bool {
    cfg.market_cap matches Some(cap) && ltoken_supply + amount > cap
}

/// The messages of a deposit of `amount` L-tokens to `account`, after charging
/// interest left the configuration `c`.
pub open spec fn deposit_msgs(c: Config, account: String, amount: u128) -> Seq<MarketMsg> {
    seq![
        MarketMsg::Mint { token_contract: c.ltoken_contract, recipient: account, amount },
        MarketMsg::EnterMarket { credit_agency: c.credit_agency, account },
    ]
}

/// The outcome of a handler that charges interest and then sends `tail`:
/// the charge's messages followed by `tail`, with the charged state.
pub open spec fn charged_then(
    r: Result<Vec<MarketMsg>, ContractError>,
    old_cfg: Config,
    old_reserve: u128,
    new_cfg: Config,
    new_reserve: u128,
    info: TokensInfo,
    now: u64,
    tail: spec_fn(Config) -> Seq<MarketMsg>,
) -> bool {
    match spec_charge(old_cfg, old_reserve, info, now) {
        Ok((c, res, msgs)) => r matches Ok(v) && v@ == msgs + tail(c) && new_cfg == c && new_reserve
            == res,
        Err(e) => r == Err::<Vec<MarketMsg>, ContractError>(e),
    }
}

/// Whether a deposit aborts: the funds are valid and either the cap check
/// overflows, or the deposit is under the cap and charging interest aborts.
pub open spec fn deposit_aborts(
    cfg: Config,
    reserve: u128,
    funds: Seq<NativeCoin>,
    info: TokensInfo,
    now: u64,
) -> bool {
    spec_funds_amount(funds, cfg.market_token@) matches Some(a) && {
        ||| (cfg.market_cap is Some && info.ltoken.total_supply@ + a > u128::MAX)
        ||| (!over_cap(cfg, info.ltoken.total_supply@, a) && charge_aborts(cfg, reserve, info, now))
    }
}

/// Whether a handler paid with the market token aborts: the funds are valid
/// and charging interest aborts.
pub open spec fn paid_charge_aborts(
    cfg: Config,
    reserve: u128,
    funds: Seq<NativeCoin>,
    info: TokensInfo,
    now: u64,
) -> bool {
    spec_funds_amount(funds, cfg.market_token@) is Some && charge_aborts(cfg, reserve, info, now)
}

/// Whether a withdrawal aborts: computing the transferable amount aborts, or
/// the amount is allowed and charging interest aborts.
pub open spec fn withdraw_aborts(
    cfg: Config,
    reserve: u128,
    amount: u128,
    credit: CreditLineResponse,
    price: PriceRate,
    ltoken_balance: u128,
    info: TokensInfo,
    now: u64,
) -> bool {
    ||| transferable_aborts(cfg, credit, price)
    ||| (spec_transferable_amount(cfg, credit, price, ltoken_balance) matches Ok(t) && t >= amount
        && charge_aborts(cfg, reserve, info, now))
}

/// Whether a loan aborts: computing the tokens available aborts, or the amount
/// is allowed and charging interest aborts.
pub open spec fn borrow_aborts(
    cfg: Config,
    reserve: u128,
    amount: u128,
    credit: CreditLineResponse,
    price: PriceRate,
    info: TokensInfo,
    now: u64,
) -> bool {
    ||| available_tokens_aborts(cfg, credit)
    ||| (spec_available_tokens(cfg, credit, price) matches Ok(a) && amount <= a && charge_aborts(
        cfg,
        reserve,
        info,
        now,
    ))
}

/// Whether a repayment by the credit agency aborts: it comes from the credit
/// agency with valid funds not above the debt, and charging interest aborts.
pub open spec fn repay_to_aborts(
    cfg: Config,
    reserve: u128,
    sender: String,
    funds: Seq<NativeCoin>,
    btokens_balance: u128,
    info: TokensInfo,
    now: u64,
) -> bool {
    &&& cfg.credit_agency@ == sender@
    &&& spec_funds_amount(funds, cfg.market_token@) matches Some(a)
    &&& a <= btokens_balance
    &&& charge_aborts(cfg, reserve, info, now)
}

/// Whether `deposit` would abort, which its callers must rule out first.
pub fn deposit_overflows(
    cfg: &Config,
    reserve: u128,
    funds: &Vec<NativeCoin>,
    tokens_info: &TokensInfo,
    now: u64,
) -> (r: bool)
    ensures
        r == deposit_aborts(*cfg, reserve, funds@, *tokens_info, now),
{
    let amount = match validate_funds(funds, &cfg.market_token) {
        Ok(a) => a,
        Err(_) => return false,
    };
    let supply = tokens_info.ltoken.total_supply.display_amount();
    match cfg.market_cap {
        Some(cap) => match supply.checked_add(amount) {
            None => true,
            Some(total) => total <= cap && charge_overflows(cfg, reserve, tokens_info, now),
        },
        None => charge_overflows(cfg, reserve, tokens_info, now),
    }
}

/// Whether `deposit_to` or `repay` would abort, which their callers must rule
/// out first.
pub fn paid_charge_overflows(
    cfg: &Config,
    reserve: u128,
    funds: &Vec<NativeCoin>,
    tokens_info: &TokensInfo,
    now: u64,
) -> (r: bool)
    ensures
        r == paid_charge_aborts(*cfg, reserve, funds@, *tokens_info, now),
{
    validate_funds(funds, &cfg.market_token).is_ok() && charge_overflows(cfg, reserve, tokens_info, now)
}

/// Whether `withdraw` would abort, which its callers must rule out first.
pub fn withdraw_overflows(
    cfg: &Config,
    reserve: u128,
    amount: u128,
    credit: &CreditLineResponse,
    price: &PriceRate,
    ltoken_balance: u128,
    tokens_info: &TokensInfo,
    now: u64,
) -> (r: bool)
    ensures
        r == withdraw_aborts(*cfg, reserve, amount, *credit, *price, ltoken_balance, *tokens_info, now),
{
    if transferable_overflows(cfg, credit, price) {
        return true;
    }
    match transferable_amount(cfg, credit, price, ltoken_balance) {
        Ok(t) => t >= amount && charge_overflows(cfg, reserve, tokens_info, now),
        Err(_) => false,
    }
}

/// Whether `borrow` would abort, which its callers must rule out first.
pub fn borrow_overflows(
    cfg: &Config,
    reserve: u128,
    amount: u128,
    credit: &CreditLineResponse,
    price: &PriceRate,
    tokens_info: &TokensInfo,
    now: u64,
) -> (r: bool)
    ensures
        r == borrow_aborts(*cfg, reserve, amount, *credit, *price, *tokens_info, now),
{
    if available_tokens_overflow(cfg, credit) {
        return true;
    }
    match query_available_tokens(cfg, credit, price) {
        Ok(a) => amount <= a && charge_overflows(cfg, reserve, tokens_info, now),
        Err(_) => false,
    }
}

/// Whether `repay_to` would abort, which its callers must rule out first.
pub fn repay_to_overflows(
    cfg: &Config,
    reserve: u128,
    sender: &String,
    funds: &Vec<NativeCoin>,
    btokens_balance: u128,
    tokens_info: &TokensInfo,
    now: u64,
) -> (r: bool)
    ensures
        r == repay_to_aborts(*cfg, reserve, *sender, funds@, btokens_balance, *tokens_info, now),
{
    if !cfg.credit_agency.eq(sender) {
        return false;
    }
    match validate_funds(funds, &cfg.market_token) {
        Ok(a) => a <= btokens_balance && charge_overflows(cfg, reserve, tokens_info, now),
        Err(_) => false,
    }
}

/// Handler for `Deposit`: the sender deposits the market tokens sent along and
/// receives as many L-tokens, unless that would exceed the market cap.
pub fn deposit(
    cfg: &mut Config,
    reserve: &mut u128,
    sender: &String,
    funds: &Vec<NativeCoin>,
    tokens_info: &TokensInfo,
    now: u64,
) -> (r: Result<Vec<MarketMsg>, ContractError>)
    requires
        !deposit_aborts(*old(cfg), *old(reserve), funds@, *tokens_info, now),
    ensures
        match spec_funds_amount(funds@, old(cfg).market_token@) {
            None => funds_outcome(r, funds@, old(cfg).market_token@) && *final(cfg) == *old(cfg),
            Some(a) => if over_cap(*old(cfg), tokens_info.ltoken.total_supply@, a) {
                r == Err::<Vec<MarketMsg>, ContractError>(
                    ContractError::DepositOverCap {
                        attempted_deposit: a,
                        ltoken_supply: tokens_info.ltoken.total_supply@,
                        cap: old(cfg).market_cap->0,
                    },
                ) && *final(cfg) == *old(cfg)
            } else {
                charged_then(
                    r,
                    *old(cfg),
                    *old(reserve),
                    *final(cfg),
                    *final(reserve),
                    *tokens_info,
                    now,
                    |c: Config| deposit_msgs(c, *sender, a),
                )
            },
        },
{
    let funds_sent = validate_funds(funds, &cfg.market_token)?;
    if let Some(cap) = cfg.market_cap {
        let ltoken_supply = tokens_info.ltoken.total_supply.display_amount();
        if ltoken_supply + funds_sent > cap {
            return Err(
                ContractError::DepositOverCap {
                    attempted_deposit: funds_sent,
                    ltoken_supply,
                    cap,
                },
            );
        }
    }
    helpers::deposit_to(cfg, reserve, tokens_info, now, sender, funds_sent)
}

/// Handler for `DepositTo`: like `Deposit`, but the L-tokens go to `account`
/// and the market cap is not checked.
pub fn deposit_to(
    cfg: &mut Config,
    reserve: &mut u128,
    account: &String,
    funds: &Vec<NativeCoin>,
    tokens_info: &TokensInfo,
    now: u64,
) -> (r: Result<Vec<MarketMsg>, ContractError>)
    requires
        !paid_charge_aborts(*old(cfg), *old(reserve), funds@, *tokens_info, now),
    ensures
        match spec_funds_amount(funds@, old(cfg).market_token@) {
            None => funds_outcome(r, funds@, old(cfg).market_token@) && *final(cfg) == *old(cfg),
            Some(a) => charged_then(
                r,
                *old(cfg),
                *old(reserve),
                *final(cfg),
                *final(reserve),
                *tokens_info,
                now,
                |c: Config| deposit_msgs(c, *account, a),
            ),
        },
{
    let funds_sent = validate_funds(funds, &cfg.market_token)?;
    helpers::deposit_to(cfg, reserve, tokens_info, now, account, funds_sent)
}

/// The messages of a withdrawal of `amount` by `sender`.
pub open spec fn withdraw_msgs(c: Config, sender: String, amount: u128) -> Seq<MarketMsg> {
    seq![
        MarketMsg::BurnFrom { token_contract: c.ltoken_contract, owner: sender, amount },
        MarketMsg::BankSend { to_address: sender, denom: c.market_token, amount },
    ]
}

/// Handler for `Withdraw`: burns `amount` L-tokens of the sender and sends it
/// as many base assets, provided its credit line allows the transfer.
pub fn withdraw(
    cfg: &mut Config,
    reserve: &mut u128,
    sender: &String,
    amount: u128,
    credit: &CreditLineResponse,
    price: &PriceRate,
    ltoken_balance: u128,
    tokens_info: &TokensInfo,
    now: u64,
) -> (r: Result<Vec<MarketMsg>, ContractError>)
    requires
        !withdraw_aborts(*old(cfg), *old(reserve), amount, *credit, *price, ltoken_balance, *tokens_info, now),
    ensures
        match spec_transferable_amount(*old(cfg), *credit, *price, ltoken_balance) {
            Err(e) => r == Err::<Vec<MarketMsg>, ContractError>(e) && *final(cfg) == *old(cfg),
            Ok(t) => if t < amount {
                r == Err::<Vec<MarketMsg>, ContractError>(
                    ContractError::CannotWithdraw { account: *sender, amount },
                ) && *final(cfg) == *old(cfg)
            } else {
                charged_then(
                    r,
                    *old(cfg),
                    *old(reserve),
                    *final(cfg),
                    *final(reserve),
                    *tokens_info,
                    now,
                    |c: Config| withdraw_msgs(c, *sender, amount),
                )
            },
        },
{
    if transferable_amount(cfg, credit, price, ltoken_balance)? < amount {
        return Err(ContractError::CannotWithdraw { account: sender.clone(), amount });
    }
    let mut msgs = helpers::charge_interest(cfg, reserve, tokens_info, now)?;
    let ghost charged = msgs@;
    msgs.push(
        MarketMsg::BurnFrom {
            token_contract: cfg.ltoken_contract.clone(),
            owner: sender.clone(),
            amount,
        },
    );
    msgs.push(
        MarketMsg::BankSend {
            to_address: sender.clone(),
            denom: cfg.market_token.clone(),
            amount,
        },
    );
    assert(msgs@ =~= charged + withdraw_msgs(*cfg, *sender, amount));
    Ok(msgs)
}

/// The messages of a loan of `amount` to `sender`.
pub open spec fn borrow_msgs(c: Config, sender: String, amount: u128) -> Seq<MarketMsg> {
    seq![
        MarketMsg::Mint { token_contract: c.btoken_contract, recipient: sender, amount },
        MarketMsg::EnterMarket { credit_agency: c.credit_agency, account: sender },
        MarketMsg::BankSend { to_address: sender, denom: c.market_token, amount },
    ]
}

/// Handler for `Borrow`: mints `amount` B-tokens to the sender and sends it
/// as many base assets, provided its credit line allows the loan.
pub fn borrow(
    cfg: &mut Config,
    reserve: &mut u128,
    sender: &String,
    amount: u128,
    credit: &CreditLineResponse,
    price: &PriceRate,
    tokens_info: &TokensInfo,
    now: u64,
) -> (r: Result<Vec<MarketMsg>, ContractError>)
    requires
        !borrow_aborts(*old(cfg), *old(reserve), amount, *credit, *price, *tokens_info, now),
    ensures
        match spec_available_tokens(*old(cfg), *credit, *price) {
            Err(e) => r == Err::<Vec<MarketMsg>, ContractError>(e) && *final(cfg) == *old(cfg),
            Ok(a) => if amount > a {
                r == Err::<Vec<MarketMsg>, ContractError>(
                    ContractError::CannotBorrow { amount, account: *sender },
                ) && *final(cfg) == *old(cfg)
            } else {
                charged_then(
                    r,
                    *old(cfg),
                    *old(reserve),
                    *final(cfg),
                    *final(reserve),
                    *tokens_info,
                    now,
                    |c: Config| borrow_msgs(c, *sender, amount),
                )
            },
        },
{
    if !can_borrow(cfg, credit, price, amount)? {
        return Err(ContractError::CannotBorrow { amount, account: sender.clone() });
    }
    let mut msgs = helpers::charge_interest(cfg, reserve, tokens_info, now)?;
    let ghost charged = msgs@;
    msgs.push(
        MarketMsg::Mint {
            token_contract: cfg.btoken_contract.clone(),
            recipient: sender.clone(),
            amount,
        },
    );
    msgs.push(helpers::enter_market(cfg, sender));
    msgs.push(
        MarketMsg::BankSend {
            to_address: sender.clone(),
            denom: cfg.market_token.clone(),
            amount,
        },
    );
    assert(msgs@ =~= charged + borrow_msgs(*cfg, *sender, amount));
    Ok(msgs)
}

/// The part of a repayment of `sent` tokens that goes to a debt of `debt`.
pub open spec fn repay_amount(sent: u128, debt: u128) -> u128 {
    if sent < debt { sent } else { debt }
}

/// The messages of a repayment of `sent` tokens by `sender` owing `debt`: the
/// B-tokens burnt, and the surplus sent back.
pub open spec fn repay_msgs(c: Config, sender: String, sent: u128, debt: u128) -> Seq<MarketMsg> {
    let burn = seq![
        MarketMsg::BurnFrom {
            token_contract: c.btoken_contract,
            owner: sender,
            amount: repay_amount(sent, debt),
        },
    ];
    if sent > repay_amount(sent, debt) {
        burn.push(
            MarketMsg::BankSend {
                to_address: sender,
                denom: c.market_token,
                amount: (sent - repay_amount(sent, debt)) as u128,
            },
        )
    } else {
        burn
    }
}

/// Law: a repayment burns no more than the debt and no more than was sent,
/// and sends back exactly the rest, so nothing sent is lost or created.
pub proof fn law_repay_splits_payment(c: Config, sender: String, sent: u128, debt: u128)
    ensures
        ({
            let m = repay_msgs(c, sender, sent, debt);
            let burnt = repay_amount(sent, debt);
            &&& burnt <= debt && burnt <= sent
            &&& (burnt == debt || burnt == sent)
            &&& m[0] == (MarketMsg::BurnFrom { token_contract: c.btoken_contract, owner: sender, amount: burnt })
            &&& burnt == sent ==> m.len() == 1
            &&& burnt < sent ==> m.len() == 2 && m[1] == (MarketMsg::BankSend {
                to_address: sender,
                denom: c.market_token,
                amount: (sent - burnt) as u128,
            })
        }),
{
}

/// Handler for `Repay`: the market tokens sent repay the sender's debt of
/// `debt` B-tokens; whatever exceeds the debt is sent back.
pub fn repay(
    cfg: &mut Config,
    reserve: &mut u128,
    sender: &String,
    funds: &Vec<NativeCoin>,
    debt: u128,
    tokens_info: &TokensInfo,
    now: u64,
) -> (r: Result<Vec<MarketMsg>, ContractError>)
    requires
        !paid_charge_aborts(*old(cfg), *old(reserve), funds@, *tokens_info, now),
    ensures
        match spec_funds_amount(funds@, old(cfg).market_token@) {
            None => funds_outcome(r, funds@, old(cfg).market_token@) && *final(cfg) == *old(cfg),
            Some(a) => charged_then(
                r,
                *old(cfg),
                *old(reserve),
                *final(cfg),
                *final(reserve),
                *tokens_info,
                now,
                |c: Config| repay_msgs(c, *sender, a, debt),
            ),
        },
{
    let funds_sent = validate_funds(funds, &cfg.market_token)?;
    // burn no more than the debt and send the difference back
    let repay_amount = if funds_sent < debt { funds_sent } else { debt };
    let mut msgs = helpers::charge_interest(cfg, reserve, tokens_info, now)?;
    let ghost charged = msgs@;
    msgs.push(
        MarketMsg::BurnFrom {
            token_contract: cfg.btoken_contract.clone(),
            owner: sender.clone(),
            amount: repay_amount,
        },
    );
    if funds_sent > repay_amount {
        msgs.push(
            MarketMsg::BankSend {
                to_address: sender.clone(),
                denom: cfg.market_token.clone(),
                amount: funds_sent - repay_amount,
            },
        );
    }
    assert(msgs@ =~= charged + repay_msgs(*cfg, *sender, funds_sent, debt));
    Ok(msgs)
}

/// Handler for `RepayTo`: the credit agency repays `amount` of the debt of
/// `account` with the market tokens sent along, which may not exceed the
/// account's B-token balance `btokens_balance`.
pub fn repay_to(
    cfg: &mut Config,
    reserve: &mut u128,
    sender: &String,
    account: &String,
    amount: u128,
    funds: &Vec<NativeCoin>,
    btokens_balance: u128,
    tokens_info: &TokensInfo,
    now: u64,
) -> (r: Result<Vec<MarketMsg>, ContractError>)
    requires
        !repay_to_aborts(*old(cfg), *old(reserve), *sender, funds@, btokens_balance, *tokens_info, now),
    ensures
        old(cfg).credit_agency@ != sender@ ==> r == Err::<Vec<MarketMsg>, ContractError>(
            ContractError::RequiresCreditAgency,
        ) && *final(cfg) == *old(cfg),
        old(cfg).credit_agency@ == sender@ ==> match spec_funds_amount(funds@, old(cfg).market_token@) {
            None => funds_outcome(r, funds@, old(cfg).market_token@) && *final(cfg) == *old(cfg),
            Some(a) => if a > btokens_balance {
                r == Err::<Vec<MarketMsg>, ContractError>(
                    ContractError::LiquidationInsufficientBTokens {
                        account: *account,
                        btokens: btokens_balance,
                    },
                ) && *final(cfg) == *old(cfg)
            } else {
                charged_then(
                    r,
                    *old(cfg),
                    *old(reserve),
                    *final(cfg),
                    *final(reserve),
                    *tokens_info,
                    now,
                    |c: Config|
                        seq![
                            MarketMsg::BurnFrom {
                                token_contract: c.btoken_contract,
                                owner: *account,
                                amount,
                            },
                        ],
                )
            },
        },
{
    if !cfg.credit_agency.eq(sender) {
        return Err(ContractError::RequiresCreditAgency);
    }
    let funds_sent = validate_funds(funds, &cfg.market_token)?;
    // an account with fewer B-tokens than the repayment cannot be liquidated
    if funds_sent > btokens_balance {
        return Err(
            ContractError::LiquidationInsufficientBTokens {
                account: account.clone(),
                btokens: btokens_balance,
            },
        );
    }
    let mut msgs = helpers::charge_interest(cfg, reserve, tokens_info, now)?;
    let ghost charged = msgs@;
    msgs.push(
        MarketMsg::BurnFrom {
            token_contract: cfg.btoken_contract.clone(),
            owner: account.clone(),
            amount,
        },
    );
    assert(msgs@ =~= charged + seq![
        MarketMsg::BurnFrom { token_contract: cfg.btoken_contract, owner: *account, amount },
    ]);
    Ok(msgs)
}

/// Handler for `AdjustCommonToken`: the credit agency switches the common token.
pub fn adjust_common_token(cfg: &mut Config, sender: &String, new_token: String) -> (r: Result<
    (),
    ContractError,
>)
    ensures
        sender@ != old(cfg).credit_agency@ ==> r == Err::<(), ContractError>(
            ContractError::Unauthorized,
        ) && *final(cfg) == *old(cfg),
        sender@ == old(cfg).credit_agency@ ==> r is Ok && *final(cfg) == (Config {
            common_token: new_token,
            ..*old(cfg)
        }),
{
    if !sender.eq(&cfg.credit_agency) {
        return Err(ContractError::Unauthorized);
    }
    cfg.common_token = new_token;
    Ok(())
}

/// Handler for `DistributeAsLTokens`: the credit agency hands the market
/// tokens sent along to all lenders, by rebasing the L-tokens by
/// `(supply + funds) / supply`.
pub fn distribute_as_ltokens(
    cfg: &Config,
    sender: &String,
    funds: &Vec<NativeCoin>,
    ltoken_supply: u128,
) -> (r: Result<Vec<MarketMsg>, ContractError>)
    requires
        cfg.credit_agency@ == sender@ ==> (spec_funds_amount(funds@, cfg.market_token@) matches Some(a)
            ==> ltoken_supply > 0 && ltoken_supply + a <= u128::MAX && ratio_floor(
            ltoken_supply + a,
            ltoken_supply as int,
        ) <= u128::MAX),
    ensures
        cfg.credit_agency@ != sender@ ==> r == Err::<Vec<MarketMsg>, ContractError>(
            ContractError::RequiresCreditAgency,
        ),
        cfg.credit_agency@ == sender@ ==> match spec_funds_amount(funds@, cfg.market_token@) {
            None => funds_outcome(r, funds@, cfg.market_token@),
            Some(a) => r matches Ok(v) && v@ == seq![
                MarketMsg::Rebase {
                    token_contract: cfg.ltoken_contract,
                    ratio: Decimal {
                        atomics: ratio_floor(ltoken_supply + a, ltoken_supply as int) as u128,
                    },
                },
            ],
        },
{
    if !cfg.credit_agency.eq(sender) {
        return Err(ContractError::RequiresCreditAgency);
    }
    let funds_sent = validate_funds(funds, &cfg.market_token)?;
    // rebasing only the L-tokens hands the funds to all lenders, pro rata
    let rebase_by = Decimal::from_ratio(ltoken_supply + funds_sent, ltoken_supply);
    let mut msgs = Vec::new();
    msgs.push(MarketMsg::Rebase { token_contract: cfg.ltoken_contract.clone(), ratio: rebase_by });
    Ok(msgs)
}

/// The pools through which the market tokens of a forced withdrawal are
/// swapped for the requested denomination.
#[derive(Clone, Debug, PartialEq, Eq)]
pub enum SwapRoute {
    /// One pool between `denom_in` and `denom_out`.
    Direct { denom_in: String, denom_out: String },
    /// Market token to common token, then common token to the requested denom.
    ViaCommon { denom_in: String, common: String, denom_out: String },
}

/// First stage of `SwapWithdrawFrom`: either the messages, when the requested
/// denomination is the market token itself, or the route whose pools must be
/// looked up.
#[derive(Clone, Debug, PartialEq, Eq)]
pub enum SwapWithdraw {
    Done(Vec<MarketMsg>),
    Swap(SwapRoute),
}

/// What a swap estimate reports: the input needed, or an output amount.
#[derive(Clone, Copy, Debug, PartialEq, Eq, Structural)]
pub enum SwapAmount {
    In(u128),
    Out(u128),
}

/// The route from the market token to `buy_denom`.
pub open spec fn spec_swap_route(cfg: Config, buy_denom: Seq<char>) -> (Seq<char>, Option<Seq<char>>, Seq<char>) {
    if cfg.market_token@ == cfg.common_token@ {
        (cfg.common_token@, None, buy_denom)
    } else if cfg.common_token@ == buy_denom {
        (cfg.market_token@, None, buy_denom)
    } else {
        (cfg.market_token@, Some(cfg.common_token@), buy_denom)
    }
}

/// The route as plain denominations: first input, optional intermediate, output.
pub open spec fn route_view(route: SwapRoute) -> (Seq<char>, Option<Seq<char>>, Seq<char>) {
    match route {
        SwapRoute::Direct { denom_in, denom_out } => (denom_in@, None, denom_out@),
        SwapRoute::ViaCommon { denom_in, common, denom_out } => (denom_in@, Some(common@), denom_out@),
    }
}

/// Law: a swap route starts at the market token and ends at the requested
/// denomination; buying the common token (or selling it) is one direct swap,
/// and a route through the common token never has a step from a denomination
/// to itself.
pub proof fn law_swap_route_has_no_idle_step(cfg: Config, buy_denom: Seq<char>)
    requires
        cfg.market_token@ != buy_denom,
    ensures
        spec_swap_route(cfg, buy_denom).0 == cfg.market_token@,
        spec_swap_route(cfg, buy_denom).2 == buy_denom,
        cfg.common_token@ == buy_denom ==> spec_swap_route(cfg, buy_denom).1 is None,
        cfg.common_token@ == cfg.market_token@ ==> spec_swap_route(cfg, buy_denom).1 is None,
        spec_swap_route(cfg, buy_denom).1 matches Some(c) ==> c != buy_denom && c
            != cfg.market_token@ && c == cfg.common_token@,
{
}

/// Law: the swap of a forced withdrawal goes through the pool found for its
/// first pair (`first_pool`), sells at most `max_input` for exactly `output`,
/// and the second pool appears only as the one step of a route through the
/// common token.
pub proof fn law_swap_uses_the_pool_of_its_pair(
    m: MarketMsg,
    route: SwapRoute,
    first_pool: u64,
    second_pool: u64,
    output: u128,
    max_input: u128,
)
    requires
        is_swap_msg(m, route, first_pool, second_pool, output, max_input),
    ensures
        m matches MarketMsg::Swap { pool_id, route: steps, output: o, max_input: mi, .. } && pool_id
            == first_pool && o == output && mi == max_input && (route is Direct ==> steps@.len() == 0)
            && (route is ViaCommon ==> steps@.len() == 1 && steps@[0].0 == second_pool),
{
}

/// Handler for `SwapWithdrawFrom`, first stage: the credit agency withdraws
/// `buy_amount` of `buy_denom` from `account`'s deposit, skipping the credit
/// line check. With the market token requested, the L-tokens are burnt and the
/// tokens sent at once; otherwise the swap route is returned.
pub fn swap_withdraw_from(
    cfg: &Config,
    sender: &String,
    account: &String,
    buy_denom: &String,
    buy_amount: u128,
) -> (r: Result<SwapWithdraw, ContractError>)
    ensures
        cfg.credit_agency@ != sender@ ==> r == Err::<SwapWithdraw, ContractError>(
            ContractError::RequiresCreditAgency,
        ),
        cfg.credit_agency@ == sender@ && cfg.market_token@ == buy_denom@ ==> (r matches Ok(
            SwapWithdraw::Done(v),
        ) && v@ == seq![
            MarketMsg::BurnFrom {
                token_contract: cfg.ltoken_contract,
                owner: *account,
                amount: buy_amount,
            },
            MarketMsg::BankSend { to_address: *sender, denom: *buy_denom, amount: buy_amount },
        ]),
        cfg.credit_agency@ == sender@ && cfg.market_token@ != buy_denom@ ==> (r matches Ok(
            SwapWithdraw::Swap(route),
        ) && route_view(route) == spec_swap_route(*cfg, buy_denom@)),
        // the route sells the market token and buys the requested denom, and
        // goes through the common token only when that is neither of them
        r matches Ok(SwapWithdraw::Swap(route)) ==> {
            &&& route_view(route).0 == cfg.market_token@
            &&& route_view(route).2 == buy_denom@
            &&& (route is ViaCommon <==> (cfg.common_token@ != cfg.market_token@
                && cfg.common_token@ != buy_denom@))
            &&& (route matches SwapRoute::ViaCommon { common, .. } ==> common@ == cfg.common_token@)
        },
{
    if !cfg.credit_agency.eq(sender) {
        return Err(ContractError::RequiresCreditAgency);
    }
    // between the same denoms there is nothing to swap
    if cfg.market_token.eq(buy_denom) {
        let mut msgs = Vec::new();
        msgs.push(
            MarketMsg::BurnFrom {
                token_contract: cfg.ltoken_contract.clone(),
                owner: account.clone(),
                amount: buy_amount,
            },
        );
        msgs.push(
            MarketMsg::BankSend {
                to_address: sender.clone(),
                denom: buy_denom.clone(),
                amount: buy_amount,
            },
        );
        return Ok(SwapWithdraw::Done(msgs));
    }
    let route = if cfg.market_token.eq(&cfg.common_token) {
        // a market of the common token needs no extra step
        SwapRoute::Direct { denom_in: cfg.common_token.clone(), denom_out: buy_denom.clone() }
    } else if cfg.common_token.eq(buy_denom) {
        // buying the common token needs no extra step
        SwapRoute::Direct { denom_in: cfg.market_token.clone(), denom_out: buy_denom.clone() }
    } else {
        SwapRoute::ViaCommon {
            denom_in: cfg.market_token.clone(),
            common: cfg.common_token.clone(),
            denom_out: buy_denom.clone(),
        }
    };
    Ok(SwapWithdraw::Swap(route))
}

/// Whether a message is the swap along `route` for `output` tokens with at
/// most `max_input` sold.
pub open spec fn is_swap_msg(m: MarketMsg, route: SwapRoute, first_pool: u64, second_pool: u64, output: u128, max_input: u128) -> bool {
    match (m, route) {
        (MarketMsg::Swap { pool_id, denom_in, denom_out, route: steps, output: o, max_input: mi }, SwapRoute::Direct { denom_in: i, denom_out: d }) => {
            &&& pool_id == first_pool
            &&& denom_in@ == i@
            &&& denom_out@ == d@
            &&& steps@.len() == 0
            &&& o == output
            &&& mi == max_input
        },
        (MarketMsg::Swap { pool_id, denom_in, denom_out, route: steps, output: o, max_input: mi }, SwapRoute::ViaCommon { denom_in: i, common, denom_out: d }) => {
            &&& pool_id == first_pool
            &&& denom_in@ == i@
            &&& denom_out@ == common@
            &&& steps@.len() == 1
            &&& steps@[0].0 == second_pool
            &&& steps@[0].1@ == d@
            &&& o == output
            &&& mi == max_input
        },
        _ => false,
    }
}

/// Handler for `SwapWithdrawFrom`, second stage: given the pools of the route
/// and the estimate of the swap, burns the L-tokens of `account` that the swap
/// sells, swaps them, and sends the bought tokens to the credit agency.
pub fn swap_withdraw_from_estimated(
    cfg: &mut Config,
    reserve: &mut u128,
    sender: &String,
    account: &String,
    sell_limit: u128,
    buy_denom: &String,
    buy_amount: u128,
    route: &SwapRoute,
    first_pool: u64,
    second_pool: u64,
    estimate: SwapAmount,
    tokens_info: &TokensInfo,
    now: u64,
) -> (r: Result<Vec<MarketMsg>, ContractError>)
    requires
        estimate is In ==> !charge_aborts(*old(cfg), *old(reserve), *tokens_info, now),
    ensures
        estimate is Out ==> r == Err::<Vec<MarketMsg>, ContractError>(
            ContractError::IncorrectSwapAmountResponse,
        ) && *final(cfg) == *old(cfg),
        estimate matches SwapAmount::In(sold) ==> match spec_charge(
            *old(cfg),
            *old(reserve),
            *tokens_info,
            now,
        ) {
            Ok((c, res, msgs)) => r matches Ok(v) && v@.len() == msgs.len() + 3 && v@.take(
                msgs.len() as int,
            ) == msgs && v@[msgs.len() as int] == (MarketMsg::BurnFrom {
                token_contract: c.ltoken_contract,
                owner: *account,
                amount: sold,
            }) && is_swap_msg(
                v@[msgs.len() as int + 1],
                *route,
                first_pool,
                second_pool,
                buy_amount,
                sell_limit,
            ) && v@[msgs.len() as int + 2] == (MarketMsg::BankSend {
                to_address: *sender,
                denom: *buy_denom,
                amount: buy_amount,
            }) && *final(cfg) == c && *final(reserve) == res,
            Err(e) => r == Err::<Vec<MarketMsg>, ContractError>(e),
        },
        // the swap goes through the pool of its first pair; a direct swap has
        // no further step
        r matches Ok(v) ==> v@.len() >= 3 && (v@[v@.len() - 2] matches MarketMsg::Swap {
            pool_id,
            route: steps,
            output,
            max_input,
            ..
        } && pool_id == first_pool && output == buy_amount && max_input == sell_limit && (
        route is Direct ==> steps@.len() == 0) && (route is ViaCommon ==> steps@.len() == 1
            && steps@[0].0 == second_pool)),
{
    let sold = match estimate {
        SwapAmount::In(a) => a,
        SwapAmount::Out(_) => return Err(ContractError::IncorrectSwapAmountResponse),
    };
    let mut msgs = helpers::charge_interest(cfg, reserve, tokens_info, now)?;
    let ghost charged = msgs@;
    msgs.push(
        MarketMsg::BurnFrom {
            token_contract: cfg.ltoken_contract.clone(),
            owner: account.clone(),
            amount: sold,
        },
    );
    let swap = match route {
        SwapRoute::Direct { denom_in, denom_out } => MarketMsg::Swap {
            pool_id: first_pool,
            denom_in: denom_in.clone(),
            denom_out: denom_out.clone(),
            route: Vec::new(),
            output: buy_amount,
            max_input: sell_limit,
        },
        SwapRoute::ViaCommon { denom_in, common, denom_out } => {
            let mut steps = Vec::new();
            steps.push((second_pool, denom_out.clone()));
            MarketMsg::Swap {
                pool_id: first_pool,
                denom_in: denom_in.clone(),
                denom_out: common.clone(),
                route: steps,
                output: buy_amount,
                max_input: sell_limit,
            }
        },
    };
    msgs.push(swap);
    msgs.push(
        MarketMsg::BankSend {
            to_address: sender.clone(),
            denom: buy_denom.clone(),
            amount: buy_amount,
        },
    );
    assert(msgs@.take(charged.len() as int) =~= charged);
    Ok(msgs)
}

} // verus!
