use std::collections::{BTreeMap, HashMap};

use isotonic::coin::{NativeCoin, Token};
use isotonic::credit_agency::execute as agency_execute;
use isotonic::credit_agency::Config as AgencyConfig;
use isotonic::credit_line::{CreditLineResponse, CreditLineValues};
use isotonic::decimal::Decimal;
use isotonic::interest::{Interest, TokensInfo};
use isotonic::lendex;
use isotonic::lendex::{
    ContractError, InstantiateMsg, LendexMsg, ListMarketsResponse, MarketConfig, MarketResponse, MarketState,
};
use isotonic::market::InstantiateMsg as MarketInstantiateMsg;
use isotonic::token::{DisplayAmount, TokenInfoResponse};

/// The protobuf encoding of an instantiation response for `address`.
fn instantiated(address: &str) -> Option<Vec<u8>> {
    let mut data = vec![0x0a, address.len() as u8];
    data.extend_from_slice(address.as_bytes());
    Some(data)
}


const COMMON: &str = "COMMON";

/// A market as seen by the credit agency: its configuration, price and the
/// deposits and debts of accounts.
struct Market {
    cfg: isotonic::market::Config,
    price: Decimal,
    deposits: HashMap<String, u128>,
    debts: HashMap<String, u128>,
}

impl Market {
    fn credit_line(&self, account: &str) -> CreditLineValues {
        let info = |n: u128| TokenInfoResponse {
            name: "t".to_string(),
            symbol: "T".to_string(),
            decimals: 6,
            total_supply: DisplayAmount::raw(n),
        };
        let tokens_info = TokensInfo { ltoken: info(0), btoken: info(0) };
        let resp = isotonic::market::query::credit_line(
            &self.cfg,
            0,
            self.deposits.get(account).copied().unwrap_or(0),
            self.debts.get(account).copied().unwrap_or(0),
            &tokens_info,
            Some(self.price),
            self.cfg.last_charged,
        )
        .unwrap();
        CreditLineValues {
            collateral: resp.collateral.amount,
            credit_line: resp.credit_line.amount,
            debt: resp.debt.amount,
        }
    }
}

struct Agency {
    cfg: lendex::Config,
    markets: BTreeMap<String, MarketState>,
    contracts: HashMap<String, Market>,
    next_reply_id: u64,
}

impl Agency {
    fn new(gov: &str) -> Self {
        Agency {
            cfg: lendex::instantiate(InstantiateMsg {
                gov_contract: gov.to_string(),
                lendex_market_id: 2,
                lendex_token_id: 3,
                reward_token: "reward".to_string(),
                common_token: Some(COMMON.to_string()),
                liquidation_price: Decimal::percent(92),
            }),
            markets: BTreeMap::new(),
            contracts: HashMap::new(),
            next_reply_id: 0,
        }
    }

    fn entries(&self) -> Vec<(String, MarketState)> {
        self.markets.iter().map(|(k, v)| (k.clone(), v.clone())).collect()
    }

    fn create_market_quick(&mut self, sender: &str, name: &str, token: &str, ratio: Decimal) -> Result<(), ContractError> {
        let market_cfg = MarketConfig {
            name: name.to_string(),
            symbol: token.to_string(),
            decimals: 9,
            market_token: token.to_string(),
            interest_rate: Interest::Linear { base: Decimal::percent(3), slope: Decimal::percent(20) },
            interest_charge_period: 300,
            collateral_ratio: ratio,
            price_oracle: "oracle".to_string(),
        };
        let mut state = self.markets.get(token).cloned();
        let mut reply_ids = HashMap::new();
        let msg = lendex::create_market(
            &self.cfg,
            &sender.to_string(),
            market_cfg,
            &mut state,
            &mut self.next_reply_id,
            &mut reply_ids,
        )?;
        let LendexMsg::InstantiateMarket { market_token, msg, reply_id, .. } = msg else { panic!("unexpected message") };
        assert_eq!(state, Some(MarketState::Instantiating));
        assert_eq!(reply_ids.len(), 1);
        assert_eq!(reply_ids.get(&reply_id), Some(&market_token));
        self.markets.insert(market_token.clone(), MarketState::Instantiating);
        let address = format!("contract{}", self.contracts.len() + 1);
        let cfg = isotonic::market::instantiate(
            MarketInstantiateMsg {
                name: msg.name,
                symbol: msg.symbol,
                decimals: msg.decimals,
                token_id: msg.token_id,
                market_token: Token::Native(msg.market_token),
                market_cap: None,
                interest_rate: msg.interest_rate,
                distributed_token: Token::Native(msg.distributed_token),
                interest_charge_period: msg.interest_charge_period,
                common_token: Token::Native(msg.common_token.unwrap()),
                collateral_ratio: msg.collateral_ratio,
                price_oracle: msg.price_oracle,
                reserve_factor: Decimal::zero(),
            },
            0,
            "agency".to_string(),
            address.clone(),
        )
        .unwrap()
        .0;
        self.contracts.insert(
            address.clone(),
            Market { cfg, price: Decimal::one(), deposits: HashMap::new(), debts: HashMap::new() },
        );
        let (key, state) =
            lendex::handle_market_instantiation_response(reply_id, &instantiated(&address), market_token).unwrap();
        self.markets.insert(key, state);
        Ok(())
    }

    fn market_mut(&mut self, token: &str) -> &mut Market {
        let addr = lendex::market(&token.to_string(), self.markets.get(token).cloned()).unwrap().market;
        self.contracts.get_mut(&addr).unwrap()
    }

    fn oracle_set_price_market_per_common(&mut self, token: &str, price: Decimal) {
        self.market_mut(token).price = price;
    }

    fn deposit(&mut self, account: &str, token: &str, amount: u128) {
        *self.market_mut(token).deposits.entry(account.to_string()).or_insert(0) += amount;
    }

    fn borrow(&mut self, account: &str, token: &str, amount: u128) {
        *self.market_mut(token).debts.entry(account.to_string()).or_insert(0) += amount;
    }

    fn query_total_credit_line(&self, account: &str) -> CreditLineValues {
        let page = lendex::list_markets(&self.entries(), None, None);
        let lines: Vec<CreditLineValues> =
            page.markets.iter().map(|m| self.contracts[&m.market].credit_line(account)).collect();
        lendex::total_credit_line(&lines)
    }

    fn liquidate(&self, liquidator: &str, account: &str, funds: &[NativeCoin], collateral_denom: &str) -> Result<Vec<LendexMsg>, ContractError> {
        let funds: Vec<NativeCoin> = funds.to_vec();
        let total = self.query_total_credit_line(account);
        let debt_state = funds.first().and_then(|c| self.markets.get(&c.denom).cloned());
        let collateral_state = self.markets.get(collateral_denom).cloned();
        // the oracle's price of the repaid tokens in common tokens
        let rate = match &debt_state {
            Some(MarketState::Ready(addr)) => self.contracts[addr].price,
            _ => Decimal::one(),
        };
        lendex::liquidate(
            &self.cfg,
            &liquidator.to_string(),
            &account.to_string(),
            &collateral_denom.to_string(),
            &funds,
            total,
            debt_state,
            collateral_state,
            rate,
        )
    }
}

fn coin(amount: u128, denom: &str) -> NativeCoin {
    NativeCoin { denom: denom.to_string(), amount }
}

fn values(collateral: u128, credit_line: u128, debt: u128) -> CreditLineValues {
    CreditLineValues { collateral, credit_line, debt }
}

#[test]
fn send_more_then_one_denom() {
    let mut suite = Agency::new("gov");
    suite.create_market_quick("gov", "osmo", "OSMO", Decimal::percent(80)).unwrap();
    let err = suite
        .liquidate("liquidator", "debtor", &[coin(100, "OSMO"), coin(100, "otherOSMO")], "OSMO")
        .unwrap_err();
    assert_eq!(ContractError::LiquidationOnlyOneDenomRequired, err);
}

#[test]
fn liquidate_account_doesnt_have_debt_bigger_then_credit_line() {
    let mut suite = Agency::new("gov");
    suite.create_market_quick("gov", "osmo", "OSMO", Decimal::percent(80)).unwrap();
    suite.oracle_set_price_market_per_common("OSMO", Decimal::percent(100));
    suite.deposit("debtor", "OSMO", 500);

    assert_eq!(suite.query_total_credit_line("debtor"), values(500, 400, 0));

    // debt must be higher than the credit line: 400 of both does not allow a liquidation
    suite.borrow("debtor", "OSMO", 400);
    assert_eq!(suite.query_total_credit_line("debtor").debt, 400);

    let err = suite.liquidate("liquidator", "debtor", &[coin(400, "OSMO")], "OSMO").unwrap_err();
    assert_eq!(ContractError::LiquidationNotAllowed, err);

    // the same account on the current credit agency
    let cfg = AgencyConfig {
        gov_contract: "gov".to_string(),
        isotonic_market_id: 2,
        isotonic_token_id: 3,
        reward_token: "reward".to_string(),
        common_token: COMMON.to_string(),
        liquidation_price: Decimal::percent(92),
        liquidation_fee: Decimal::percent(5),
        liquidation_initiation_fee: Decimal::percent(1),
    };
    let common = |amount: u128| isotonic::coin::Coin { denom: Token::Native(COMMON.to_string()), amount };
    let total = CreditLineResponse { collateral: common(500), credit_line: common(400), debt: common(400) };
    let entered = vec!["contract1".to_string()];
    let ready = Some(isotonic::credit_agency::MarketState::Ready("contract1".to_string()));
    let err = agency_execute::liquidate(
        &cfg,
        &"liquidator".to_string(),
        &"debtor".to_string(),
        &"OSMO".to_string(),
        ready.clone(),
        &"OSMO".to_string(),
        ready,
        &entered,
        &total,
        Decimal::percent(80),
        Decimal::one(),
        Decimal::one(),
        &isotonic::coin::Coin { denom: Token::Native("OSMO".to_string()), amount: 400 },
    )
    .unwrap_err();
    assert_eq!(isotonic::credit_agency::ContractError::LiquidationNotAllowed, err);
}

#[test]
fn receive_reward_in_different_denom_fails_if_theres_no_reward_market() {
    let mut suite = Agency::new("gov");
    suite.create_market_quick("gov", "osmo", "OSMO", Decimal::percent(80)).unwrap();
    suite.oracle_set_price_market_per_common("OSMO", Decimal::percent(100));
    suite.deposit("debtor", "OSMO", 500);
    suite.borrow("debtor", "OSMO", 400);
    // a year of interest makes the debt exceed the credit line
    suite.borrow("debtor", "OSMO", 74);

    let err = suite.liquidate("liquidator", "debtor", &[coin(474, "OSMO")], "ETH").unwrap_err();
    assert_eq!(ContractError::NoMarket("ETH".to_owned()), err);
}

#[test]
fn liquidation_messages() {
    let mut suite = Agency::new("gov");
    suite.create_market_quick("gov", "osmo", "OSMO", Decimal::percent(80)).unwrap();
    suite.create_market_quick("gov", "ethereum", "ETH", Decimal::percent(80)).unwrap();
    suite.deposit("debtor", "ETH", 500);
    suite.borrow("debtor", "OSMO", 474);

    let total = suite.query_total_credit_line("debtor");
    let msgs = lendex::liquidate(
        &suite.cfg,
        &"liquidator".to_string(),
        &"debtor".to_string(),
        &"ETH".to_string(),
        &vec![coin(474, "OSMO")],
        total,
        suite.markets.get("OSMO").cloned(),
        suite.markets.get("ETH").cloned(),
        Decimal::percent(150),
    )
    .unwrap();
    assert_eq!(
        msgs,
        vec![
            LendexMsg::RepayTo {
                market: "contract1".to_string(),
                account: "debtor".to_string(),
                amount: 474,
                funds: coin(474, "OSMO"),
            },
            LendexMsg::TransferFrom {
                market: "contract2".to_string(),
                source: "debtor".to_string(),
                destination: "liquidator".to_string(),
                amount: 711,
                liquidation_price: Decimal::percent(92),
            },
        ]
    );
}

#[test]
fn basic_query_with_one_market() {
    let mut suite = Agency::new("gov");
    suite.create_market_quick("gov", "osmo", "OSMO", Decimal::percent(50)).unwrap();
    suite.oracle_set_price_market_per_common("OSMO", Decimal::percent(200));
    suite.deposit("lender", "OSMO", 1000);
    assert_eq!(suite.query_total_credit_line("lender"), values(2000, 1000, 0));
}

#[test]
fn query_with_two_market() {
    let mut suite = Agency::new("gov");
    suite.create_market_quick("gov", "osmo", "OSMO", Decimal::percent(50)).unwrap();
    suite.create_market_quick("gov", "ethereum", "ETH", Decimal::percent(50)).unwrap();
    suite.oracle_set_price_market_per_common("OSMO", Decimal::percent(200));
    suite.oracle_set_price_market_per_common("ETH", Decimal::percent(50));
    suite.deposit("lender", "OSMO", 1000);
    suite.deposit("lender", "ETH", 500);
    assert_eq!(suite.query_total_credit_line("lender"), values(2250, 1125, 0));
}

#[test]
fn query_with_two_market_two_borrowers() {
    let mut suite = Agency::new("gov");
    suite.create_market_quick("gov", "osmo", "OSMO", Decimal::percent(50)).unwrap();
    suite.create_market_quick("gov", "ethereum", "ETH", Decimal::percent(50)).unwrap();
    suite.oracle_set_price_market_per_common("OSMO", Decimal::percent(200));
    suite.oracle_set_price_market_per_common("ETH", Decimal::percent(50));
    suite.deposit("lender", "OSMO", 1000);
    suite.deposit("lender", "ETH", 500);
    suite.borrow("borrower1", "OSMO", 900);
    suite.deposit("borrower1", "OSMO", 1000);
    suite.borrow("borrower2", "ETH", 400);
    suite.deposit("borrower2", "ETH", 500);

    assert_eq!(suite.query_total_credit_line("lender"), values(2250, 1125, 0));
    assert_eq!(suite.query_total_credit_line("borrower1"), values(2000, 1000, 1800));
    assert_eq!(suite.query_total_credit_line("borrower2"), values(250, 125, 200));
}

#[test]
fn lendex_market_create_unauthorized_and_duplicates() {
    let mut suite = Agency::new("gov");
    let err = suite.create_market_quick("random_dude", "osmo", "OSMO", Decimal::percent(50)).unwrap_err();
    assert_eq!(ContractError::Unauthorized, err);
    suite.create_market_quick("gov", "osmo", "OSMO", Decimal::percent(50)).unwrap();
    let err = suite.create_market_quick("gov", "osmo", "OSMO", Decimal::percent(50)).unwrap_err();
    assert_eq!(ContractError::MarketAlreadyExists("OSMO".to_owned()), err);
    suite.markets.insert("BTC".to_string(), MarketState::Instantiating);
    let err = suite.create_market_quick("gov", "btc", "BTC", Decimal::percent(50)).unwrap_err();
    assert_eq!(ContractError::MarketCreating("BTC".to_owned()), err);
    assert_eq!(
        lendex::market(&"BTC".to_string(), suite.markets.get("BTC").cloned()),
        Err(ContractError::MarketCreating("BTC".to_string()))
    );
    assert_eq!(
        lendex::market(&"ATOM".to_string(), None),
        Err(ContractError::NoMarket("ATOM".to_string()))
    );
}

#[test]
fn lendex_list_markets_pages() {
    let mut suite = Agency::new("gov");
    for t in ["ATOM", "BTC", "ETH", "OSMO"] {
        suite.create_market_quick("gov", &t.to_lowercase(), t, Decimal::percent(50)).unwrap();
    }
    let page: ListMarketsResponse = lendex::list_markets(&suite.entries(), Some("BTC".to_string()), Some(1));
    assert_eq!(page.markets, vec![MarketResponse { market_token: "ETH".to_string(), market: "contract3".to_string() }]);
}

#[test]
fn collateral_ratio_higher_then_liquidation_price() {
    let mut suite = Agency::new("gov");
    let err = suite.create_market_quick("gov", "osmo", "OSMO", Decimal::percent(92)).unwrap_err();
    assert_eq!(ContractError::MarketCfgCollateralFailure, err);
    let err = suite.create_market_quick("gov", "osmo", "OSMO", Decimal::percent(93)).unwrap_err();
    assert_eq!(ContractError::MarketCfgCollateralFailure, err);
    assert!(suite.entries().is_empty());
    assert_eq!(suite.next_reply_id, 0);
}

#[test]
fn liquidating_whole_debt() {
    let mut suite = Agency::new("gov");
    suite.create_market_quick("gov", "osmo", "OSMO", Decimal::percent(80)).unwrap();
    suite.oracle_set_price_market_per_common("OSMO", Decimal::percent(100));
    suite.deposit("debtor", "OSMO", 500);
    assert_eq!(suite.query_total_credit_line("debtor"), values(500, 400, 0));
    suite.borrow("debtor", "OSMO", 400);
    assert_eq!(suite.query_total_credit_line("debtor").debt, 400);

    // a year of interest at 19% as charged by the market
    suite.deposit("debtor", "OSMO", 75);
    suite.borrow("debtor", "OSMO", 74);
    assert_eq!(suite.query_total_credit_line("debtor"), values(575, 460, 474));

    let msgs = suite.liquidate("liquidator", "debtor", &[coin(474, "OSMO")], "OSMO").unwrap();
    // the debt is repaid, and the collateral worth the repaid tokens moves to
    // the liquidator at the liquidation price of 0.92
    assert_eq!(
        msgs,
        vec![
            LendexMsg::RepayTo {
                market: "contract1".to_string(),
                account: "debtor".to_string(),
                amount: 474,
                funds: coin(474, "OSMO"),
            },
            LendexMsg::TransferFrom {
                market: "contract1".to_string(),
                source: "debtor".to_string(),
                destination: "liquidator".to_string(),
                amount: 474,
                liquidation_price: Decimal::percent(92),
            },
        ]
    );
}

/// The messages of a liquidation by "liquidator" of "debtor": the repaid
/// tokens go to the debt market, and collateral worth `reward` common tokens
/// moves to the liquidator at the liquidation price.
fn liquidation(debt_market: &str, repaid: NativeCoin, collateral_market: &str, reward: u128) -> Vec<LendexMsg> {
    vec![
        LendexMsg::RepayTo {
            market: debt_market.to_string(),
            account: "debtor".to_string(),
            amount: repaid.amount,
            funds: repaid,
        },
        LendexMsg::TransferFrom {
            market: collateral_market.to_string(),
            source: "debtor".to_string(),
            destination: "liquidator".to_string(),
            amount: reward,
            liquidation_price: Decimal::percent(92),
        },
    ]
}

#[test]
fn receive_reward_different_denom_fails_if_debtor_has_not_enough_reward_tokens() {
    let mut suite = Agency::new("gov");
    suite.create_market_quick("gov", "osmo", "OSMO", Decimal::percent(80)).unwrap();
    suite.create_market_quick("gov", "eth", "ETH", Decimal::percent(80)).unwrap();
    suite.oracle_set_price_market_per_common("OSMO", Decimal::percent(100));
    suite.oracle_set_price_market_per_common("ETH", Decimal::percent(150));
    // the balances after a year of very high interest
    suite.deposit("debtor", "OSMO", 963);
    suite.borrow("debtor", "OSMO", 855);
    suite.deposit("debtor", "ETH", 50);
    assert_eq!(suite.query_total_credit_line("debtor"), values(1038, 830, 855));

    // 100 OSMO repaid are worth 100 common tokens, that is 100 / 1.5 / 0.92 = 72
    // L-tokens of the ETH market, more than the 50 the debtor may transfer:
    // that market refuses the transfer
    let msgs = suite.liquidate("liquidator", "debtor", &[coin(100, "OSMO")], "ETH").unwrap();
    assert_eq!(msgs, liquidation("contract1", coin(100, "OSMO"), "contract2", 100));
}

#[test]
fn receive_reward_in_different_denoms_no_interest_rates() {
    let mut suite = Agency::new("gov");
    suite.create_market_quick("gov", "atom", "OSMO", Decimal::percent(50)).unwrap();
    suite.create_market_quick("gov", "ust", "ETH", Decimal::percent(60)).unwrap();
    suite.oracle_set_price_market_per_common("OSMO", Decimal::percent(400));
    suite.oracle_set_price_market_per_common("ETH", Decimal::percent(10));
    suite.deposit("debtor", "OSMO", 4000);
    suite.deposit("liquidator", "ETH", 100_000);
    suite.borrow("debtor", "ETH", 75_000);
    assert_eq!(suite.query_total_credit_line("debtor"), values(16_000, 8_000, 7_500));

    suite.oracle_set_price_market_per_common("OSMO", Decimal::percent(300));
    assert_eq!(suite.query_total_credit_line("debtor"), values(12_000, 6_000, 7_500));

    // 60_000 ETH repaid are worth 6_000 common tokens, moved to the liquidator
    // as 6_000 / 3.0 / 0.92 = 2173 L-tokens of the OSMO market
    let msgs = suite.liquidate("liquidator", "debtor", &[coin(60_000, "ETH")], "OSMO").unwrap();
    assert_eq!(msgs, liquidation("contract2", coin(60_000, "ETH"), "contract1", 6_000));
}

#[test]
fn receive_reward_in_different_denoms_with_six_months_interests() {
    let mut suite = Agency::new("gov");
    suite.create_market_quick("gov", "atom", "OSMO", Decimal::percent(50)).unwrap();
    suite.create_market_quick("gov", "ust", "ETH", Decimal::percent(60)).unwrap();
    suite.oracle_set_price_market_per_common("OSMO", Decimal::percent(400));
    suite.oracle_set_price_market_per_common("ETH", Decimal::percent(10));
    suite.deposit("others", "OSMO", 10_000);
    suite.deposit("others", "ETH", 100_000);
    suite.borrow("others", "OSMO", 2_000);
    suite.borrow("others", "ETH", 20_000);
    suite.deposit("debtor", "OSMO", 4_000);
    suite.borrow("debtor", "ETH", 75_000);
    assert_eq!(suite.query_total_credit_line("debtor"), values(16_000, 8_000, 7_500));

    // half a year of interest: 4017 L-tokens and 83_250 B-tokens
    suite.deposit("debtor", "OSMO", 17);
    suite.borrow("debtor", "ETH", 8_250);
    suite.oracle_set_price_market_per_common("OSMO", Decimal::percent(300));
    assert_eq!(suite.query_total_credit_line("debtor"), values(12_051, 6_025, 8_325));

    let msgs = suite.liquidate("liquidator", "debtor", &[coin(60_000, "ETH")], "OSMO").unwrap();
    assert_eq!(msgs, liquidation("contract2", coin(60_000, "ETH"), "contract1", 6_000));
}
