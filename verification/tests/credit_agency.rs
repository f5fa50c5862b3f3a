use std::collections::{BTreeMap, HashMap};

use isotonic::coin::{generate_denoms, Coin, Token};
use isotonic::credit_agency::execute;
use isotonic::credit_agency::query::{entered_markets, is_on_market, market, ListMarketsResponse, MarketResponse};
use isotonic::credit_agency::{query, sudo};
use isotonic::credit_agency::{
    handle_market_instantiation_response, instantiate, AgencyMsg, Config, ContractError, InstantiateMsg,
    MarketConfig, MarketState,
};
use isotonic::credit_line::CreditLineResponse;
use isotonic::decimal::Decimal;
use isotonic::interest::Interest;
use isotonic::market::Config as MarketConfigStored;

/// The protobuf encoding of an instantiation response for `address`.
fn instantiated(address: &str) -> Option<Vec<u8>> {
    let mut data = vec![0x0a, address.len() as u8];
    data.extend_from_slice(address.as_bytes());
    Some(data)
}


const AGENCY: &str = "credit_agency";

/// A market contract: its code id, configuration and the L- and B-token
/// balances of accounts (no time passes, so no interest accrues).
struct MarketSim {
    code_id: u64,
    cfg: MarketConfigStored,
    ltokens: HashMap<String, u128>,
    btokens: HashMap<String, u128>,
    price: Decimal,
}

impl MarketSim {
    fn tokens_info(&self) -> isotonic::interest::TokensInfo {
        let info = |n: u128| isotonic::token::TokenInfoResponse {
            name: "t".to_string(),
            symbol: "T".to_string(),
            decimals: 6,
            total_supply: isotonic::token::DisplayAmount::raw(n),
        };
        isotonic::interest::TokensInfo {
            ltoken: info(self.ltokens.values().sum()),
            btoken: info(self.btokens.values().sum()),
        }
    }

    fn credit_line(&self, account: &str) -> CreditLineResponse {
        isotonic::market::query::credit_line(
            &self.cfg,
            0,
            self.ltokens.get(account).copied().unwrap_or(0),
            self.btokens.get(account).copied().unwrap_or(0),
            &self.tokens_info(),
            Some(self.price),
            self.cfg.last_charged,
        )
        .unwrap()
    }
}

/// A credit agency with its markets, the market contracts it instantiated and
/// the markets each account entered.
struct Agency {
    cfg: Config,
    markets: BTreeMap<String, MarketState>,
    next_reply_id: u64,
    contracts: HashMap<String, MarketSim>,
    entered: HashMap<String, Vec<String>>,
    next_code_id: u64,
}

impl Agency {
    fn new(gov: &str, common: &str) -> Self {
        let cfg = instantiate(InstantiateMsg {
            gov_contract: gov.to_string(),
            isotonic_market_id: 2,
            isotonic_token_id: 3,
            reward_token: Token::Native("reward".to_string()),
            common_token: Token::Native(common.to_string()),
            liquidation_price: Decimal::percent(92),
            liquidation_fee: Decimal::percent(5),
            liquidation_initiation_fee: Decimal::percent(1),
        })
        .unwrap();
        Agency {
            cfg,
            markets: BTreeMap::new(),
            next_reply_id: 0,
            contracts: HashMap::new(),
            entered: HashMap::new(),
            next_code_id: 4,
        }
    }

    fn entries(&self) -> Vec<(String, MarketState)> {
        self.markets.iter().map(|(k, v)| (k.clone(), v.clone())).collect()
    }

    fn market_config(name: &str, token: &str, collateral_ratio: Decimal) -> MarketConfig {
        MarketConfig {
            name: name.to_string(),
            symbol: token.to_string(),
            decimals: 9,
            market_token: Token::Native(token.to_string()),
            market_cap: None,
            interest_rate: Interest::Linear { base: Decimal::percent(3), slope: Decimal::percent(20) },
            interest_charge_period: 300,
            collateral_ratio,
            price_oracle: "oracle".to_string(),
            reserve_factor: Decimal::percent(0),
        }
    }

    fn create_market_with(&mut self, sender: &str, market_cfg: MarketConfig) -> Result<(), ContractError> {
        let token = match &market_cfg.market_token {
            Token::Native(d) => d.clone(),
            Token::Cw20(a) => a.clone(),
        };
        let mut state = self.markets.get(&token).cloned();
        let mut reply_ids = HashMap::new();
        let msg = execute::create_market(
            &self.cfg,
            &sender.to_string(),
            market_cfg,
            &mut state,
            &mut self.next_reply_id,
            &mut reply_ids,
        )?;
        assert_eq!(state, Some(MarketState::Instantiating));
        self.markets.insert(token.clone(), MarketState::Instantiating);
        match msg {
            AgencyMsg::InstantiateMarket { code_id, market_token, msg, reply_id } => {
                assert_eq!(reply_id, self.next_reply_id);
                assert_eq!(reply_ids.len(), 1);
                assert_eq!(reply_ids.get(&reply_id), Some(&market_token));
                let address = format!("contract{}", self.contracts.len() + 1);
                let mut market_cfg = isotonic::market::instantiate(msg, 0, AGENCY.to_string(), address.clone()).unwrap().0;
                isotonic::market::token_instantiate_reply(&mut market_cfg, 1, &instantiated(&format!("{}_ltoken", address))).unwrap();
                isotonic::market::token_instantiate_reply(&mut market_cfg, 2, &instantiated(&format!("{}_btoken", address))).unwrap();
                self.contracts.insert(
                    address.clone(),
                    MarketSim { code_id, cfg: market_cfg, ltokens: HashMap::new(), btokens: HashMap::new(), price: Decimal::one() },
                );
                let (key, state) =
                    handle_market_instantiation_response(reply_id, &instantiated(&address), market_token).unwrap();
                self.markets.insert(key, state);
            },
            other => panic!("unexpected message {:?}", other),
        }
        Ok(())
    }

    fn create_market_quick(&mut self, sender: &str, name: &str, token: &str) -> Result<(), ContractError> {
        self.create_market_with(sender, Self::market_config(name, token, Decimal::percent(50)))
    }

    fn query_market(&self, token: &str) -> Result<MarketResponse, ContractError> {
        market(&token.to_string(), self.markets.get(token).cloned())
    }

    fn assert_market(&self, token: &str) {
        let res = self.query_market(token).unwrap();
        assert_eq!(res.market_token, Token::Native(token.to_string()));
        assert!(self.contracts.contains_key(&res.market));
    }

    fn list_markets_with_pagination(&self, start_after: Option<String>, limit: Option<u32>) -> ListMarketsResponse {
        query::list_markets(&self.entries(), start_after, limit)
    }

    fn list_markets(&self) -> ListMarketsResponse {
        self.list_markets_with_pagination(None, None)
    }

    fn markets_of(&self, account: &str) -> Vec<String> {
        self.entered.get(account).cloned().unwrap_or_default()
    }

    fn enter_market(&mut self, market: &str, account: &str) {
        let entered = self.entered.entry(account.to_string()).or_default();
        execute::enter_market(entered, market.to_string());
    }

    fn credit_lines_of(&self, account: &str, except: Option<&str>) -> Vec<CreditLineResponse> {
        self.markets_of(account)
            .iter()
            .filter(|m| Some(m.as_str()) != except)
            .map(|m| self.contracts[m].credit_line(account))
            .collect()
    }

    fn exit_market(&mut self, account: &str, market: &str) -> Result<(), ContractError> {
        let common = self.cfg.common_token.clone();
        let mut entered = self.markets_of(account);
        let lines: Vec<(String, CreditLineResponse)> =
            entered.iter().map(|m| (m.clone(), self.contracts[m].credit_line(account))).collect();
        assert!(!execute::exit_market_overflows(&common, &market.to_string(), &lines));
        execute::exit_market(&common, &account.to_string(), &market.to_string(), &mut entered, &lines)?;
        self.entered.insert(account.to_string(), entered);
        Ok(())
    }

    fn handle_market_msgs(&mut self, market: &str, msgs: Vec<isotonic::market::MarketMsg>) {
        for m in msgs {
            match m {
                isotonic::market::MarketMsg::Mint { token_contract, recipient, amount } => {
                    let sim = self.contracts.get_mut(market).unwrap();
                    let book = if token_contract == sim.cfg.ltoken_contract { &mut sim.ltokens } else { &mut sim.btokens };
                    *book.entry(recipient).or_insert(0) += amount;
                },
                isotonic::market::MarketMsg::EnterMarket { account, .. } => self.enter_market(market, &account),
                _ => {},
            }
        }
    }

    fn oracle_set_price_market_per_common(&mut self, token: &str, price: Decimal) {
        let addr = self.query_market(token).unwrap().market;
        self.contracts.get_mut(&addr).unwrap().price = price;
    }

    fn deposit_tokens_on_market(&mut self, account: &str, amount: u128, denom: &str) {
        let addr = self.query_market(denom).unwrap().market;
        let sim = self.contracts.get_mut(&addr).unwrap();
        let info = sim.tokens_info();
        let funds = vec![isotonic::coin::NativeCoin { denom: denom.to_string(), amount }];
        let mut reserve = 0u128;
        let now = sim.cfg.last_charged;
        let msgs = isotonic::market::execute::deposit(&mut sim.cfg, &mut reserve, &account.to_string(), &funds, &info, now)
            .unwrap();
        self.handle_market_msgs(&addr, msgs);
    }

    fn borrow_tokens_from_market(&mut self, account: &str, amount: u128, denom: &str) -> Result<(), isotonic::market::ContractError> {
        let addr = self.query_market(denom).unwrap().market;
        let lines = self.credit_lines_of(account, None);
        let credit = query::total_credit_line(&self.cfg.common_token, &lines).unwrap();
        let sim = self.contracts.get_mut(&addr).unwrap();
        let info = sim.tokens_info();
        let price = isotonic::market::query::price_market_local_per_common(&sim.cfg, Some(sim.price));
        let mut reserve = 0u128;
        let now = sim.cfg.last_charged;
        let msgs = isotonic::market::execute::borrow(
            &mut sim.cfg,
            &mut reserve,
            &account.to_string(),
            amount,
            &credit,
            &price,
            &info,
            now,
        )?;
        self.handle_market_msgs(&addr, msgs);
        Ok(())
    }

    fn liquidate(
        &self,
        liquidator: &str,
        account: &str,
        collateral_denom: &str,
        amount: u128,
        debt_denom: &str,
    ) -> Result<Vec<AgencyMsg>, ContractError> {
        let lines = self.credit_lines_of(account, None);
        let total = query::total_credit_line(&self.cfg.common_token, &lines)?;
        let sim = |denom: &str| {
            self.query_market(denom).ok().map(|m| &self.contracts[&m.market])
        };
        let ratio = sim(collateral_denom).map(|m| m.cfg.collateral_ratio).unwrap_or(Decimal::zero());
        let collateral_rate = sim(collateral_denom).map(|m| m.price).unwrap_or(Decimal::one());
        let debt_rate = sim(debt_denom).map(|m| m.price).unwrap_or(Decimal::one());
        execute::liquidate(
            &self.cfg,
            &liquidator.to_string(),
            &account.to_string(),
            &collateral_denom.to_string(),
            self.markets.get(collateral_denom).cloned(),
            &debt_denom.to_string(),
            self.markets.get(debt_denom).cloned(),
            &self.markets_of(account),
            &total,
            ratio,
            collateral_rate,
            debt_rate,
            &Coin { denom: Token::Native(debt_denom.to_string()), amount },
        )
    }

    fn is_on_market(&self, account: &str, market: &str) -> bool {
        is_on_market(&self.markets_of(account), &market.to_string()).participating
    }

    fn list_all_entered_markets(&self, account: &str) -> Vec<String> {
        entered_markets(&self.markets_of(account), None, None).markets
    }

    fn apply(&mut self, msg: AgencyMsg) {
        match msg {
            AgencyMsg::AdjustCommonToken { market, new_token } => {
                let m = self.contracts.get_mut(&market).unwrap();
                isotonic::market::execute::adjust_common_token(&mut m.cfg, &AGENCY.to_string(), new_token).unwrap();
            },
            AgencyMsg::MigrateMarket { market, new_code_id, isotonic_token_id } => {
                let m = self.contracts.get_mut(&market).unwrap();
                m.code_id = new_code_id;
                isotonic::market::migrate(&mut m.cfg, isotonic::market::MigrateMsg { isotonic_token_id });
            },
            other => panic!("unexpected message {:?}", other),
        }
    }

    fn query_market_config(&self, token: &str) -> MarketConfigStored {
        let addr = self.query_market(token).unwrap().market;
        self.contracts[&addr].cfg.clone()
    }

    fn query_contract_code_id(&self, token: &str) -> u64 {
        let addr = self.query_market(token).unwrap().market;
        self.contracts[&addr].code_id
    }

    fn store_code(&mut self) -> u64 {
        self.next_code_id += 1;
        self.next_code_id
    }
}

fn tokens(list: &ListMarketsResponse) -> Vec<Token> {
    let mut v: Vec<Token> = list.markets.iter().map(|r| r.market_token.clone()).collect();
    v.sort_by_key(|t| format!("{:?}", t));
    v
}

#[test]
fn market_create_market_create() {
    let mut suite = Agency::new("gov", "common");
    suite.create_market_quick("gov", "osmo", "OSMO").unwrap();
    suite.assert_market("OSMO");
}

#[test]
fn market_create_market_create_multiple() {
    let mut suite = Agency::new("gov", "common");
    suite.create_market_quick("gov", "osmo", "OSMO").unwrap();
    suite.create_market_quick("gov", "btc", "BTC").unwrap();
    suite.create_market_quick("gov", "atom", "ATOM").unwrap();

    suite.assert_market("OSMO");
    suite.assert_market("BTC");
    suite.assert_market("ATOM");
}

#[test]
fn market_create_market_create_unauthorized() {
    let mut suite = Agency::new("gov", "common");
    let err = suite.create_market_quick("random_dude", "osmo", "OSMO").unwrap_err();
    assert_eq!(ContractError::Unauthorized, err);
}

#[test]
fn market_create_market_create_already_exists() {
    let mut suite = Agency::new("gov", "common");
    suite.create_market_quick("gov", "osmo", "OSMO").unwrap();
    let err = suite.create_market_quick("gov", "osmo", "OSMO").unwrap_err();
    assert_eq!(ContractError::MarketAlreadyExists("OSMO".to_owned()), err);
}

#[test]
fn market_create_while_instantiating() {
    let mut suite = Agency::new("gov", "common");
    suite.markets.insert("OSMO".to_string(), MarketState::Instantiating);
    let err = suite.create_market_quick("gov", "osmo", "OSMO").unwrap_err();
    assert_eq!(ContractError::MarketCreating("OSMO".to_owned()), err);
    assert_eq!(suite.next_reply_id, 0);
}

#[test]
fn collateral_ratio_higher_then_liquidation_price_on_current_agency() {
    let mut suite = Agency::new("gov", "common");
    let cfg = Agency::market_config("osmo", "OSMO", Decimal::percent(92));
    let err = suite.create_market_with("gov", cfg).unwrap_err();
    assert_eq!(ContractError::MarketCfgCollateralFailure, err);

    let cfg = Agency::market_config("osmo", "OSMO", Decimal::percent(93));
    let err = suite.create_market_with("gov", cfg).unwrap_err();
    assert_eq!(ContractError::MarketCfgCollateralFailure, err);
}

#[test]
fn market_create_cw20_refused() {
    let mut suite = Agency::new("gov", "common");
    let mut cfg = Agency::market_config("osmo", "OSMO", Decimal::percent(50));
    cfg.market_token = Token::Cw20("cw20addr".to_string());
    let err = suite.create_market_with("gov", cfg).unwrap_err();
    assert_eq!(ContractError::Cw20TokensNotSupported, err);
}

#[test]
fn query_market() {
    let mut suite = Agency::new("gov", "common");
    suite.create_market_quick("gov", "osmo", "OSMO").unwrap();
    let res = suite.query_market("OSMO").unwrap();
    assert_eq!(res.market_token.native().unwrap(), "OSMO");
}

#[test]
fn query_market_does_not_exist() {
    let suite = Agency::new("gov", "common");
    let err = suite.query_market("OSMO").unwrap_err();
    assert_eq!(ContractError::NoMarket("OSMO".to_string()), err);
}

#[test]
fn list_markets() {
    let mut suite = Agency::new("gov", "common");
    suite.create_market_quick("gov", "osmo", "OSMO").unwrap();
    suite.create_market_quick("gov", "atom", "ATOM").unwrap();
    suite.create_market_quick("gov", "btc", "BTC").unwrap();

    assert_eq!(
        tokens(&suite.list_markets()),
        [
            Token::Native("ATOM".to_owned()),
            Token::Native("BTC".to_owned()),
            Token::Native("OSMO".to_owned())
        ]
    );
}

#[test]
fn list_markets_empty_list() {
    let suite = Agency::new("gov", "common");
    let res = suite.list_markets();
    assert_eq!(res.markets, []);
}

#[test]
fn list_markets_default_pagination() {
    let mut suite = Agency::new("gov", "common");
    for i in 0..15 {
        suite
            .create_market_quick("gov", &format!("token{:02}", i), &format!("TOKEN{:02}", i))
            .unwrap();
    }

    let list1 = tokens(&suite.list_markets());
    assert_eq!(list1, generate_denoms("TOKEN", 0, 10));

    let start = list1.last().unwrap().native();
    let list2 = tokens(&suite.list_markets_with_pagination(start, None));
    assert_eq!(list2, generate_denoms("TOKEN", 10, 15));
}

#[test]
fn list_markets_custom_pagination() {
    let mut suite = Agency::new("gov", "common");
    for i in 0..5 {
        suite
            .create_market_quick("gov", &format!("token{:02}", i), &format!("TOKEN{:02}", i))
            .unwrap();
    }

    let list1 = tokens(&suite.list_markets_with_pagination(None, Some(3)));
    assert_eq!(list1, generate_denoms("TOKEN", 0, 3));

    let start = list1.last().unwrap().native();
    let list2 = tokens(&suite.list_markets_with_pagination(start, Some(3)));
    assert_eq!(list2, generate_denoms("TOKEN", 3, 5));
}

#[test]
fn list_markets_limit_is_capped() {
    let mut suite = Agency::new("gov", "common");
    for i in 0..35 {
        suite
            .create_market_quick("gov", &format!("token{:02}", i), &format!("TOKEN{:02}", i))
            .unwrap();
    }
    assert_eq!(suite.list_markets_with_pagination(None, Some(100)).markets.len(), 30);
    assert_eq!(suite.list_markets_with_pagination(None, Some(0)).markets.len(), 0);
}

#[test]
fn list_markets_skips_instantiating() {
    let mut suite = Agency::new("gov", "common");
    suite.create_market_quick("gov", "atom", "ATOM").unwrap();
    suite.markets.insert("BTC".to_string(), MarketState::Instantiating);
    suite.create_market_quick("gov", "osmo", "OSMO").unwrap();
    assert_eq!(
        tokens(&suite.list_markets()),
        [Token::Native("ATOM".to_owned()), Token::Native("OSMO".to_owned())]
    );
}

#[test]
fn generate_denoms_pads_to_two_digits() {
    assert_eq!(
        generate_denoms("TOKEN", 8, 11),
        vec![
            Token::Native("TOKEN08".to_string()),
            Token::Native("TOKEN09".to_string()),
            Token::Native("TOKEN10".to_string())
        ]
    );
    assert_eq!(generate_denoms("T", 99, 101), vec![Token::Native("T99".to_string()), Token::Native("T100".to_string())]);
    assert!(generate_denoms("T", 5, 3).is_empty());
}

#[test]
fn market_participation_enter_market() {
    let mut suite = Agency::new("gov", "common");
    suite.create_market_quick("gov", "osmo", "OSMO").unwrap();
    let market = suite.query_market("OSMO").unwrap().market;

    assert!(!suite.is_on_market("actor", &market));
    assert!(suite.list_all_entered_markets("actor").is_empty());

    suite.enter_market(&market, "actor");

    assert!(suite.is_on_market("actor", &market));
    assert_eq!(suite.list_all_entered_markets("actor"), vec![market.clone()]);

    // entering again changes nothing
    suite.enter_market(&market, "actor");
    assert_eq!(suite.list_all_entered_markets("actor"), vec![market]);
}

#[test]
fn exit_market() {
    let mut suite = Agency::new("gov", "common");
    suite.create_market_quick("gov", "osmo", "OSMO").unwrap();
    let market = suite.query_market("OSMO").unwrap().market;
    suite.enter_market(&market, "actor");

    suite.exit_market("actor", &market).unwrap();

    assert!(!suite.is_on_market("actor", &market));
    assert!(suite.list_all_entered_markets("actor").is_empty());
}

#[test]
fn cant_exit_market_not_being_part_of() {
    let mut suite = Agency::new("gov", "common");
    suite.create_market_quick("gov", "osmo", "OSMO").unwrap();
    let market = suite.query_market("OSMO").unwrap().market;

    let err = suite.exit_market("actor", &market).unwrap_err();
    assert_eq!(ContractError::NotOnMarket { address: "actor".to_string(), market: market.clone() }, err);

    assert!(!suite.is_on_market("actor", &market));
    assert!(suite.list_all_entered_markets("actor").is_empty());
}

#[test]
fn entered_markets_pagination() {
    let markets = vec!["m1".to_string(), "m2".to_string(), "m3".to_string()];
    assert_eq!(entered_markets(&markets, Some("m1".to_string()), Some(1)).markets, vec!["m2".to_string()]);
    assert_eq!(entered_markets(&markets, Some("m2".to_string()), None).markets, vec!["m3".to_string()]);
    assert!(entered_markets(&markets, Some("zz".to_string()), None).markets.is_empty());
}

#[test]
fn adjust_market_id() {
    let mut suite = Agency::new("gov", "common");
    sudo::adjust_market_id(&mut suite.cfg, 30);
    assert_eq!(30, suite.cfg.isotonic_market_id);
}

#[test]
fn adjust_token_id() {
    let mut suite = Agency::new("gov", "common");
    sudo::adjust_token_id(&mut suite.cfg, 30);
    assert_eq!(30, suite.cfg.isotonic_token_id);
}

#[test]
fn sudo_adjust_common_token() {
    let mut suite = Agency::new("gov", "common");
    suite.create_market_quick("gov", "osmo", "OSMO").unwrap();
    suite.create_market_quick("gov", "btc", "BTC").unwrap();

    let new_common = "new";
    let entries = suite.entries();
    let msgs = sudo::adjust_common_token(&mut suite.cfg, new_common.to_string(), &entries);
    for m in msgs {
        suite.apply(m);
    }
    assert_eq!(new_common, suite.cfg.common_token);
    assert_eq!(new_common, suite.query_market_config("OSMO").common_token);
    assert_eq!(new_common, suite.query_market_config("BTC").common_token);
}

#[test]
fn migrate_market() {
    let mut suite = Agency::new("gov", "common");
    suite.create_market_quick("gov", "osmo", "OSMO").unwrap();

    assert_eq!(2, suite.query_contract_code_id("OSMO"));
    assert_eq!(3, suite.query_market_config("OSMO").token_id);

    let new_market_id = suite.store_code();
    assert_ne!(new_market_id, suite.query_contract_code_id("OSMO"));

    sudo::adjust_market_id(&mut suite.cfg, new_market_id);

    let market = suite.query_market("OSMO").unwrap();
    let msg = sudo::migrate_market(&suite.cfg, &suite.entries(), market.market, Some(50)).unwrap();
    suite.apply(msg);

    assert_eq!(new_market_id, suite.query_contract_code_id("OSMO"));
    assert_eq!(50, suite.query_market_config("OSMO").token_id);
}

#[test]
fn migrate_non_existing_market() {
    let suite = Agency::new("gov", "common");
    let err = sudo::migrate_market(&suite.cfg, &suite.entries(), "OSMO".to_string(), None).unwrap_err();
    assert_eq!(ContractError::MarketSearchError { market: "OSMO".to_owned() }, err);
}

#[test]
fn instantiate_refuses_cw20_tokens() {
    let res = instantiate(InstantiateMsg {
        gov_contract: "gov".to_string(),
        isotonic_market_id: 2,
        isotonic_token_id: 3,
        reward_token: Token::Cw20("x".to_string()),
        common_token: Token::Native("common".to_string()),
        liquidation_price: Decimal::percent(92),
        liquidation_fee: Decimal::percent(5),
        liquidation_initiation_fee: Decimal::percent(1),
    });
    assert_eq!(res, Err(ContractError::Cw20TokensNotSupported));
}

fn sorted(mut v: Vec<String>) -> Vec<String> {
    v.sort();
    v
}

#[test]
fn enter_market_by_deposit() {
    let mut suite = Agency::new("gov", "common");
    suite.create_market_quick("gov", "osmo", "OSMO").unwrap();
    suite.deposit_tokens_on_market("actor", 500, "OSMO");

    let market = suite.query_market("OSMO").unwrap().market;
    assert!(suite.is_on_market("actor", &market));
    assert_eq!(suite.list_all_entered_markets("actor"), vec![market]);
}

#[test]
fn enter_market_by_borrow() {
    let mut suite = Agency::new("gov", "common");
    suite.create_market_quick("gov", "osmo", "OSMO").unwrap();
    suite.create_market_quick("gov", "eth", "ETH").unwrap();
    suite.oracle_set_price_market_per_common("OSMO", Decimal::one());
    suite.oracle_set_price_market_per_common("ETH", Decimal::one());

    suite.deposit_tokens_on_market("actor1", 500, "OSMO");
    suite.deposit_tokens_on_market("actor2", 500, "ETH");
    suite.borrow_tokens_from_market("actor1", 200, "ETH").unwrap();

    let market1 = suite.query_market("OSMO").unwrap().market;
    let market2 = suite.query_market("ETH").unwrap().market;
    assert!(suite.is_on_market("actor1", &market2));
    assert_eq!(sorted(suite.list_all_entered_markets("actor1")), sorted(vec![market1, market2]));
}

#[test]
fn cent_exit_market_with_borrowed_tokens() {
    let mut suite = Agency::new("gov", "common");
    suite.create_market_quick("gov", "osmo", "OSMO").unwrap();
    suite.create_market_quick("gov", "eth", "ETH").unwrap();
    suite.oracle_set_price_market_per_common("OSMO", Decimal::one());
    suite.oracle_set_price_market_per_common("ETH", Decimal::one());

    suite.deposit_tokens_on_market("actor1", 500, "OSMO");
    suite.deposit_tokens_on_market("actor2", 500, "ETH");
    suite.borrow_tokens_from_market("actor1", 200, "ETH").unwrap();

    let market1 = suite.query_market("OSMO").unwrap().market;
    let market2 = suite.query_market("ETH").unwrap().market;

    let err = suite.exit_market("actor1", &market2).unwrap_err();
    assert_eq!(
        ContractError::DebtOnMarket {
            address: "actor1".to_string(),
            market: market2.clone(),
            debt: Coin { denom: Token::Native("common".to_string()), amount: 200 },
        },
        err
    );
    assert_eq!(sorted(suite.list_all_entered_markets("actor1")), sorted(vec![market1, market2]));
}

#[test]
fn cent_exit_market_with_not_enough_liquidity() {
    let mut suite = Agency::new("gov", "common");
    suite.create_market_quick("gov", "osmo", "OSMO").unwrap();
    suite.create_market_quick("gov", "eth", "ETH").unwrap();
    suite.oracle_set_price_market_per_common("OSMO", Decimal::one());
    suite.oracle_set_price_market_per_common("ETH", Decimal::one());

    suite.deposit_tokens_on_market("actor1", 500, "OSMO");
    suite.deposit_tokens_on_market("actor2", 500, "ETH");
    suite.borrow_tokens_from_market("actor1", 200, "ETH").unwrap();

    let market1 = suite.query_market("OSMO").unwrap().market;
    let market2 = suite.query_market("ETH").unwrap().market;

    let err = suite.exit_market("actor1", &market1).unwrap_err();
    assert_eq!(ContractError::NotEnoughCollat { credit_line: 0, collateral: 0, debt: 200 }, err);
    assert_eq!(sorted(suite.list_all_entered_markets("actor1")), sorted(vec![market1, market2]));
}

#[test]
fn exit_market_with_ltokens() {
    let mut suite = Agency::new("gov", "common");
    suite.create_market_quick("gov", "osmo", "OSMO").unwrap();
    suite.create_market_quick("gov", "eth", "ETH").unwrap();
    suite.create_market_quick("gov", "usdc", "USDC").unwrap();
    for d in ["OSMO", "ETH", "USDC"] {
        suite.oracle_set_price_market_per_common(d, Decimal::one());
    }

    suite.deposit_tokens_on_market("actor1", 500, "OSMO");
    suite.deposit_tokens_on_market("actor2", 500, "ETH");
    suite.deposit_tokens_on_market("actor1", 200, "USDC");
    suite.borrow_tokens_from_market("actor1", 200, "ETH").unwrap();

    let market1 = suite.query_market("OSMO").unwrap().market;
    let market2 = suite.query_market("ETH").unwrap().market;
    let market3 = suite.query_market("USDC").unwrap().market;

    suite.exit_market("actor1", &market3).unwrap();
    assert_eq!(sorted(suite.list_all_entered_markets("actor1")), sorted(vec![market1, market2]));
}

#[test]
fn not_on_market() {
    let mut suite = Agency::new("gov", "common");
    suite.create_market_quick("gov", "osmo", "OSMO").unwrap();
    let osmo_market = suite.query_market("OSMO").unwrap().market;
    suite.create_market_quick("gov", "ust", "UST").unwrap();
    let ust_market = suite.query_market("UST").unwrap().market;

    let repay = |suite: &Agency| {
        let common = |amount: u128| Coin { denom: Token::Native("common".to_string()), amount };
        execute::repay_with_collateral(
            &suite.cfg,
            &"user".to_string(),
            &"OSMO".to_string(),
            suite.markets.get("OSMO").cloned(),
            &"UST".to_string(),
            suite.markets.get("UST").cloned(),
            &suite.markets_of("user"),
            &CreditLineResponse { collateral: common(0), credit_line: common(0), debt: common(0) },
            Decimal::zero(),
            Decimal::one(),
            Decimal::one(),
            &Coin { denom: Token::Native("OSMO".to_string()), amount: 1_000_000 },
            &Coin { denom: Token::Native("UST".to_string()), amount: 1_000_000 },
        )
    };

    let err = repay(&suite).unwrap_err();
    assert_eq!(ContractError::NotOnMarket { address: "user".to_string(), market: osmo_market.clone() }, err);

    suite.enter_market(&osmo_market, "user");
    let err = repay(&suite).unwrap_err();
    assert_eq!(ContractError::NotOnMarket { address: "user".to_string(), market: ust_market }, err);
}

fn native(denom: &str, amount: u128) -> isotonic::coin::NativeCoin {
    isotonic::coin::NativeCoin { denom: denom.to_string(), amount }
}

fn total_in_common(suite: &Agency, account: &str) -> (u128, u128, u128) {
    let total = query::total_credit_line(&suite.cfg.common_token, &suite.credit_lines_of(account, None)).unwrap();
    (total.collateral.amount, total.credit_line.amount, total.debt.amount)
}

/// The messages of a liquidation that repays `repaid` of `debt_denom` from
/// collateral held on `collateral_market`.
fn expected_liquidation(
    collateral_market: &str,
    debt_market: &str,
    sell_limit: u128,
    debt_denom: &str,
    repaid: u128,
    fee: u128,
    initiation_fee: u128,
) -> Vec<AgencyMsg> {
    vec![
        AgencyMsg::SwapWithdrawFrom {
            market: collateral_market.to_string(),
            account: "debtor".to_string(),
            sell_limit,
            buy: Coin { denom: Token::Native(debt_denom.to_string()), amount: repaid + fee + initiation_fee },
        },
        AgencyMsg::RepayTo {
            market: debt_market.to_string(),
            account: "debtor".to_string(),
            amount: repaid,
            funds: native(debt_denom, repaid),
        },
        AgencyMsg::DistributeAsLTokens { market: debt_market.to_string(), funds: native(debt_denom, fee) },
        AgencyMsg::BankSend { to_address: "liquidator".to_string(), funds: native(debt_denom, initiation_fee) },
    ]
}

#[test]
fn liquidate_liquidating_whole_debt() {
    let mut suite = Agency::new("gov", "OSMO");
    suite.create_market_with("gov", Agency::market_config("atom", "ATOM", Decimal::percent(70))).unwrap();
    suite.create_market_with("gov", Agency::market_config("juno", "JUNO", Decimal::percent(70))).unwrap();
    let atom = suite.query_market("ATOM").unwrap().market;
    let juno = suite.query_market("JUNO").unwrap().market;
    // pools: 1 OSMO per ATOM, 0.8 OSMO per JUNO
    suite.oracle_set_price_market_per_common("JUNO", Decimal::percent(80));
    suite.deposit_tokens_on_market("investor", 500, "JUNO");
    suite.deposit_tokens_on_market("debtor", 580, "ATOM");
    suite.borrow_tokens_from_market("debtor", 500, "JUNO").unwrap();
    assert_eq!(total_in_common(&suite, "debtor"), (580, 406, 400));

    // prices change, the debtor is now underwater
    suite.oracle_set_price_market_per_common("JUNO", Decimal::one());
    assert_eq!(total_in_common(&suite, "debtor"), (580, 406, 500));

    let msgs = suite.liquidate("liquidator", "debtor", "ATOM", 500, "JUNO").unwrap();
    // the collateral pays the debt, 5% liquidation fee and 1% initiation fee:
    // 500 + 25 + 5 JUNO, bought for at most all 580 ATOM
    assert_eq!(msgs, expected_liquidation(&atom, &juno, 580, "JUNO", 500, 25, 5));
}

#[test]
fn liquidating_whole_debt_collateral_and_debt_in_same_token() {
    let mut suite = Agency::new("gov", "common");
    suite.create_market_with("gov", Agency::market_config("osmo", "OSMO", Decimal::percent(80))).unwrap();
    let osmo = suite.query_market("OSMO").unwrap().market;
    suite.deposit_tokens_on_market("debtor", 522, "OSMO");
    suite.deposit_tokens_on_market("depositor", 500, "OSMO");
    suite.borrow_tokens_from_market("debtor", 400, "OSMO").unwrap();
    // a year of interest, as the market charges it
    suite.contracts.get_mut(&osmo).unwrap().btokens.insert("debtor".to_string(), 442);
    assert_eq!(total_in_common(&suite, "debtor"), (522, 417, 442));

    let msgs = suite.liquidate("liquidator", "debtor", "OSMO", 442, "OSMO").unwrap();
    // liquidation fee 22, initiation fee 4: 468 paid from the collateral
    assert_eq!(msgs, expected_liquidation(&osmo, &osmo, 521, "OSMO", 442, 22, 4));
}

#[test]
fn liquidate_when_debt_is_in_common_token() {
    let mut suite = Agency::new("gov", "COMMON");
    suite.create_market_with("gov", Agency::market_config("osmo", "OSMO", Decimal::percent(60))).unwrap();
    suite.create_market_with("gov", Agency::market_config("common", "COMMON", Decimal::percent(60))).unwrap();
    let osmo = suite.query_market("OSMO").unwrap().market;
    let common = suite.query_market("COMMON").unwrap().market;
    suite.deposit_tokens_on_market("depositor", 300, "COMMON");
    suite.deposit_tokens_on_market("debtor", 500, "OSMO");
    suite.borrow_tokens_from_market("debtor", 300, "COMMON").unwrap();
    // the pool moves to 10_000 COMMON : 12_500 OSMO
    suite.oracle_set_price_market_per_common("OSMO", Decimal::percent(80));
    assert_eq!(total_in_common(&suite, "debtor"), (400, 240, 300));

    let msgs = suite.liquidate("liquidator", "debtor", "OSMO", 300, "COMMON").unwrap();
    // 318 COMMON bought (debt and fees) for at most 240 / 0.6 / 0.8 = 500 OSMO
    assert_eq!(msgs, expected_liquidation(&osmo, &common, 500, "COMMON", 300, 15, 3));
}

#[test]
fn liquidate_when_collateral_is_in_common_token() {
    let mut suite = Agency::new("gov", "COMMON");
    suite.create_market_with("gov", Agency::market_config("osmo", "OSMO", Decimal::percent(60))).unwrap();
    suite.create_market_with("gov", Agency::market_config("common", "COMMON", Decimal::percent(60))).unwrap();
    let osmo = suite.query_market("OSMO").unwrap().market;
    let common = suite.query_market("COMMON").unwrap().market;
    suite.deposit_tokens_on_market("depositor", 300, "OSMO");
    suite.deposit_tokens_on_market("debtor", 500, "COMMON");
    suite.borrow_tokens_from_market("debtor", 300, "OSMO").unwrap();
    // the pool moves to 10_000 OSMO : 12_500 COMMON
    suite.oracle_set_price_market_per_common("OSMO", Decimal::percent(125));
    assert_eq!(total_in_common(&suite, "debtor"), (500, 300, 375));

    let msgs = suite.liquidate("liquidator", "debtor", "COMMON", 300, "OSMO").unwrap();
    // 318 OSMO bought (debt and fees) for at most 300 / 0.6 = 500 COMMON
    assert_eq!(msgs, expected_liquidation(&common, &osmo, 500, "OSMO", 300, 15, 3));
}

#[test]
fn receive_reward_fails_when_insufficient_collateral() {
    let mut suite = Agency::new("gov", "OSMO");
    suite.create_market_with("gov", Agency::market_config("atom", "ATOM", Decimal::percent(70))).unwrap();
    suite.create_market_with("gov", Agency::market_config("juno", "JUNO", Decimal::percent(70))).unwrap();
    let atom = suite.query_market("ATOM").unwrap().market;
    let juno = suite.query_market("JUNO").unwrap().market;
    suite.oracle_set_price_market_per_common("JUNO", Decimal::percent(80));
    suite.deposit_tokens_on_market("investor", 500, "JUNO");
    suite.deposit_tokens_on_market("debtor", 580, "ATOM");
    suite.borrow_tokens_from_market("debtor", 500, "JUNO").unwrap();

    // prices change, the debtor is now seriously underwater
    suite.oracle_set_price_market_per_common("JUNO", Decimal::percent(200));
    assert_eq!(total_in_common(&suite, "debtor"), (580, 406, 1000));

    // 530 JUNO are worth 1060 ATOM, but at most the 580 ATOM of collateral may
    // be sold: the market's swap refuses it
    let msgs = suite.liquidate("liquidator", "debtor", "ATOM", 500, "JUNO").unwrap();
    assert_eq!(msgs, expected_liquidation(&atom, &juno, 580, "JUNO", 500, 25, 5));
}

#[test]
fn liquidation_without_fees_only_repays() {
    let mut suite = Agency::new("gov", "common");
    suite.cfg.liquidation_fee = Decimal::zero();
    suite.cfg.liquidation_initiation_fee = Decimal::percent(1);
    suite.create_market_with("gov", Agency::market_config("osmo", "OSMO", Decimal::percent(50))).unwrap();
    let osmo = suite.query_market("OSMO").unwrap().market;
    suite.deposit_tokens_on_market("debtor", 100, "OSMO");
    suite.borrow_tokens_from_market("debtor", 50, "OSMO").unwrap();
    suite.oracle_set_price_market_per_common("OSMO", Decimal::percent(100));
    suite.contracts.get_mut(&osmo).unwrap().btokens.insert("debtor".to_string(), 60);
    // 1% of 60 rounds down to nothing: no fee is sent at all
    let msgs = suite.liquidate("liquidator", "debtor", "OSMO", 60, "OSMO").unwrap();
    assert_eq!(msgs, expected_liquidation(&osmo, &osmo, 100, "OSMO", 60, 0, 0)[..2].to_vec());
}

#[test]
fn on_two_markets() {
    let mut suite = Agency::new("gov", "common");
    suite.create_market_with("gov", Agency::market_config("osmo", "OSMO", Decimal::percent(50))).unwrap();
    suite.create_market_with("gov", Agency::market_config("ethereum", "ETH", Decimal::percent(50))).unwrap();
    let osmo = suite.query_market("OSMO").unwrap().market;
    let eth = suite.query_market("ETH").unwrap().market;
    // pools: 2.0 common per OSMO, 0.5 common per ETH
    suite.oracle_set_price_market_per_common("OSMO", Decimal::percent(200));
    suite.oracle_set_price_market_per_common("ETH", Decimal::percent(50));
    suite.deposit_tokens_on_market("deposit1", 10_000_000, "OSMO");
    suite.deposit_tokens_on_market("deposit2", 10_000_000, "ETH");
    suite.deposit_tokens_on_market("user", 1_000_000, "OSMO");
    suite.borrow_tokens_from_market("user", 1_000_000, "ETH").unwrap();
    assert_eq!(total_in_common(&suite, "user"), (2_000_000, 1_000_000, 500_000));

    let lines = suite.credit_lines_of("user", None);
    let total = query::total_credit_line(&suite.cfg.common_token, &lines).unwrap();
    let msgs = execute::repay_with_collateral(
        &suite.cfg,
        &"user".to_string(),
        &"OSMO".to_string(),
        suite.markets.get("OSMO").cloned(),
        &"ETH".to_string(),
        suite.markets.get("ETH").cloned(),
        &suite.markets_of("user"),
        &total,
        Decimal::percent(50),
        Decimal::percent(200),
        Decimal::percent(50),
        &Coin { denom: Token::Native("OSMO".to_string()), amount: 1_000_000 },
        &Coin { denom: Token::Native("ETH".to_string()), amount: 1_000_000 },
    )
    .unwrap();
    // at most the 1M OSMO given are sold for the 1M ETH that repay the debt
    assert_eq!(
        msgs,
        vec![
            AgencyMsg::SwapWithdrawFrom {
                market: osmo,
                account: "user".to_string(),
                sell_limit: 1_000_000,
                buy: Coin { denom: Token::Native("ETH".to_string()), amount: 1_000_000 },
            },
            AgencyMsg::RepayTo {
                market: eth,
                account: "user".to_string(),
                amount: 1_000_000,
                funds: native("ETH", 1_000_000),
            },
        ]
    );
}

#[test]
fn liquidation_fails_if_no_collateral_market() {
    let mut suite = Agency::new("gov", "common");
    suite.create_market_quick("gov", "osmo", "OSMO").unwrap();
    let market = suite.query_market("OSMO").unwrap().market;
    suite.enter_market(&market, "debtor");

    let common = |amount: u128| Coin { denom: Token::Native("common".to_string()), amount };
    let total = CreditLineResponse { collateral: common(500), credit_line: common(400), debt: common(474) };
    let err = execute::liquidate(
        &suite.cfg,
        &"liquidator".to_string(),
        &"debtor".to_string(),
        &"ETH".to_string(),
        suite.markets.get("ETH").cloned(),
        &"OSMO".to_string(),
        suite.markets.get("OSMO").cloned(),
        &suite.markets_of("debtor"),
        &total,
        Decimal::percent(80),
        Decimal::one(),
        Decimal::one(),
        &Coin { denom: Token::Native("OSMO".to_string()), amount: 474 },
    )
    .unwrap_err();
    assert_eq!(ContractError::NoMarket("ETH".to_owned()), err);
}

#[test]
fn instantiate_market_instantiate_and_query_config() {
    let cfg = instantiate(InstantiateMsg {
        gov_contract: "gov".to_string(),
        isotonic_market_id: 2,
        isotonic_token_id: 3,
        reward_token: Token::Native("ENG".to_string()),
        common_token: Token::Native("COMMON".to_string()),
        liquidation_price: Decimal::percent(92),
        liquidation_fee: Decimal::permille(45),
        liquidation_initiation_fee: Decimal::permille(5),
    })
    .unwrap();
    assert_eq!(
        Config {
            gov_contract: "gov".to_string(),
            isotonic_market_id: 2,
            isotonic_token_id: 3,
            reward_token: "ENG".to_owned(),
            common_token: "COMMON".to_owned(),
            liquidation_price: Decimal::percent(92),
            liquidation_fee: Decimal::permille(45),
            liquidation_initiation_fee: Decimal::permille(5),
        },
        cfg
    );

    let lendex_cfg = isotonic::lendex::instantiate(isotonic::lendex::InstantiateMsg {
        gov_contract: "gov".to_string(),
        lendex_market_id: 1,
        lendex_token_id: 2,
        reward_token: "ENG".to_string(),
        common_token: None,
        liquidation_price: Decimal::percent(92),
    });
    assert_eq!(lendex_cfg.gov_contract, "gov");
    assert_eq!(lendex_cfg.lendex_market_id, 1);
    assert_eq!(lendex_cfg.lendex_token_id, 2);
}

#[test]
fn entered_markets_are_kept_in_order() {
    let mut entered: Vec<String> = Vec::new();
    for m in ["m3", "m1", "m2", "m1"] {
        execute::enter_market(&mut entered, m.to_string());
    }
    assert_eq!(entered, vec!["m1".to_string(), "m2".to_string(), "m3".to_string()]);
}

#[test]
fn paging_lists_every_ready_market_once_in_order() {
    let mut suite = Agency::new("gov", "common");
    for i in [7, 3, 12, 0, 9, 1, 14, 5] {
        suite.create_market_quick("gov", &format!("token{:02}", i), &format!("TOKEN{:02}", i)).unwrap();
    }
    suite.markets.insert("TOKEN04".to_string(), MarketState::Instantiating);

    let mut seen: Vec<String> = Vec::new();
    let mut start_after: Option<String> = None;
    loop {
        let page = suite.list_markets_with_pagination(start_after.clone(), Some(3));
        if page.markets.is_empty() {
            break;
        }
        for m in &page.markets {
            seen.push(m.market_token.native().unwrap().to_string());
        }
        start_after = seen.last().cloned();
    }
    let expected: Vec<String> = [0, 1, 3, 5, 7, 9, 12, 14].iter().map(|i| format!("TOKEN{:02}", i)).collect();
    assert_eq!(seen, expected);
}
