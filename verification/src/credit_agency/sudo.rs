//! Governance adjustments of the credit agency.

use vstd::prelude::*;

use crate::credit_agency::{AgencyMsg, Config, ContractError, MarketState};
use crate::decimal::Decimal;

verus! {

/// Sets the code id of new markets.
pub fn adjust_market_id(cfg: &mut Config, new_market_id: u64)
    ensures
        *final(cfg) == (Config { isotonic_market_id: new_market_id, ..*old(cfg) }),
{
    cfg.isotonic_market_id = new_market_id;
}

/// Sets the code id of new tokens.
pub fn adjust_token_id(cfg: &mut Config, new_token_id: u64)
    ensures
        *final(cfg) == (Config { isotonic_token_id: new_token_id, ..*old(cfg) }),
{
    cfg.isotonic_token_id = new_token_id;
}

/// The ready markets among stored entries, in order.
pub open spec fn ready_markets(entries: Seq<(String, MarketState)>) -> Seq<String>
    decreases entries.len(),
{
    if entries.len() == 0 {
        Seq::empty()
    } else {
        let rest = ready_markets(entries.drop_last());
        match entries.last().1 {
            MarketState::Ready(a) => rest.push(a),
            MarketState::Instantiating => rest,
        }
    }
}

/// Sets the common token and tells every ready market about it.
pub fn adjust_common_token(
    cfg: &mut Config,
    new_common_token: String,
    entries: &Vec<(String, MarketState)>,
) -> (r: Vec<AgencyMsg>)
    ensures
        *final(cfg) == (Config { common_token: new_common_token, ..*old(cfg) }),
        r@.len() == ready_markets(entries@).len(),
        forall|i: int|
            0 <= i < r@.len() ==> #[trigger] r@[i] == (AgencyMsg::AdjustCommonToken {
                market: ready_markets(entries@)[i],
                new_token: new_common_token,
            }),
{
    let mut msgs: Vec<AgencyMsg> = Vec::new();
    let mut i: usize = 0;
    while i < entries.len()
        invariant
            i <= entries.len(),
            msgs@.len() == ready_markets(entries@.take(i as int)).len(),
            forall|j: int|
                0 <= j < msgs@.len() ==> #[trigger] msgs@[j] == (AgencyMsg::AdjustCommonToken {
                    market: ready_markets(entries@.take(i as int))[j],
                    new_token: new_common_token,
                }),
        decreases entries.len() - i,
    {
        assert(entries@.take(i as int + 1).drop_last() =~= entries@.take(i as int));
        assert(entries@.take(i as int + 1).last() == entries@[i as int]);
        match &entries[i].1 {
            MarketState::Ready(addr) => {
                msgs.push(
                    AgencyMsg::AdjustCommonToken {
                        market: addr.clone(),
                        new_token: new_common_token.clone(),
                    },
                );
            },
            MarketState::Instantiating => {},
        }
        i = i + 1;
    }
    assert(entries@.take(entries.len() as int) =~= entries@);
    cfg.common_token = new_common_token;
    msgs
}

/// Sets whichever liquidation parameters are given.
pub fn adjust_liquidation(
    cfg: &mut Config,
    new_liquidation_price: Option<Decimal>,
    new_liquidation_fee: Option<Decimal>,
    new_liquidation_initiation_fee: Option<Decimal>,
)
    ensures
        final(cfg).liquidation_price == (match new_liquidation_price {
            Some(p) => p,
            None => old(cfg).liquidation_price,
        }),
        final(cfg).liquidation_fee == (match new_liquidation_fee {
            Some(f) => f,
            None => old(cfg).liquidation_fee,
        }),
        final(cfg).liquidation_initiation_fee == (match new_liquidation_initiation_fee {
            Some(f) => f,
            None => old(cfg).liquidation_initiation_fee,
        }),
        final(cfg).gov_contract == old(cfg).gov_contract,
        final(cfg).isotonic_market_id == old(cfg).isotonic_market_id,
        final(cfg).isotonic_token_id == old(cfg).isotonic_token_id,
        final(cfg).reward_token == old(cfg).reward_token,
        final(cfg).common_token == old(cfg).common_token,
{
    if let Some(new_price) = new_liquidation_price {
        cfg.liquidation_price = new_price;
    }
    if let Some(new_fee) = new_liquidation_fee {
        cfg.liquidation_fee = new_fee;
    }
    if let Some(new_fee) = new_liquidation_initiation_fee {
        cfg.liquidation_initiation_fee = new_fee;
    }
}

/// Whether `state` is a ready market at the address `addr`.
pub open spec fn ready_at(state: MarketState, addr: Seq<char>) -> bool {
    match state {
        MarketState::Ready(a) => a@ == addr,
        MarketState::Instantiating => false,
    }
}

/// Whether some stored entry is a ready market at the address `addr`.
pub open spec fn has_ready_market(entries: Seq<(String, MarketState)>, addr: Seq<char>) -> bool {
    exists|i: int| 0 <= i < entries.len() && #[trigger] ready_at(entries[i].1, addr)
}

/// Whether `market_addr` is the address of one of the ready markets.
pub fn find_market(entries: &Vec<(String, MarketState)>, market_addr: &String) -> (r: bool)
    ensures
        r == has_ready_market(entries@, market_addr@),
{
    let mut i: usize = 0;
    while i < entries.len()
        invariant
            i <= entries.len(),
            forall|j: int| 0 <= j < i ==> !#[trigger] ready_at(entries@[j].1, market_addr@),
        decreases entries.len() - i,
    {
        match &entries[i].1 {
            MarketState::Ready(addr) => {
                if addr.eq(market_addr) {
                    assert(ready_at(entries@[i as int].1, market_addr@));
                    return true;
                }
            },
            MarketState::Instantiating => {},
        }
        i = i + 1;
    }
    false
}

/// Migrates one of the ready markets to the current market code id.
pub fn migrate_market(
    cfg: &Config,
    entries: &Vec<(String, MarketState)>,
    contract_addr: String,
    isotonic_token_id: Option<u64>,
) -> (r: Result<AgencyMsg, ContractError>)
    ensures
        has_ready_market(entries@, contract_addr@) ==> r == Ok::<AgencyMsg, ContractError>(
            AgencyMsg::MigrateMarket {
                market: contract_addr,
                new_code_id: cfg.isotonic_market_id,
                isotonic_token_id,
            },
        ),
        !has_ready_market(entries@, contract_addr@) ==> r == Err::<AgencyMsg, ContractError>(
            ContractError::MarketSearchError { market: contract_addr },
        ),
{
    if !find_market(entries, &contract_addr) {
        return Err(ContractError::MarketSearchError { market: contract_addr });
    }
    Ok(
        AgencyMsg::MigrateMarket {
            market: contract_addr,
            new_code_id: cfg.isotonic_market_id,
            isotonic_token_id,
        },
    )
}

} // verus!
