//! Queries of the credit agency.

use vstd::prelude::*;

use crate::coin::{Token, TokenView};
use crate::credit_line::{
    response_in_token, response_values, sum_collateral, sum_credit_line, sum_debt, sum_fits,
    values_add, values_add_fits, CreditLineResponse, CreditLineValues,
};
use crate::credit_agency::{ContractError, MarketState};
use crate::oracle::str_lt_spec;

verus! {

/// The market handling a base asset.
#[derive(Clone, Debug, PartialEq, Eq)]
pub struct MarketResponse {
    pub market_token: Token,
    pub market: String,
}

/// A page of markets.
#[derive(Clone, Debug, PartialEq, Eq)]
pub struct ListMarketsResponse {
    pub markets: Vec<MarketResponse>,
}

/// Default number of markets in a page.
pub const DEFAULT_LIMIT: u32 = 10;

/// Largest number of markets in a page.
pub const MAX_LIMIT: u32 = 30;

/// The strings of a vector, by value.
pub open spec fn addrs(v: Seq<String>) -> Seq<Seq<char>> {
    v.map_values(|s: String| s@)
}

/// The value of an optional string.
pub open spec fn opt_view(o: Option<String>) -> Option<Seq<char>> {
    match o {
        Some(s) => Some(s@),
        None => None,
    }
}

/// The first `n` elements, or all of them when there are fewer.
pub open spec fn take_upto<A>(s: Seq<A>, n: int) -> Seq<A> {
    if n >= s.len() { s } else { s.take(n) }
}

/// Handler for `Market`: the market of a base asset, given its stored state.
pub fn market(market_token: &String, state: Option<MarketState>) -> (r: Result<MarketResponse, ContractError>)
    ensures
        state is None ==> (r matches Err(ContractError::NoMarket(t)) && t@ == market_token@),
        state == Some(MarketState::Instantiating) ==> (r matches Err(ContractError::MarketCreating(t))
            && t@ == market_token@),
        state matches Some(MarketState::Ready(addr)) ==> (r matches Ok(m) && m.market_token@
            == TokenView::Native(market_token@) && m.market == addr),
{
    let state = match state {
        Some(s) => s,
        None => return Err(ContractError::NoMarket(market_token.clone())),
    };
    match state.to_addr() {
        Some(addr) => Ok(MarketResponse { market_token: Token::Native(market_token.clone()), market: addr }),
        None => Err(ContractError::MarketCreating(market_token.clone())),
    }
}

/// Whether `key` comes after the pagination start.
pub open spec fn after_start(key: Seq<char>, start_after: Option<Seq<char>>) -> bool {
    match start_after {
        None => true,
        Some(s) => str_lt_spec(s, key),
    }
}

/// The ready markets among `entries` whose base asset comes after
/// `start_after`, in the order of `entries`, as (token, address).
pub open spec fn listed(entries: Seq<(String, MarketState)>, start_after: Option<Seq<char>>) -> Seq<
    (TokenView, Seq<char>),
>
    decreases entries.len(),
{
    if entries.len() == 0 {
        Seq::empty()
    } else {
        let rest = listed(entries.drop_last(), start_after);
        let (key, state) = entries.last();
        match state {
            MarketState::Ready(addr) => if after_start(key@, start_after) {
                rest.push((TokenView::Native(key@), addr@))
            } else {
                rest
            },
            MarketState::Instantiating => rest,
        }
    }
}

/// The address of a ready market.
pub open spec fn ready_addr(state: MarketState) -> Seq<char> {
    match state {
        MarketState::Ready(a) => a@,
        MarketState::Instantiating => Seq::empty(),
    }
}

/// A market response as (token, address).
pub open spec fn response_view(m: MarketResponse) -> (TokenView, Seq<char>) {
    (m.market_token@, m.market@)
}

/// The page size for a requested limit.
pub open spec fn page_limit(limit: Option<u32>) -> int {
    let l = match limit {
        Some(l) => l,
        None => DEFAULT_LIMIT,
    };
    if l < MAX_LIMIT { l as int } else { MAX_LIMIT as int }
}

/// Handler for `ListMarkets`: given the stored markets in ascending order of
/// base asset, the ready markets after `start_after`, at most `limit` of them
/// (10 by default, 30 at most).
pub fn list_markets(
    entries: &Vec<(String, MarketState)>,
    start_after: Option<String>,
    limit: Option<u32>,
) -> (r: ListMarketsResponse)
    requires
        keys_ascending(entries@),
    ensures
        r.markets@.map_values(|m: MarketResponse| response_view(m)) == take_upto(
            listed(entries@, opt_view(start_after)),
            page_limit(limit),
        ),
{
    let l = match limit {
        Some(l) => l,
        None => DEFAULT_LIMIT,
    };
    let lim = if l < MAX_LIMIT { l } else { MAX_LIMIT };
    let ghost start = opt_view(start_after);
    let mut markets: Vec<MarketResponse> = Vec::new();
    let mut i: usize = 0;
    while i < entries.len()
        invariant
            i <= entries.len(),
            lim == page_limit(limit),
            start == opt_view(start_after),
            markets@.map_values(|m: MarketResponse| response_view(m)) == take_upto(
                listed(entries@.take(i as int), start),
                lim as int,
            ),
        decreases entries.len() - i,
    {
        let ghost before = listed(entries@.take(i as int), start);
        assert(entries@.take(i as int + 1).drop_last() =~= entries@.take(i as int));
        let (key, state) = &entries[i];
        let after = match &start_after {
            None => true,
            Some(s) => crate::oracle::str_lt(s, key),
        };
        let ghost old_view = markets@.map_values(|m: MarketResponse| response_view(m));
        let ghost room = markets.len() < lim as usize;
        let ghost old_len = markets.len();
        if markets.len() < lim as usize {
            match state {
                MarketState::Ready(addr) => {
                    if after {
                        markets.push(
                            MarketResponse { market_token: Token::Native(key.clone()), market: addr.clone() },
                        );
                    }
                },
                MarketState::Instantiating => {},
            }
        }
        proof {
            let after_l = listed(entries@.take(i as int + 1), start);
            assert(entries@.take(i as int + 1).last() == entries@[i as int]);
            assert(after == after_start(key@, start));
            let x = (TokenView::Native(key@), ready_addr(*state));
            assert(after_l == before || (after_l == before.push(x) && *state is Ready && after));
            assert(after_l == before.push(x) <==> (*state is Ready && after));
            let new_view = markets@.map_values(|m: MarketResponse| response_view(m));
            assert(old_view.len() == old_len);
            if room {
                if before.len() >= lim {
                    assert(take_upto(before, lim as int).len() == lim);
                }
                assert(before.len() < lim);
                assert(old_view == before);
                if *state is Ready && after {
                    assert(new_view =~= old_view.push(x));
                } else {
                    assert(new_view =~= old_view);
                }
            } else {
                if before.len() < lim {
                    assert(take_upto(before, lim as int) == before);
                }
                assert(before.len() >= lim);
                assert(new_view =~= old_view);
                assert(after_l.take(lim as int) =~= before.take(lim as int));
            }
            assert(markets@.map_values(|m: MarketResponse| response_view(m)) =~= take_upto(
                after_l,
                lim as int,
            ));
        }
        i = i + 1;
    }
    assert(entries@.take(entries.len() as int) =~= entries@);
    ListMarketsResponse { markets }
}

/// Whether the stored markets are in strictly ascending order of base asset,
/// the order in which storage returns them.
pub open spec fn keys_ascending(entries: Seq<(String, MarketState)>) -> bool {
    forall|i: int, j: int|
        0 <= i < j < entries.len() ==> str_lt_spec(#[trigger] entries[i].0@, #[trigger] entries[j].0@)
}

proof fn lemma_listed_append(a: Seq<(String, MarketState)>, b: Seq<(String, MarketState)>, start: Option<Seq<char>>)
    ensures
        listed(a + b, start) == listed(a, start) + listed(b, start),
    decreases b.len(),
{
    if b.len() == 0 {
        assert(a + b =~= a);
        assert(listed(a, start) + listed(b, start) =~= listed(a, start));
    } else {
        assert((a + b).drop_last() =~= a + b.drop_last());
        assert((a + b).last() == b.last());
        lemma_listed_append(a, b.drop_last(), start);
        let l = listed(a, start) + listed(b.drop_last(), start);
        let (key, state) = b.last();
        match state {
            MarketState::Ready(addr) => {
                if after_start(key@, start) {
                    let x = (TokenView::Native(key@), addr@);
                    assert(l.push(x) =~= listed(a, start) + listed(b.drop_last(), start).push(x));
                }
            },
            MarketState::Instantiating => {},
        }
    }
}

proof fn lemma_listed_same_start(
    entries: Seq<(String, MarketState)>,
    s1: Option<Seq<char>>,
    s2: Option<Seq<char>>,
)
    requires
        forall|i: int|
            0 <= i < entries.len() ==> after_start(#[trigger] entries[i].0@, s1) == after_start(
                entries[i].0@,
                s2,
            ),
    ensures
        listed(entries, s1) == listed(entries, s2),
    decreases entries.len(),
{
    if entries.len() > 0 {
        assert(entries.last() == entries[entries.len() - 1]);
        lemma_listed_same_start(entries.drop_last(), s1, s2);
    }
}

proof fn lemma_listed_empty(entries: Seq<(String, MarketState)>, start: Option<Seq<char>>)
    requires
        forall|i: int| 0 <= i < entries.len() ==> !after_start(#[trigger] entries[i].0@, start),
    ensures
        listed(entries, start) == Seq::<(TokenView, Seq<char>)>::empty(),
    decreases entries.len(),
{
    if entries.len() > 0 {
        assert(entries.last() == entries[entries.len() - 1]);
        lemma_listed_empty(entries.drop_last(), start);
    }
}

/// The entry of the `n`-th listed market: its index `p`, the number of markets
/// listed up to it being `n`.
proof fn lemma_listed_index(entries: Seq<(String, MarketState)>, start: Option<Seq<char>>, n: int) -> (p: int)
    requires
        1 <= n <= listed(entries, start).len(),
    ensures
        0 <= p < entries.len(),
        entries[p].1 is Ready,
        after_start(entries[p].0@, start),
        listed(entries.take(p + 1), start).len() == n,
        listed(entries, start)[n - 1] == (TokenView::Native(entries[p].0@), ready_addr(entries[p].1)),
    decreases entries.len(),
{
    let rest = entries.drop_last();
    let (key, state) = entries.last();
    let counted = state is Ready && after_start(key@, start);
    if counted && n == listed(entries, start).len() {
        let p = entries.len() - 1;
        assert(entries.take(p + 1) =~= entries);
        p
    } else {
        assert(n <= listed(rest, start).len());
        assert(listed(entries, start)[n - 1] == listed(rest, start)[n - 1]);
        let p = lemma_listed_index(rest, start, n);
        assert(rest.take(p + 1) =~= entries.take(p + 1));
        p
    }
}

/// Law: pages continue one another: listing the markets after the last one of
/// a page (of `n` markets, from `start_after` on) gives exactly the markets
/// that follow that page.
pub proof fn law_pages_continue(entries: Seq<(String, MarketState)>, start_after: Option<Seq<char>>, n: int)
    requires
        keys_ascending(entries),
        0 < n <= listed(entries, start_after).len(),
    ensures
        listed(entries, Some(listed(entries, start_after)[n - 1].0->Native_0)) == listed(
            entries,
            start_after,
        ).skip(n),
{
    let p = lemma_listed_index(entries, start_after, n);
    let k = entries[p].0@;
    assert(listed(entries, start_after)[n - 1].0->Native_0 == k);
    let a = entries.take(p + 1);
    let b = entries.skip(p + 1);
    assert(entries =~= a + b);
    lemma_listed_append(a, b, start_after);
    lemma_listed_append(a, b, Some(k));
    assert forall|i: int| 0 <= i < a.len() implies !after_start(#[trigger] a[i].0@, Some(k)) by {
        if i < p {
            assert(str_lt_spec(entries[i].0@, entries[p].0@));
            crate::oracle::law_str_order_total(entries[i].0@, k);
        } else {
            crate::oracle::law_str_order_total(k, k);
        }
    }
    lemma_listed_empty(a, Some(k));
    assert forall|i: int|
        0 <= i < b.len() implies after_start(#[trigger] b[i].0@, Some(k)) == after_start(
            b[i].0@,
            start_after,
        ) by {
        assert(b[i] == entries[p + 1 + i]);
        assert(str_lt_spec(entries[p].0@, entries[p + 1 + i].0@));
        if let Some(x) = start_after {
            crate::oracle::law_str_order_transitive(x, k, b[i].0@);
        }
    }
    lemma_listed_same_start(b, Some(k), start_after);
    assert(listed(entries, start_after).skip(n) =~= listed(b, start_after));
    assert(listed(entries, Some(k)) =~= listed(b, Some(k)));
}

/// The first `k` pages of `lim` markets, each page starting after the last
/// market of the page before, from `start_after` on; paging stops at an
/// empty page.
pub open spec fn paged(
    entries: Seq<(String, MarketState)>,
    start_after: Option<Seq<char>>,
    lim: int,
    k: nat,
) -> Seq<(TokenView, Seq<char>)>
    decreases k,
{
    if k == 0 {
        Seq::empty()
    } else {
        let page = take_upto(listed(entries, start_after), lim);
        if page.len() == 0 {
            Seq::empty()
        } else {
            page + paged(entries, Some(page.last().0->Native_0), lim, (k - 1) as nat)
        }
    }
}

/// Law: paging through the markets, each page starting after the last market
/// of the page before, lists the markets after `start_after` in order: `k`
/// pages of `lim` give the first `k * lim` of them, so enough pages give every
/// ready market, each exactly once (see `law_listed_ascending`).
pub proof fn law_paging_lists_every_market(
    entries: Seq<(String, MarketState)>,
    start_after: Option<Seq<char>>,
    lim: int,
    k: nat,
)
    requires
        keys_ascending(entries),
        lim >= 1,
    ensures
        paged(entries, start_after, lim, k) == take_upto(listed(entries, start_after), k * lim),
        k >= listed(entries, start_after).len() ==> paged(entries, start_after, lim, k) == listed(
            entries,
            start_after,
        ),
    decreases k,
{
    let l = listed(entries, start_after);
    if k == 0 {
        if l.len() > 0 {
            assert(take_upto(l, 0) =~= Seq::<(TokenView, Seq<char>)>::empty());
        }
    } else {
        let page = take_upto(l, lim);
        if page.len() == 0 {
            assert(take_upto(l, k * lim) =~= l);
        } else {
            let n = page.len() as int;
            assert(page.last() == l[n - 1]);
            law_pages_continue(entries, start_after, n);
            let next = Some(l[n - 1].0->Native_0);
            law_paging_lists_every_market(entries, next, lim, (k - 1) as nat);
            assert(listed(entries, next) == l.skip(n));
            assert(k * lim == (k - 1) * lim + lim) by (nonlinear_arith);
            assert((k - 1) * lim >= 0) by (nonlinear_arith)
                requires
                    k >= 1,
                    lim >= 1,
            ;
            if n < lim {
                assert(page == l);
                assert(l.skip(n).len() == 0);
                assert(take_upto(l.skip(n), (k - 1) * lim) =~= l.skip(n));
                assert(page + take_upto(l.skip(n), (k - 1) * lim) =~= l);
                assert(take_upto(l, k * lim) == l);
            } else {
                assert(n == lim);
                assert(page + take_upto(l.skip(n), (k - 1) * lim) =~= take_upto(l, k * lim));
            }
        }
    }
    if k >= l.len() {
        assert(k * lim >= l.len()) by (nonlinear_arith)
            requires
                k >= l.len(),
                lim >= 1,
        ;
    }
}

/// Law: the markets listed come in strictly ascending order of base asset,
/// and so no market is listed twice.
pub proof fn law_listed_ascending(entries: Seq<(String, MarketState)>, start_after: Option<Seq<char>>)
    requires
        keys_ascending(entries),
    ensures
        forall|i: int, j: int|
            0 <= i < j < listed(entries, start_after).len() ==> str_lt_spec(
                (#[trigger] listed(entries, start_after)[i]).0->Native_0,
                (#[trigger] listed(entries, start_after)[j]).0->Native_0,
            ),
    decreases entries.len(),
{
    if entries.len() > 0 {
        let rest = entries.drop_last();
        assert(keys_ascending(rest)) by {
            assert forall|i: int, j: int| 0 <= i < j < rest.len() implies str_lt_spec(
                #[trigger] rest[i].0@,
                #[trigger] rest[j].0@,
            ) by {
                assert(rest[i] == entries[i] && rest[j] == entries[j]);
            }
        }
        law_listed_ascending(rest, start_after);
        let l = listed(entries, start_after);
        let before = listed(rest, start_after);
        assert(entries.last() == entries[entries.len() - 1]);
        assert forall|i: int, j: int| 0 <= i < j < l.len() implies str_lt_spec(
            (#[trigger] l[i]).0->Native_0,
            (#[trigger] l[j]).0->Native_0,
        ) by {
            if j < before.len() {
                assert(l[i] == before[i] && l[j] == before[j]);
            } else {
                assert(l[i] == before[i]);
                let p = lemma_listed_index(rest, start_after, i + 1);
                assert(rest[p] == entries[p]);
                assert(str_lt_spec(entries[p].0@, entries[entries.len() - 1].0@));
            }
        }
    }
}

/// The credit line values of a list of responses.
pub open spec fn all_values(lines: Seq<CreditLineResponse>) -> Seq<CreditLineValues> {
    lines.map_values(|c: CreditLineResponse| response_values(c))
}

/// Whether every credit line is in the common token.
pub open spec fn all_in_common(common_token: String, lines: Seq<CreditLineResponse>) -> bool {
    forall|i: int| 0 <= i < lines.len() ==> response_in_token(#[trigger] lines[i], Token::Native(common_token))
}

/// How adding up credit lines one at a time, each checked to be in the common
/// token before it is added, ends.
#[derive(Clone, Copy, Debug, PartialEq, Eq, Structural)]
pub enum LinesSum {
    /// All lines were in the common token; their sums.
    Total(CreditLineValues),
    /// A line was not in the common token before any sum overflowed.
    WrongToken,
    /// A sum overflowed before any line was found in another token.
    Overflow,
}

/// The outcome of adding up `lines` one at a time (see `LinesSum`).
pub open spec fn lines_sum(common_token: String, lines: Seq<CreditLineResponse>) -> LinesSum
    decreases lines.len(),
{
    if lines.len() == 0 {
        LinesSum::Total(CreditLineValues { collateral: 0, credit_line: 0, debt: 0 })
    } else {
        match lines_sum(common_token, lines.drop_last()) {
            LinesSum::Total(t) => if !response_in_token(lines.last(), Token::Native(common_token)) {
                LinesSum::WrongToken
            } else if !values_add_fits(t, response_values(lines.last())) {
                LinesSum::Overflow
            } else {
                LinesSum::Total(values_add(t, response_values(lines.last())))
            },
            other => other,
        }
    }
}

/// Adding up ends in a total exactly when all lines are in the common token
/// and their sums fit; the total is then the sums.
pub proof fn lemma_lines_sum(common_token: String, lines: Seq<CreditLineResponse>)
    ensures
        lines_sum(common_token, lines) matches LinesSum::Total(t) ==> all_in_common(common_token, lines)
            && sum_fits(all_values(lines)) && t.collateral == sum_collateral(all_values(lines))
            && t.credit_line == sum_credit_line(all_values(lines)) && t.debt == sum_debt(
            all_values(lines),
        ),
        lines_sum(common_token, lines) is WrongToken ==> !all_in_common(common_token, lines),
        all_in_common(common_token, lines) && sum_fits(all_values(lines)) ==> lines_sum(
            common_token,
            lines,
        ) is Total,
    decreases lines.len(),
{
    if lines.len() > 0 {
        let init = lines.drop_last();
        lemma_lines_sum(common_token, init);
        assert(all_values(lines).drop_last() =~= all_values(init));
        crate::credit_line::lemma_sums_nonnegative(all_values(init));
        crate::credit_line::lemma_sums_nonnegative(all_values(lines));
        if all_in_common(common_token, lines) {
            assert(all_in_common(common_token, init)) by {
                assert forall|i: int| 0 <= i < init.len() implies response_in_token(
                    #[trigger] init[i],
                    Token::Native(common_token),
                ) by {
                    assert(init[i] == lines[i]);
                }
            }
        }
        if lines_sum(common_token, init) is WrongToken {
            if all_in_common(common_token, lines) {
                assert(all_in_common(common_token, init));
            }
        }
        if lines_sum(common_token, lines) is WrongToken && lines_sum(common_token, init) is Total {
            assert(!response_in_token(lines[lines.len() - 1], Token::Native(common_token)));
        }
        if let LinesSum::Total(t) = lines_sum(common_token, lines) {
            assert forall|i: int| 0 <= i < lines.len() implies response_in_token(
                #[trigger] lines[i],
                Token::Native(common_token),
            ) by {
                if i < lines.len() - 1 {
                    assert(lines[i] == init[i]);
                }
            }
        }
    }
}

/// Adds up `lines` one at a time, each checked to be in the common token
/// before it is added.
pub fn sum_lines(common_token: &String, lines: &Vec<CreditLineResponse>) -> (r: LinesSum)
    ensures
        r == lines_sum(*common_token, lines@),
{
    let expected = Token::Native(common_token.clone());
    let mut total = CreditLineValues::zero();
    let mut i: usize = 0;
    while i < lines.len()
        invariant
            i <= lines.len(),
            expected == Token::Native(*common_token),
            lines_sum(*common_token, lines@.take(i as int)) == LinesSum::Total(total),
        decreases lines.len() - i,
    {
        assert(lines@.take(i as int + 1).drop_last() =~= lines@.take(i as int));
        let v = match lines[i].validate(&expected) {
            Ok(v) => v,
            Err(_) => {
                proof {
                    lemma_lines_sum_settled(*common_token, lines@, i as int + 1);
                }
                return LinesSum::WrongToken;
            },
        };
        if total.collateral > u128::MAX - v.collateral || total.credit_line > u128::MAX
            - v.credit_line || total.debt > u128::MAX - v.debt {
            proof {
                lemma_lines_sum_settled(*common_token, lines@, i as int + 1);
            }
            return LinesSum::Overflow;
        }
        total = total.add(v);
        i = i + 1;
    }
    assert(lines@.take(lines.len() as int) =~= lines@);
    LinesSum::Total(total)
}

/// Once adding up a prefix has ended in an error, adding up the whole ends in
/// the same error.
proof fn lemma_lines_sum_settled(common_token: String, lines: Seq<CreditLineResponse>, k: int)
    requires
        0 <= k <= lines.len(),
        !(lines_sum(common_token, lines.take(k)) is Total),
    ensures
        lines_sum(common_token, lines) == lines_sum(common_token, lines.take(k)),
    decreases lines.len(),
{
    if k == lines.len() {
        assert(lines.take(k) =~= lines);
    } else {
        assert(lines.drop_last().take(k) =~= lines.take(k));
        lemma_lines_sum_settled(common_token, lines.drop_last(), k);
    }
}

/// Whether summing the account's credit lines aborts: all are in the common
/// token and a sum does not fit.
pub open spec fn credit_lines_overflow_spec(common_token: String, lines: Seq<CreditLineResponse>) -> bool {
    all_in_common(common_token, lines) && !sum_fits(all_values(lines))
}

/// Whether `total_credit_line` would abort on these lines, which its callers
/// must rule out first.
pub fn credit_lines_overflow(common_token: &String, credit_lines: &Vec<CreditLineResponse>) -> (r: bool)
    ensures
        r == credit_lines_overflow_spec(*common_token, credit_lines@),
{
    let outcome = sum_lines(common_token, credit_lines);
    proof {
        lemma_lines_sum(*common_token, credit_lines@);
    }
    match outcome {
        LinesSum::Total(_) => false,
        LinesSum::WrongToken => false,
        LinesSum::Overflow => {
            // a line in another token may follow the overflow
            let expected = Token::Native(common_token.clone());
            let mut i: usize = 0;
            while i < credit_lines.len()
                invariant
                    i <= credit_lines.len(),
                    expected == Token::Native(*common_token),
                    forall|j: int|
                        0 <= j < i ==> response_in_token(
                            #[trigger] credit_lines@[j],
                            Token::Native(*common_token),
                        ),
                decreases credit_lines.len() - i,
            {
                if credit_lines[i].validate(&expected).is_err() {
                    return false;
                }
                i = i + 1;
            }
            true
        },
    }
}

/// Handler for `TotalCreditLine`: the sum of the account's credit lines on all
/// the markets it entered, which must all be in the common token.
pub fn total_credit_line(common_token: &String, credit_lines: &Vec<CreditLineResponse>) -> (r: Result<
    CreditLineResponse,
    ContractError,
>)
    requires
        !credit_lines_overflow_spec(*common_token, credit_lines@),
    ensures
        (forall|i: int|
            0 <= i < credit_lines@.len() ==> response_in_token(
                #[trigger] credit_lines@[i],
                Token::Native(*common_token),
            )) ==> (r matches Ok(resp) && response_in_token(resp, Token::Native(*common_token))
            && resp.collateral.amount == sum_collateral(all_values(credit_lines@))
            && resp.credit_line.amount == sum_credit_line(all_values(credit_lines@))
            && resp.debt.amount == sum_debt(all_values(credit_lines@))),
        !(forall|i: int|
            0 <= i < credit_lines@.len() ==> response_in_token(
                #[trigger] credit_lines@[i],
                Token::Native(*common_token),
            )) ==> r == Err::<CreditLineResponse, ContractError>(ContractError::InvalidCommonTokenDenom),
{
    let expected = Token::Native(common_token.clone());
    let mut values: Vec<CreditLineValues> = Vec::new();
    let mut i: usize = 0;
    while i < credit_lines.len()
        invariant
            i <= credit_lines.len(),
            expected@ == TokenView::Native(common_token@),
            values@ == all_values(credit_lines@.take(i as int)),
            forall|j: int|
                0 <= j < i ==> response_in_token(
                    #[trigger] credit_lines@[j],
                    Token::Native(*common_token),
                ),
        decreases credit_lines.len() - i,
    {
        match credit_lines[i].validate(&expected) {
            Ok(v) => values.push(v),
            Err(_) => return Err(ContractError::InvalidCommonTokenDenom),
        }
        assert(all_values(credit_lines@.take(i as int + 1)) =~= all_values(
            credit_lines@.take(i as int),
        ).push(response_values(credit_lines@[i as int])));
        i = i + 1;
    }
    assert(credit_lines@.take(credit_lines.len() as int) =~= credit_lines@);
    let total = CreditLineValues::sum(&values);
    Ok(total.make_response(expected))
}

/// The first position of `x` in `s` from `i` on, or `s.len()`.
pub open spec fn find_from(s: Seq<Seq<char>>, x: Seq<char>, i: int) -> int
    decreases s.len() - i,
{
    if i < 0 || i >= s.len() {
        s.len() as int
    } else if s[i] == x {
        i
    } else {
        find_from(s, x, i + 1)
    }
}

/// The markets after `start_after`: all of them without it; with it, those
/// after its first occurrence, or none when it does not occur.
pub open spec fn entered_after(s: Seq<Seq<char>>, start_after: Option<Seq<char>>) -> Seq<Seq<char>> {
    match start_after {
        None => s,
        Some(x) => if find_from(s, x, 0) < s.len() {
            s.skip(find_from(s, x, 0) + 1)
        } else {
            Seq::empty()
        },
    }
}

pub(crate) proof fn lemma_find_from_bounds(s: Seq<Seq<char>>, x: Seq<char>, i: int)
    requires
        0 <= i <= s.len(),
    ensures
        i <= find_from(s, x, i) <= s.len(),
        find_from(s, x, i) < s.len() ==> s[find_from(s, x, i)] == x,
        forall|j: int| i <= j < find_from(s, x, i) ==> s[j] != x,
    decreases s.len() - i,
{
    if i < s.len() && s[i] != x {
        lemma_find_from_bounds(s, x, i + 1);
    }
}

/// The markets an account entered.
#[derive(Clone, Debug, PartialEq, Eq)]
pub struct ListEnteredMarketsResponse {
    pub markets: Vec<String>,
}

/// Whether an account entered a market.
#[derive(Clone, Copy, Debug, PartialEq, Eq, Structural)]
pub struct IsOnMarketResponse {
    pub participating: bool,
}

/// Handler for `ListEnteredMarkets`: the markets the account entered, in the
/// stored order, after `start_after`, at most `limit` of them (no limit by
/// default).
pub fn entered_markets(markets: &Vec<String>, start_after: Option<String>, limit: Option<u32>) -> (r:
    ListEnteredMarketsResponse)
    ensures
        addrs(r.markets@) == take_upto(
            entered_after(addrs(markets@), opt_view(start_after)),
            match limit {
                Some(l) => l as int,
                None => u32::MAX as int,
            },
        ),
{
    let lim: u32 = match limit {
        Some(l) => l,
        None => u32::MAX,
    };
    let ghost s = addrs(markets@);
    let mut start: usize = 0;
    match &start_after {
        Some(x) => {
            let mut i: usize = 0;
            while i < markets.len() && !markets[i].eq(x)
                invariant
                    i <= markets.len(),
                    s == addrs(markets@),
                    find_from(s, x@, 0) == find_from(s, x@, i as int),
                decreases markets.len() - i,
            {
                i = i + 1;
            }
            proof {
                lemma_find_from_bounds(s, x@, 0);
            }
            start = if i < markets.len() { i + 1 } else { markets.len() };
        },
        None => {},
    }
    let mut out: Vec<String> = Vec::new();
    let mut j: usize = start;
    let ghost rest = entered_after(s, opt_view(start_after));
    assert(rest =~= s.skip(start as int));
    while j < markets.len() && out.len() < lim as usize
        invariant
            start <= j <= markets.len(),
            s == addrs(markets@),
            rest =~= s.skip(start as int),
            out.len() <= lim,
            out.len() == j - start,
            addrs(out@) =~= rest.take(j - start),
        decreases markets.len() - j,
    {
        out.push(markets[j].clone());
        j = j + 1;
    }
    ListEnteredMarketsResponse { markets: out }
}

/// Handler for `IsOnMarket`: whether the account entered the market.
pub fn is_on_market(markets: &Vec<String>, market: &String) -> (r: IsOnMarketResponse)
    ensures
        r.participating == addrs(markets@).contains(market@),
{
    let mut i: usize = 0;
    while i < markets.len()
        invariant
            i <= markets.len(),
            forall|j: int| 0 <= j < i ==> markets@[j]@ != market@,
        decreases markets.len() - i,
    {
        if markets[i].eq(market) {
            assert(addrs(markets@)[i as int] == market@);
            return IsOnMarketResponse { participating: true };
        }
        i = i + 1;
    }
    proof {
        if addrs(markets@).contains(market@) {
            let k = choose|k: int| 0 <= k < addrs(markets@).len() && addrs(markets@)[k] == market@;
            assert(markets@[k]@ == market@);
        }
    }
    IsOnMarketResponse { participating: false }
}

} // verus!
