//! The price oracle: a registry of liquidity pools by pair of denominations,
//! whose spot prices serve as exchange rates.

use vstd::prelude::*;

verus! {

/// Errors of the oracle contract.
#[derive(Clone, Debug, PartialEq, Eq)]
pub enum ContractError {
    NoExecute,
    Unauthorized,
    /// No pool is registered for the pair.
    NoInfo { denom1: String, denom2: String },
}

/// Strict lexicographic order of byte strings from position `i` on, given
/// that they agree before it: the order in which storage keys are sorted.
pub open spec fn bytes_lt_from(a: Seq<u8>, b: Seq<u8>, i: int) -> bool
    decreases a.len() - i,
{
    if i < 0 || i >= a.len() {
        i < b.len()
    } else if i >= b.len() {
        false
    } else if a[i] != b[i] {
        a[i] < b[i]
    } else {
        bytes_lt_from(a, b, i + 1)
    }
}

/// Strict lexicographic order of byte strings.
pub open spec fn bytes_lt(a: Seq<u8>, b: Seq<u8>) -> bool {
    bytes_lt_from(a, b, 0)
}

/// Strict order of strings by their UTF-8 bytes.
pub open spec fn str_lt_spec(a: Seq<char>, b: Seq<char>) -> bool {
    bytes_lt(vstd::utf8::encode_utf8(a), vstd::utf8::encode_utf8(b))
}

/// Whether `a` sorts strictly before `b`, comparing their bytes.
pub fn str_lt(a: &String, b: &String) -> (r: bool)
    ensures
        r == str_lt_spec(a@, b@),
{
    let x = a.as_str().as_bytes();
    let y = b.as_str().as_bytes();
    let mut i: usize = 0;
    while i < x.len() && i < y.len()
        invariant
            x@ == vstd::utf8::encode_utf8(a@),
            y@ == vstd::utf8::encode_utf8(b@),
            i <= x@.len(),
            i <= y@.len(),
            bytes_lt_from(x@, y@, 0) == bytes_lt_from(x@, y@, i as int),
        decreases x.len() - i,
    {
        if x[i] != y[i] {
            return x[i] < y[i];
        }
        i = i + 1;
    }
    i < y.len()
}

/// The order is asymmetric.
proof fn lemma_bytes_lt_from_asymmetric(a: Seq<u8>, b: Seq<u8>, i: int)
    requires
        0 <= i,
    ensures
        bytes_lt_from(a, b, i) ==> !bytes_lt_from(b, a, i),
    decreases a.len() - i,
{
    if i < a.len() && i < b.len() && a[i] == b[i] {
        lemma_bytes_lt_from_asymmetric(a, b, i + 1);
    }
}

/// Two byte strings neither of which sorts before the other are equal.
proof fn lemma_bytes_lt_from_total(a: Seq<u8>, b: Seq<u8>, i: int)
    requires
        0 <= i <= a.len(),
        i <= b.len(),
        a.take(i) == b.take(i),
        !bytes_lt_from(a, b, i),
        !bytes_lt_from(b, a, i),
    ensures
        a == b,
    decreases a.len() - i,
{
    if i < a.len() && i < b.len() {
        assert(a.take(i + 1) =~= a.take(i).push(a[i]));
        assert(b.take(i + 1) =~= b.take(i).push(b[i]));
        lemma_bytes_lt_from_total(a, b, i + 1);
    } else {
        assert(a =~= a.take(i));
        assert(b =~= b.take(i));
    }
}

/// The order is transitive.
proof fn lemma_bytes_lt_from_transitive(a: Seq<u8>, b: Seq<u8>, c: Seq<u8>, i: int)
    requires
        0 <= i,
        bytes_lt_from(a, b, i),
        bytes_lt_from(b, c, i),
    ensures
        bytes_lt_from(a, c, i),
    decreases a.len() - i,
{
    if i < a.len() && i < b.len() && i < c.len() && a[i] == b[i] && b[i] == c[i] {
        lemma_bytes_lt_from_transitive(a, b, c, i + 1);
    }
}

/// Law: the byte order of strings is transitive.
pub proof fn law_str_order_transitive(a: Seq<char>, b: Seq<char>, c: Seq<char>)
    requires
        str_lt_spec(a, b),
        str_lt_spec(b, c),
    ensures
        str_lt_spec(a, c),
{
    lemma_bytes_lt_from_transitive(
        vstd::utf8::encode_utf8(a),
        vstd::utf8::encode_utf8(b),
        vstd::utf8::encode_utf8(c),
        0,
    );
}

/// Law: on strings, the byte order is a strict total order: asymmetric, and
/// two strings neither of which sorts before the other are the same string.
pub proof fn law_str_order_total(a: Seq<char>, b: Seq<char>)
    ensures
        str_lt_spec(a, b) ==> !str_lt_spec(b, a),
        !str_lt_spec(a, b) && !str_lt_spec(b, a) ==> a == b,
{
    let x = vstd::utf8::encode_utf8(a);
    let y = vstd::utf8::encode_utf8(b);
    lemma_bytes_lt_from_asymmetric(x, y, 0);
    if !str_lt_spec(a, b) && !str_lt_spec(b, a) {
        assert(x.take(0) =~= y.take(0));
        lemma_bytes_lt_from_total(x, y, 0);
        vstd::utf8::encode_utf8_decode_utf8(a);
        vstd::utf8::encode_utf8_decode_utf8(b);
    }
}

/// The key under which the pool of a pair is stored: the two denoms in
/// ascending order.
pub open spec fn spec_pool_key(denom1: Seq<char>, denom2: Seq<char>) -> (Seq<char>, Seq<char>) {
    if str_lt_spec(denom1, denom2) {
        (denom1, denom2)
    } else {
        (denom2, denom1)
    }
}

/// The storage key of the pair: the denoms in ascending order.
pub fn pool_key(denom1: &String, denom2: &String) -> (r: (String, String))
    ensures
        (r.0@, r.1@) == spec_pool_key(denom1@, denom2@),
{
    if str_lt(denom1, denom2) {
        (denom1.clone(), denom2.clone())
    } else {
        (denom2.clone(), denom1.clone())
    }
}

/// Law: a pair has one key whichever way round it is given, so a pool
/// registered for `(a, b)` is found when asked for `(b, a)`.
pub proof fn law_pool_key_symmetric(a: Seq<char>, b: Seq<char>)
    ensures
        spec_pool_key(a, b) == spec_pool_key(b, a),
        !str_lt_spec(spec_pool_key(a, b).1, spec_pool_key(a, b).0),
{
    law_str_order_total(a, b);
}

/// Handler for `RegisterPool`: only the controller may register a pool; the
/// pool id is to be stored under the returned key.
pub fn register_pool(controller: &String, sender: &String, denom1: &String, denom2: &String) -> (r:
    Result<(String, String), ContractError>)
    ensures
        sender@ != controller@ ==> r == Err::<(String, String), ContractError>(
            ContractError::Unauthorized,
        ),
        sender@ == controller@ ==> (r matches Ok(key) && (key.0@, key.1@) == spec_pool_key(
            denom1@,
            denom2@,
        )),
{
    if !sender.eq(controller) {
        return Err(ContractError::Unauthorized);
    }
    Ok(pool_key(denom1, denom2))
}

/// Handler for `PoolId`: the pool registered for the pair, given what is
/// stored under the pair's key.
pub fn pool_id(denom1: &String, denom2: &String, stored: Option<u64>) -> (r: Result<u64, ContractError>)
    ensures
        stored matches Some(id) ==> r == Ok::<u64, ContractError>(id),
        stored is None ==> (r matches Err(ContractError::NoInfo { denom1: d1, denom2: d2 }) && (
        d1@,
        d2@,
        ) == spec_pool_key(denom1@, denom2@)),
{
    match stored {
        Some(id) => Ok(id),
        None => {
            let key = pool_key(denom1, denom2);
            Err(ContractError::NoInfo { denom1: key.0, denom2: key.1 })
        },
    }
}

/// A spot price request: the price of `denom_in` in `denom_out` in a pool,
/// with or without the pool's swap fee.
#[derive(Clone, Debug, PartialEq, Eq)]
pub struct SpotPriceRequest {
    pub pool_id: u64,
    pub denom_in: String,
    pub denom_out: String,
    pub with_swap_fee: bool,
}

/// Handler for `Price`: the spot price request answering how much `buy` one
/// `sell` is worth, through the pool registered for the pair, without the
/// swap fee.
pub fn price(sell: &String, buy: &String, stored: Option<u64>) -> (r: Result<SpotPriceRequest, ContractError>)
    ensures
        stored matches Some(id) ==> (r matches Ok(req) && req.pool_id == id && req.denom_in@ == sell@
            && req.denom_out@ == buy@ && !req.with_swap_fee),
        stored is None ==> (r matches Err(ContractError::NoInfo { denom1: d1, denom2: d2 }) && (
        d1@,
        d2@,
        ) == spec_pool_key(sell@, buy@)),
{
    let pool_id = pool_id(sell, buy, stored)?;
    Ok(SpotPriceRequest { pool_id, denom_in: sell.clone(), denom_out: buy.clone(), with_swap_fee: false })
}

} // verus!
