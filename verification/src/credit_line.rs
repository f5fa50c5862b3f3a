//! Credit lines: how much an account has put up as collateral, how much it
//! may borrow against it, and how much it owes, all in the common token.

use vstd::prelude::*;

use crate::coin::{Coin, Token, TokenView};

verus! {

/// The credit line of an account as plain amounts of the common token.
#[derive(Clone, Copy, Debug, PartialEq, Eq, Structural)]
pub struct CreditLineValues {
    /// Total value of the collateral.
    pub collateral: u128,
    /// Collateral weighted by the collateral ratio: how much may be borrowed.
    pub credit_line: u128,
    /// Total value of the debt.
    pub debt: u128,
}

/// A credit line with the denomination of each amount.
#[derive(Clone, Debug, PartialEq, Eq)]
pub struct CreditLineResponse {
    pub collateral: Coin,
    pub credit_line: Coin,
    pub debt: Coin,
}

/// A credit line response whose amounts are not all in the expected common token.
#[derive(Clone, Copy, Debug, PartialEq, Eq, Structural)]
pub struct InvalidCommonTokenDenom;

/// Whether two sums of credit lines fit, field by field.
pub open spec fn values_add_fits(a: CreditLineValues, b: CreditLineValues) -> bool {
    &&& a.collateral + b.collateral <= u128::MAX
    &&& a.credit_line + b.credit_line <= u128::MAX
    &&& a.debt + b.debt <= u128::MAX
}

/// Field-wise sum of two credit lines.
pub open spec fn values_add(a: CreditLineValues, b: CreditLineValues) -> CreditLineValues {
    CreditLineValues {
        collateral: (a.collateral + b.collateral) as u128,
        credit_line: (a.credit_line + b.credit_line) as u128,
        debt: (a.debt + b.debt) as u128,
    }
}

/// Field-wise sums of a sequence of credit lines, as mathematical integers.
pub open spec fn sum_collateral(s: Seq<CreditLineValues>) -> int
    decreases s.len(),
{
    if s.len() == 0 { 0 } else { sum_collateral(s.drop_last()) + s.last().collateral }
}

/// See `sum_collateral`.
pub open spec fn sum_credit_line(s: Seq<CreditLineValues>) -> int
    decreases s.len(),
{
    if s.len() == 0 { 0 } else { sum_credit_line(s.drop_last()) + s.last().credit_line }
}

/// See `sum_collateral`.
pub open spec fn sum_debt(s: Seq<CreditLineValues>) -> int
    decreases s.len(),
{
    if s.len() == 0 { 0 } else { sum_debt(s.drop_last()) + s.last().debt }
}

/// Whether the sums of a sequence of credit lines fit.
pub open spec fn sum_fits(s: Seq<CreditLineValues>) -> bool {
    &&& sum_collateral(s) <= u128::MAX
    &&& sum_credit_line(s) <= u128::MAX
    &&& sum_debt(s) <= u128::MAX
}

/// Whether the response is in the expected token throughout.
pub open spec fn response_in_token(resp: CreditLineResponse, token: Token) -> bool {
    &&& resp.collateral.denom@ == token@
    &&& resp.credit_line.denom@ == token@
    &&& resp.debt.denom@ == token@
}

/// The plain amounts of a response.
pub open spec fn response_values(resp: CreditLineResponse) -> CreditLineValues {
    CreditLineValues {
        collateral: resp.collateral.amount,
        credit_line: resp.credit_line.amount,
        debt: resp.debt.amount,
    }
}

impl CreditLineValues {
    /// All amounts zero.
    pub fn zero() -> (r: CreditLineValues)
        ensures
            r == (CreditLineValues { collateral: 0, credit_line: 0, debt: 0 }),
    {
        CreditLineValues { collateral: 0, credit_line: 0, debt: 0 }
    }

    /// A credit line from its three amounts.
    pub fn new(collateral: u128, credit_line: u128, debt: u128) -> (r: CreditLineValues)
        ensures
            r == (CreditLineValues { collateral, credit_line, debt }),
    {
        CreditLineValues { collateral, credit_line, debt }
    }

    /// Field-wise sum.
    pub fn add(self, other: CreditLineValues) -> (r: CreditLineValues)
        requires
            values_add_fits(self, other),
        ensures
            r == values_add(self, other),
    {
        CreditLineValues {
            collateral: self.collateral + other.collateral,
            credit_line: self.credit_line + other.credit_line,
            debt: self.debt + other.debt,
        }
    }

    /// Field-wise sum of a list of credit lines.
    pub fn sum(values: &Vec<CreditLineValues>) -> (r: CreditLineValues)
        requires
            sum_fits(values@),
        ensures
            r.collateral == sum_collateral(values@),
            r.credit_line == sum_credit_line(values@),
            r.debt == sum_debt(values@),
    {
        let mut total = CreditLineValues::zero();
        let mut i: usize = 0;
        while i < values.len()
            invariant
                i <= values.len(),
                sum_fits(values@),
                total.collateral == sum_collateral(values@.take(i as int)),
                total.credit_line == sum_credit_line(values@.take(i as int)),
                total.debt == sum_debt(values@.take(i as int)),
            decreases values.len() - i,
        {
            proof {
                let t = values@.take(i as int + 1);
                assert(t.drop_last() == values@.take(i as int));
                lemma_sum_prefix_bounded(values@, i as int + 1);
            }
            total = total.add(values[i]);
            i = i + 1;
        }
        proof {
            assert(values@.take(values.len() as int) == values@);
        }
        total
    }

    /// Whether the field-wise sums of a list of credit lines do not fit, which
    /// the callers of `sum` must rule out first.
    pub fn sums_overflow(values: &Vec<CreditLineValues>) -> (r: bool)
        ensures
            r == !sum_fits(values@),
    {
        let mut total = CreditLineValues::zero();
        let mut i: usize = 0;
        while i < values.len()
            invariant
                i <= values.len(),
                total.collateral == sum_collateral(values@.take(i as int)),
                total.credit_line == sum_credit_line(values@.take(i as int)),
                total.debt == sum_debt(values@.take(i as int)),
            decreases values.len() - i,
        {
            let v = values[i];
            proof {
                let t = values@.take(i as int + 1);
                assert(t.drop_last() == values@.take(i as int));
                assert(t.last() == v);
                lemma_sum_prefix_bounded(values@, i as int + 1);
            }
            if total.collateral > u128::MAX - v.collateral || total.credit_line > u128::MAX
                - v.credit_line || total.debt > u128::MAX - v.debt {
                return true;
            }
            total = total.add(v);
            i = i + 1;
        }
        proof {
            assert(values@.take(values.len() as int) == values@);
        }
        false
    }

    /// The response expressing these amounts in `token`.
    pub fn make_response(self, token: Token) -> (r: CreditLineResponse)
        ensures
            response_in_token(r, token),
            response_values(r) == self,
    {
        CreditLineResponse {
            collateral: Coin { denom: token.duplicate(), amount: self.collateral },
            credit_line: Coin { denom: token.duplicate(), amount: self.credit_line },
            debt: Coin { denom: token, amount: self.debt },
        }
    }
}

impl CreditLineResponse {
    /// The plain amounts, provided all three are in `expected`.
    pub fn validate(&self, expected: &Token) -> (r: Result<CreditLineValues, InvalidCommonTokenDenom>)
        ensures
            r == (if response_in_token(*self, *expected) {
                Ok::<CreditLineValues, InvalidCommonTokenDenom>(response_values(*self))
            } else {
                Err(InvalidCommonTokenDenom)
            }),
    {
        if self.collateral.denom.same_as(expected) && self.credit_line.denom.same_as(expected)
            && self.debt.denom.same_as(expected) {
            Ok(CreditLineValues::new(self.collateral.amount, self.credit_line.amount, self.debt.amount))
        } else {
            Err(InvalidCommonTokenDenom)
        }
    }
}

/// Partial sums of non-negative amounts are bounded by the full sums.
proof fn lemma_sum_prefix_bounded(s: Seq<CreditLineValues>, k: int)
    requires
        0 <= k <= s.len(),
    ensures
        sum_collateral(s.take(k)) <= sum_collateral(s),
        sum_credit_line(s.take(k)) <= sum_credit_line(s),
        sum_debt(s.take(k)) <= sum_debt(s),
        sum_collateral(s.take(k)) >= 0,
        sum_credit_line(s.take(k)) >= 0,
        sum_debt(s.take(k)) >= 0,
    decreases s.len(),
{
    if k == s.len() {
        assert(s.take(k) == s);
        lemma_sums_nonnegative(s);
    } else {
        lemma_sum_prefix_bounded(s.drop_last(), k);
        assert(s.drop_last().take(k) == s.take(k));
    }
}

pub(crate) proof fn lemma_sums_nonnegative(s: Seq<CreditLineValues>)
    ensures
        sum_collateral(s) >= 0,
        sum_credit_line(s) >= 0,
        sum_debt(s) >= 0,
    decreases s.len(),
{
    if s.len() > 0 {
        lemma_sums_nonnegative(s.drop_last());
    }
}

} // verus!
