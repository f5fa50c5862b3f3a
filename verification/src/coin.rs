//! Token identifiers and coin amounts.

use vstd::prelude::*;

verus! {

/// A token: either a native bank denomination or a cw20 contract address.
#[derive(Clone, Debug, PartialEq, Eq)]
pub enum Token {
    Native(String),
    Cw20(String),
}

/// The abstract value of a `Token`.
pub enum TokenView {
    Native(Seq<char>),
    Cw20(Seq<char>),
}

impl View for Token {
    type V = TokenView;

    open spec fn view(&self) -> TokenView {
        match *self {
            Token::Native(d) => TokenView::Native(d@),
            Token::Cw20(a) => TokenView::Cw20(a@),
        }
    }
}

impl Token {
    /// A copy of the token.
    pub fn duplicate(&self) -> (r: Token)
        ensures
            r == *self,
    {
        match self {
            Token::Native(d) => Token::Native(d.clone()),
            Token::Cw20(a) => Token::Cw20(a.clone()),
        }
    }

    /// Whether two tokens are the same.
    pub fn same_as(&self, other: &Token) -> (r: bool)
        ensures
            r == (self@ == other@),
    {
        match (self, other) {
            (Token::Native(x), Token::Native(y)) => x.eq(y),
            (Token::Cw20(x), Token::Cw20(y)) => x.eq(y),
            _ => false,
        }
    }

    /// The native denomination, if this is a native token.
    pub fn native(&self) -> (r: Option<String>)
        ensures
            match *self {
                Token::Native(d) => r matches Some(s) && s@ == d@,
                Token::Cw20(_) => r is None,
            },
    {
        match self {
            Token::Native(d) => Some(d.clone()),
            Token::Cw20(_) => None,
        }
    }

    /// Whether this is the native token with the given denomination.
    pub fn is_native_denom(&self, denom: &String) -> (r: bool)
        ensures
            r == (*self matches Token::Native(d) && d@ == denom@),
    {
        match self {
            Token::Native(d) => d.eq(denom),
            Token::Cw20(_) => false,
        }
    }
}

/// An amount of some token.
#[derive(Clone, Debug, PartialEq, Eq)]
pub struct Coin {
    pub denom: Token,
    pub amount: u128,
}

/// An amount of a native bank denomination.
#[derive(Clone, Debug, PartialEq, Eq)]
pub struct NativeCoin {
    pub denom: String,
    pub amount: u128,
}

/// Subtraction of coins of different tokens, or below zero.
#[derive(Clone, Copy, Debug, PartialEq, Eq, Structural)]
pub enum CoinError {
    IncorrectDenoms,
    Underflow,
}

impl Coin {
    /// A copy of the coin.
    pub fn duplicate(&self) -> (r: Coin)
        ensures
            r == *self,
    {
        Coin { denom: self.denom.duplicate(), amount: self.amount }
    }

    /// `self - other`, for coins of the same token.
    pub fn checked_sub(&self, other: &Coin) -> (r: Result<Coin, CoinError>)
        ensures
            self.denom@ != other.denom@ ==> r == Err::<Coin, CoinError>(CoinError::IncorrectDenoms),
            self.denom@ == other.denom@ && self.amount < other.amount ==> r == Err::<Coin, CoinError>(
                CoinError::Underflow,
            ),
            self.denom@ == other.denom@ && self.amount >= other.amount ==> (r matches Ok(c)
                && c.denom@ == self.denom@ && c.amount == self.amount - other.amount),
    {
        if !self.denom.same_as(&other.denom) {
            Err(CoinError::IncorrectDenoms)
        } else if self.amount < other.amount {
            Err(CoinError::Underflow)
        } else {
            Ok(Coin { denom: self.denom.duplicate(), amount: self.amount - other.amount })
        }
    }
}

/// A coin of the native token `denom`.
pub fn coin_native(amount: u128, denom: String) -> (r: Coin)
    ensures
        r == (Coin { denom: Token::Native(denom), amount }),
{
    Coin { denom: Token::Native(denom), amount }
}

/// A native coin.
pub fn native_coin(amount: u128, denom: String) -> (r: NativeCoin)
    ensures
        r == (NativeCoin { denom, amount }),
{
    NativeCoin { denom, amount }
}

/// The character of a decimal digit.
pub open spec fn digit_char(d: nat) -> char {
    if d == 0 { '0' }
    else if d == 1 { '1' }
    else if d == 2 { '2' }
    else if d == 3 { '3' }
    else if d == 4 { '4' }
    else if d == 5 { '5' }
    else if d == 6 { '6' }
    else if d == 7 { '7' }
    else if d == 8 { '8' }
    else { '9' }
}

/// The decimal digits of `n`, most significant first, without leading zeros.
pub open spec fn decimal(n: nat) -> Seq<char>
    decreases n,
{
    if n < 10 {
        seq![digit_char(n)]
    } else {
        decimal(n / 10).push(digit_char(n % 10))
    }
}

/// The decimal digits of `n`, padded with a zero to at least two digits.
pub open spec fn decimal_padded2(n: nat) -> Seq<char> {
    if n < 10 { seq!['0', digit_char(n)] } else { decimal(n) }
}

/// Appends one character to a string (`String::push`).
#[verifier::external_body]
fn push_char(s: &mut String, c: char)
    ensures
        final(s)@ == old(s)@.push(c),
{
    s.push(c);
}

/// The character of the decimal digit `d`.
fn digit(d: u32) -> (c: char)
    requires
        d < 10,
    ensures
        c == digit_char(d as nat),
{
    match d {
        0 => '0',
        1 => '1',
        2 => '2',
        3 => '3',
        4 => '4',
        5 => '5',
        6 => '6',
        7 => '7',
        8 => '8',
        _ => '9',
    }
}

/// Appends the decimal digits of `n`.
fn push_decimal(s: &mut String, n: u32)
    ensures
        final(s)@ == old(s)@ + decimal(n as nat),
    decreases n,
{
    if n >= 10 {
        push_decimal(s, n / 10);
    }
    push_char(s, digit(n % 10));
    assert(final(s)@ =~= old(s)@ + decimal(n as nat));
}

/// The native tokens `prefix` followed by `i` in at least two decimal digits,
/// for `i` from `start` up to, not including, `end`.
pub fn generate_denoms(prefix: &str, start: u32, end: u32) -> (r: Vec<Token>)
    ensures
        r@.len() == if start < end { end - start } else { 0 },
        forall|k: int|
            0 <= k < r@.len() ==> #[trigger] r@[k]@ == TokenView::Native(
                prefix@ + decimal_padded2((start + k) as nat),
            ),
{
    let mut r: Vec<Token> = Vec::new();
    let mut i: u32 = start;
    while i < end
        invariant
            start <= end ==> start <= i <= end,
            start > end ==> i == start,
            r@.len() == i - start,
            forall|k: int|
                0 <= k < r@.len() ==> #[trigger] r@[k]@ == TokenView::Native(
                    prefix@ + decimal_padded2((start + k) as nat),
                ),
        decreases end - i,
    {
        let mut s: String = prefix.to_owned();
        if i < 10 {
            push_char(&mut s, '0');
        }
        push_decimal(&mut s, i);
        assert(s@ =~= prefix@ + decimal_padded2(i as nat));
        r.push(Token::Native(s));
        i = i + 1;
    }
    r
}

} // verus!
