//! Fixed-point decimal numbers with 18 fractional digits, as used for prices,
//! ratios and interest rates throughout the protocol.

use vstd::prelude::*;
use vstd::arithmetic::power::pow;

verus! {

/// Number of atomic units in one whole `Decimal`: `10^18`.
pub const DECIMAL_FRACTIONAL: u128 = 1_000_000_000_000_000_000u128;

/// A non-negative fixed-point number whose value is `atomics / 10^18`.
#[derive(Clone, Copy, Debug, PartialEq, Eq, Structural)]
pub struct Decimal {
    pub atomics: u128,
}

/// The arithmetic operation that overflowed.
#[derive(Clone, Copy, Debug, PartialEq, Eq, Structural)]
pub enum OverflowOperation {
    Add,
    Sub,
    Mul,
    Pow,
}

/// An arithmetic operation whose exact result does not fit, with its operands.
#[derive(Clone, Copy, Debug, PartialEq, Eq, Structural)]
pub struct OverflowError {
    pub operation: OverflowOperation,
    pub operand1: Decimal,
    pub operand2: Decimal,
}

/// `10^18` as a mathematical integer.
pub open spec fn frac() -> int {
    DECIMAL_FRACTIONAL as int
}

/// Floored product of two fixed-point numbers given by their atomics:
/// `floor(a * b / 10^18)`.
pub open spec fn mul_floor(a: int, b: int) -> int {
    a * b / frac()
}

/// Floored quotient `floor(n * 10^18 / d)`: the atomics of the ratio `n / d`.
pub open spec fn ratio_floor(n: int, d: int) -> int {
    n * frac() / d
}

/// The error reported when multiplying `a` by `b` overflows.
pub open spec fn mul_overflow(a: u128, b: u128) -> OverflowError {
    OverflowError {
        operation: OverflowOperation::Mul,
        operand1: Decimal { atomics: a },
        operand2: Decimal { atomics: b },
    }
}

/// Checked product of two fixed-point numbers: the floored product when it
/// fits in `u128`, an overflow error otherwise.
pub open spec fn spec_checked_mul(a: u128, b: u128) -> Result<Decimal, OverflowError> {
    if mul_floor(a as int, b as int) > u128::MAX {
        Err(mul_overflow(a, b))
    } else {
        Ok(Decimal { atomics: mul_floor(a as int, b as int) as u128 })
    }
}

/// The state reached by the square-and-multiply loop of `checked_pow`, started
/// with base `x`, accumulator `y` and exponent `n`: the base and accumulator
/// once the exponent is at most 1, or the first multiplication that overflowed.
pub open spec fn pow_loop(x: u128, y: u128, n: u32) -> Result<(u128, u128), OverflowError>
    decreases n,
{
    if n <= 1 {
        Ok((x, y))
    } else if n % 2 == 0 {
        match spec_checked_mul(x, x) {
            Err(e) => Err(e),
            Ok(x2) => pow_loop(x2.atomics, y, n / 2),
        }
    } else {
        match spec_checked_mul(x, y) {
            Err(e) => Err(e),
            Ok(y2) => match spec_checked_mul(x, x) {
                Err(e) => Err(e),
                Ok(x2) => pow_loop(x2.atomics, y2.atomics, ((n - 1) / 2) as u32),
            },
        }
    }
}

/// Whether `checked_pow(x, n)` would end in the final plain multiplication of
/// base and accumulator overflowing (which aborts rather than returning an error).
pub open spec fn pow_aborts(x: u128, n: u32) -> bool {
    n != 0 && match pow_loop(x, DECIMAL_FRACTIONAL, n) {
        Ok((xf, yf)) => mul_floor(xf as int, yf as int) > u128::MAX,
        Err(_) => false,
    }
}

/// The result of `checked_pow(x, n)` on inputs where it does not abort.
pub open spec fn spec_checked_pow(x: u128, n: u32) -> Result<Decimal, OverflowError> {
    if n == 0 {
        Ok(Decimal { atomics: DECIMAL_FRACTIONAL })
    } else {
        match pow_loop(x, DECIMAL_FRACTIONAL, n) {
            Err(e) => Err(e),
            Ok((xf, yf)) => Ok(Decimal { atomics: mul_floor(xf as int, yf as int) as u128 }),
        }
    }
}

/// `cosmwasm_std::Decimal::from_ratio`: the ratio `numerator / denominator`,
/// floored to 18 fractional digits. It panics on a zero denominator or when the
/// result does not fit, which `requires` leaves out.
#[verifier::external_body]
fn cw_decimal_from_ratio(numerator: u128, denominator: u128) -> (r: u128)
    requires
        denominator > 0,
        ratio_floor(numerator as int, denominator as int) <= u128::MAX,
    ensures
        r == ratio_floor(numerator as int, denominator as int),
{
    cosmwasm_std::Decimal::from_ratio(numerator, denominator).atomics().u128()
}

/// `<cosmwasm_std::Decimal as Mul>::mul`: the product of two decimals, floored
/// to 18 fractional digits. It panics when the result does not fit, which
/// `requires` leaves out.
#[verifier::external_body]
fn cw_decimal_mul(a: u128, b: u128) -> (r: u128)
    requires
        mul_floor(a as int, b as int) <= u128::MAX,
    ensures
        r == mul_floor(a as int, b as int),
{
    (cosmwasm_std::Decimal::raw(a) * cosmwasm_std::Decimal::raw(b)).atomics().u128()
}

/// `<cosmwasm_std::Uint128 as Mul<Decimal>>::mul`: an integer amount times a
/// decimal, floored. It panics when the result does not fit, which `requires`
/// leaves out.
#[verifier::external_body]
fn cw_uint_mul_decimal(amount: u128, d: u128) -> (r: u128)
    requires
        mul_floor(amount as int, d as int) <= u128::MAX,
    ensures
        r == mul_floor(amount as int, d as int),
{
    (cosmwasm_std::Uint128::new(amount) * cosmwasm_std::Decimal::raw(d)).u128()
}

/// `cosmwasm_std::Uint128::checked_multiply_ratio`: `floor(a * b / c)`,
/// computed on 256 bits (`full_mul`, then a division, then the conversion
/// back to `Uint128`); `None` on a zero divisor or when the quotient does not
/// fit (its two error variants).
#[verifier::external_body]
pub(crate) fn cw_checked_multiply_ratio(a: u128, b: u128, c: u128) -> (r: Option<u128>)
    ensures
        c == 0 ==> r is None,
        c > 0 ==> r == (if a * b / (c as int) <= u128::MAX {
            Some((a * b / (c as int)) as u128)
        } else {
            None::<u128>
        }),
{
    match cosmwasm_std::Uint128::new(a).checked_multiply_ratio(b, c) {
        Ok(v) => Some(v.u128()),
        Err(_) => None,
    }
}

/// An integer amount times a decimal, floored: `floor(amount * d)`.
pub fn uint_mul_decimal(amount: u128, d: Decimal) -> (r: u128)
    requires
        mul_floor(amount as int, d.atomics as int) <= u128::MAX,
    ensures
        r == mul_floor(amount as int, d.atomics as int),
{
    cw_uint_mul_decimal(amount, d.atomics)
}

/// An integer amount times a decimal, floored, when that fits in `u128`.
pub fn checked_uint_mul_decimal(amount: u128, d: Decimal) -> (r: Option<u128>)
    ensures
        r == (if mul_floor(amount as int, d.atomics as int) <= u128::MAX {
            Some(mul_floor(amount as int, d.atomics as int) as u128)
        } else {
            None::<u128>
        }),
{
    cw_checked_multiply_ratio(amount, d.atomics, DECIMAL_FRACTIONAL)
}

impl Decimal {
    /// The decimal with the given number of atomic units.
    pub fn raw(atomics: u128) -> (r: Decimal)
        ensures
            r.atomics == atomics,
    {
        Decimal { atomics }
    }

    /// `1.0`.
    pub fn one() -> (r: Decimal)
        ensures
            r.atomics == DECIMAL_FRACTIONAL,
    {
        Decimal { atomics: DECIMAL_FRACTIONAL }
    }

    /// `0.0`.
    pub fn zero() -> (r: Decimal)
        ensures
            r.atomics == 0,
    {
        Decimal { atomics: 0 }
    }

    /// `x%`, i.e. `x / 100`.
    pub fn percent(x: u64) -> (r: Decimal)
        ensures
            r.atomics == x * 10_000_000_000_000_000,
    {
        Decimal { atomics: (x as u128) * 10_000_000_000_000_000u128 }
    }

    /// `x‰`, i.e. `x / 1000`.
    pub fn permille(x: u64) -> (r: Decimal)
        ensures
            r.atomics == x * 1_000_000_000_000_000,
    {
        Decimal { atomics: (x as u128) * 1_000_000_000_000_000u128 }
    }

    /// Whether the value is zero.
    pub fn is_zero(&self) -> (r: bool)
        ensures
            r == (self.atomics == 0),
    {
        self.atomics == 0
    }

    /// The ratio `numerator / denominator`, floored to 18 fractional digits.
    pub fn from_ratio(numerator: u128, denominator: u128) -> (r: Decimal)
        requires
            denominator > 0,
            ratio_floor(numerator as int, denominator as int) <= u128::MAX,
        ensures
            r.atomics == ratio_floor(numerator as int, denominator as int),
    {
        Decimal { atomics: cw_decimal_from_ratio(numerator, denominator) }
    }

    /// Sum of two decimals.
    pub fn add(self, other: Decimal) -> (r: Decimal)
        requires
            self.atomics + other.atomics <= u128::MAX,
        ensures
            r.atomics == self.atomics + other.atomics,
    {
        Decimal { atomics: self.atomics + other.atomics }
    }

    /// Difference of two decimals.
    pub fn sub(self, other: Decimal) -> (r: Decimal)
        requires
            other.atomics <= self.atomics,
        ensures
            r.atomics == self.atomics - other.atomics,
    {
        Decimal { atomics: self.atomics - other.atomics }
    }

    /// Product of two decimals, floored to 18 fractional digits.
    pub fn mul(self, other: Decimal) -> (r: Decimal)
        requires
            mul_floor(self.atomics as int, other.atomics as int) <= u128::MAX,
        ensures
            r.atomics == mul_floor(self.atomics as int, other.atomics as int),
    {
        Decimal { atomics: cw_decimal_mul(self.atomics, other.atomics) }
    }

    /// The decimal divided by an integer, floored.
    pub fn div_uint(self, divisor: u128) -> (r: Decimal)
        requires
            divisor > 0,
        ensures
            r.atomics == self.atomics / divisor,
    {
        Decimal { atomics: self.atomics / divisor }
    }

    /// Product of two decimals, floored to 18 fractional digits; fails with an
    /// overflow error exactly when that product does not fit.
    pub fn checked_mul(self, other: Decimal) -> (r: Result<Decimal, OverflowError>)
        ensures
            r == spec_checked_mul(self.atomics, other.atomics),
    {
        match cw_checked_multiply_ratio(self.atomics, other.atomics, DECIMAL_FRACTIONAL) {
            Some(atomics) => Ok(Decimal { atomics }),
            None => Err(
                OverflowError { operation: OverflowOperation::Mul, operand1: self, operand2: other },
            ),
        }
    }

    /// `self` raised to the power `n` by repeated squaring, each step floored
    /// to 18 fractional digits; fails with an overflow error when one of the
    /// intermediate checked multiplications does.
    pub fn checked_pow(self, n: u32) -> (r: Result<Decimal, OverflowError>)
        requires
            !pow_aborts(self.atomics, n),
        ensures
            r == spec_checked_pow(self.atomics, n),
    {
        let mut x = self;
        let mut k = n;
        if k == 0 {
            return Ok(Decimal::one());
        }
        let mut y = Decimal::one();
        while k > 1
            invariant
                k >= 1,
                n != 0,
                pow_loop(x.atomics, y.atomics, k) == pow_loop(self.atomics, DECIMAL_FRACTIONAL, n),
                !pow_aborts(self.atomics, n),
            decreases k,
        {
            if k % 2 == 0 {
                x = match x.checked_mul(x) {
                    Ok(v) => v,
                    Err(e) => return Err(e),
                };
                k = k / 2;
            } else {
                y = match x.checked_mul(y) {
                    Ok(v) => v,
                    Err(e) => return Err(e),
                };
                x = match x.checked_mul(x) {
                    Ok(v) => v,
                    Err(e) => return Err(e),
                };
                k = (k - 1) / 2;
            }
        }
        Ok(x.mul(y))
    }
}

/// Whether `checked_pow(x, n)` would abort, which its callers must rule out
/// first.
pub fn pow_overflows(x: Decimal, n: u32) -> (r: bool)
    ensures
        r == pow_aborts(x.atomics, n),
{
    if n == 0 {
        return false;
    }
    let mut b = x;
    let mut k = n;
    let mut y = Decimal::one();
    while k > 1
        invariant
            k >= 1,
            n != 0,
            pow_loop(b.atomics, y.atomics, k) == pow_loop(x.atomics, DECIMAL_FRACTIONAL, n),
        decreases k,
    {
        if k % 2 == 0 {
            b = match b.checked_mul(b) {
                Ok(v) => v,
                Err(_) => return false,
            };
            k = k / 2;
        } else {
            y = match b.checked_mul(y) {
                Ok(v) => v,
                Err(_) => return false,
            };
            b = match b.checked_mul(b) {
                Ok(v) => v,
                Err(_) => return false,
            };
            k = (k - 1) / 2;
        }
    }
    checked_uint_mul_decimal(b.atomics, y).is_none()
}

/// The square-and-multiply loop never moves away from `1.0`.
proof fn lemma_pow_loop_one(k: u32)
    ensures
        pow_loop(DECIMAL_FRACTIONAL, DECIMAL_FRACTIONAL, k) == Ok::<(u128, u128), OverflowError>(
            (DECIMAL_FRACTIONAL, DECIMAL_FRACTIONAL),
        ),
    decreases k,
{
    let s = DECIMAL_FRACTIONAL;
    assert(s * s == 1_000_000_000_000_000_000_000_000_000_000_000_000int) by (nonlinear_arith)
        requires
            s == 1_000_000_000_000_000_000u128,
    ;
    assert(mul_floor(s as int, s as int) == s as int) by {
        vstd::arithmetic::div_mod::lemma_div_by_multiple(s as int, s as int);
    }
    if k > 1 {
        if k % 2 == 0 {
            lemma_pow_loop_one(k / 2);
        } else {
            lemma_pow_loop_one(((k - 1) / 2) as u32);
        }
    }
}

/// `floor(a * 10^18 * c * 10^18 / 10^18) == a * c * 10^18`: whole numbers
/// multiply exactly.
proof fn lemma_mul_floor_whole(a: int, c: int)
    requires
        a >= 0,
        c >= 0,
    ensures
        mul_floor(a * frac(), c * frac()) == a * c * frac(),
{
    let f = frac();
    assert((a * f) * (c * f) == (a * c * f) * f) by (nonlinear_arith);
    vstd::arithmetic::div_mod::lemma_div_by_multiple(a * c * f, f);
}

/// The square-and-multiply loop on whole numbers `a` and `b` stays on whole
/// numbers, whose product is `a^k * b`.
proof fn lemma_pow_loop_whole(a: int, b: int, k: u32) -> (r: (int, int))
    requires
        a >= 1,
        b >= 1,
        k >= 1,
        pow(a, k as nat) * b * frac() <= u128::MAX,
    ensures
        r.0 >= 1,
        r.1 >= 1,
        r.0 * r.1 == pow(a, k as nat) * b,
        pow_loop((a * frac()) as u128, (b * frac()) as u128, k) == Ok::<(u128, u128), OverflowError>(
            ((r.0 * frac()) as u128, (r.1 * frac()) as u128),
        ),
    decreases k,
{
    let f = frac();
    let p = pow(a, k as nat);
    vstd::arithmetic::power::lemma_pow1(a);
    vstd::arithmetic::power::lemma_pow_increases(a as nat, 1, k as nat);
    assert(p * b * f >= p * f && p * f >= a * f && a * f >= f) by (nonlinear_arith)
        requires
            p >= a,
            a >= 1,
            b >= 1,
            f > 0,
    ;
    if k == 1 {
        (a, b)
    } else {
        let a2 = a * a;
        vstd::arithmetic::power::lemma_square_is_pow2(a);
        vstd::arithmetic::power::lemma_pow_increases(a as nat, 2, k as nat);
        assert(a2 >= 1 && a2 * f <= p * b * f) by (nonlinear_arith)
            requires
                a2 == a * a,
                a2 <= p,
                a >= 1,
                b >= 1,
                f > 0,
        ;
        lemma_mul_floor_whole(a, a);
        assert(spec_checked_mul((a * f) as u128, (a * f) as u128) == Ok::<Decimal, OverflowError>(
            Decimal { atomics: (a2 * f) as u128 },
        ));
        if k % 2 == 0 {
            vstd::arithmetic::power::lemma_pow_multiplies(a, 2, (k / 2) as nat);
            assert(2 * ((k / 2) as nat) == k as nat);
            lemma_pow_loop_whole(a2, b, k / 2)
        } else {
            let ab = a * b;
            assert(ab >= 1 && ab * f <= p * b * f && b * f <= p * b * f) by (nonlinear_arith)
                requires
                    ab == a * b,
                    a <= p,
                    a >= 1,
                    b >= 1,
                    f > 0,
            ;
            lemma_mul_floor_whole(a, b);
            assert(spec_checked_mul((a * f) as u128, (b * f) as u128) == Ok::<Decimal, OverflowError>(
                Decimal { atomics: (ab * f) as u128 },
            ));
            let h = ((k - 1) / 2) as u32;
            vstd::arithmetic::power::lemma_pow_multiplies(a, 2, h as nat);
            vstd::arithmetic::power::lemma_pow_adds(a, (2 * h) as nat, 1);
            assert(2 * h + 1 == k);
            assert(pow(a2, h as nat) * ab == p * b) by (nonlinear_arith)
                requires
                    pow(a2, h as nat) == pow(a, (2 * h) as nat),
                    pow(a, (2 * h) as nat) * pow(a, 1) == p,
                    pow(a, 1) == a,
                    ab == a * b,
            ;
            assert(pow(a2, h as nat) * ab * f <= u128::MAX) by (nonlinear_arith)
                requires
                    pow(a2, h as nat) * ab == p * b,
                    p * b * f <= u128::MAX,
            ;
            lemma_pow_loop_whole(a2, ab, h)
        }
    }
}

/// Law: powers of a whole number are exact: raising `m` to the power `n`
/// gives `m^n` whenever that fits, just as `n` multiplications one at a time
/// would, and does not abort.
pub proof fn law_pow_of_whole_number(m: int, n: u32)
    requires
        m >= 1,
        pow(m, n as nat) * frac() <= u128::MAX,
    ensures
        !pow_aborts((m * frac()) as u128, n),
        spec_checked_pow((m * frac()) as u128, n) == Ok::<Decimal, OverflowError>(
            Decimal { atomics: (pow(m, n as nat) * frac()) as u128 },
        ),
{
    if n == 0 {
        vstd::arithmetic::power::lemma_pow0(m);
    } else {
        let f = frac();
        assert((1 * f) as u128 == DECIMAL_FRACTIONAL);
        assert(pow(m, n as nat) * 1 * f == pow(m, n as nat) * f);
        let p = pow(m, n as nat);
        vstd::arithmetic::power::lemma_pow1(m);
        vstd::arithmetic::power::lemma_pow_increases(m as nat, 1, n as nat);
        assert(m * f <= p * f) by (nonlinear_arith)
            requires
                m <= p,
                f > 0,
        ;
        let r = lemma_pow_loop_whole(m, 1, n);
        lemma_mul_floor_whole(r.0, r.1);
        assert(r.0 * f <= p * f && r.1 * f <= p * f && r.0 * f >= 0 && r.1 * f >= 0)
            by (nonlinear_arith)
            requires
                r.0 >= 1,
                r.1 >= 1,
                r.0 * r.1 == p,
                f > 0,
        ;
        assert(mul_floor(r.0 * f, r.1 * f) == p * f);
    }
}

/// Law: raising to the power 0 gives `1.0`, raising to the power 1 gives the
/// base back unchanged, and every power of `1.0` is `1.0`; none of these
/// overflow or abort.
pub proof fn law_pow_identities(x: u128, n: u32)
    ensures
        spec_checked_pow(x, 0) == Ok::<Decimal, OverflowError>(Decimal { atomics: DECIMAL_FRACTIONAL }),
        !pow_aborts(x, 1),
        spec_checked_pow(x, 1) == Ok::<Decimal, OverflowError>(Decimal { atomics: x }),
        !pow_aborts(DECIMAL_FRACTIONAL, n),
        spec_checked_pow(DECIMAL_FRACTIONAL, n) == Ok::<Decimal, OverflowError>(
            Decimal { atomics: DECIMAL_FRACTIONAL },
        ),
{
    let s = DECIMAL_FRACTIONAL as int;
    assert(mul_floor(x as int, s) == x as int) by {
        vstd::arithmetic::div_mod::lemma_div_by_multiple(x as int, s);
    }
    lemma_pow_loop_one(n);
    assert(mul_floor(s, s) == s) by {
        vstd::arithmetic::div_mod::lemma_div_by_multiple(s, s);
    }
}

/// Law: every positive power of `0.0` is `0.0`.
pub proof fn law_pow_of_zero(n: u32)
    requires
        n > 0,
    ensures
        !pow_aborts(0, n),
        spec_checked_pow(0, n) == Ok::<Decimal, OverflowError>(Decimal { atomics: 0 }),
{
    lemma_pow_loop_zero(0, DECIMAL_FRACTIONAL, n);
}

/// From base `0.0` the loop ends with base `0.0`, and the accumulator is
/// either untouched or `0.0`.
proof fn lemma_pow_loop_zero(x: u128, y: u128, k: u32)
    requires
        x == 0,
        y <= DECIMAL_FRACTIONAL,
    ensures
        pow_loop(x, y, k) matches Ok((xf, yf)) && xf == 0 && yf <= DECIMAL_FRACTIONAL,
    decreases k,
{
    if k > 1 {
        assert(mul_floor(0, y as int) == 0);
        assert(mul_floor(0, 0) == 0);
        if k % 2 == 0 {
            lemma_pow_loop_zero(0, y, k / 2);
        } else {
            lemma_pow_loop_zero(0, 0, ((k - 1) / 2) as u32);
        }
    }
}

} // verus!
