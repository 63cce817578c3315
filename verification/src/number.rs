//! Fixed-point decimal numbers used for exchange rates.
//!
//! A `Number` holds `raw`, and stands for the value `raw / 10^12`. Products and
//! quotients are the exact values rounded toward zero to the nearest multiple of
//! `10^-12`.
use vstd::arithmetic::div_mod::*;
use vstd::arithmetic::mul::*;
use vstd::prelude::*;

verus! {

/// The raw value of one.
pub const NUMBER_ONE: u128 = 1_000_000_000_000u128;

/// `10^k`.
pub open spec fn pow10(k: nat) -> int
    decreases k,
{
    if k == 0 {
        1
    } else {
        10 * pow10((k - 1) as nat)
    }
}

/// A non-negative decimal with twelve fractional digits.
#[derive(Clone, Copy, Debug, Default)]
pub struct Number {
    pub raw: u128,
}

/// Raw value of the product of two numbers, rounded toward zero.
pub open spec fn mul_raw(a: int, b: int) -> int {
    (a * b) / (NUMBER_ONE as int)
}

/// Raw value of the quotient of two numbers, rounded toward zero.
pub open spec fn div_raw(a: int, b: int) -> int {
    (a * (NUMBER_ONE as int)) / b
}

/// Largest integer not above the number.
pub open spec fn floor_value(raw: int) -> int {
    raw / (NUMBER_ONE as int)
}

/// Smallest integer not below the number.
pub open spec fn ceil_value(raw: int) -> int {
    (raw + NUMBER_ONE - 1) / (NUMBER_ONE as int)
}

proof fn lemma_pow10_positive(k: nat)
    ensures
        pow10(k) >= 1,
    decreases k,
{
    if k > 0 {
        lemma_pow10_positive((k - 1) as nat);
    }
}

/// `floor(r * 10^12 / b)` for `r < b`, by twelve steps of decimal long division
/// that never leave `u128`.
fn scaled_fraction(r: u128, b: u128) -> (res: u128)
    requires
        r < b,
    ensures
        res == (r * (NUMBER_ONE as int)) / (b as int),
        res < NUMBER_ONE,
{
    let mut acc: u128 = 0;
    let mut rem: u128 = r;
    let mut k: u32 = 0;
    assert(pow10(0) == 1);
    while k < 12
        invariant
            0 <= k <= 12,
            r < b,
            rem < b,
            acc < pow10(k as nat),
            pow10(k as nat) <= 1_000_000_000_000,
            acc * b + rem == r * pow10(k as nat),
        decreases 12 - k,
    {
        // d = floor(10 * rem / b), t = (10 * rem) mod b, by ten additions of rem
        let mut d: u128 = 0;
        let mut t: u128 = 0;
        let mut j: u32 = 0;
        while j < 10
            invariant
                0 <= j <= 10,
                rem < b,
                t < b,
                d <= j,
                d * b + t == rem * j,
            decreases 10 - j,
        {
            proof {
                assert(rem * (j + 1) == rem * j + rem) by (nonlinear_arith);
                assert(d * b <= rem * j) by (nonlinear_arith)
                    requires
                        d * b + t == rem * j,
                        t >= 0,
                ;
            }
            if t >= b - rem {
                proof {
                    assert((d + 1) * b == d * b + b) by (nonlinear_arith);
                }
                t = t - (b - rem);
                d = d + 1;
            } else {
                t = t + rem;
            }
            j = j + 1;
        }
        proof {
            assert(pow10((k + 1) as nat) == 10 * pow10(k as nat));
            assert(d < 10) by (nonlinear_arith)
                requires
                    d * b + t == rem * 10,
                    rem < b,
                    t >= 0,
                    d <= 10,
                    b > 0,
            ;
            assert((acc * 10 + d) * b + t == r * pow10((k + 1) as nat)) by (nonlinear_arith)
                requires
                    acc * b + rem == r * pow10(k as nat),
                    d * b + t == rem * 10,
                    pow10((k + 1) as nat) == 10 * pow10(k as nat),
            ;
            assert(acc * 10 + d < pow10((k + 1) as nat)) by (nonlinear_arith)
                requires
                    acc < pow10(k as nat),
                    d < 10,
                    pow10((k + 1) as nat) == 10 * pow10(k as nat),
            ;
            if k < 11 {
                assert(pow10((k + 1) as nat) <= 1_000_000_000_000) by {
                    reveal_with_fuel(pow10, 13);
                    assert(k + 1 <= 11);
                    assert(pow10(11) == 100_000_000_000);
                    lemma_pow10_monotone((k + 1) as nat, 11);
                }
            } else {
                reveal_with_fuel(pow10, 13);
            }
        }
        acc = acc * 10 + d;
        rem = t;
        k = k + 1;
    }
    proof {
        reveal_with_fuel(pow10, 13);
        assert(pow10(12) == 1_000_000_000_000);
        lemma_fundamental_div_mod_converse(
            r * (NUMBER_ONE as int),
            b as int,
            acc as int,
            rem as int,
        );
    }
    acc
}

proof fn lemma_pow10_monotone(i: nat, j: nat)
    requires
        i <= j,
    ensures
        pow10(i) <= pow10(j),
    decreases j - i,
{
    if i < j {
        lemma_pow10_monotone(i, (j - 1) as nat);
        lemma_pow10_positive((j - 1) as nat);
    }
}

/// Dividing by a number of at least one never increases the dividend.
pub proof fn lemma_div_raw_at_most_dividend(a: int, b: int)
    requires
        a >= 0,
        b >= NUMBER_ONE,
    ensures
        0 <= div_raw(a, b) <= a,
{
    assert(a * NUMBER_ONE >= 0) by (nonlinear_arith)
        requires
            a >= 0,
    ;
    lemma_div_is_ordered_by_denominator(a * (NUMBER_ONE as int), NUMBER_ONE as int, b);
    lemma_div_multiples_vanish(a, NUMBER_ONE as int);
    assert(a * NUMBER_ONE == NUMBER_ONE * a) by (nonlinear_arith);
    lemma_div_pos_is_pos(a * (NUMBER_ONE as int), b);
}

/// Rounding a number up gives its rounded-down value, plus one exactly when the
/// number is not whole.
pub proof fn lemma_ceil_is_floor_or_next(raw: int)
    requires
        raw >= 0,
    ensures
        ceil_value(raw) == floor_value(raw) + (if raw % (NUMBER_ONE as int) == 0 {
            0int
        } else {
            1int
        }),
{
    let one = NUMBER_ONE as int;
    lemma_fundamental_div_mod(raw, one);
    lemma_mod_pos_bound(raw, one);
    let whole = raw / one;
    let part = raw % one;
    if part == 0 {
        lemma_fundamental_div_mod_converse(raw + one - 1, one, whole, one - 1);
    } else {
        lemma_fundamental_div_mod_converse(raw + one - 1, one, whole + 1, part - 1);
    }
}

/// `10^exp` for `exp <= 19`.
pub fn pow10_u64(exp: u8) -> (r: u64)
    requires
        exp <= 19,
    ensures
        r == pow10(exp as nat),
{
    let mut r: u64 = 1;
    let mut k: u8 = 0;
    while k < exp
        invariant
            0 <= k <= exp <= 19,
            r == pow10(k as nat),
        decreases exp - k,
    {
        proof {
            lemma_pow10_monotone((k + 1) as nat, 19);
            reveal_with_fuel(pow10, 20);
            assert(pow10(19) == 10_000_000_000_000_000_000);
        }
        r = r * 10;
        k = k + 1;
    }
    r
}

impl Number {
    /// The number one.
    pub fn one() -> (r: Number)
        ensures
            r.raw == NUMBER_ONE,
    {
        Number { raw: NUMBER_ONE }
    }

    /// The number zero.
    pub fn zero() -> (r: Number)
        ensures
            r.raw == 0,
    {
        Number { raw: 0 }
    }

    /// The whole number `n`.
    pub fn from_natural_u64(n: u64) -> (r: Number)
        ensures
            r.raw == n * NUMBER_ONE,
    {
        Number { raw: (n as u128) * NUMBER_ONE }
    }

    /// The ratio `numerator / denominator`, rounded toward zero.
    pub fn from_ratio(numerator: u64, denominator: u64) -> (r: Number)
        requires
            denominator > 0,
        ensures
            r.raw == div_raw(numerator as int, denominator as int),
    {
        Number { raw: (numerator as u128) * NUMBER_ONE / (denominator as u128) }
    }

    /// The product, or `None` where it exceeds the range of a `Number`.
    pub fn checked_mul(&self, other: &Number) -> (r: Option<Number>)
        ensures
            r is Some <==> mul_raw(self.raw as int, other.raw as int) <= u128::MAX,
            r matches Some(n) ==> n.raw == mul_raw(self.raw as int, other.raw as int),
    {
        let (small, large) = if self.raw <= other.raw {
            (self.raw, other.raw)
        } else {
            (other.raw, self.raw)
        };
        let exact = Ghost(mul_raw(self.raw as int, other.raw as int));
        let whole = large / NUMBER_ONE;
        let part = large % NUMBER_ONE;
        proof {
            lemma_fundamental_div_mod(large as int, NUMBER_ONE as int);
            lemma_mod_pos_bound(large as int, NUMBER_ONE as int);
            assert(self.raw * other.raw == small * large) by (nonlinear_arith)
                requires
                    (small == self.raw && large == other.raw) || (small == other.raw && large
                        == self.raw),
            ;
            // small * large = (whole * small) * ONE + part * small
            assert(small * large == (whole * small) * NUMBER_ONE + part * small) by (
            nonlinear_arith)
                requires
                    large == NUMBER_ONE * whole + part,
            ;
        }
        if small > u128::MAX / NUMBER_ONE {
            proof {
                // both factors exceed MAX / ONE, so the product overflows
                assert(small * large >= small * small) by (nonlinear_arith)
                    requires
                        small <= large,
                ;
                assert(small * small >= (u128::MAX / NUMBER_ONE + 1) * (u128::MAX / NUMBER_ONE
                    + 1)) by (nonlinear_arith)
                    requires
                        small >= u128::MAX / NUMBER_ONE + 1,
                ;
                lemma_div_is_ordered(
                    (u128::MAX / NUMBER_ONE + 1) * (u128::MAX / NUMBER_ONE + 1),
                    small * large,
                    NUMBER_ONE as int,
                );
            }
            return None;
        }
        proof {
            lemma_mul_upper_bound(part as int, NUMBER_ONE as int, small as int, (u128::MAX
                / NUMBER_ONE) as int);
        }
        let frac = part * small / NUMBER_ONE;
        proof {
            assert(part * small >= 0) by (nonlinear_arith)
                requires
                    part >= 0,
                    small >= 0,
            ;
            lemma_fundamental_div_mod(part * small, NUMBER_ONE as int);
            lemma_mod_pos_bound(part * small, NUMBER_ONE as int);
            // exact = whole * small + frac
            lemma_fundamental_div_mod_converse(
                small * large,
                NUMBER_ONE as int,
                whole * small + frac,
                (part * small) % (NUMBER_ONE as int),
            );
        }
        match whole.checked_mul(small) {
            None => {
                proof {
                    assert(whole * small >= 0) by (nonlinear_arith)
                        requires
                            whole >= 0,
                            small >= 0,
                    ;
                }
                None
            },
            Some(w) => match w.checked_add(frac) {
                None => None,
                Some(v) => Some(Number { raw: v }),
            },
        }
    }

    /// The quotient, or `None` where the divisor is zero or the quotient exceeds
    /// the range of a `Number`.
    pub fn checked_div(&self, other: &Number) -> (r: Option<Number>)
        ensures
            other.raw == 0 ==> r is None,
            other.raw > 0 ==> (r is Some <==> div_raw(self.raw as int, other.raw as int)
                <= u128::MAX),
            r matches Some(n) ==> n.raw == div_raw(self.raw as int, other.raw as int),
    {
        if other.raw == 0 {
            return None;
        }
        let a = self.raw;
        let b = other.raw;
        let q = a / b;
        let rem = a % b;
        let frac = scaled_fraction(rem, b);
        proof {
            lemma_fundamental_div_mod(a as int, b as int);
            lemma_mod_pos_bound(a as int, b as int);
            lemma_fundamental_div_mod(rem * (NUMBER_ONE as int), b as int);
            lemma_mod_pos_bound(rem * (NUMBER_ONE as int), b as int);
            assert(rem * NUMBER_ONE >= 0) by (nonlinear_arith)
                requires
                    rem >= 0,
            ;
            assert(a * NUMBER_ONE == (q * NUMBER_ONE + frac) * b + (rem * (NUMBER_ONE as int))
                % (b as int)) by (nonlinear_arith)
                requires
                    a == b * q + rem,
                    rem * NUMBER_ONE == b * frac + (rem * (NUMBER_ONE as int)) % (b as int),
            ;
            lemma_fundamental_div_mod_converse(
                a * (NUMBER_ONE as int),
                b as int,
                q * NUMBER_ONE + frac,
                (rem * (NUMBER_ONE as int)) % (b as int),
            );
            assert(q * NUMBER_ONE >= 0) by (nonlinear_arith)
                requires
                    q >= 0,
            ;
        }
        match q.checked_mul(NUMBER_ONE) {
            None => None,
            Some(w) => match w.checked_add(frac) {
                None => None,
                Some(v) => Some(Number { raw: v }),
            },
        }
    }

    /// Whether the number is below `other`.
    pub fn less_than(&self, other: &Number) -> (r: bool)
        ensures
            r == (self.raw < other.raw),
    {
        self.raw < other.raw
    }

    /// The largest whole number not above this number.
    pub fn floor_u64(&self) -> (r: u64)
        requires
            floor_value(self.raw as int) <= u64::MAX,
        ensures
            r == floor_value(self.raw as int),
    {
        (self.raw / NUMBER_ONE) as u64
    }

    /// The smallest whole number not below this number.
    pub fn ceil_u64(&self) -> (r: u64)
        requires
            ceil_value(self.raw as int) <= u64::MAX,
        ensures
            r == ceil_value(self.raw as int),
    {
        let whole = self.raw / NUMBER_ONE;
        let part = self.raw % NUMBER_ONE;
        proof {
            lemma_fundamental_div_mod(self.raw as int, NUMBER_ONE as int);
            lemma_mod_pos_bound(self.raw as int, NUMBER_ONE as int);
            if part == 0 {
                lemma_fundamental_div_mod_converse(
                    self.raw + NUMBER_ONE - 1,
                    NUMBER_ONE as int,
                    whole as int,
                    NUMBER_ONE - 1,
                );
            } else {
                lemma_fundamental_div_mod_converse(
                    self.raw + NUMBER_ONE - 1,
                    NUMBER_ONE as int,
                    whole + 1,
                    part - 1,
                );
            }
        }
        if part == 0 {
            whole as u64
        } else {
            (whole + 1) as u64
        }
    }
}

} // verus!
