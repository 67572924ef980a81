//! Signed fixed-point numbers with 64 fractional bits and saturating
//! arithmetic.
//!
//! A `Fixed` stands for the real number `raw / 2^64`. Every operation is
//! total: a result outside the range of `i128` is held at the nearest end of
//! that range, so a runaway computation shows as a huge magnitude and never
//! as a failure.

use vstd::prelude::*;
use vstd::arithmetic::div_mod::lemma_fundamental_div_mod;
use vstd::arithmetic::div_mod::lemma_fundamental_div_mod_converse;
use crate::numeric::wide::mul_div;
use crate::numeric::wide::mul_shift;
use crate::numeric::wide::radix;

verus! {

/// Number of raw units in the value one.
pub const ONE_RAW: i128 = 0x1_0000_0000_0000_0000;

/// The largest magnitude a raw value can have, `2^127`.
pub const MIN_MAGNITUDE: u128 = 0x8000_0000_0000_0000_0000_0000_0000_0000;

/// The integer nearest to `v` that an `i128` can hold.
pub open spec fn clamp(v: int) -> int {
    if v < i128::MIN {
        i128::MIN as int
    } else if v > i128::MAX {
        i128::MAX as int
    } else {
        v
    }
}

/// The absolute value of an integer.
pub open spec fn magnitude(v: int) -> int {
    if v < 0 {
        -v
    } else {
        v
    }
}

/// The quotient of `p` by `d`, rounded toward zero.
pub open spec fn trunc_div(p: int, d: int) -> int {
    if (p < 0) == (d < 0) {
        magnitude(p) / magnitude(d)
    } else {
        -(magnitude(p) / magnitude(d))
    }
}

/// Half of `p`, rounded toward zero.
pub open spec fn trunc_half(p: int) -> int {
    if p >= 0 {
        p / 2
    } else {
        -((-p) / 2)
    }
}

/// The quotient of `p` by `2^64`, rounded toward zero.
pub open spec fn trunc_shift(p: int) -> int {
    if p >= 0 {
        p / 0x1_0000_0000_0000_0000
    } else {
        -((-p) / 0x1_0000_0000_0000_0000)
    }
}

/// The quotient of `x` by a positive `d`, rounded to the nearest integer,
/// halves upward.
pub open spec fn round_div(x: int, d: int) -> int {
    (2 * x + d) / (2 * d)
}

/// The rounded quotient of `x` by a positive `d` is the one integer `q`
/// with `q - 1/2 <= x / d < q + 1/2`.
pub proof fn lemma_round_div_is(x: int, d: int, q: int)
    requires
        d > 0,
    ensures
        round_div(x, d) == q <==> (2 * q - 1) * d <= 2 * x < (2 * q + 1) * d,
{
    let n = 2 * x + d;
    let m = 2 * d;
    lemma_fundamental_div_mod(n, m);
    let k = n / m;
    assert((2 * k - 1) * d + d == k * m && (2 * k + 1) * d + d == k * m + m) by (nonlinear_arith)
        requires
            m == 2 * d,
    ;
    assert((2 * q - 1) * d + d == q * m && (2 * q + 1) * d + d == q * m + m) by (nonlinear_arith)
        requires
            m == 2 * d,
    ;
    if k != q {
        assert(q * m + m <= k * m || k * m + m <= q * m) by (nonlinear_arith)
            requires
                k != q,
                m > 0,
        ;
    }
}

/// A real number `raw / 2^64`.
#[derive(Clone, Copy, PartialEq, Eq, Structural, Debug)]
pub struct Fixed {
    pub raw: i128,
}

impl View for Fixed {
    type V = int;

    /// The number in raw units, that is, multiplied by `2^64`.
    open spec fn view(&self) -> int {
        self.raw as int
    }
}

proof fn lemma_signed_product(a: int, b: int)
    by (nonlinear_arith)
    ensures
        a * b == if (a < 0) != (b < 0) {
            -(magnitude(a) * magnitude(b))
        } else {
            magnitude(a) * magnitude(b)
        },
        magnitude(a) * magnitude(b) >= 0,
{
}

proof fn lemma_zero_product(a: int, b: int)
    by (nonlinear_arith)
    ensures
        (a == 0 || b == 0) ==> a * b == 0,
        magnitude(a) * magnitude(b) == 0 ==> a * b == 0,
{
}

proof fn lemma_nonzero_product(a: int, b: int)
    by (nonlinear_arith)
    requires
        a != 0,
        b != 0,
    ensures
        (a < 0) == (b < 0) ==> a * b > 0,
        (a < 0) != (b < 0) ==> a * b < 0,
{
}

proof fn lemma_quotient_of_zero(c: int)
    requires
        c > 0,
    ensures
        0int / c == 0,
{
    lemma_fundamental_div_mod_converse(0, c, 0, 0);
}

proof fn lemma_rounded_quotient(x: int, d: int, q: int, r: int)
    requires
        d > 0,
        0 <= r < d,
        x == q * d + r,
    ensures
        round_div(x, d) == if r >= d - r {
            q + 1
        } else {
            q
        },
{
    let nearest = if r >= d - r {
        q + 1
    } else {
        q
    };
    assert((2 * nearest - 1) * d <= 2 * x < (2 * nearest + 1) * d) by (nonlinear_arith)
        requires
            x == q * d + r,
            0 <= r < d,
            nearest == if r >= d - r {
                q + 1
            } else {
                q
            },
    ;
    lemma_round_div_is(x, d, nearest);
}

/// The magnitude of a raw value.
pub fn magnitude_of(raw: i128) -> (m: u128)
    ensures
        m == magnitude(raw as int),
{
    if raw >= 0 {
        raw as u128
    } else if raw == i128::MIN {
        MIN_MAGNITUDE
    } else {
        (-raw) as u128
    }
}

impl Fixed {
    /// The number whose raw value is the integer nearest to `v` in range.
    pub open spec fn of(v: int) -> Fixed {
        Fixed { raw: clamp(v) as i128 }
    }

    pub open spec fn spec_zero() -> Fixed {
        Fixed { raw: 0 }
    }

    /// The number zero.
    #[verifier::when_used_as_spec(spec_zero)]
    pub fn zero() -> (r: Fixed)
        ensures
            r == Fixed::spec_zero(),
    {
        Fixed { raw: 0 }
    }

    pub open spec fn spec_one() -> Fixed {
        Fixed { raw: ONE_RAW }
    }

    /// The number one.
    #[verifier::when_used_as_spec(spec_one)]
    pub fn one() -> (r: Fixed)
        ensures
            r == Fixed::spec_one(),
    {
        Fixed { raw: ONE_RAW }
    }

    /// The number with the given raw value.
    pub fn from_raw(raw: i128) -> (r: Fixed)
        ensures
            r@ == raw,
    {
        Fixed { raw }
    }

    /// The raw value: the number multiplied by `2^64`.
    pub fn raw(self) -> (raw: i128)
        ensures
            raw == self@,
    {
        self.raw
    }

    pub open spec fn spec_from_int(n: i64) -> Fixed {
        Fixed { raw: (n * radix()) as i128 }
    }

    /// The whole number `n`, exactly.
    #[verifier::when_used_as_spec(spec_from_int)]
    pub fn from_int(n: i64) -> (r: Fixed)
        ensures
            r == Fixed::spec_from_int(n),
            r@ == n * radix(),
    {
        let wide: i128 = n as i128;
        Fixed { raw: wide * ONE_RAW }
    }

    /// The fraction `num / den`, rounded toward zero to a multiple of
    /// `2^-64`.
    pub fn from_ratio(num: i64, den: i64) -> (r: Fixed)
        requires
            den > 0,
        ensures
            r@ == trunc_div(num * radix(), den as int),
    {
        let scaled: i128 = (num as i128) * ONE_RAW;
        Fixed { raw: scaled / (den as i128) }
    }

    pub open spec fn spec_saturating_add(self, other: Fixed) -> Fixed {
        Fixed::of(self@ + other@)
    }

    /// The sum, held at the end of the range where it leaves the range.
    #[verifier::when_used_as_spec(spec_saturating_add)]
    pub fn saturating_add(self, other: Fixed) -> (r: Fixed)
        ensures
            r == self.spec_saturating_add(other),
    {
        match self.raw.checked_add(other.raw) {
            Some(raw) => Fixed { raw },
            None => if other.raw < 0 {
                Fixed { raw: i128::MIN }
            } else {
                Fixed { raw: i128::MAX }
            },
        }
    }

    pub open spec fn spec_saturating_sub(self, other: Fixed) -> Fixed {
        Fixed::of(self@ - other@)
    }

    /// The difference, held at the end of the range where it leaves the
    /// range.
    #[verifier::when_used_as_spec(spec_saturating_sub)]
    pub fn saturating_sub(self, other: Fixed) -> (r: Fixed)
        ensures
            r == self.spec_saturating_sub(other),
    {
        match self.raw.checked_sub(other.raw) {
            Some(raw) => Fixed { raw },
            None => if other.raw < 0 {
                Fixed { raw: i128::MAX }
            } else {
                Fixed { raw: i128::MIN }
            },
        }
    }

    pub open spec fn spec_saturating_neg(self) -> Fixed {
        Fixed::of(-self@)
    }

    /// The negation; that of the least number is the greatest.
    #[verifier::when_used_as_spec(spec_saturating_neg)]
    pub fn saturating_neg(self) -> (r: Fixed)
        ensures
            r == self.spec_saturating_neg(),
    {
        if self.raw == i128::MIN {
            Fixed { raw: i128::MAX }
        } else {
            Fixed { raw: -self.raw }
        }
    }

    pub open spec fn spec_saturating_abs(self) -> Fixed {
        Fixed::of(magnitude(self@))
    }

    /// The magnitude; that of the least number is the greatest.
    #[verifier::when_used_as_spec(spec_saturating_abs)]
    pub fn saturating_abs(self) -> (r: Fixed)
        ensures
            r == self.spec_saturating_abs(),
    {
        if self.raw < 0 {
            self.saturating_neg()
        } else {
            self
        }
    }

    pub open spec fn spec_double(self) -> Fixed {
        Fixed::of(2 * self@)
    }

    /// Twice the number, saturating.
    #[verifier::when_used_as_spec(spec_double)]
    pub fn double(self) -> (r: Fixed)
        ensures
            r == self.spec_double(),
    {
        self.saturating_add(self)
    }

    pub open spec fn spec_halve(self) -> Fixed {
        Fixed::of(trunc_half(self@))
    }

    /// Half the number, rounded toward zero.
    #[verifier::when_used_as_spec(spec_halve)]
    pub fn halve(self) -> (r: Fixed)
        ensures
            r == self.spec_halve(),
    {
        Fixed { raw: self.raw / 2 }
    }

    pub open spec fn spec_scale(self, k: int) -> Fixed {
        Fixed::of(k * self@)
    }

    /// The number taken `k` times, saturating.
    pub fn scale(self, k: i128) -> (r: Fixed)
        ensures
            r == self.spec_scale(k as int),
    {
        proof {
            lemma_signed_product(k as int, self.raw as int);
        }
        match k.checked_mul(self.raw) {
            Some(raw) => Fixed { raw },
            None => if (k < 0) != (self.raw < 0) {
                Fixed { raw: i128::MIN }
            } else {
                Fixed { raw: i128::MAX }
            },
        }
    }

    pub open spec fn spec_saturating_mul(self, other: Fixed) -> Fixed {
        Fixed::of(trunc_shift(self@ * other@))
    }

    /// The product, rounded toward zero to a multiple of `2^-64` and held at
    /// the end of the range where it leaves the range.
    #[verifier::when_used_as_spec(spec_saturating_mul)]
    pub fn saturating_mul(self, other: Fixed) -> (r: Fixed)
        ensures
            r == self.spec_saturating_mul(other),
    {
        let negative = (self.raw < 0) != (other.raw < 0);
        let a = magnitude_of(self.raw);
        let b = magnitude_of(other.raw);
        proof {
            lemma_signed_product(self.raw as int, other.raw as int);
        }
        match mul_shift(a, b) {
            Some(q) => {
                if negative {
                    if q >= MIN_MAGNITUDE {
                        Fixed { raw: i128::MIN }
                    } else {
                        Fixed { raw: -(q as i128) }
                    }
                } else {
                    if q >= MIN_MAGNITUDE {
                        Fixed { raw: i128::MAX }
                    } else {
                        Fixed { raw: q as i128 }
                    }
                }
            },
            None => if negative {
                Fixed { raw: i128::MIN }
            } else {
                Fixed { raw: i128::MAX }
            },
        }
    }

    pub open spec fn spec_mul_div(self, num: Fixed, den: Fixed) -> Fixed {
        if den@ != 0 {
            Fixed::of(trunc_div(self@ * num@, den@))
        } else if self@ * num@ > 0 {
            Fixed { raw: i128::MAX }
        } else if self@ * num@ < 0 {
            Fixed { raw: i128::MIN }
        } else {
            Fixed { raw: 0 }
        }
    }

    /// The number times `num / den`, computed from the exact product,
    /// rounded toward zero to a multiple of `2^-64` and held at the end of
    /// the range where it leaves the range. Where `den` is zero the result
    /// is the end of the range on the side of the product's sign, or zero
    /// for a product of zero.
    #[verifier::when_used_as_spec(spec_mul_div)]
    pub fn mul_div(self, num: Fixed, den: Fixed) -> (r: Fixed)
        ensures
            r == self.spec_mul_div(num, den),
    {
        let up = (self.raw < 0) == (num.raw < 0);
        proof {
            lemma_signed_product(self.raw as int, num.raw as int);
        }
        if den.raw == 0 {
            return if self.raw == 0 || num.raw == 0 {
                proof {
                    lemma_zero_product(self.raw as int, num.raw as int);
                }
                Fixed { raw: 0 }
            } else {
                proof {
                    lemma_nonzero_product(self.raw as int, num.raw as int);
                }
                if up {
                    Fixed { raw: i128::MAX }
                } else {
                    Fixed { raw: i128::MIN }
                }
            };
        }
        let a = magnitude_of(self.raw);
        let b = magnitude_of(num.raw);
        let c = magnitude_of(den.raw);
        let positive = up == (den.raw > 0);
        let (q, _) = mul_div(a, b, c);
        proof {
            lemma_zero_product(self.raw as int, num.raw as int);
            lemma_quotient_of_zero(c as int);
        }
        match q {
            Some(q) => {
                if positive {
                    if q >= MIN_MAGNITUDE {
                        Fixed { raw: i128::MAX }
                    } else {
                        Fixed { raw: q as i128 }
                    }
                } else {
                    if q >= MIN_MAGNITUDE {
                        Fixed { raw: i128::MIN }
                    } else {
                        Fixed { raw: -(q as i128) }
                    }
                }
            },
            None => if positive {
                Fixed { raw: i128::MAX }
            } else {
                Fixed { raw: i128::MIN }
            },
        }
    }

    pub open spec fn spec_saturating_div(self, den: Fixed) -> Fixed {
        self.spec_mul_div(Fixed::one(), den)
    }

    /// The quotient, rounded toward zero to a multiple of `2^-64` and held
    /// at the end of the range where it leaves the range; by zero, the end
    /// of the range on the side of the number's sign, or zero for zero.
    #[verifier::when_used_as_spec(spec_saturating_div)]
    pub fn saturating_div(self, den: Fixed) -> (r: Fixed)
        ensures
            r == self.spec_saturating_div(den),
    {
        self.mul_div(Fixed::one(), den)
    }

    /// Whether the magnitude of the number is greater than `bound`.
    pub open spec fn spec_exceeds(self, bound: Fixed) -> bool {
        self.spec_saturating_abs()@ > bound@
    }

    /// Whether the magnitude of the number is greater than `bound`.
    #[verifier::when_used_as_spec(spec_exceeds)]
    pub fn exceeds(self, bound: Fixed) -> (r: bool)
        ensures
            r == self.spec_exceeds(bound),
    {
        self.saturating_abs().raw > bound.raw
    }

    /// The quotient of a non-negative number by a positive one, rounded to
    /// the nearest integer, halves upward.
    pub fn rounded_quotient(self, unit: Fixed) -> (q: u128)
        requires
            self@ >= 0,
            unit@ > 0,
        ensures
            q == round_div(self@, unit@),
            (2 * q - 1) * unit@ <= 2 * self@ < (2 * q + 1) * unit@,
    {
        let whole: i128 = self.raw / unit.raw;
        let rest: i128 = self.raw % unit.raw;
        proof {
            lemma_fundamental_div_mod(self.raw as int, unit.raw as int);
            assert(self.raw == whole * unit.raw + rest) by (nonlinear_arith)
                requires
                    self.raw == unit.raw * whole + rest,
            ;
            lemma_rounded_quotient(self.raw as int, unit.raw as int, whole as int, rest as int);
            lemma_round_div_is(self@, unit@, round_div(self@, unit@));
        }
        if rest >= unit.raw - rest {
            (whole as u128) + 1
        } else {
            whole as u128
        }
    }
}

} // verus!
