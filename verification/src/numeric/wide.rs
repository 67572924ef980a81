//! Products of two 128-bit magnitudes, divided without losing the high
//! half.

use vstd::prelude::*;
use vstd::arithmetic::div_mod::lemma_fundamental_div_mod;
use vstd::arithmetic::div_mod::lemma_fundamental_div_mod_converse;

verus! {

/// `2^64`, the weight of the high half of a 128-bit magnitude.
pub const RADIX: u128 = 0x1_0000_0000_0000_0000;

/// `2^64` as a mathematical integer.
pub open spec fn radix() -> int {
    0x1_0000_0000_0000_0000
}

/// `floor(a * b / 2^64)` where that fits in 128 bits.
pub open spec fn shifted_product(a: int, b: int) -> Option<u128> {
    let q = (a * b) / radix();
    if q > u128::MAX {
        None
    } else {
        Some(q as u128)
    }
}

proof fn lemma_product_by_halves(a: int, b: int, ah: int, al: int, bh: int, bl: int, r: int)
    by (nonlinear_arith)
    requires
        a == ah * r + al,
        b == bh * r + bl,
    ensures
        a * b == ((ah * bh) * r + ah * bl + al * bh) * r + al * bl,
{
}

proof fn lemma_half_product_fits(x: int, y: int)
    by (nonlinear_arith)
    requires
        0 <= x < 0x1_0000_0000_0000_0000,
        0 <= y < 0x1_0000_0000_0000_0000,
    ensures
        0 <= x * y <= 0xFFFF_FFFF_FFFF_FFFE_0000_0000_0000_0001,
{
}

/// Multiplies two magnitudes and drops the low 64 bits of the 256-bit
/// product; `None` where what is left needs more than 128 bits.
pub fn mul_shift(a: u128, b: u128) -> (q: Option<u128>)
    ensures
        q == shifted_product(a as int, b as int),
{
    let ah: u128 = a / RADIX;
    let al: u128 = a % RADIX;
    let bh: u128 = b / RADIX;
    let bl: u128 = b % RADIX;
    proof {
        lemma_half_product_fits(ah as int, bh as int);
        lemma_half_product_fits(ah as int, bl as int);
        lemma_half_product_fits(al as int, bh as int);
        lemma_half_product_fits(al as int, bl as int);
        lemma_product_by_halves(
            a as int,
            b as int,
            ah as int,
            al as int,
            bh as int,
            bl as int,
            radix(),
        );
    }
    let hh: u128 = ah * bh;
    let hl: u128 = ah * bl;
    let lh: u128 = al * bh;
    let ll: u128 = al * bl;
    let carry: u128 = ll / RADIX;
    let top = match hh.checked_mul(RADIX) {
        Some(t) => t,
        None => {
            return None;
        },
    };
    let upper = match top.checked_add(hl) {
        Some(t) => t,
        None => {
            return None;
        },
    };
    let middle = match upper.checked_add(lh) {
        Some(t) => t,
        None => {
            return None;
        },
    };
    middle.checked_add(carry)
}

/// `2^127`, the largest divisor that `mul_div` takes.
pub const MAX_DIVISOR: u128 = 0x8000_0000_0000_0000_0000_0000_0000_0000;

/// `floor(a * b / c)` where that fits in 128 bits.
pub open spec fn product_quotient(a: int, b: int, c: int) -> Option<u128> {
    let q = (a * b) / c;
    if q > u128::MAX {
        None
    } else {
        Some(q as u128)
    }
}

proof fn lemma_product_of_double(a: int, half: int, c: int, q: int, r: int)
    by (nonlinear_arith)
    requires
        a * half == q * c + r,
    ensures
        a * (2 * half) == (2 * q) * c + 2 * r,
        a * (2 * half + 1) == (2 * q) * c + 2 * r + a,
{
}

proof fn lemma_carry(q: int, c: int, r: int)
    by (nonlinear_arith)
    ensures
        (q + 1) * c + (r - c) == q * c + r,
{
}

proof fn lemma_add_quotients(q: int, qa: int, c: int, r: int, ra: int)
    by (nonlinear_arith)
    ensures
        (q + qa) * c + (r + ra) == (q * c + r) + (qa * c + ra),
{
}

proof fn lemma_quotient_is_non_negative(p: int, c: int, q: int, r: int)
    by (nonlinear_arith)
    requires
        p >= 0,
        c > 0,
        0 <= r < c,
        p == q * c + r,
    ensures
        q >= 0,
{
}

/// One more than the quotient where it can be told, `None` where the
/// quotient is known not to fit or its successor does not fit.
fn successor(q: Option<u128>) -> (s: Option<u128>)
    ensures
        s == match q {
            Some(v) => if v + 1 > u128::MAX {
                None
            } else {
                Some((v + 1) as u128)
            },
            None => None::<u128>,
        },
{
    match q {
        Some(v) => v.checked_add(1),
        None => None,
    }
}

/// Quotient and remainder of the 256-bit product `a * b` by `c`; the
/// quotient is `None` where it needs more than 128 bits.
pub fn mul_div(a: u128, b: u128, c: u128) -> (qr: (Option<u128>, u128))
    requires
        0 < c <= MAX_DIVISOR,
    ensures
        qr.0 == product_quotient(a as int, b as int, c as int),
        qr.1 == (a * b) % (c as int),
    decreases b,
{
    if b == 0 {
        proof {
            assert(a * b == 0) by (nonlinear_arith)
                requires
                    b == 0,
            ;
            lemma_fundamental_div_mod_converse(0, c as int, 0, 0);
        }
        return (Some(0), 0);
    }
    let half: u128 = b / 2;
    let (qh, rh) = mul_div(a, half, c);
    let ghost qh_int = (a * half) / (c as int);
    let ghost q2 = 2 * qh_int;
    proof {
        lemma_fundamental_div_mod(a * half, c as int);
        assert(a * half == qh_int * c + rh) by (nonlinear_arith)
            requires
                a * half == c * qh_int + rh,
        ;
        lemma_product_of_double(a as int, half as int, c as int, qh_int, rh as int);
        assert(a * half >= 0) by (nonlinear_arith)
            requires
                a >= 0,
                half >= 0,
        ;
        lemma_quotient_is_non_negative(a * half, c as int, qh_int, rh as int);
    }
    // Twice the half product.
    let mut q: Option<u128> = match qh {
        Some(v) => v.checked_mul(2),
        None => None,
    };
    let mut r: u128 = rh * 2;
    let ghost mut q_int: int = q2;
    if r >= c {
        r = r - c;
        q = successor(q);
        proof {
            lemma_carry(q_int, c as int, r + c);
            q_int = q_int + 1;
        }
    }
    if b % 2 == 1 {
        let qa: u128 = a / c;
        let ra: u128 = a % c;
        proof {
            lemma_fundamental_div_mod(a as int, c as int);
            assert(a == qa * c + ra) by (nonlinear_arith)
                requires
                    a == c * qa + ra,
            ;
            lemma_add_quotients(q_int, qa as int, c as int, r as int, ra as int);
            q_int = q_int + qa;
        }
        q = match q {
            Some(v) => v.checked_add(qa),
            None => None,
        };
        r = r + ra;
        if r >= c {
            r = r - c;
            q = successor(q);
            proof {
                lemma_carry(q_int, c as int, r + c);
                q_int = q_int + 1;
            }
        }
    }
    proof {
        lemma_fundamental_div_mod_converse(a * b, c as int, q_int, r as int);
    }
    (q, r)
}

} // verus!
