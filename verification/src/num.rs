//! Exact fixed-point arithmetic for the animation core.
//!
//! Coordinates and sizes are plain `i64` values in caller-chosen units; times
//! are `u64` ticks. Linear interpolation and projection scaling are computed
//! over wide intermediates, so no caller-visible precondition is needed beyond
//! the result fitting its type.

use vstd::prelude::*;

verus! {

use vstd::arithmetic::div_mod::{
    lemma_fundamental_div_mod, lemma_fundamental_div_mod_converse_div, lemma_div_multiples_vanish,
};
use vstd::arithmetic::mul::lemma_mul_inequality;

/// Magnitude of a mathematical integer.
pub open spec fn abs_i(x: int) -> int {
    if x >= 0 {
        x
    } else {
        -x
    }
}

/// Linear interpolation from `a` (at `num == 0`) to `b` (at `num == den`),
/// rounded toward `a`. The quotient is taken on the nonnegative difference,
/// so the division is exact Euclidean division on both branches.
pub open spec fn lerp_spec(a: int, b: int, num: int, den: int) -> int {
    if b >= a {
        a + (b - a) * num / den
    } else {
        a - (a - b) * num / den
    }
}

/// Scaling a value by a nonnegative rational `num / den`, rounded toward
/// negative infinity (the sign lives in `a * num`; `den` is positive).
pub open spec fn mul_div_spec(a: int, num: int, den: int) -> int {
    a * num / den
}

/// For a nonnegative numerator the quotient by a positive divisor is
/// nonnegative and no larger than the numerator scaled by `num <= den`.
proof fn lemma_part_bounds(diff: int, num: int, den: int)
    requires
        0 <= diff,
        0 <= num <= den,
        0 < den,
    ensures
        0 <= diff * num / den <= diff,
{
    lemma_mul_inequality(num, den, diff);
    assert(num * diff <= den * diff);
    assert(diff * num == num * diff) by (nonlinear_arith);
    assert(diff * den == den * diff) by (nonlinear_arith);
    assert(0 <= diff * num) by (nonlinear_arith)
        requires
            0 <= diff,
            0 <= num,
    ;
    assert(diff * num / den >= 0) by {
        lemma_fundamental_div_mod(diff * num, den);
        assert(den * (diff * num / den) == diff * num - diff * num % den);
        if diff * num / den < 0 {
            assert(den * (diff * num / den) <= den * -1) by (nonlinear_arith)
                requires
                    0 < den,
                    diff * num / den <= -1,
            ;
        }
    }
    assert(diff * den / den == diff) by {
        lemma_div_multiples_vanish(diff, den);
        assert(den * diff == diff * den) by (nonlinear_arith);
    }
    assert(diff * num / den <= diff * den / den) by {
        vstd::arithmetic::div_mod::lemma_div_is_ordered(diff * num, diff * den, den);
    }
}

/// Splitting a scaled difference at `num`: walking `num / den` of the way and
/// the remaining `(den - num) / den` of the way loses at most one unit to
/// rounding. This is the integer form of the continuity modulus of `lerp_spec`.
proof fn lemma_split_div(diff: int, num: int, den: int)
    requires
        0 <= diff,
        0 <= num <= den,
        0 < den,
    ensures
        diff - diff * num / den <= diff * (den - num) / den + 1,
{
    let x = diff * num;
    let y = diff * (den - num);
    assert(x + y == diff * den) by (nonlinear_arith)
        requires
            x == diff * num,
            y == diff * (den - num),
    ;
    let q1 = x / den;
    let r1 = x % den;
    let q2 = y / den;
    let r2 = y % den;
    lemma_part_bounds(diff, num, den);
    lemma_part_bounds(diff, den - num, den);
    lemma_fundamental_div_mod(x, den);
    lemma_fundamental_div_mod(y, den);
    assert(0 <= r1 < den);
    assert(0 <= r2 < den);
    assert(x + y == den * (q1 + q2) + (r1 + r2)) by (nonlinear_arith)
        requires
            x == den * q1 + r1,
            y == den * q2 + r2,
    ;
    assert(diff * den / den == diff) by {
        lemma_div_multiples_vanish(diff, den);
        assert(den * diff == diff * den) by (nonlinear_arith);
    }
    if r1 + r2 < den {
        assert(x + y == (q1 + q2) * den + (r1 + r2)) by (nonlinear_arith)
            requires
                x + y == den * (q1 + q2) + (r1 + r2),
        ;
        lemma_fundamental_div_mod_converse_div(x + y, den, q1 + q2, r1 + r2);
        assert(diff == q1 + q2);
    } else {
        assert(x + y == (q1 + q2 + 1) * den + (r1 + r2 - den)) by (nonlinear_arith)
            requires
                x + y == den * (q1 + q2) + (r1 + r2),
        ;
        lemma_fundamental_div_mod_converse_div(x + y, den, q1 + q2 + 1, r1 + r2 - den);
        assert(diff == q1 + q2 + 1);
    }
}

/// At `num == 0` the interpolation sits exactly at `a`; at `num == den`
/// exactly at `b`: the endpoints are reproduced without rounding error.
pub proof fn lemma_lerp_endpoints(a: int, b: int, den: int)
    requires
        0 < den,
    ensures
        lerp_spec(a, b, 0, den) == a,
        lerp_spec(a, b, den, den) == b,
{
    if b >= a {
        assert((b - a) * 0 == 0) by (nonlinear_arith);
        assert(0int / den == 0) by {
            lemma_fundamental_div_mod_converse_div(0, den, 0, 0);
        }
        assert((b - a) * den / den == b - a) by {
            lemma_div_multiples_vanish(b - a, den);
            assert(den * (b - a) == (b - a) * den) by (nonlinear_arith);
        }
    } else {
        assert((a - b) * 0 == 0) by (nonlinear_arith);
        assert(0int / den == 0) by {
            lemma_fundamental_div_mod_converse_div(0, den, 0, 0);
        }
        assert((a - b) * den / den == a - b) by {
            lemma_div_multiples_vanish(a - b, den);
            assert(den * (a - b) == (a - b) * den) by (nonlinear_arith);
        }
    }
}

/// The interpolated value never leaves the closed interval spanned by the
/// endpoints.
pub proof fn lemma_lerp_within(a: int, b: int, num: int, den: int)
    requires
        0 <= num <= den,
        0 < den,
    ensures
        b >= a ==> a <= lerp_spec(a, b, num, den) <= b,
        b < a ==> b <= lerp_spec(a, b, num, den) <= a,
{
    if b >= a {
        lemma_part_bounds(b - a, num, den);
    } else {
        lemma_part_bounds(a - b, num, den);
    }
}

/// Continuity modulus of the interpolation: the distance from either endpoint
/// is the proportional share of the endpoint distance, up to one unit of
/// rounding. As `num` approaches `den`, the value approaches `b`; as `num`
/// approaches `0`, it approaches `a`.
pub proof fn lemma_lerp_continuous(a: int, b: int, num: int, den: int)
    requires
        0 <= num <= den,
        0 < den,
    ensures
        abs_i(lerp_spec(a, b, num, den) - b) <= abs_i(b - a) * (den - num) / den + 1,
        abs_i(lerp_spec(a, b, num, den) - a) <= abs_i(b - a) * num / den,
{
    if b >= a {
        let diff = b - a;
        lemma_part_bounds(diff, num, den);
        lemma_split_div(diff, num, den);
    } else {
        let diff = a - b;
        lemma_part_bounds(diff, num, den);
        lemma_split_div(diff, num, den);
        assert(abs_i(b - a) == diff);
    }
}

/// Exact interpolation between two fixed-point values. Computed over 128-bit
/// intermediates, so any `i64` endpoints and any `num <= den` are accepted.
pub fn lerp_i64(a: i64, b: i64, num: u64, den: u64) -> (r: i64)
    requires
        0 < den,
        num <= den,
    ensures
        r as int == lerp_spec(a as int, b as int, num as int, den as int),
{
    if b >= a {
        let diff: u128 = (b as i128 - a as i128) as u128;
        proof {
            assert((diff as int) * (num as int) <= 0xffff_ffff_ffff_ffff
                * 0xffff_ffff_ffff_ffff) by (nonlinear_arith)
                requires
                    0 <= diff as int <= 0xffff_ffff_ffff_ffff,
                    0 <= num as int <= 0xffff_ffff_ffff_ffff,
            ;
        }
        let q: u128 = diff * (num as u128) / (den as u128);
        proof {
            lemma_part_bounds(diff as int, num as int, den as int);
        }
        (a as i128 + q as i128) as i64
    } else {
        let diff: u128 = (a as i128 - b as i128) as u128;
        proof {
            assert((diff as int) * (num as int) <= 0xffff_ffff_ffff_ffff
                * 0xffff_ffff_ffff_ffff) by (nonlinear_arith)
                requires
                    0 <= diff as int <= 0xffff_ffff_ffff_ffff,
                    0 <= num as int <= 0xffff_ffff_ffff_ffff,
            ;
        }
        let q: u128 = diff * (num as u128) / (den as u128);
        proof {
            lemma_part_bounds(diff as int, num as int, den as int);
        }
        (a as i128 - q as i128) as i64
    }
}

/// Quotient of a negated nonnegative value rounds as the negated ceiling.
pub(crate) proof fn lemma_neg_div(m: int, den: int)
    requires
        0 <= m,
        0 < den,
    ensures
        (-m) / den == -((m + den - 1) / den),
{
    let q = m / den;
    let r = m % den;
    lemma_fundamental_div_mod(m, den);
    if r == 0 {
        assert(-m == (-q) * den + 0) by (nonlinear_arith)
            requires
                m == den * q + r,
                r == 0,
        ;
        lemma_fundamental_div_mod_converse_div(-m, den, -q, 0);
        assert(m + den - 1 == q * den + (den - 1)) by (nonlinear_arith)
            requires
                m == den * q + r,
                r == 0,
        ;
        lemma_fundamental_div_mod_converse_div(m + den - 1, den, q, den - 1);
    } else {
        assert(-m == (-q - 1) * den + (den - r)) by (nonlinear_arith)
            requires
                m == den * q + r,
        ;
        lemma_fundamental_div_mod_converse_div(-m, den, -q - 1, den - r);
        assert(m + den - 1 == (q + 1) * den + (r - 1)) by (nonlinear_arith)
            requires
                m == den * q + r,
        ;
        lemma_fundamental_div_mod_converse_div(m + den - 1, den, q + 1, r - 1);
    }
}

/// Scales `a` by the rational `num / den`, rounding toward negative infinity.
/// The exact mathematical result must fit an `i64`; the computation itself
/// cannot overflow its 128-bit intermediates.
pub fn mul_div_i64(a: i64, num: i64, den: i64) -> (r: i64)
    requires
        0 < den,
        i64::MIN <= mul_div_spec(a as int, num as int, den as int) <= i64::MAX,
    ensures
        r as int == mul_div_spec(a as int, num as int, den as int),
{
    proof {
        assert(-0x4000_0000_0000_0000_0000_0000_0000_0000 <= (a as int) * (num as int)
            <= 0x4000_0000_0000_0000_0000_0000_0000_0000) by (nonlinear_arith)
            requires
                -0x8000_0000_0000_0000 <= a as int <= 0x7fff_ffff_ffff_ffff,
                -0x8000_0000_0000_0000 <= num as int <= 0x7fff_ffff_ffff_ffff,
        ;
    }
    let prod: i128 = (a as i128) * (num as i128);
    if prod >= 0 {
        let q: u128 = (prod as u128) / (den as u128);
        q as i64
    } else {
        let mag: u128 = (-prod) as u128;
        let q: u128 = (mag + (den as u128) - 1) / (den as u128);
        proof {
            lemma_neg_div(mag as int, den as int);
        }
        (-(q as i128)) as i64
    }
}

/// Clamps a tick count into `[0, hi]`.
pub fn clamp_time(t: u64, hi: u64) -> (r: u64)
    ensures
        r == if t <= hi {
            t as int
        } else {
            hi as int
        },
{
    if t <= hi {
        t
    } else {
        hi
    }
}

} // verus!
