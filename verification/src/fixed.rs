//! Fixed-point scalars.
//!
//! Every coordinate, colour component and angle in this library is a signed
//! 64-bit integer counting millionths: `FX_ONE` stands for the real value
//! `1.0`.  Angles are measured in half-turns, so `FX_ONE` is half a
//! revolution and `FX_TURN` a full one; the sine of an angle is computed by
//! a rational approximation that is exact at `0`, a quarter turn and a half
//! turn, and always stays within `[-FX_ONE, FX_ONE]`.

use vstd::arithmetic::div_mod::{lemma_div_is_ordered, lemma_div_multiples_vanish};
use vstd::prelude::*;

verus! {

/// The fixed-point unit: the integer standing for the real value `1.0`.
pub const FX_ONE: i64 = 1_000_000;

/// A quarter turn, when a scalar is read as an angle in half-turns.
pub const FX_HALF: i64 = 500_000;

/// A full turn, when a scalar is read as an angle in half-turns.
pub const FX_TURN: i64 = 2_000_000;

/// Magnitude bound under which all stored scene scalars are kept; products
/// of two such scalars still fit comfortably in an `i64` after rescaling.
pub const FX_LIM: i64 = 2_000_000_000_000;

/// A scalar small enough to take part in fixed-point products.
pub open spec fn fx_ok(v: i64) -> bool {
    -FX_LIM <= v <= FX_LIM
}

/// Magnitude of a mathematical integer.
pub open spec fn fx_abs(a: int) -> int {
    if a >= 0 {
        a
    } else {
        -a
    }
}

/// The fixed-point product: the mathematical product rescaled by `FX_ONE`,
/// rounded toward zero.
pub open spec fn fx_mul_spec(a: int, b: int) -> int {
    let p = a * b;
    if p >= 0 {
        p / (FX_ONE as int)
    } else {
        -((-p) / (FX_ONE as int))
    }
}

proof fn lemma_abs_mul(a: int, b: int)
    ensures
        fx_abs(a * b) == fx_abs(a) * fx_abs(b),
{
    assert(fx_abs(a * b) == fx_abs(a) * fx_abs(b)) by (nonlinear_arith);
}

/// A product of two bounded integers is bounded by the product of the
/// bounds.
pub proof fn lemma_mul_abs_bound(a: int, b: int, m: int, n: int)
    requires
        fx_abs(a) <= m,
        fx_abs(b) <= n,
    ensures
        fx_abs(a * b) <= m * n,
{
    lemma_abs_mul(a, b);
    assert(fx_abs(a) * fx_abs(b) <= m * n) by (nonlinear_arith)
        requires
            0 <= fx_abs(a) <= m,
            0 <= fx_abs(b) <= n,
    ;
}

/// Bound on the rescaled product: dividing a bounded nonnegative value by
/// `FX_ONE` keeps it under the corresponding bound.
pub proof fn lemma_fx_mul_bound(a: int, b: int, m: int, n: int)
    requires
        0 <= fx_abs(a) <= m,
        0 <= fx_abs(b) <= n,
        0 <= m,
        0 <= n,
    ensures
        fx_abs(fx_mul_spec(a, b)) <= (m * n) / (FX_ONE as int),
{
    lemma_abs_mul(a, b);
    assert(fx_abs(a) * fx_abs(b) <= m * n) by (nonlinear_arith)
        requires
            0 <= fx_abs(a) <= m,
            0 <= fx_abs(b) <= n,
    ;
    let p = a * b;
    if p >= 0 {
        lemma_div_is_ordered(p, m * n, FX_ONE as int);
    } else {
        lemma_div_is_ordered(-p, m * n, FX_ONE as int);
    }
}

/// Multiplies two fixed-point scalars, rounding toward zero.
pub fn fx_mul(a: i64, b: i64) -> (r: i64)
    requires
        fx_ok(a),
        fx_ok(b),
    ensures
        r == fx_mul_spec(a as int, b as int),
        fx_abs(r as int) <= (fx_abs(a as int) * fx_abs(b as int)) / (FX_ONE as int),
        fx_abs(b as int) <= FX_ONE as int ==> fx_abs(r as int) <= fx_abs(a as int),
        fx_abs(a as int) <= FX_ONE as int ==> fx_abs(r as int) <= fx_abs(b as int),
{
    proof {
        if fx_abs(b as int) <= FX_ONE as int {
            lemma_fx_mul_bound(a as int, b as int, fx_abs(a as int), FX_ONE as int);
            lemma_div_multiples_vanish(fx_abs(a as int), FX_ONE as int);
            assert(fx_abs(a as int) * (FX_ONE as int) == (FX_ONE as int) * fx_abs(a as int));
        }
        if fx_abs(a as int) <= FX_ONE as int {
            lemma_fx_mul_bound(a as int, b as int, FX_ONE as int, fx_abs(b as int));
            lemma_div_multiples_vanish(fx_abs(b as int), FX_ONE as int);
        }
    }
    let am: u64 = if a < 0 {
        (-a) as u64
    } else {
        a as u64
    };
    let bm: u64 = if b < 0 {
        (-b) as u64
    } else {
        b as u64
    };
    proof {
        assert((am as int) * (bm as int) <= (FX_LIM as int) * (FX_LIM as int)) by (nonlinear_arith)
            requires
                0 <= am <= FX_LIM as u64,
                0 <= bm <= FX_LIM as u64,
        ;
    }
    let prod: u128 = (am as u128) * (bm as u128);
    let q: u128 = prod / (FX_ONE as u128);
    proof {
        lemma_abs_mul(a as int, b as int);
        assert(prod == fx_abs((a as int) * (b as int)));
        assert(prod <= (FX_LIM as u128) * (FX_LIM as u128)) by (nonlinear_arith)
            requires
                prod == (am as u128) * (bm as u128),
                am <= FX_LIM as u64,
                bm <= FX_LIM as u64,
        ;
        lemma_div_is_ordered(
            prod as int,
            (FX_LIM as int) * (FX_LIM as int),
            FX_ONE as int,
        );
        assert(q <= i64::MAX as u128);
    }
    let mag: i64 = q as i64;
    let p_negative: bool = (a < 0) != (b < 0);
    if p_negative {
        proof {
            assert((a as int) * (b as int) <= 0) by (nonlinear_arith)
                requires
                    (a < 0 && b >= 0) || (a >= 0 && b < 0),
            ;
        }
        -mag
    } else {
        proof {
            assert((a as int) * (b as int) >= 0) by (nonlinear_arith)
                requires
                    (a < 0 && b < 0) || (a >= 0 && b >= 0),
            ;
        }
        mag
    }
}

/// One positive half-wave of the sine approximation, on angles in
/// `[0, FX_ONE]` (that is `[0, pi]` in radians): the rational formula
/// `16 u (1 - u) / (5 - 4 u (1 - u))` evaluated in fixed point.
pub open spec fn fx_halfwave_spec(x: int) -> int {
    let u = (x * ((FX_ONE as int) - x)) / (FX_ONE as int);
    (16 * u * (FX_ONE as int)) / (5 * (FX_ONE as int) - 4 * u)
}

fn fx_halfwave(x: i64) -> (r: i64)
    requires
        0 <= x <= FX_ONE,
    ensures
        r == fx_halfwave_spec(x as int),
        0 <= r <= FX_ONE,
{
    let xu: u64 = x as u64;
    let one: u64 = FX_ONE as u64;
    proof {
        assert(xu * (one - xu) <= 250_000 * 1_000_000) by (nonlinear_arith)
            requires
                0 <= xu <= one,
                one == 1_000_000,
        ;
    }
    let u: u64 = (xu * (one - xu)) / one;
    proof {
        lemma_div_is_ordered((xu * (one - xu)) as int, (250_000 * 1_000_000) as int, FX_ONE as int);
        assert(u <= 250_000);
    }
    let num: u64 = 16 * u * one;
    let den: u64 = 5 * one - 4 * u;
    let r: u64 = num / den;
    proof {
        assert(num <= 1_000_000 * (den as int)) by (nonlinear_arith)
            requires
                num == 16 * u * 1_000_000,
                den == 5_000_000 - 4 * u,
                u <= 250_000,
        ;
        lemma_div_is_ordered(num as int, 1_000_000 * (den as int), den as int);
        lemma_div_multiples_vanish(1_000_000, den as int);
        assert(r <= 1_000_000);
    }
    r as i64
}

/// Sine of an angle in `[0, FX_TURN]` half-turns: the positive half-wave on
/// the first half-turn, its mirror image below the axis on the second.
pub open spec fn fxsin_spec(a: int) -> int {
    if a <= FX_ONE as int {
        fx_halfwave_spec(a)
    } else {
        -fx_halfwave_spec(a - (FX_ONE as int))
    }
}

/// Fixed-point sine; the angle is in half-turns, already wrapped into one
/// full turn.
pub fn fxsin(a: i64) -> (r: i64)
    requires
        0 <= a <= FX_TURN,
    ensures
        r == fxsin_spec(a as int),
        -FX_ONE <= r <= FX_ONE,
{
    if a <= FX_ONE {
        fx_halfwave(a)
    } else {
        -fx_halfwave(a - FX_ONE)
    }
}

/// Cosine as the sine shifted a quarter turn forward, wrapped into one turn.
pub open spec fn fxcos_spec(a: int) -> int {
    let b = a + (FX_HALF as int);
    if b > FX_TURN as int {
        fxsin_spec(b - (FX_TURN as int))
    } else {
        fxsin_spec(b)
    }
}

/// Fixed-point cosine; the angle is in half-turns, already wrapped into one
/// full turn.
pub fn fxcos(a: i64) -> (r: i64)
    requires
        0 <= a <= FX_TURN,
    ensures
        r == fxcos_spec(a as int),
        -FX_ONE <= r <= FX_ONE,
{
    let b = a + FX_HALF;
    if b > FX_TURN {
        fxsin(b - FX_TURN)
    } else {
        fxsin(b)
    }
}

/// Wraps an angle that drifted at most one turn out of range back into
/// `[0, FX_TURN)`; the result is the representative of the same angle.
pub fn fx_wrap_angle(a: i64) -> (r: i64)
    requires
        -FX_TURN <= a < 2 * FX_TURN,
    ensures
        0 <= r < FX_TURN,
        r == (a as int) % (FX_TURN as int),
{
    let r: i64 = if a < 0 {
        a + FX_TURN
    } else if a >= FX_TURN {
        a - FX_TURN
    } else {
        a
    };
    proof {
        assert(r == (a as int) % (FX_TURN as int)) by (nonlinear_arith)
            requires
                -FX_TURN <= a < 2 * FX_TURN,
                0 <= r < FX_TURN,
                r == a || r == a + FX_TURN || r == a - FX_TURN,
        ;
    }
    r
}

/// A value clamped into the fixed-point range `[-FX_LIM, FX_LIM]`.
pub open spec fn fx_clamp_spec(v: int) -> int {
    if v > FX_LIM as int {
        FX_LIM as int
    } else if v < -FX_LIM as int {
        -FX_LIM as int
    } else {
        v
    }
}

/// Adds two in-range scalars and clamps the sum back into the fixed-point
/// range, so a drifting coordinate can never leave it.
pub fn fx_clamped_add(a: i64, b: i64) -> (r: i64)
    requires
        fx_ok(a),
        fx_ok(b),
    ensures
        r == fx_clamp_spec(a as int + b as int),
        fx_ok(r),
{
    let s = a + b;
    if s > FX_LIM {
        FX_LIM
    } else if s < -FX_LIM {
        -FX_LIM
    } else {
        s
    }
}

} // verus!
