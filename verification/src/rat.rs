//! Ghost-level rational numbers.
//!
//! Every quantity in this library (a dose, a duration, an intensity) is an
//! exact non-negative rational.  This module gives the mathematical model:
//! a pair of an integer numerator and a positive integer denominator, with
//! value-level comparison and arithmetic.  Two representations stand for the
//! same value exactly when `rat_eq` holds; the executable layer in `frac`
//! mirrors these operations on machine integers.
use vstd::prelude::*;

verus! {

/// A rational number `n / d`.  Meaningful when `rat_wf` holds.
pub ghost struct Rat {
    pub n: int,
    pub d: int,
}

/// Well-formed: positive denominator, non-negative numerator.
pub open spec fn rat_wf(a: Rat) -> bool {
    a.d >= 1 && a.n >= 0
}

pub open spec fn rat_zero() -> Rat {
    Rat { n: 0, d: 1 }
}

pub open spec fn rat_one() -> Rat {
    Rat { n: 1, d: 1 }
}

/// Value equality: `a.n / a.d == b.n / b.d`, by cross-multiplication.
pub open spec fn rat_eq(a: Rat, b: Rat) -> bool {
    a.n * b.d == b.n * a.d
}

pub open spec fn rat_le(a: Rat, b: Rat) -> bool {
    a.n * b.d <= b.n * a.d
}

pub open spec fn rat_lt(a: Rat, b: Rat) -> bool {
    a.n * b.d < b.n * a.d
}

pub open spec fn rat_add(a: Rat, b: Rat) -> Rat {
    Rat { n: a.n * b.d + b.n * a.d, d: a.d * b.d }
}

pub open spec fn rat_sub(a: Rat, b: Rat) -> Rat {
    Rat { n: a.n * b.d - b.n * a.d, d: a.d * b.d }
}

/// `a / b`; meaningful when `b.n > 0`.
pub open spec fn rat_div(a: Rat, b: Rat) -> Rat {
    Rat { n: a.n * b.d, d: a.d * b.n }
}

/// Multiply the value by the integer `k`.
pub open spec fn rat_scale_num(a: Rat, k: int) -> Rat {
    Rat { n: a.n * k, d: a.d }
}

/// Divide the value by the integer `k`.
pub open spec fn rat_scale_den(a: Rat, k: int) -> Rat {
    Rat { n: a.n, d: a.d * k }
}

pub proof fn lemma_rat_eq_refl(a: Rat)
    ensures
        rat_eq(a, a),
{
}

/// Comparison respects value equality.
pub proof fn lemma_rat_le_congr(a: Rat, a2: Rat, b: Rat, b2: Rat)
    requires
        rat_wf(a),
        rat_wf(a2),
        rat_wf(b),
        rat_wf(b2),
        rat_eq(a, a2),
        rat_eq(b, b2),
    ensures
        rat_le(a, b) == rat_le(a2, b2),
        rat_lt(a, b) == rat_lt(a2, b2),
        rat_eq(a, b) == rat_eq(a2, b2),
{
    assert((a.n * b.d <= b.n * a.d) == (a2.n * b2.d <= b2.n * a2.d) && (a.n * b.d < b.n * a.d) == (
    a2.n * b2.d < b2.n * a2.d) && (a.n * b.d == b.n * a.d) == (a2.n * b2.d == b2.n * a2.d))
        by (nonlinear_arith)
        requires
            a.n * a2.d == a2.n * a.d,
            b.n * b2.d == b2.n * b.d,
            a.d >= 1,
            a2.d >= 1,
            b.d >= 1,
            b2.d >= 1,
    ;
}

/// Rearranging a product of four factors: pair the first with the third.
proof fn lemma_mul4_inner(x: int, y: int, z: int, w: int)
    ensures
        (x * y) * (z * w) == (x * z) * (y * w),
{
    vstd::arithmetic::mul::lemma_mul_is_associative(x, y, z * w);
    vstd::arithmetic::mul::lemma_mul_is_associative(y, z, w);
    vstd::arithmetic::mul::lemma_mul_is_commutative(y, z);
    vstd::arithmetic::mul::lemma_mul_is_associative(z, y, w);
    vstd::arithmetic::mul::lemma_mul_is_associative(x, z, y * w);
}

/// Rearranging a product of four factors: pair the first with the fourth.
proof fn lemma_mul4_outer(x: int, y: int, z: int, w: int)
    ensures
        (x * y) * (z * w) == (x * w) * (y * z),
{
    vstd::arithmetic::mul::lemma_mul_is_commutative(z, w);
    lemma_mul4_inner(x, y, w, z);
}

/// Subtraction respects value equality.
pub proof fn lemma_rat_sub_congr(a: Rat, a2: Rat, b: Rat, b2: Rat)
    requires
        rat_wf(a),
        rat_wf(a2),
        rat_wf(b),
        rat_wf(b2),
        rat_eq(a, a2),
        rat_eq(b, b2),
    ensures
        rat_eq(rat_sub(a, b), rat_sub(a2, b2)),
{
    let p = a.n * b.d;
    let q = b.n * a.d;
    let m = a2.d * b2.d;
    let p2 = a2.n * b2.d;
    let q2 = b2.n * a2.d;
    let m2 = a.d * b.d;
    vstd::arithmetic::mul::lemma_mul_is_distributive_sub_other_way(m, p, q);
    vstd::arithmetic::mul::lemma_mul_is_distributive_sub_other_way(m2, p2, q2);
    lemma_mul4_inner(a.n, b.d, a2.d, b2.d);
    lemma_mul4_outer(b.n, a.d, a2.d, b2.d);
    lemma_mul4_inner(a2.n, b2.d, a.d, b.d);
    lemma_mul4_outer(b2.n, a2.d, a.d, b.d);
    vstd::arithmetic::mul::lemma_mul_is_commutative(b2.d, b.d);
    vstd::arithmetic::mul::lemma_mul_is_commutative(a2.d, a.d);
}

/// Addition respects value equality.
pub proof fn lemma_rat_add_congr(a: Rat, a2: Rat, b: Rat, b2: Rat)
    requires
        rat_wf(a),
        rat_wf(a2),
        rat_wf(b),
        rat_wf(b2),
        rat_eq(a, a2),
        rat_eq(b, b2),
    ensures
        rat_eq(rat_add(a, b), rat_add(a2, b2)),
{
    let p = a.n * b.d;
    let q = b.n * a.d;
    let m = a2.d * b2.d;
    let p2 = a2.n * b2.d;
    let q2 = b2.n * a2.d;
    let m2 = a.d * b.d;
    vstd::arithmetic::mul::lemma_mul_is_distributive_add_other_way(m, p, q);
    vstd::arithmetic::mul::lemma_mul_is_distributive_add_other_way(m2, p2, q2);
    lemma_mul4_inner(a.n, b.d, a2.d, b2.d);
    lemma_mul4_outer(b.n, a.d, a2.d, b2.d);
    lemma_mul4_inner(a2.n, b2.d, a.d, b.d);
    lemma_mul4_outer(b2.n, a2.d, a.d, b.d);
    vstd::arithmetic::mul::lemma_mul_is_commutative(b2.d, b.d);
    vstd::arithmetic::mul::lemma_mul_is_commutative(a2.d, a.d);
}

/// Division respects value equality.
pub proof fn lemma_rat_div_congr(a: Rat, a2: Rat, b: Rat, b2: Rat)
    requires
        rat_wf(a),
        rat_wf(a2),
        rat_wf(b),
        rat_wf(b2),
        b.n >= 1,
        b2.n >= 1,
        rat_eq(a, a2),
        rat_eq(b, b2),
    ensures
        rat_eq(rat_div(a, b), rat_div(a2, b2)),
{
    assert((a.n * b.d) * (a2.d * b2.n) == (a2.n * b2.d) * (a.d * b.n)) by (nonlinear_arith)
        requires
            a.n * a2.d == a2.n * a.d,
            b.n * b2.d == b2.n * b.d,
            a.d >= 1,
            a2.d >= 1,
            b.d >= 1,
            b2.d >= 1,
    ;
}

/// Scaling the numerator by `k` and then the denominator by `k` (or the
/// other way round) restores the original value.
pub proof fn lemma_rat_scale_round_trip(a: Rat, k: int)
    requires
        rat_wf(a),
        k >= 1,
    ensures
        rat_eq(rat_scale_den(rat_scale_num(a, k), k), a),
        rat_eq(rat_scale_num(rat_scale_den(a, k), k), a),
{
    assert((a.n * k) * a.d == a.n * (a.d * k)) by (nonlinear_arith);
}

} // verus!
