//! Executable exact rationals.
//!
//! `Frac` is the machine representation of the ghost `Rat`: a `u64`
//! numerator over a `u64` denominator.  Arithmetic is exact and checked:
//! an operation returns `None` when the result's numerator or denominator
//! would not fit in a `u64`.  Each checked operation is mirrored by a spec
//! function (`add_spec`, `sub_spec`, ...) so that callers' contracts can
//! state precisely both the value produced and when the operation succeeds.
use vstd::prelude::*;

use crate::rat::{rat_add, rat_div, rat_eq, rat_le, rat_lt, rat_sub, Rat};

verus! {

/// An exact non-negative rational, `num / den`.  Meaningful when `wf`
/// holds (`den >= 1`).
#[derive(Clone, Copy, Debug, PartialEq, Eq, Structural)]
pub struct Frac {
    pub num: u64,
    pub den: u64,
}

impl View for Frac {
    type V = Rat;

    open spec fn view(&self) -> Rat {
        Rat { n: self.num as int, d: self.den as int }
    }
}

/// Mirror of `checked_add`: exact sum, or `None` when it does not fit.
pub open spec fn add_spec(a: Frac, b: Frac) -> Option<Frac> {
    let n = a.num * b.den + b.num * a.den;
    let d = a.den * b.den;
    if n <= u64::MAX && d <= u64::MAX {
        Some(Frac { num: n as u64, den: d as u64 })
    } else {
        None
    }
}

/// Mirror of `checked_sub`; meaningful when `b <= a` in value.
pub open spec fn sub_spec(a: Frac, b: Frac) -> Option<Frac> {
    let n = a.num * b.den - b.num * a.den;
    let d = a.den * b.den;
    if 0 <= n <= u64::MAX && d <= u64::MAX {
        Some(Frac { num: n as u64, den: d as u64 })
    } else {
        None
    }
}

/// Mirror of `checked_div`; meaningful when `b.num >= 1`.
pub open spec fn div_spec(a: Frac, b: Frac) -> Option<Frac> {
    let n = a.num * b.den;
    let d = a.den * b.num;
    if n <= u64::MAX && d <= u64::MAX && b.num >= 1 {
        Some(Frac { num: n as u64, den: d as u64 })
    } else {
        None
    }
}

/// Mirror of `checked_scale_num`: multiply the value by `k`.
pub open spec fn scale_num_spec(a: Frac, k: u64) -> Option<Frac> {
    if a.num * k <= u64::MAX {
        Some(Frac { num: (a.num * k) as u64, den: a.den })
    } else {
        None
    }
}

/// Mirror of `checked_scale_den`: divide the value by `k`.
pub open spec fn scale_den_spec(a: Frac, k: u64) -> Option<Frac> {
    if a.den * k <= u64::MAX {
        Some(Frac { num: a.num, den: (a.den * k) as u64 })
    } else {
        None
    }
}

impl Frac {
    pub open spec fn wf(self) -> bool {
        self.den >= 1
    }

    /// Construct `num / den`; `None` when the denominator is zero.
    pub fn new(num: u64, den: u64) -> (r: Option<Frac>)
        ensures
            r == if den >= 1 {
                Some(Frac { num, den })
            } else {
                None::<Frac>
            },
            r matches Some(f) ==> f.wf(),
    {
        if den >= 1 {
            Some(Frac { num, den })
        } else {
            None
        }
    }

    pub fn zero() -> (r: Frac)
        ensures
            r == (Frac { num: 0, den: 1 }),
            r.wf(),
    {
        Frac { num: 0, den: 1 }
    }

    pub fn one() -> (r: Frac)
        ensures
            r == (Frac { num: 1, den: 1 }),
            r.wf(),
    {
        Frac { num: 1, den: 1 }
    }

    pub fn is_zero(&self) -> (r: bool)
        ensures
            r == (self.num == 0),
    {
        self.num == 0
    }

    /// Value comparison `self <= other`, exact by cross-multiplication.
    pub fn le(&self, other: &Frac) -> (r: bool)
        requires
            self.wf(),
            other.wf(),
        ensures
            r == rat_le(self@, other@),
    {
        proof {
            lemma_u64_mul_fits(self.num, other.den);
            lemma_u64_mul_fits(other.num, self.den);
        }
        (self.num as u128) * (other.den as u128) <= (other.num as u128) * (self.den as u128)
    }

    /// Value comparison `self < other`.
    pub fn lt(&self, other: &Frac) -> (r: bool)
        requires
            self.wf(),
            other.wf(),
        ensures
            r == rat_lt(self@, other@),
    {
        proof {
            lemma_u64_mul_fits(self.num, other.den);
            lemma_u64_mul_fits(other.num, self.den);
        }
        (self.num as u128) * (other.den as u128) < (other.num as u128) * (self.den as u128)
    }

    /// Value equality (`1/2` equals `2/4`); distinct from `==`, which
    /// compares representations.
    pub fn value_eq(&self, other: &Frac) -> (r: bool)
        requires
            self.wf(),
            other.wf(),
        ensures
            r == rat_eq(self@, other@),
    {
        proof {
            lemma_u64_mul_fits(self.num, other.den);
            lemma_u64_mul_fits(other.num, self.den);
        }
        (self.num as u128) * (other.den as u128) == (other.num as u128) * (self.den as u128)
    }

    /// Exact checked addition.
    pub fn checked_add(&self, other: &Frac) -> (r: Option<Frac>)
        requires
            self.wf(),
            other.wf(),
        ensures
            r == add_spec(*self, *other),
            r matches Some(f) ==> f.wf() && f@ == rat_add(self@, other@),
    {
        proof {
            lemma_u64_mul_fits(self.num, other.den);
            lemma_u64_mul_fits(other.num, self.den);
            lemma_u64_mul_fits(self.den, other.den);
            lemma_mul_ge_one(self.den, other.den);
        }
        let p1 = (self.num as u128) * (other.den as u128);
        let p2 = (other.num as u128) * (self.den as u128);
        let d = (self.den as u128) * (other.den as u128);
        if p1 > u64::MAX as u128 || p2 > u64::MAX as u128 || d > u64::MAX as u128 {
            return None;
        }
        let n = p1 + p2;
        if n <= u64::MAX as u128 {
            Some(Frac { num: n as u64, den: d as u64 })
        } else {
            None
        }
    }

    /// Exact checked subtraction; the argument must not exceed `self` in
    /// value.
    pub fn checked_sub(&self, other: &Frac) -> (r: Option<Frac>)
        requires
            self.wf(),
            other.wf(),
            rat_le(other@, self@),
        ensures
            r == sub_spec(*self, *other),
            r matches Some(f) ==> f.wf() && f@ == rat_sub(self@, other@),
    {
        proof {
            lemma_u64_mul_fits(self.num, other.den);
            lemma_u64_mul_fits(other.num, self.den);
            lemma_u64_mul_fits(self.den, other.den);
            lemma_mul_ge_one(self.den, other.den);
        }
        let p1 = (self.num as u128) * (other.den as u128);
        let p2 = (other.num as u128) * (self.den as u128);
        let d = (self.den as u128) * (other.den as u128);
        let n = p1 - p2;
        if n <= u64::MAX as u128 && d <= u64::MAX as u128 {
            Some(Frac { num: n as u64, den: d as u64 })
        } else {
            None
        }
    }

    /// Exact checked division; the divisor must be positive.
    pub fn checked_div(&self, other: &Frac) -> (r: Option<Frac>)
        requires
            self.wf(),
            other.wf(),
            other.num >= 1,
        ensures
            r == div_spec(*self, *other),
            r matches Some(f) ==> f.wf() && f@ == rat_div(self@, other@),
    {
        proof {
            lemma_u64_mul_fits(self.num, other.den);
            lemma_u64_mul_fits(self.den, other.num);
            lemma_mul_ge_one(self.den, other.num);
        }
        let n = (self.num as u128) * (other.den as u128);
        let d = (self.den as u128) * (other.num as u128);
        if n <= u64::MAX as u128 && d <= u64::MAX as u128 {
            Some(Frac { num: n as u64, den: d as u64 })
        } else {
            None
        }
    }

    /// Multiply the value by the integer `k`, exactly.
    pub fn checked_scale_num(&self, k: u64) -> (r: Option<Frac>)
        requires
            self.wf(),
            k >= 1,
        ensures
            r == scale_num_spec(*self, k),
            r matches Some(f) ==> f.wf() && rat_eq(f@, crate::rat::rat_scale_num(self@, k as int)),
    {
        proof {
            lemma_u64_mul_fits(self.num, k);
        }
        let n = (self.num as u128) * (k as u128);
        if n <= u64::MAX as u128 {
            Some(Frac { num: n as u64, den: self.den })
        } else {
            None
        }
    }

    /// Divide the value by the integer `k`, exactly.
    pub fn checked_scale_den(&self, k: u64) -> (r: Option<Frac>)
        requires
            self.wf(),
            k >= 1,
        ensures
            r == scale_den_spec(*self, k),
            r matches Some(f) ==> f.wf() && rat_eq(f@, crate::rat::rat_scale_den(self@, k as int)),
    {
        proof {
            lemma_u64_mul_fits(self.den, k);
            lemma_mul_ge_one(self.den, k);
        }
        let d = (self.den as u128) * (k as u128);
        if d <= u64::MAX as u128 {
            Some(Frac { num: self.num, den: d as u64 })
        } else {
            None
        }
    }
}

/// A product of two positive `u64` values is positive.
proof fn lemma_mul_ge_one(a: u64, b: u64)
    requires
        a >= 1,
        b >= 1,
    ensures
        a * b >= 1,
{
    assert(a * b >= 1) by (nonlinear_arith)
        requires
            a >= 1,
            b >= 1,
    ;
}

/// A product of two `u64` values fits in a `u128`.
proof fn lemma_u64_mul_fits(a: u64, b: u64)
    ensures
        a * b <= u128::MAX,
        a * b >= 0,
{
    assert(a * b <= u128::MAX && a * b >= 0) by (nonlinear_arith)
        requires
            0 <= a <= u64::MAX,
            0 <= b <= u64::MAX,
    ;
}

} // verus!
