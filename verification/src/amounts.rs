//! Exact fractions for exchange rates and money amounts.
//!
//! A rate is a positive multiplier kept as a fraction `num / den`, so that
//! its reciprocal (the flipped direction of the same rate) is exact: the
//! numerator and denominator simply trade places.  Amounts are signed
//! fractions; scaling an amount by a rate multiplies numerators and
//! denominators and is exact as well, because the result type is wide
//! enough to hold any such product.

use vstd::prelude::*;

verus! {

/// A positive exchange-rate multiplier `num / den`.
#[derive(Clone, Copy, PartialEq, Eq, Structural, Debug)]
pub struct Rate {
    pub num: u32,
    pub den: u32,
}

impl Rate {
    /// A rate is well formed when both parts are nonzero, which makes the
    /// fraction positive and its reciprocal defined.
    pub open spec fn wf(self) -> bool {
        self.num >= 1 && self.den >= 1
    }

    /// Builds a rate, rejecting fractions that are zero or undefined.
    pub fn new(num: u32, den: u32) -> (r: Option<Rate>)
        ensures
            r is Some <==> (num >= 1 && den >= 1),
            r matches Some(rt) ==> rt.num == num && rt.den == den && rt.wf(),
    {
        if num >= 1 && den >= 1 {
            Some(Rate { num, den })
        } else {
            None
        }
    }

    /// The reverse-direction multiplier: the exact reciprocal.
    pub fn flip(&self) -> (r: Rate)
        ensures
            r == flip_rate(*self),
            self.wf() ==> r.wf(),
    {
        Rate { num: self.den, den: self.num }
    }
}

/// The reciprocal of a rate, as a value.
pub open spec fn flip_rate(r: Rate) -> Rate {
    Rate { num: r.den, den: r.num }
}

/// A signed amount of money `num / den`.
#[derive(Clone, Copy, PartialEq, Eq, Structural, Debug)]
pub struct Amount {
    pub num: i64,
    pub den: u64,
}

impl Amount {
    pub open spec fn wf(self) -> bool {
        self.den >= 1
    }
}

/// An amount after scaling by a rate.  The parts are wide enough that the
/// product of any well-formed `Amount` and `Rate` fits without rounding.
#[derive(Clone, Copy, PartialEq, Eq, Structural, Debug)]
pub struct WideAmount {
    pub num: i128,
    pub den: u128,
}

impl WideAmount {
    pub open spec fn wf(self) -> bool {
        self.den >= 1
    }
}

/// Numerator of `a` scaled by `r`.
pub open spec fn scaled_num(a: Amount, r: Rate) -> int {
    a.num * r.num
}

/// Denominator of `a` scaled by `r`.
pub open spec fn scaled_den(a: Amount, r: Rate) -> int {
    a.den * r.den
}

/// Two fractions denote the same value exactly when they cross-multiply
/// to the same product.
pub open spec fn frac_eq(n1: int, d1: int, n2: int, d2: int) -> bool {
    n1 * d2 == n2 * d1
}

/// Multiplies an amount by a rate; the product is exact.
pub fn scale(a: &Amount, r: &Rate) -> (w: WideAmount)
    requires
        a.wf(),
        r.wf(),
    ensures
        w.wf(),
        w.num == scaled_num(*a, *r),
        w.den == scaled_den(*a, *r),
{
    proof {
        lemma_scale_in_range(*a, *r);
    }
    let num: i128 = (a.num as i128) * (r.num as i128);
    let den: u128 = (a.den as u128) * (r.den as u128);
    WideAmount { num, den }
}

/// An amount unchanged, in the wide representation.
pub fn widen(a: &Amount) -> (w: WideAmount)
    requires
        a.wf(),
    ensures
        w.wf(),
        w.num == a.num,
        w.den == a.den,
{
    WideAmount { num: a.num as i128, den: a.den as u128 }
}

/// The product of a well-formed amount and rate fits the wide parts.
proof fn lemma_scale_in_range(a: Amount, r: Rate)
    requires
        a.wf(),
        r.wf(),
    ensures
        i128::MIN <= a.num * r.num <= i128::MAX,
        a.den * r.den <= u128::MAX,
        a.den * r.den >= 1,
{
    assert(i128::MIN <= a.num * r.num <= i128::MAX) by (nonlinear_arith)
        requires
            i64::MIN <= a.num <= i64::MAX,
            1 <= r.num <= u32::MAX,
    {
    }
    assert(1 <= a.den * r.den <= u128::MAX) by (nonlinear_arith)
        requires
            1 <= a.den <= u64::MAX,
            1 <= r.den <= u32::MAX,
    {
    }
}

/// Law: scaling a value by a rate and then scaling the result by the
/// flipped (reciprocal) rate yields a fraction equal in value to the
/// original amount.  The first scaling gives `scaled_num(a, r)` over
/// `scaled_den(a, r)`; the second multiplies those parts by the flipped
/// rate's parts, `r.den` and `r.num`.
pub proof fn lemma_scale_round_trip(a: Amount, r: Rate)
    requires
        a.wf(),
        r.wf(),
    ensures
        frac_eq(
            scaled_num(a, r) * flip_rate(r).num,
            scaled_den(a, r) * flip_rate(r).den,
            a.num as int,
            a.den as int,
        ),
{
    assert((a.num * r.num * r.den) * a.den == a.num * (a.den * r.den * r.num))
        by (nonlinear_arith);
}

} // verus!
