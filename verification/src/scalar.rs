//! Exact values of the form `a + b * pi`.
//!
//! Areas and second moments of circular sections carry a factor of pi, while
//! rectangular sections are plain rationals.  Keeping the pi coefficient
//! symbolic makes every section-property formula in this library exact.
//! Because pi is irrational, a value `a + b * pi` with rational `a` and `b`
//! is zero only when both components are zero, so componentwise comparison of
//! the pairs (`pi_eq`) coincides with equality of the denoted real numbers.

use vstd::prelude::*;

use crate::rational::Frac;
use crate::rational::Rat;
use crate::rational::fits;
use crate::rational::frac_add;
use crate::rational::frac_eq;
use crate::rational::frac_mul;
use crate::rational::frac_neg;
use crate::rational::frac_sub;
use crate::rational::frac_wf;
use crate::rational::frac_zero;

verus! {

/// Mathematical value `rat + pi_coeff * pi` with unbounded rational components.
pub struct PiVal {
    /// Rational component.
    pub rat: Frac,
    /// Coefficient of pi.
    pub pi_coeff: Frac,
}

/// Both components are well-formed fractions.
pub open spec fn pi_wf(a: PiVal) -> bool {
    frac_wf(a.rat) && frac_wf(a.pi_coeff)
}

/// The two values denote the same real number.  Since pi is irrational this
/// is componentwise equality of the rational parts.
pub open spec fn pi_eq(a: PiVal, b: PiVal) -> bool {
    frac_eq(a.rat, b.rat) && frac_eq(a.pi_coeff, b.pi_coeff)
}

/// The value zero.
pub open spec fn pi_zero() -> PiVal {
    PiVal { rat: frac_zero(), pi_coeff: frac_zero() }
}

/// The plain rational value `a`.
pub open spec fn pi_of_rat(a: Frac) -> PiVal {
    PiVal { rat: a, pi_coeff: frac_zero() }
}

/// The value `a * pi`.
pub open spec fn pi_of_pi(a: Frac) -> PiVal {
    PiVal { rat: frac_zero(), pi_coeff: a }
}

/// Exact sum.
pub open spec fn pi_add(a: PiVal, b: PiVal) -> PiVal {
    PiVal { rat: frac_add(a.rat, b.rat), pi_coeff: frac_add(a.pi_coeff, b.pi_coeff) }
}

/// Exact difference.
pub open spec fn pi_sub(a: PiVal, b: PiVal) -> PiVal {
    PiVal { rat: frac_sub(a.rat, b.rat), pi_coeff: frac_sub(a.pi_coeff, b.pi_coeff) }
}

/// Exact negation.
pub open spec fn pi_neg(a: PiVal) -> PiVal {
    PiVal { rat: frac_neg(a.rat), pi_coeff: frac_neg(a.pi_coeff) }
}

/// Exact product with a plain rational factor.
pub open spec fn pi_scale(k: Frac, a: PiVal) -> PiVal {
    PiVal { rat: frac_mul(k, a.rat), pi_coeff: frac_mul(k, a.pi_coeff) }
}

/// The denoted real number is zero: both components vanish.
pub open spec fn pi_is_zero(a: PiVal) -> bool {
    frac_eq(a.rat, frac_zero()) && frac_eq(a.pi_coeff, frac_zero())
}

/// The exact sum of the two values is representable.
pub open spec fn pi_add_ok(a: PiVal, b: PiVal) -> bool {
    fits(frac_add(a.rat, b.rat)) && fits(frac_add(a.pi_coeff, b.pi_coeff))
}

/// The exact difference of the two values is representable.
pub open spec fn pi_sub_ok(a: PiVal, b: PiVal) -> bool {
    fits(frac_sub(a.rat, b.rat)) && fits(frac_sub(a.pi_coeff, b.pi_coeff))
}

/// The exact product with the rational factor `k` is representable.
pub open spec fn pi_scale_ok(k: Frac, a: PiVal) -> bool {
    fits(frac_mul(k, a.rat)) && fits(frac_mul(k, a.pi_coeff))
}

/// `pi_eq` is transitive across a well-formed value.
pub proof fn lemma_pi_eq_trans(a: PiVal, b: PiVal, c: PiVal)
    requires
        pi_eq(a, b),
        pi_eq(b, c),
        pi_wf(b),
    ensures
        pi_eq(a, c),
{
    crate::rational::lemma_frac_eq_trans(a.rat, b.rat, c.rat);
    crate::rational::lemma_frac_eq_trans(a.pi_coeff, b.pi_coeff, c.pi_coeff);
}

/// Sums of equal values are equal.
pub proof fn lemma_pi_add_congr(a: PiVal, a2: PiVal, b: PiVal, b2: PiVal)
    requires
        pi_eq(a, a2),
        pi_eq(b, b2),
    ensures
        pi_eq(pi_add(a, b), pi_add(a2, b2)),
{
    crate::rational::lemma_frac_add_congr(a.rat, a2.rat, b.rat, b2.rat);
    crate::rational::lemma_frac_add_congr(a.pi_coeff, a2.pi_coeff, b.pi_coeff, b2.pi_coeff);
}

/// Differences of equal values are equal.
pub proof fn lemma_pi_sub_congr(a: PiVal, a2: PiVal, b: PiVal, b2: PiVal)
    requires
        pi_eq(a, a2),
        pi_eq(b, b2),
    ensures
        pi_eq(pi_sub(a, b), pi_sub(a2, b2)),
{
    crate::rational::lemma_frac_sub_congr(a.rat, a2.rat, b.rat, b2.rat);
    crate::rational::lemma_frac_sub_congr(a.pi_coeff, a2.pi_coeff, b.pi_coeff, b2.pi_coeff);
}

/// Scalings by equal rational factors of equal values are equal.
pub proof fn lemma_pi_scale_congr(k: Frac, k2: Frac, a: PiVal, a2: PiVal)
    requires
        frac_eq(k, k2),
        pi_eq(a, a2),
    ensures
        pi_eq(pi_scale(k, a), pi_scale(k2, a2)),
{
    crate::rational::lemma_frac_mul_congr(k, k2, a.rat, a2.rat);
    crate::rational::lemma_frac_mul_congr(k, k2, a.pi_coeff, a2.pi_coeff);
}

/// Adding a zero-valued term to a value equal to `a2` stays equal to the sum
/// of `a2` and the other zero-valued term; subtracting one gives `a2` back.
pub proof fn lemma_pi_zero_terms(a: PiVal, a2: PiVal, z1: PiVal, z2: PiVal)
    requires
        pi_eq(a, a2),
        z1.rat.n == 0,
        z1.pi_coeff.n == 0,
        z2.rat.n == 0,
        z2.pi_coeff.n == 0,
    ensures
        pi_eq(pi_add(a, z1), pi_add(a2, z2)),
        pi_eq(pi_sub(a, z1), a2),
{
    crate::rational::lemma_frac_add_zero_congr(a.rat, a2.rat, z1.rat, z2.rat);
    crate::rational::lemma_frac_add_zero_congr(a.pi_coeff, a2.pi_coeff, z1.pi_coeff, z2.pi_coeff);
    crate::rational::lemma_frac_sub_zero_congr(a.rat, a2.rat, z1.rat);
    crate::rational::lemma_frac_sub_zero_congr(a.pi_coeff, a2.pi_coeff, z1.pi_coeff);
}

/// The difference of two equal values is zero.
pub proof fn lemma_pi_sub_self(x: PiVal, y: PiVal)
    requires
        pi_eq(x, y),
    ensures
        pi_is_zero(pi_sub(x, y)),
{
    crate::rational::lemma_frac_sub_self(x.rat, y.rat);
    crate::rational::lemma_frac_sub_self(x.pi_coeff, y.pi_coeff);
}

/// Scaling distributes over differences of values.
pub proof fn lemma_pi_scale_dist_sub(k: Frac, x: PiVal, y: PiVal)
    ensures
        pi_eq(pi_scale(k, pi_sub(x, y)), pi_sub(pi_scale(k, x), pi_scale(k, y))),
{
    crate::rational::lemma_frac_mul_dist_sub(k, x.rat, y.rat);
    crate::rational::lemma_frac_mul_dist_sub(k, x.pi_coeff, y.pi_coeff);
}

/// Swapping the order of two appended signed terms does not change a sum.
pub proof fn lemma_pi_append_swap(x: PiVal, t: PiVal, u: PiVal)
    ensures
        pi_eq(pi_add(pi_add(x, t), u), pi_add(pi_add(x, u), t)),
        pi_eq(pi_sub(pi_add(x, t), u), pi_add(pi_sub(x, u), t)),
        pi_eq(pi_add(pi_sub(x, t), u), pi_sub(pi_add(x, u), t)),
        pi_eq(pi_sub(pi_sub(x, t), u), pi_sub(pi_sub(x, u), t)),
{
    crate::rational::lemma_frac_append_swap(x.rat, t.rat, u.rat);
    crate::rational::lemma_frac_append_swap(x.pi_coeff, t.pi_coeff, u.pi_coeff);
}

/// Sums and differences of values can be regrouped.
pub proof fn lemma_pi_rearrange(a: PiVal, s: PiVal, b: PiVal, t: PiVal)
    ensures
        pi_eq(pi_sub(pi_add(a, s), pi_add(b, t)), pi_add(pi_sub(a, b), pi_sub(s, t))),
        pi_eq(pi_sub(pi_sub(a, s), pi_sub(b, t)), pi_sub(pi_sub(a, b), pi_sub(s, t))),
{
    crate::rational::lemma_frac_rearrange_add(a.rat, s.rat, b.rat, t.rat);
    crate::rational::lemma_frac_rearrange_add(a.pi_coeff, s.pi_coeff, b.pi_coeff, t.pi_coeff);
    crate::rational::lemma_frac_rearrange_sub(a.rat, s.rat, b.rat, t.rat);
    crate::rational::lemma_frac_rearrange_sub(a.pi_coeff, s.pi_coeff, b.pi_coeff, t.pi_coeff);
}

/// Scaling distributes over sums of values.
pub proof fn lemma_pi_scale_dist_add(k: Frac, x: PiVal, y: PiVal)
    ensures
        pi_eq(pi_scale(k, pi_add(x, y)), pi_add(pi_scale(k, x), pi_scale(k, y))),
{
    crate::rational::lemma_frac_mul_dist_add(k, x.rat, y.rat);
    crate::rational::lemma_frac_mul_dist_add(k, x.pi_coeff, y.pi_coeff);
}

/// A difference of rational factors distributes out of a scaling.
pub proof fn lemma_pi_scale_dist_left(c: Frac, g: Frac, a: PiVal)
    ensures
        pi_eq(pi_scale(frac_sub(c, g), a), pi_sub(pi_scale(c, a), pi_scale(g, a))),
{
    crate::rational::lemma_frac_mul_dist_sub_left(c, g, a.rat);
    crate::rational::lemma_frac_mul_dist_sub_left(c, g, a.pi_coeff);
}

/// Zero is a left identity of addition, structurally.
pub proof fn lemma_pi_zero_add(x: PiVal)
    ensures
        pi_add(pi_zero(), x) == x,
{
    crate::rational::lemma_frac_zero_add(x.rat);
    crate::rational::lemma_frac_zero_add(x.pi_coeff);
}

/// Scaling a well-formed value by a well-formed factor is well-formed.
pub proof fn lemma_pi_scale_wf(k: Frac, a: PiVal)
    requires
        frac_wf(k),
        pi_wf(a),
    ensures
        pi_wf(pi_scale(k, a)),
{
    crate::rational::lemma_frac_ops_wf(k, a.rat);
    crate::rational::lemma_frac_ops_wf(k, a.pi_coeff);
}

/// The exact operations keep values well-formed.
pub proof fn lemma_pi_ops_wf(a: PiVal, b: PiVal)
    requires
        pi_wf(a),
        pi_wf(b),
    ensures
        pi_wf(pi_add(a, b)),
        pi_wf(pi_sub(a, b)),
        pi_wf(pi_neg(a)),
{
    crate::rational::lemma_frac_ops_wf(a.rat, b.rat);
    crate::rational::lemma_frac_ops_wf(a.pi_coeff, b.pi_coeff);
}

/// Executable value `rat + pi_coeff * pi` over executable rationals.
#[derive(Clone, Copy, Debug)]
pub struct Scalar {
    rat: Rat,
    pi_coeff: Rat,
}

impl View for Scalar {
    type V = PiVal;

    closed spec fn view(&self) -> PiVal {
        PiVal { rat: self.rat@, pi_coeff: self.pi_coeff@ }
    }
}

impl Scalar {
    /// Both stored rationals are valid.
    pub open spec fn wf(self) -> bool {
        self.rat_part().wf() && self.pi_part().wf()
    }

    /// Rational component as a `Rat`.
    pub closed spec fn rat_part(self) -> Rat {
        self.rat
    }

    /// Pi coefficient as a `Rat`.
    pub closed spec fn pi_part(self) -> Rat {
        self.pi_coeff
    }

    /// The value zero.
    pub fn zero() -> (r: Scalar)
        ensures
            r@ == pi_zero(),
            r.wf(),
    {
        Scalar { rat: Rat::zero(), pi_coeff: Rat::zero() }
    }

    /// The plain rational value `a`.
    pub fn of_rat(a: Rat) -> (r: Scalar)
        requires
            a.wf(),
        ensures
            r@ == pi_of_rat(a@),
            r.wf(),
    {
        Scalar { rat: a, pi_coeff: Rat::zero() }
    }

    /// The value `a * pi`.
    pub fn of_pi(a: Rat) -> (r: Scalar)
        requires
            a.wf(),
        ensures
            r@ == pi_of_pi(a@),
            r.wf(),
    {
        Scalar { rat: Rat::zero(), pi_coeff: a }
    }

    /// Exact sum; `None` exactly when a component of the textbook result does
    /// not fit the representation.
    pub fn add(self, other: Scalar) -> (r: Option<Scalar>)
        requires
            self.wf(),
            other.wf(),
        ensures
            (r is Some) == pi_add_ok(self@, other@),
            r matches Some(q) ==> q@ == pi_add(self@, other@) && q.wf(),
    {
        let rat = self.rat.add(other.rat);
        let pi_coeff = self.pi_coeff.add(other.pi_coeff);
        match (rat, pi_coeff) {
            (Some(a), Some(b)) => Some(Scalar { rat: a, pi_coeff: b }),
            _ => None,
        }
    }

    /// Exact difference; `None` exactly when a component of the textbook
    /// result does not fit the representation.
    pub fn sub(self, other: Scalar) -> (r: Option<Scalar>)
        requires
            self.wf(),
            other.wf(),
        ensures
            (r is Some) == pi_sub_ok(self@, other@),
            r matches Some(q) ==> q@ == pi_sub(self@, other@) && q.wf(),
    {
        let rat = self.rat.sub(other.rat);
        let pi_coeff = self.pi_coeff.sub(other.pi_coeff);
        match (rat, pi_coeff) {
            (Some(a), Some(b)) => Some(Scalar { rat: a, pi_coeff: b }),
            _ => None,
        }
    }

    /// Exact product with a plain rational factor; `None` exactly when a
    /// component of the textbook result does not fit the representation.
    pub fn scale(self, k: Rat) -> (r: Option<Scalar>)
        requires
            self.wf(),
            k.wf(),
        ensures
            (r is Some) == pi_scale_ok(k@, self@),
            r matches Some(q) ==> q@ == pi_scale(k@, self@) && q.wf(),
    {
        let rat = k.mul(self.rat);
        let pi_coeff = k.mul(self.pi_coeff);
        match (rat, pi_coeff) {
            (Some(a), Some(b)) => Some(Scalar { rat: a, pi_coeff: b }),
            _ => None,
        }
    }

    /// Exact negation; never fails.
    pub fn neg(self) -> (r: Scalar)
        requires
            self.wf(),
        ensures
            r@ == pi_neg(self@),
            r.wf(),
    {
        Scalar { rat: self.rat.neg(), pi_coeff: self.pi_coeff.neg() }
    }

    /// Value comparison: equality of the denoted real numbers.
    pub fn eq_val(self, other: Scalar) -> (r: bool)
        requires
            self.wf(),
            other.wf(),
        ensures
            r == pi_eq(self@, other@),
    {
        self.rat.eq_val(other.rat) && self.pi_coeff.eq_val(other.pi_coeff)
    }

    /// Returns the rational component.
    pub fn rat_component(&self) -> (r: Rat)
        ensures
            r == self.rat_part(),
            r@ == self@.rat,
    {
        self.rat
    }

    /// Returns the coefficient of pi.
    pub fn pi_component(&self) -> (r: Rat)
        ensures
            r == self.pi_part(),
            r@ == self@.pi_coeff,
    {
        self.pi_coeff
    }

    /// The denoted real number is zero.
    pub fn is_zero(self) -> (r: bool)
        requires
            self.wf(),
        ensures
            r == pi_is_zero(self@),
    {
        self.rat.is_zero() && self.pi_coeff.is_zero()
    }
}

} // verus!
