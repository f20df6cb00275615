//! Exact rational arithmetic.
//!
//! `Rat` is the executable rational number: a numerator/denominator pair of
//! `i64` values with a positive denominator.  Results are produced without
//! rounding; an operation returns `None` exactly when the textbook
//! numerator/denominator of the result does not fit the `i64` range.
//!
//! `Frac` is the unbounded mathematical counterpart used in specifications.
//! Two fractions denote the same rational number when `frac_eq` holds
//! (cross-multiplication); specifications relate results to the exact
//! mathematical value through it.

use vstd::prelude::*;

verus! {

/// Mathematical rational number: unbounded numerator and denominator.
/// Meaningful when the denominator is positive (`frac_wf`).
pub struct Frac {
    /// Numerator.
    pub n: int,
    /// Denominator.
    pub d: int,
}

/// A mathematical fraction is well-formed when its denominator is positive.
pub open spec fn frac_wf(a: Frac) -> bool {
    a.d >= 1
}

/// The two fractions denote the same rational number (cross-multiplication).
pub open spec fn frac_eq(a: Frac, b: Frac) -> bool {
    a.n * b.d == b.n * a.d
}

/// `a` denotes a strictly smaller number than `b` (valid for positive denominators).
pub open spec fn frac_lt(a: Frac, b: Frac) -> bool {
    a.n * b.d < b.n * a.d
}

/// `a` denotes a number no greater than `b` (valid for positive denominators).
pub open spec fn frac_le(a: Frac, b: Frac) -> bool {
    a.n * b.d <= b.n * a.d
}

/// The fraction `i / 1`.
pub open spec fn frac_int(i: int) -> Frac {
    Frac { n: i, d: 1 }
}

/// The fraction `0 / 1`.
pub open spec fn frac_zero() -> Frac {
    frac_int(0)
}

/// Exact sum of two fractions.
pub open spec fn frac_add(a: Frac, b: Frac) -> Frac {
    Frac { n: a.n * b.d + b.n * a.d, d: a.d * b.d }
}

/// Exact difference of two fractions.
pub open spec fn frac_sub(a: Frac, b: Frac) -> Frac {
    Frac { n: a.n * b.d - b.n * a.d, d: a.d * b.d }
}

/// Exact product of two fractions.
pub open spec fn frac_mul(a: Frac, b: Frac) -> Frac {
    Frac { n: a.n * b.n, d: a.d * b.d }
}

/// Exact negation of a fraction.
pub open spec fn frac_neg(a: Frac) -> Frac {
    Frac { n: -a.n, d: a.d }
}

/// Exact quotient of two fractions (divisor numerator must be nonzero),
/// with the sign moved into the numerator.
pub open spec fn frac_div(a: Frac, b: Frac) -> Frac {
    if b.n >= 0 {
        Frac { n: a.n * b.d, d: a.d * b.n }
    } else {
        Frac { n: -(a.n * b.d), d: -(a.d * b.n) }
    }
}

/// Largest magnitude allowed for a stored numerator or denominator.
pub const RAT_LIMIT: i64 = i64::MAX;

/// `x` lies in the symmetric representable range.
pub open spec fn in_range(x: int) -> bool {
    -(RAT_LIMIT as int) <= x <= RAT_LIMIT as int
}

/// Keeps a fraction when both components are representable, drops it otherwise.
/// Operations on `Rat` succeed exactly when `fit` of the textbook result is `Some`.
pub open spec fn fit(a: Frac) -> Option<Frac> {
    if in_range(a.n) && a.d <= RAT_LIMIT as int {
        Some(a)
    } else {
        None
    }
}

/// Both components of the fraction are representable.
pub open spec fn fits(a: Frac) -> bool {
    fit(a) is Some
}

/// The fraction one half.
pub open spec fn frac_half() -> Frac {
    Frac { n: 1, d: 2 }
}

/// The fraction one quarter.
pub open spec fn frac_quarter() -> Frac {
    Frac { n: 1, d: 4 }
}

/// The fraction one twelfth.
pub open spec fn frac_twelfth() -> Frac {
    Frac { n: 1, d: 12 }
}

/// `frac_eq` is transitive across a fraction with nonzero denominator.
pub proof fn lemma_frac_eq_trans(a: Frac, b: Frac, c: Frac) by (nonlinear_arith)
    requires
        frac_eq(a, b),
        frac_eq(b, c),
        b.d != 0,
    ensures
        frac_eq(a, c),
{
}

/// Sums of equal fractions are equal.
pub proof fn lemma_frac_add_congr(a: Frac, a2: Frac, b: Frac, b2: Frac)
    requires
        frac_eq(a, a2),
        frac_eq(b, b2),
    ensures
        frac_eq(frac_add(a, b), frac_add(a2, b2)),
{
    assert((a.n * b.d) * (a2.d * b2.d) == (a2.n * b2.d) * (a.d * b.d)) by (nonlinear_arith)
        requires
            a.n * a2.d == a2.n * a.d,
    ;
    assert((b.n * a.d) * (a2.d * b2.d) == (b2.n * a2.d) * (a.d * b.d)) by (nonlinear_arith)
        requires
            b.n * b2.d == b2.n * b.d,
    ;
    assert((a.n * b.d + b.n * a.d) * (a2.d * b2.d) == (a2.n * b2.d + b2.n * a2.d) * (a.d * b.d))
        by (nonlinear_arith)
        requires
            (a.n * b.d) * (a2.d * b2.d) == (a2.n * b2.d) * (a.d * b.d),
            (b.n * a.d) * (a2.d * b2.d) == (b2.n * a2.d) * (a.d * b.d),
    ;
}

/// Differences of equal fractions are equal.
pub proof fn lemma_frac_sub_congr(a: Frac, a2: Frac, b: Frac, b2: Frac)
    requires
        frac_eq(a, a2),
        frac_eq(b, b2),
    ensures
        frac_eq(frac_sub(a, b), frac_sub(a2, b2)),
{
    assert((a.n * b.d) * (a2.d * b2.d) == (a2.n * b2.d) * (a.d * b.d)) by (nonlinear_arith)
        requires
            a.n * a2.d == a2.n * a.d,
    ;
    assert((b.n * a.d) * (a2.d * b2.d) == (b2.n * a2.d) * (a.d * b.d)) by (nonlinear_arith)
        requires
            b.n * b2.d == b2.n * b.d,
    ;
    assert((a.n * b.d - b.n * a.d) * (a2.d * b2.d) == (a2.n * b2.d - b2.n * a2.d) * (a.d * b.d))
        by (nonlinear_arith)
        requires
            (a.n * b.d) * (a2.d * b2.d) == (a2.n * b2.d) * (a.d * b.d),
            (b.n * a.d) * (a2.d * b2.d) == (b2.n * a2.d) * (a.d * b.d),
    ;
}

/// Products of equal fractions are equal.
pub proof fn lemma_frac_mul_congr(a: Frac, a2: Frac, b: Frac, b2: Frac)
    requires
        frac_eq(a, a2),
        frac_eq(b, b2),
    ensures
        frac_eq(frac_mul(a, b), frac_mul(a2, b2)),
{
    assert((a.n * a2.d) * (b.n * b2.d) == (a2.n * a.d) * (b2.n * b.d)) by (nonlinear_arith)
        requires
            a.n * a2.d == a2.n * a.d,
            b.n * b2.d == b2.n * b.d,
    ;
    assert((a.n * b.n) * (a2.d * b2.d) == (a.n * a2.d) * (b.n * b2.d)) by (nonlinear_arith);
    assert((a2.n * b2.n) * (a.d * b.d) == (a2.n * a.d) * (b2.n * b.d)) by (nonlinear_arith);
}

/// Adding a fraction with zero numerator changes nothing.
pub proof fn lemma_frac_add_zero(a: Frac, z: Frac) by (nonlinear_arith)
    requires
        z.n == 0,
    ensures
        frac_eq(frac_add(a, z), a),
        frac_eq(frac_sub(a, z), a),
{
}

/// Multiplication of fractions is commutative in value.
pub proof fn lemma_frac_mul_comm_eq(a: Frac, b: Frac) by (nonlinear_arith)
    ensures
        frac_eq(frac_mul(a, b), frac_mul(b, a)),
{
}

/// The difference of two equal fractions is zero.
pub proof fn lemma_frac_sub_self(x: Frac, y: Frac) by (nonlinear_arith)
    requires
        frac_eq(x, y),
    ensures
        frac_eq(frac_sub(x, y), frac_zero()),
{
}

/// `r = c * l` componentwise denotes the same rational as `l`.
proof fn lemma_int_common_factor(ln: int, ld: int, c: int, rn: int, rd: int) by (nonlinear_arith)
    requires
        rn == c * ln,
        rd == c * ld,
    ensures
        ln * rd == rn * ld,
{
}

/// Distribution of multiplication over sums, in the forms the proofs need.
proof fn lemma_dist_forms(c: int, u: int, v: int) by (nonlinear_arith)
    ensures
        (u + v) * c == u * c + v * c,
        (u - v) * c == u * c - v * c,
        c * (u + v) == c * u + c * v,
        c * (u - v) == c * u - c * v,
{
}

/// Reorderings of a three-factor product.
proof fn lemma_mul3(w: int, x: int, y: int) by (nonlinear_arith)
    ensures
        (w * x) * y == (w * y) * x,
        (w * x) * y == w * (x * y),
{
}

/// Reorderings of a four-factor product.
proof fn lemma_mul4(w: int, x: int, y: int, z: int) by (nonlinear_arith)
    ensures
        (w * x) * (y * z) == (w * y) * (x * z),
        (w * x) * (y * z) == (w * z) * (x * y),
        (w * x) * (y * z) == (w * y) * (z * x),
        (w * x) * (y * z) == (w * z) * (y * x),
        (w * x) * (y * z) == y * (w * (x * z)),
        (w * x) * (y * z) == z * ((w * y) * x),
{
}

/// Multiplication distributes over subtraction.
pub proof fn lemma_frac_mul_dist_sub(k: Frac, x: Frac, y: Frac)
    ensures
        frac_eq(frac_mul(k, frac_sub(x, y)), frac_sub(frac_mul(k, x), frac_mul(k, y))),
{
    lemma_dist_forms(k.n, x.n * y.d, y.n * x.d);
    lemma_dist_forms(k.d, k.n * (x.n * y.d), k.n * (y.n * x.d));
    lemma_mul4(k.n, x.n, k.d, y.d);
    lemma_mul4(k.n, y.n, k.d, x.d);
    lemma_mul4(k.d, x.d, k.d, y.d);
    assert((k.n * x.n) * (k.d * y.d) - (k.n * y.n) * (k.d * x.d) == k.d * (k.n * (x.n * y.d - y.n
        * x.d)));
    lemma_int_common_factor(
        frac_mul(k, frac_sub(x, y)).n,
        frac_mul(k, frac_sub(x, y)).d,
        k.d,
        frac_sub(frac_mul(k, x), frac_mul(k, y)).n,
        frac_sub(frac_mul(k, x), frac_mul(k, y)).d,
    );
}

/// Multiplication distributes over addition.
pub proof fn lemma_frac_mul_dist_add(k: Frac, x: Frac, y: Frac)
    ensures
        frac_eq(frac_mul(k, frac_add(x, y)), frac_add(frac_mul(k, x), frac_mul(k, y))),
{
    lemma_dist_forms(k.n, x.n * y.d, y.n * x.d);
    lemma_dist_forms(k.d, k.n * (x.n * y.d), k.n * (y.n * x.d));
    lemma_mul4(k.n, x.n, k.d, y.d);
    lemma_mul4(k.n, y.n, k.d, x.d);
    lemma_mul4(k.d, x.d, k.d, y.d);
    assert((k.n * x.n) * (k.d * y.d) + (k.n * y.n) * (k.d * x.d) == k.d * (k.n * (x.n * y.d + y.n
        * x.d)));
    lemma_int_common_factor(
        frac_mul(k, frac_add(x, y)).n,
        frac_mul(k, frac_add(x, y)).d,
        k.d,
        frac_add(frac_mul(k, x), frac_mul(k, y)).n,
        frac_add(frac_mul(k, x), frac_mul(k, y)).d,
    );
}

/// Swapping the order of two appended signed terms does not change a sum:
/// `(x + t) - u` equals `(x - u) + t`, and so on for the other sign choices.
pub proof fn lemma_frac_append_swap(x: Frac, t: Frac, u: Frac)
    ensures
        frac_eq(frac_add(frac_add(x, t), u), frac_add(frac_add(x, u), t)),
        frac_eq(frac_sub(frac_add(x, t), u), frac_add(frac_sub(x, u), t)),
        frac_eq(frac_add(frac_sub(x, t), u), frac_sub(frac_add(x, u), t)),
        frac_eq(frac_sub(frac_sub(x, t), u), frac_sub(frac_sub(x, u), t)),
{
    lemma_dist_forms(u.d, x.n * t.d, t.n * x.d);
    lemma_dist_forms(t.d, x.n * u.d, u.n * x.d);
    lemma_mul3(x.n, t.d, u.d);
    lemma_mul3(t.n, x.d, u.d);
    lemma_mul3(u.n, x.d, t.d);
    lemma_mul3(x.d, t.d, u.d);
}

/// Sums and differences can be regrouped: `(a + s) - (b + t)` equals
/// `(a - b) + (s - t)`.
pub proof fn lemma_frac_rearrange_add(a: Frac, s: Frac, b: Frac, t: Frac)
    ensures
        frac_eq(frac_sub(frac_add(a, s), frac_add(b, t)), frac_add(frac_sub(a, b), frac_sub(s, t))),
{
    lemma_dist_forms(b.d * t.d, a.n * s.d, s.n * a.d);
    lemma_dist_forms(a.d * s.d, b.n * t.d, t.n * b.d);
    lemma_dist_forms(s.d * t.d, a.n * b.d, b.n * a.d);
    lemma_dist_forms(a.d * b.d, s.n * t.d, t.n * s.d);
    lemma_mul4(a.n, s.d, b.d, t.d);
    lemma_mul4(s.n, a.d, b.d, t.d);
    lemma_mul4(b.n, t.d, a.d, s.d);
    lemma_mul4(t.n, b.d, a.d, s.d);
    lemma_mul4(a.d, s.d, b.d, t.d);
}

/// Differences can be regrouped: `(a - s) - (b - t)` equals
/// `(a - b) - (s - t)`.
pub proof fn lemma_frac_rearrange_sub(a: Frac, s: Frac, b: Frac, t: Frac)
    ensures
        frac_eq(frac_sub(frac_sub(a, s), frac_sub(b, t)), frac_sub(frac_sub(a, b), frac_sub(s, t))),
{
    lemma_dist_forms(b.d * t.d, a.n * s.d, s.n * a.d);
    lemma_dist_forms(a.d * s.d, b.n * t.d, t.n * b.d);
    lemma_dist_forms(s.d * t.d, a.n * b.d, b.n * a.d);
    lemma_dist_forms(a.d * b.d, s.n * t.d, t.n * s.d);
    lemma_mul4(a.n, s.d, b.d, t.d);
    lemma_mul4(s.n, a.d, b.d, t.d);
    lemma_mul4(b.n, t.d, a.d, s.d);
    lemma_mul4(t.n, b.d, a.d, s.d);
    lemma_mul4(a.d, s.d, b.d, t.d);
}

/// Products of non-negative fractions respect the order componentwise.
pub proof fn lemma_frac_mul_le(a: Frac, b: Frac, c: Frac, d: Frac) by (nonlinear_arith)
    requires
        frac_le(frac_zero(), a),
        frac_le(frac_zero(), c),
        frac_le(a, b),
        frac_le(c, d),
        frac_wf(a),
        frac_wf(b),
        frac_wf(c),
        frac_wf(d),
    ensures
        frac_le(frac_mul(a, c), frac_mul(b, d)),
{
}

/// Subtracting a non-negative fraction does not increase a fraction.
pub proof fn lemma_frac_sub_le(a: Frac, t: Frac) by (nonlinear_arith)
    requires
        frac_le(frac_zero(), t),
        frac_wf(a),
        frac_wf(t),
    ensures
        frac_le(frac_sub(a, t), a),
{
}

/// `frac_le` respects `frac_eq` on its right-hand side.
pub proof fn lemma_frac_le_eq_right(a: Frac, b: Frac, b2: Frac) by (nonlinear_arith)
    requires
        frac_le(a, b),
        frac_eq(b, b2),
        frac_wf(a),
        frac_wf(b),
        frac_wf(b2),
    ensures
        frac_le(a, b2),
{
}

/// Subtracting a fraction twice is subtracting its double.
pub proof fn lemma_frac_sub_twice(a: Frac, z: Frac)
    ensures
        frac_eq(frac_sub(frac_sub(a, z), z), frac_sub(a, frac_add(z, z))),
{
    assert((a.n * z.d - z.n * a.d) * z.d - z.n * (a.d * z.d) == a.n * (z.d * z.d) - (z.n * z.d
        + z.n * z.d) * a.d) by (nonlinear_arith);
    assert((a.d * z.d) * z.d == a.d * (z.d * z.d)) by (nonlinear_arith);
}

/// Adding fractions with zero numerator to equal fractions keeps them equal.
pub proof fn lemma_frac_add_zero_congr(a: Frac, a2: Frac, z1: Frac, z2: Frac)
    requires
        frac_eq(a, a2),
        z1.n == 0,
        z2.n == 0,
    ensures
        frac_eq(frac_add(a, z1), frac_add(a2, z2)),
{
    assert((a.n * z1.d) * (a2.d * z2.d) == (a2.n * z2.d) * (a.d * z1.d)) by (nonlinear_arith)
        requires
            a.n * a2.d == a2.n * a.d,
    ;
}

/// Subtracting a fraction with zero numerator from a fraction equal to `a2`
/// yields a fraction equal to `a2`.
pub proof fn lemma_frac_sub_zero_congr(a: Frac, a2: Frac, z: Frac)
    requires
        frac_eq(a, a2),
        z.n == 0,
    ensures
        frac_eq(frac_sub(a, z), a2),
{
    assert((a.n * z.d) * a2.d == a2.n * (a.d * z.d)) by (nonlinear_arith)
        requires
            a.n * a2.d == a2.n * a.d,
    ;
}

/// The exact operations keep denominators positive.
pub proof fn lemma_frac_ops_wf(a: Frac, b: Frac) by (nonlinear_arith)
    requires
        frac_wf(a),
        frac_wf(b),
    ensures
        frac_wf(frac_add(a, b)),
        frac_wf(frac_sub(a, b)),
        frac_wf(frac_mul(a, b)),
{
}

/// Subtraction in the left factor distributes out of a product.
pub proof fn lemma_frac_mul_dist_sub_left(c: Frac, g: Frac, x: Frac)
    ensures
        frac_eq(frac_mul(frac_sub(c, g), x), frac_sub(frac_mul(c, x), frac_mul(g, x))),
{
    lemma_dist_forms(x.n, c.n * g.d, g.n * c.d);
    lemma_dist_forms(x.d, (c.n * g.d) * x.n, (g.n * c.d) * x.n);
    lemma_mul4(c.n, x.n, g.d, x.d);
    lemma_mul4(g.n, x.n, c.d, x.d);
    lemma_mul4(c.d, x.d, g.d, x.d);
    assert((c.n * x.n) * (g.d * x.d) - (g.n * x.n) * (c.d * x.d) == x.d * ((c.n * g.d - g.n * c.d)
        * x.n));
    assert((c.d * x.d) * (g.d * x.d) == x.d * ((c.d * g.d) * x.d));
    lemma_int_common_factor(
        frac_mul(frac_sub(c, g), x).n,
        frac_mul(frac_sub(c, g), x).d,
        x.d,
        frac_sub(frac_mul(c, x), frac_mul(g, x)).n,
        frac_sub(frac_mul(c, x), frac_mul(g, x)).d,
    );
}

/// The exact quotient is well-formed whenever the divisor is nonzero.
pub proof fn lemma_frac_div_wf(a: Frac, b: Frac) by (nonlinear_arith)
    requires
        frac_wf(a),
        b.n != 0,
    ensures
        frac_wf(frac_div(a, b)),
{
}

/// Zero is a left identity of addition, structurally.
pub proof fn lemma_frac_zero_add(x: Frac)
    ensures
        frac_add(frac_zero(), x) == x,
{
}

/// A fraction equal to zero has a zero numerator.
pub proof fn lemma_frac_eq_zero_n(c: Frac) by (nonlinear_arith)
    requires
        frac_eq(c, frac_zero()),
    ensures
        c.n == 0,
{
}

/// A product with a zero-numerator factor has a zero numerator.
pub proof fn lemma_frac_mul_zero_n(a: Frac, b: Frac) by (nonlinear_arith)
    requires
        a.n == 0,
    ensures
        frac_mul(a, b).n == 0,
        frac_mul(b, a).n == 0,
{
}

/// A sum of fractions with zero numerators has a zero numerator.
pub proof fn lemma_frac_add_zero_n(a: Frac, b: Frac) by (nonlinear_arith)
    requires
        a.n == 0,
        b.n == 0,
    ensures
        frac_add(a, b).n == 0,
        frac_sub(a, b).n == 0,
{
}

/// A quotient whose dividend has a zero numerator has a zero numerator.
pub proof fn lemma_frac_div_zero_num(a: Frac, b: Frac) by (nonlinear_arith)
    requires
        a.n == 0,
    ensures
        frac_div(a, b).n == 0,
{
}

/// Executable rational number. The denominator is positive and the numerator
/// stays in the symmetric range, so negation never overflows.
#[derive(Clone, Copy, Debug)]
pub struct Rat {
    n: i64,
    d: i64,
}

impl View for Rat {
    type V = Frac;

    closed spec fn view(&self) -> Frac {
        Frac { n: self.n as int, d: self.d as int }
    }
}

/// Bound on the product of two values bounded by `b`.
proof fn lemma_mul_bound(x: int, y: int, b: int) by (nonlinear_arith)
    requires
        -b <= x <= b,
        -b <= y <= b,
        0 <= b,
    ensures
        -(b * b) <= x * y <= b * b,
{
}

/// A product of positive factors is positive.
proof fn lemma_mul_pos(x: int, y: int) by (nonlinear_arith)
    requires
        1 <= x,
        1 <= y,
    ensures
        1 <= x * y,
{
}

impl Rat {
    /// The stored pair is a valid rational: positive denominator, numerator
    /// in the symmetric range.
    pub open spec fn wf(self) -> bool {
        1 <= self@.d && in_range(self@.n)
    }

    /// Builds the rational `n / d`. Returns `None` exactly when `d` is zero or
    /// when moving the sign of `d` into the numerator leaves the range.
    pub fn new(n: i64, d: i64) -> (r: Option<Rat>)
        ensures
            d == 0 ==> r is None,
            d != 0 ==> ({
                let v = if d as int > 0 {
                    Frac { n: n as int, d: d as int }
                } else {
                    Frac { n: -(n as int), d: -(d as int) }
                };
                &&& (r is Some) == (fit(v) is Some)
                &&& r matches Some(q) ==> q@ == v && q.wf()
            }),
    {
        if d == 0 {
            None
        } else if d > 0 {
            Self::fit_exec(n as i128, d as i128)
        } else {
            Self::fit_exec(-(n as i128), -(d as i128))
        }
    }

    /// Builds the rational `n / d` from components already known to be
    /// representable; total under those bounds.
    pub fn of(n: i64, d: i64) -> (r: Rat)
        requires
            1 <= d as int,
            in_range(n as int),
        ensures
            r@ == (Frac { n: n as int, d: d as int }),
            r.wf(),
    {
        Rat { n, d }
    }

    /// The rational zero.
    pub fn zero() -> (r: Rat)
        ensures
            r@ == frac_zero(),
            r.wf(),
    {
        Rat { n: 0, d: 1 }
    }

    /// Keeps an exactly computed numerator/denominator pair when it is
    /// representable.
    fn fit_exec(n: i128, d: i128) -> (r: Option<Rat>)
        requires
            1 <= d,
        ensures
            (r is Some) == (fit(Frac { n: n as int, d: d as int }) is Some),
            r matches Some(q) ==> q@ == (Frac { n: n as int, d: d as int }) && q.wf(),
    {
        if -(RAT_LIMIT as i128) <= n && n <= RAT_LIMIT as i128 && d <= RAT_LIMIT as i128 {
            Some(Rat { n: n as i64, d: d as i64 })
        } else {
            None
        }
    }

    /// Exact sum; `None` exactly when the textbook result does not fit.
    pub fn add(self, other: Rat) -> (r: Option<Rat>)
        requires
            self.wf(),
            other.wf(),
        ensures
            (r is Some) == (fit(frac_add(self@, other@)) is Some),
            r matches Some(q) ==> q@ == frac_add(self@, other@) && q.wf(),
    {
        proof {
            lemma_mul_bound(self@.n, other@.d, RAT_LIMIT as int);
            lemma_mul_bound(other@.n, self@.d, RAT_LIMIT as int);
            lemma_mul_pos(self@.d, other@.d);
            lemma_mul_bound(self@.d, other@.d, RAT_LIMIT as int);
        }
        let n: i128 = (self.n as i128) * (other.d as i128) + (other.n as i128) * (self.d as i128);
        let d: i128 = (self.d as i128) * (other.d as i128);
        Self::fit_exec(n, d)
    }

    /// Exact difference; `None` exactly when the textbook result does not fit.
    pub fn sub(self, other: Rat) -> (r: Option<Rat>)
        requires
            self.wf(),
            other.wf(),
        ensures
            (r is Some) == (fit(frac_sub(self@, other@)) is Some),
            r matches Some(q) ==> q@ == frac_sub(self@, other@) && q.wf(),
    {
        proof {
            lemma_mul_bound(self@.n, other@.d, RAT_LIMIT as int);
            lemma_mul_bound(other@.n, self@.d, RAT_LIMIT as int);
            lemma_mul_pos(self@.d, other@.d);
            lemma_mul_bound(self@.d, other@.d, RAT_LIMIT as int);
        }
        let n: i128 = (self.n as i128) * (other.d as i128) - (other.n as i128) * (self.d as i128);
        let d: i128 = (self.d as i128) * (other.d as i128);
        Self::fit_exec(n, d)
    }

    /// Exact product; `None` exactly when the textbook result does not fit.
    pub fn mul(self, other: Rat) -> (r: Option<Rat>)
        requires
            self.wf(),
            other.wf(),
        ensures
            (r is Some) == (fit(frac_mul(self@, other@)) is Some),
            r matches Some(q) ==> q@ == frac_mul(self@, other@) && q.wf(),
    {
        proof {
            lemma_mul_bound(self@.n, other@.n, RAT_LIMIT as int);
            lemma_mul_pos(self@.d, other@.d);
            lemma_mul_bound(self@.d, other@.d, RAT_LIMIT as int);
        }
        let n: i128 = (self.n as i128) * (other.n as i128);
        let d: i128 = (self.d as i128) * (other.d as i128);
        Self::fit_exec(n, d)
    }

    /// Exact negation; never fails thanks to the symmetric numerator range.
    pub fn neg(self) -> (r: Rat)
        requires
            self.wf(),
        ensures
            r@ == frac_neg(self@),
            r.wf(),
    {
        Rat { n: -self.n, d: self.d }
    }

    /// Exact quotient; the divisor must be nonzero. `None` exactly when the
    /// textbook result does not fit.
    pub fn div(self, other: Rat) -> (r: Option<Rat>)
        requires
            self.wf(),
            other.wf(),
            other@.n != 0,
        ensures
            (r is Some) == (fit(frac_div(self@, other@)) is Some),
            r matches Some(q) ==> q@ == frac_div(self@, other@) && q.wf(),
    {
        proof {
            lemma_mul_bound(self@.n, other@.d, RAT_LIMIT as int);
            lemma_mul_bound(self@.d, other@.n, RAT_LIMIT as int);
            if other@.n >= 1 {
                lemma_mul_pos(self@.d, other@.n);
            } else {
                lemma_mul_pos(self@.d, -other@.n);
                assert(self@.d * -other@.n == -(self@.d * other@.n)) by (nonlinear_arith);
            }
        }
        let n: i128 = (self.n as i128) * (other.d as i128);
        let d: i128 = (self.d as i128) * (other.n as i128);
        if d > 0 {
            Self::fit_exec(n, d)
        } else {
            Self::fit_exec(-n, -d)
        }
    }

    /// Value comparison: equality of the denoted rational numbers.
    pub fn eq_val(self, other: Rat) -> (r: bool)
        requires
            self.wf(),
            other.wf(),
        ensures
            r == frac_eq(self@, other@),
    {
        proof {
            lemma_mul_bound(self@.n, other@.d, RAT_LIMIT as int);
            lemma_mul_bound(other@.n, self@.d, RAT_LIMIT as int);
        }
        (self.n as i128) * (other.d as i128) == (other.n as i128) * (self.d as i128)
    }

    /// Value comparison: the denoted number of `self` is no greater than `other`'s.
    pub fn le(self, other: Rat) -> (r: bool)
        requires
            self.wf(),
            other.wf(),
        ensures
            r == frac_le(self@, other@),
    {
        proof {
            lemma_mul_bound(self@.n, other@.d, RAT_LIMIT as int);
            lemma_mul_bound(other@.n, self@.d, RAT_LIMIT as int);
        }
        (self.n as i128) * (other.d as i128) <= (other.n as i128) * (self.d as i128)
    }

    /// Value comparison: the denoted number of `self` is strictly smaller.
    pub fn lt(self, other: Rat) -> (r: bool)
        requires
            self.wf(),
            other.wf(),
        ensures
            r == frac_lt(self@, other@),
    {
        proof {
            lemma_mul_bound(self@.n, other@.d, RAT_LIMIT as int);
            lemma_mul_bound(other@.n, self@.d, RAT_LIMIT as int);
        }
        (self.n as i128) * (other.d as i128) < (other.n as i128) * (self.d as i128)
    }

    /// Value comparison: twice the denoted number of `self` is no greater
    /// than `other`'s number.  Never overflows, unlike doubling `self` first.
    pub fn double_le(self, other: Rat) -> (r: bool)
        requires
            self.wf(),
            other.wf(),
        ensures
            r == frac_le(frac_add(self@, self@), other@),
    {
        proof {
            lemma_mul_bound(self@.n, other@.d, RAT_LIMIT as int);
            lemma_mul_bound(other@.n, self@.d, RAT_LIMIT as int);
            assert((2 * (self@.n * other@.d) <= other@.n * self@.d) == ((self@.n * self@.d + self@.n
                * self@.d) * other@.d <= other@.n * (self@.d * self@.d))) by (nonlinear_arith)
                requires
                    self@.d >= 1,
            ;
        }
        let p: i128 = (self.n as i128) * (other.d as i128);
        2 * p <= (other.n as i128) * (self.d as i128)
    }

    /// The denoted number is zero.
    pub fn is_zero(self) -> (r: bool)
        requires
            self.wf(),
        ensures
            r == frac_eq(self@, frac_zero()),
    {
        self.n == 0
    }
}

} // verus!
