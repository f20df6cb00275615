//! Composite cross-sections: signed superpositions of primitive shapes.
//!
//! A composite is an ordered list of `(sign, shape)` pairs; `add` appends
//! with `+1`, `sub` with `-1`.  Area and moments are the signed sums of the
//! members' values; the centroid is the signed-area-weighted mean of the
//! members' centres of gravity, and `update_cog` re-expresses every member
//! relative to it.
//!
//! The `comp_*_val` spec functions give the exact signed sums; the
//! `comp_*_ok` spec functions mirror representability of the executable
//! computation, which returns a failure exactly when `*_ok` is false.

use vstd::prelude::*;

use crate::rational::Frac;
use crate::rational::Rat;
use crate::rational::fits;
use crate::rational::frac_div;
use crate::rational::frac_eq;
use crate::rational::frac_mul;
use crate::rational::frac_sub;
use crate::rational::frac_zero;
use crate::scalar::PiVal;
use crate::scalar::Scalar;
use crate::scalar::pi_add;
use crate::scalar::pi_add_ok;
use crate::scalar::pi_eq;
use crate::scalar::pi_is_zero;
use crate::scalar::pi_scale;
use crate::scalar::pi_scale_ok;
use crate::scalar::pi_sub;
use crate::scalar::pi_sub_ok;
use crate::scalar::pi_zero;
use crate::shapes::SectionError;
use crate::shapes::StructuralShape;
use crate::shapes::area_ok;
use crate::shapes::area_val;
use crate::shapes::moi_x_ok;
use crate::shapes::moi_x_val;
use crate::shapes::moi_y_ok;
use crate::shapes::moi_y_val;
use crate::shapes::shape_rank;

verus! {

/// One signed fold step: add the term for a `+1` member, subtract it
/// otherwise.
pub open spec fn signed_add(acc: PiVal, sign: i8, term: PiVal) -> PiVal {
    if sign == 1i8 {
        pi_add(acc, term)
    } else {
        pi_sub(acc, term)
    }
}

/// The signed fold step stays representable.
pub open spec fn signed_add_ok(acc: PiVal, sign: i8, term: PiVal) -> bool {
    if sign == 1i8 {
        pi_add_ok(acc, term)
    } else {
        pi_sub_ok(acc, term)
    }
}

/// Exact signed sum of the members' areas.
pub open spec fn comp_area_val(s: Seq<(i8, StructuralShape)>) -> PiVal
    decreases s.len(),
{
    if s.len() == 0 {
        pi_zero()
    } else {
        signed_add(comp_area_val(s.drop_last()), s.last().0, area_val(s.last().1))
    }
}

/// The signed area sum is representable at every step.
pub open spec fn comp_area_ok(s: Seq<(i8, StructuralShape)>) -> bool
    decreases s.len(),
{
    if s.len() == 0 {
        true
    } else {
        comp_area_ok(s.drop_last()) && area_ok(s.last().1) && signed_add_ok(
            comp_area_val(s.drop_last()),
            s.last().0,
            area_val(s.last().1),
        )
    }
}

/// Exact signed sum of the members' moments about the x axis.
pub open spec fn comp_moi_x_val(s: Seq<(i8, StructuralShape)>) -> PiVal
    decreases s.len(),
{
    if s.len() == 0 {
        pi_zero()
    } else {
        signed_add(comp_moi_x_val(s.drop_last()), s.last().0, moi_x_val(s.last().1))
    }
}

/// The signed x-moment sum is representable at every step.
pub open spec fn comp_moi_x_ok(s: Seq<(i8, StructuralShape)>) -> bool
    decreases s.len(),
{
    if s.len() == 0 {
        true
    } else {
        comp_moi_x_ok(s.drop_last()) && moi_x_ok(s.last().1) && signed_add_ok(
            comp_moi_x_val(s.drop_last()),
            s.last().0,
            moi_x_val(s.last().1),
        )
    }
}

/// Exact signed sum of the members' moments about the y axis.
pub open spec fn comp_moi_y_val(s: Seq<(i8, StructuralShape)>) -> PiVal
    decreases s.len(),
{
    if s.len() == 0 {
        pi_zero()
    } else {
        signed_add(comp_moi_y_val(s.drop_last()), s.last().0, moi_y_val(s.last().1))
    }
}

/// The signed y-moment sum is representable at every step.
pub open spec fn comp_moi_y_ok(s: Seq<(i8, StructuralShape)>) -> bool
    decreases s.len(),
{
    if s.len() == 0 {
        true
    } else {
        comp_moi_y_ok(s.drop_last()) && moi_y_ok(s.last().1) && signed_add_ok(
            comp_moi_y_val(s.drop_last()),
            s.last().0,
            moi_y_val(s.last().1),
        )
    }
}

/// First moment of one member about the y axis: its area weighted by the x
/// coordinate of its centre of gravity.
pub open spec fn vx_term_val(sh: StructuralShape) -> PiVal {
    pi_scale(sh.cog_of().0@, area_val(sh))
}

/// The x-weighted area term of the member is representable.
pub open spec fn vx_term_ok(sh: StructuralShape) -> bool {
    area_ok(sh) && pi_scale_ok(sh.cog_of().0@, area_val(sh))
}

/// First moment of one member about the x axis: its area weighted by the y
/// coordinate of its centre of gravity.
pub open spec fn vy_term_val(sh: StructuralShape) -> PiVal {
    pi_scale(sh.cog_of().1@, area_val(sh))
}

/// The y-weighted area term of the member is representable.
pub open spec fn vy_term_ok(sh: StructuralShape) -> bool {
    area_ok(sh) && pi_scale_ok(sh.cog_of().1@, area_val(sh))
}

/// Exact signed sum of the members' x-weighted areas.
pub open spec fn comp_vx_val(s: Seq<(i8, StructuralShape)>) -> PiVal
    decreases s.len(),
{
    if s.len() == 0 {
        pi_zero()
    } else {
        signed_add(comp_vx_val(s.drop_last()), s.last().0, vx_term_val(s.last().1))
    }
}

/// The signed x-weighted area sum is representable at every step.
pub open spec fn comp_vx_ok(s: Seq<(i8, StructuralShape)>) -> bool
    decreases s.len(),
{
    if s.len() == 0 {
        true
    } else {
        comp_vx_ok(s.drop_last()) && vx_term_ok(s.last().1) && signed_add_ok(
            comp_vx_val(s.drop_last()),
            s.last().0,
            vx_term_val(s.last().1),
        )
    }
}

/// Exact signed sum of the members' y-weighted areas.
pub open spec fn comp_vy_val(s: Seq<(i8, StructuralShape)>) -> PiVal
    decreases s.len(),
{
    if s.len() == 0 {
        pi_zero()
    } else {
        signed_add(comp_vy_val(s.drop_last()), s.last().0, vy_term_val(s.last().1))
    }
}

/// The signed y-weighted area sum is representable at every step.
pub open spec fn comp_vy_ok(s: Seq<(i8, StructuralShape)>) -> bool
    decreases s.len(),
{
    if s.len() == 0 {
        true
    } else {
        comp_vy_ok(s.drop_last()) && vy_term_ok(s.last().1) && signed_add_ok(
            comp_vy_val(s.drop_last()),
            s.last().0,
            vy_term_val(s.last().1),
        )
    }
}

/// All three sums that the centroid calculation needs are representable.
pub open spec fn cog_sums_ok(s: Seq<(i8, StructuralShape)>) -> bool {
    comp_area_ok(s) && comp_vx_ok(s) && comp_vy_ok(s)
}

/// Exact quotient of two `a + b * pi` values, as a plain rational.
/// Meaningful when the quotient is rational, that is when `ratio_ok` holds.
pub open spec fn ratio_val(num: PiVal, den: PiVal) -> Frac {
    if !frac_eq(den.rat, frac_zero()) {
        frac_div(num.rat, den.rat)
    } else {
        frac_div(num.pi_coeff, den.pi_coeff)
    }
}

/// The quotient `num / den` is an exactly representable rational: the
/// candidate from the nonzero component fits, and it also accounts for the
/// other component (otherwise the quotient is irrational).
pub open spec fn ratio_ok(num: PiVal, den: PiVal) -> bool {
    if !frac_eq(den.rat, frac_zero()) {
        let q = frac_div(num.rat, den.rat);
        fits(q) && fits(frac_mul(q, den.pi_coeff)) && frac_eq(
            frac_mul(q, den.pi_coeff),
            num.pi_coeff,
        )
    } else {
        frac_eq(num.rat, frac_zero()) && fits(frac_div(num.pi_coeff, den.pi_coeff))
    }
}

/// The x coordinate of the composite centroid, when it exists.
pub open spec fn cog_x_spec(s: Seq<(i8, StructuralShape)>) -> Frac {
    ratio_val(comp_vx_val(s), comp_area_val(s))
}

/// The y coordinate of the composite centroid, when it exists.
pub open spec fn cog_y_spec(s: Seq<(i8, StructuralShape)>) -> Frac {
    ratio_val(comp_vy_val(s), comp_area_val(s))
}

/// The whole centroid calculation succeeds.
pub open spec fn cog_ok(s: Seq<(i8, StructuralShape)>) -> bool {
    cog_sums_ok(s) && !pi_is_zero(comp_area_val(s)) && ratio_ok(comp_vx_val(s), comp_area_val(s))
        && ratio_ok(comp_vy_val(s), comp_area_val(s))
}

/// Every member's centre of gravity, shifted by the composite centroid,
/// stays representable.
pub open spec fn shift_fits(s: Seq<(i8, StructuralShape)>) -> bool {
    forall|i: int|
        0 <= i < s.len() ==> {
            let c = (#[trigger] s[i]).1.cog_of();
            fits(frac_sub(c.0@, cog_x_spec(s))) && fits(frac_sub(c.1@, cog_y_spec(s)))
        }
}

/// `n` is the member `o` with its centre of gravity shifted by the centroid
/// of the member sequence `s`: same sign, same dimensions, centre moved by
/// exactly the centroid coordinates.
pub open spec fn shifted_member(
    s: Seq<(i8, StructuralShape)>,
    o: (i8, StructuralShape),
    n: (i8, StructuralShape),
) -> bool {
    &&& n.0 == o.0
    &&& n.1 == o.1.with_cog(n.1.cog_of())
    &&& n.1.cog_of().0@ == frac_sub(o.1.cog_of().0@, cog_x_spec(s))
    &&& n.1.cog_of().1@ == frac_sub(o.1.cog_of().1@, cog_y_spec(s))
}

/// Largest member rank in the sequence; 0 when every member is solid.
/// Used as the termination measure of the mutual recursion between shape
/// moments and composite moments.
pub open spec fn seq_rank(s: Seq<(i8, StructuralShape)>) -> nat
    decreases s.len(),
{
    if s.len() == 0 {
        0
    } else {
        let rl = shape_rank(s.last().1);
        let rr = seq_rank(s.drop_last());
        if rl > rr {
            rl
        } else {
            rr
        }
    }
}

/// Unfolds the x-moment fold over a two-member sequence, and computes its
/// rank.  Used where a hollow shape delegates to an ephemeral composite.
pub proof fn lemma_moi_x_fold2(m0: (i8, StructuralShape), m1: (i8, StructuralShape))
    ensures
        comp_moi_x_val(seq![m0, m1]) == signed_add(
            signed_add(pi_zero(), m0.0, moi_x_val(m0.1)),
            m1.0,
            moi_x_val(m1.1),
        ),
        comp_moi_x_ok(seq![m0, m1]) == (moi_x_ok(m0.1) && signed_add_ok(
            pi_zero(),
            m0.0,
            moi_x_val(m0.1),
        ) && moi_x_ok(m1.1) && signed_add_ok(
            signed_add(pi_zero(), m0.0, moi_x_val(m0.1)),
            m1.0,
            moi_x_val(m1.1),
        )),
        seq_rank(seq![m0, m1]) == (if shape_rank(m0.1) > shape_rank(m1.1) {
            shape_rank(m0.1)
        } else {
            shape_rank(m1.1)
        }),
{
    let s = seq![m0, m1];
    let e = Seq::<(i8, StructuralShape)>::empty();
    assert(s.drop_last() =~= seq![m0]);
    assert(seq![m0].drop_last() =~= e);
    assert(comp_moi_x_val(e) == pi_zero());
    assert(comp_moi_x_ok(e));
    assert(seq_rank(e) == 0);
    assert(comp_moi_x_val(seq![m0]) == signed_add(pi_zero(), m0.0, moi_x_val(m0.1)));
    assert(comp_moi_x_ok(seq![m0]) == (moi_x_ok(m0.1) && signed_add_ok(
        pi_zero(),
        m0.0,
        moi_x_val(m0.1),
    )));
    assert(seq_rank(seq![m0]) == shape_rank(m0.1));
}

/// Unfolds the x-moment fold over a three-member sequence, and computes its
/// rank.  Used by the I-beam decomposition.
pub proof fn lemma_moi_x_fold3(
    m0: (i8, StructuralShape),
    m1: (i8, StructuralShape),
    m2: (i8, StructuralShape),
)
    ensures
        comp_moi_x_val(seq![m0, m1, m2]) == signed_add(
            signed_add(signed_add(pi_zero(), m0.0, moi_x_val(m0.1)), m1.0, moi_x_val(m1.1)),
            m2.0,
            moi_x_val(m2.1),
        ),
        comp_moi_x_ok(seq![m0, m1, m2]) == (moi_x_ok(m0.1) && signed_add_ok(
            pi_zero(),
            m0.0,
            moi_x_val(m0.1),
        ) && moi_x_ok(m1.1) && signed_add_ok(
            signed_add(pi_zero(), m0.0, moi_x_val(m0.1)),
            m1.0,
            moi_x_val(m1.1),
        ) && moi_x_ok(m2.1) && signed_add_ok(
            signed_add(signed_add(pi_zero(), m0.0, moi_x_val(m0.1)), m1.0, moi_x_val(m1.1)),
            m2.0,
            moi_x_val(m2.1),
        )),
        shape_rank(m0.1) == 0 && shape_rank(m1.1) == 0 && shape_rank(m2.1) == 0 ==> seq_rank(
            seq![m0, m1, m2],
        ) == 0,
{
    let s = seq![m0, m1, m2];
    assert(s.drop_last() =~= seq![m0, m1]);
    lemma_moi_x_fold2(m0, m1);
    assert(comp_moi_x_val(s) == signed_add(
        comp_moi_x_val(seq![m0, m1]),
        m2.0,
        moi_x_val(m2.1),
    ));
    assert(comp_moi_x_ok(s) == (comp_moi_x_ok(seq![m0, m1]) && moi_x_ok(m2.1) && signed_add_ok(
        comp_moi_x_val(seq![m0, m1]),
        m2.0,
        moi_x_val(m2.1),
    )));
}

/// Unfolds the y-moment fold over a three-member sequence, and computes its
/// rank.  Used by the I-beam decomposition.
pub proof fn lemma_moi_y_fold3(
    m0: (i8, StructuralShape),
    m1: (i8, StructuralShape),
    m2: (i8, StructuralShape),
)
    ensures
        comp_moi_y_val(seq![m0, m1, m2]) == signed_add(
            signed_add(signed_add(pi_zero(), m0.0, moi_y_val(m0.1)), m1.0, moi_y_val(m1.1)),
            m2.0,
            moi_y_val(m2.1),
        ),
        comp_moi_y_ok(seq![m0, m1, m2]) == (moi_y_ok(m0.1) && signed_add_ok(
            pi_zero(),
            m0.0,
            moi_y_val(m0.1),
        ) && moi_y_ok(m1.1) && signed_add_ok(
            signed_add(pi_zero(), m0.0, moi_y_val(m0.1)),
            m1.0,
            moi_y_val(m1.1),
        ) && moi_y_ok(m2.1) && signed_add_ok(
            signed_add(signed_add(pi_zero(), m0.0, moi_y_val(m0.1)), m1.0, moi_y_val(m1.1)),
            m2.0,
            moi_y_val(m2.1),
        )),
        shape_rank(m0.1) == 0 && shape_rank(m1.1) == 0 && shape_rank(m2.1) == 0 ==> seq_rank(
            seq![m0, m1, m2],
        ) == 0,
{
    let s = seq![m0, m1, m2];
    let s2 = seq![m0, m1];
    let e = Seq::<(i8, StructuralShape)>::empty();
    assert(s.drop_last() =~= s2);
    assert(s2.drop_last() =~= seq![m0]);
    assert(seq![m0].drop_last() =~= e);
    assert(comp_moi_y_val(e) == pi_zero());
    assert(comp_moi_y_ok(e));
    assert(seq_rank(e) == 0);
    assert(comp_moi_y_val(seq![m0]) == signed_add(pi_zero(), m0.0, moi_y_val(m0.1)));
    assert(comp_moi_y_ok(seq![m0]) == (moi_y_ok(m0.1) && signed_add_ok(
        pi_zero(),
        m0.0,
        moi_y_val(m0.1),
    )));
    assert(seq_rank(seq![m0]) == shape_rank(m0.1));
    assert(comp_moi_y_val(s2) == signed_add(
        signed_add(pi_zero(), m0.0, moi_y_val(m0.1)),
        m1.0,
        moi_y_val(m1.1),
    ));
    assert(comp_moi_y_ok(s2) == (comp_moi_y_ok(seq![m0]) && moi_y_ok(m1.1) && signed_add_ok(
        comp_moi_y_val(seq![m0]),
        m1.0,
        moi_y_val(m1.1),
    )));
    assert(seq_rank(s2) == (if shape_rank(m0.1) > shape_rank(m1.1) {
        shape_rank(m0.1)
    } else {
        shape_rank(m1.1)
    }));
}

proof fn lemma_seq_rank_le(s: Seq<(i8, StructuralShape)>, i: int)
    requires
        0 <= i < s.len(),
    ensures
        shape_rank(s[i].1) <= seq_rank(s),
    decreases s.len(),
{
    if i < s.len() - 1 {
        lemma_seq_rank_le(s.drop_last(), i);
    }
}

proof fn lemma_comp_area_ok_prefix(s: Seq<(i8, StructuralShape)>, i: int)
    requires
        0 <= i <= s.len(),
        comp_area_ok(s),
    ensures
        comp_area_ok(s.subrange(0, i)),
    decreases s.len(),
{
    if i == s.len() {
        assert(s.subrange(0, i) =~= s);
    } else {
        assert(s.drop_last().subrange(0, i) =~= s.subrange(0, i));
        lemma_comp_area_ok_prefix(s.drop_last(), i);
    }
}

proof fn lemma_comp_moi_x_ok_prefix(s: Seq<(i8, StructuralShape)>, i: int)
    requires
        0 <= i <= s.len(),
        comp_moi_x_ok(s),
    ensures
        comp_moi_x_ok(s.subrange(0, i)),
    decreases s.len(),
{
    if i == s.len() {
        assert(s.subrange(0, i) =~= s);
    } else {
        assert(s.drop_last().subrange(0, i) =~= s.subrange(0, i));
        lemma_comp_moi_x_ok_prefix(s.drop_last(), i);
    }
}

proof fn lemma_comp_moi_y_ok_prefix(s: Seq<(i8, StructuralShape)>, i: int)
    requires
        0 <= i <= s.len(),
        comp_moi_y_ok(s),
    ensures
        comp_moi_y_ok(s.subrange(0, i)),
    decreases s.len(),
{
    if i == s.len() {
        assert(s.subrange(0, i) =~= s);
    } else {
        assert(s.drop_last().subrange(0, i) =~= s.subrange(0, i));
        lemma_comp_moi_y_ok_prefix(s.drop_last(), i);
    }
}

proof fn lemma_comp_vx_ok_prefix(s: Seq<(i8, StructuralShape)>, i: int)
    requires
        0 <= i <= s.len(),
        comp_vx_ok(s),
    ensures
        comp_vx_ok(s.subrange(0, i)),
    decreases s.len(),
{
    if i == s.len() {
        assert(s.subrange(0, i) =~= s);
    } else {
        assert(s.drop_last().subrange(0, i) =~= s.subrange(0, i));
        lemma_comp_vx_ok_prefix(s.drop_last(), i);
    }
}

proof fn lemma_comp_vy_ok_prefix(s: Seq<(i8, StructuralShape)>, i: int)
    requires
        0 <= i <= s.len(),
        comp_vy_ok(s),
    ensures
        comp_vy_ok(s.subrange(0, i)),
    decreases s.len(),
{
    if i == s.len() {
        assert(s.subrange(0, i) =~= s);
    } else {
        assert(s.drop_last().subrange(0, i) =~= s.subrange(0, i));
        lemma_comp_vy_ok_prefix(s.drop_last(), i);
    }
}

/// A composite composed of multiple signed member shapes.
#[derive(Clone, Debug)]
pub struct CompositeShape {
    /// Constituent shapes with their signs: `1` adds, `-1` subtracts.
    pub shapes: Vec<(i8, StructuralShape)>,
}

impl CompositeShape {
    /// Every member shape stores valid rationals.
    pub open spec fn wf(self) -> bool {
        forall|i: int|
            0 <= i < self.shapes@.len() ==> (#[trigger] self.shapes@[i]).1.wf()
    }

    /// Makes a new, empty composite shape, identical to `default`.
    pub fn new() -> (r: Self)
        ensures
            r.shapes@ == Seq::<(i8, StructuralShape)>::empty(),
            r.wf(),
    {
        CompositeShape { shapes: Vec::new() }
    }

    /// Appends a shape to the composite with positive sign.
    pub fn add(self, new_shape: StructuralShape) -> (r: Self)
        requires
            self.wf(),
            new_shape.wf(),
        ensures
            r.shapes@ == self.shapes@.push((1i8, new_shape)),
            r.wf(),
    {
        let mut c = self;
        c.shapes.push((1, new_shape));
        c
    }

    /// Appends a shape to the composite with negative sign, so that its area
    /// and moments are subtracted.
    pub fn sub(self, new_shape: StructuralShape) -> (r: Self)
        requires
            self.wf(),
            new_shape.wf(),
        ensures
            r.shapes@ == self.shapes@.push((-1i8, new_shape)),
            r.wf(),
    {
        let mut c = self;
        c.shapes.push((-1, new_shape));
        c
    }

    /// Signed sum of the members' areas.  `None` exactly when an
    /// intermediate of the exact computation is not representable.
    pub fn area(&self) -> (r: Option<Scalar>)
        requires
            self.wf(),
        ensures
            (r is Some) == comp_area_ok(self.shapes@),
            r matches Some(q) ==> q@ == comp_area_val(self.shapes@) && q.wf(),
    {
        let ghost s = self.shapes@;
        let mut acc = Scalar::zero();
        let mut i: usize = 0;
        while i < self.shapes.len()
            invariant
                self.wf(),
                s == self.shapes@,
                0 <= i as int <= s.len(),
                comp_area_ok(s.subrange(0, i as int)),
                acc@ == comp_area_val(s.subrange(0, i as int)),
                acc.wf(),
            decreases s.len() - i as int,
        {
            let (sign, sh) = self.shapes[i];
            proof {
                assert(s.subrange(0, i as int + 1).drop_last() =~= s.subrange(0, i as int));
                assert(s.subrange(0, i as int + 1).last() == s[i as int]);
            }
            let a = match sh.area() {
                Some(v) => v,
                None => {
                    proof {
                        if comp_area_ok(s) {
                            lemma_comp_area_ok_prefix(s, i as int + 1);
                        }
                    }
                    return None;
                },
            };
            let next = if sign == 1 {
                acc.add(a)
            } else {
                acc.sub(a)
            };
            acc = match next {
                Some(v) => v,
                None => {
                    proof {
                        if comp_area_ok(s) {
                            lemma_comp_area_ok_prefix(s, i as int + 1);
                        }
                    }
                    return None;
                },
            };
            i = i + 1;
        }
        proof {
            assert(s.subrange(0, s.len() as int) =~= s);
        }
        Some(acc)
    }

    /// Signed sum of the members' moments of inertia about the x axis.
    /// `None` exactly when an intermediate is not representable.
    pub fn moi_x(&self) -> (r: Option<Scalar>)
        requires
            self.wf(),
        ensures
            (r is Some) == comp_moi_x_ok(self.shapes@),
            r matches Some(q) ==> q@ == comp_moi_x_val(self.shapes@) && q.wf(),
        decreases seq_rank(self.shapes@), 1nat,
    {
        let ghost s = self.shapes@;
        let mut acc = Scalar::zero();
        let mut i: usize = 0;
        while i < self.shapes.len()
            invariant
                self.wf(),
                s == self.shapes@,
                0 <= i as int <= s.len(),
                comp_moi_x_ok(s.subrange(0, i as int)),
                acc@ == comp_moi_x_val(s.subrange(0, i as int)),
                acc.wf(),
            decreases s.len() - i as int,
        {
            let (sign, sh) = self.shapes[i];
            proof {
                lemma_seq_rank_le(s, i as int);
                assert(s.subrange(0, i as int + 1).drop_last() =~= s.subrange(0, i as int));
                assert(s.subrange(0, i as int + 1).last() == s[i as int]);
            }
            let m = match sh.moi_x() {
                Some(v) => v,
                None => {
                    proof {
                        if comp_moi_x_ok(s) {
                            lemma_comp_moi_x_ok_prefix(s, i as int + 1);
                        }
                    }
                    return None;
                },
            };
            let next = if sign == 1 {
                acc.add(m)
            } else {
                acc.sub(m)
            };
            acc = match next {
                Some(v) => v,
                None => {
                    proof {
                        if comp_moi_x_ok(s) {
                            lemma_comp_moi_x_ok_prefix(s, i as int + 1);
                        }
                    }
                    return None;
                },
            };
            i = i + 1;
        }
        proof {
            assert(s.subrange(0, s.len() as int) =~= s);
        }
        Some(acc)
    }

    /// Signed sum of the members' moments of inertia about the y axis.
    /// `None` exactly when an intermediate is not representable.
    pub fn moi_y(&self) -> (r: Option<Scalar>)
        requires
            self.wf(),
        ensures
            (r is Some) == comp_moi_y_ok(self.shapes@),
            r matches Some(q) ==> q@ == comp_moi_y_val(self.shapes@) && q.wf(),
        decreases seq_rank(self.shapes@), 3nat,
    {
        let ghost s = self.shapes@;
        let mut acc = Scalar::zero();
        let mut i: usize = 0;
        while i < self.shapes.len()
            invariant
                self.wf(),
                s == self.shapes@,
                0 <= i as int <= s.len(),
                comp_moi_y_ok(s.subrange(0, i as int)),
                acc@ == comp_moi_y_val(s.subrange(0, i as int)),
                acc.wf(),
            decreases s.len() - i as int,
        {
            let (sign, sh) = self.shapes[i];
            proof {
                lemma_seq_rank_le(s, i as int);
                assert(s.subrange(0, i as int + 1).drop_last() =~= s.subrange(0, i as int));
                assert(s.subrange(0, i as int + 1).last() == s[i as int]);
            }
            let m = match sh.moi_y() {
                Some(v) => v,
                None => {
                    proof {
                        if comp_moi_y_ok(s) {
                            lemma_comp_moi_y_ok_prefix(s, i as int + 1);
                        }
                    }
                    return None;
                },
            };
            let next = if sign == 1 {
                acc.add(m)
            } else {
                acc.sub(m)
            };
            acc = match next {
                Some(v) => v,
                None => {
                    proof {
                        if comp_moi_y_ok(s) {
                            lemma_comp_moi_y_ok_prefix(s, i as int + 1);
                        }
                    }
                    return None;
                },
            };
            i = i + 1;
        }
        proof {
            assert(s.subrange(0, s.len() as int) =~= s);
        }
        Some(acc)
    }

    /// Polar moment of inertia: the sum of the two orthogonal area moments.
    /// `None` exactly when either moment or their sum is not representable.
    pub fn polar_moi(&self) -> (r: Option<Scalar>)
        requires
            self.wf(),
        ensures
            (r is Some) == (comp_moi_x_ok(self.shapes@) && comp_moi_y_ok(self.shapes@)
                && pi_add_ok(comp_moi_x_val(self.shapes@), comp_moi_y_val(self.shapes@))),
            r matches Some(q) ==> q@ == pi_add(
                comp_moi_x_val(self.shapes@),
                comp_moi_y_val(self.shapes@),
            ) && q.wf(),
    {
        let x = match self.moi_x() {
            Some(v) => v,
            None => {
                return None;
            },
        };
        let y = match self.moi_y() {
            Some(v) => v,
            None => {
                return None;
            },
        };
        x.add(y)
    }

    /// Signed-area-weighted centroid of the composite:
    /// `(sum sign a_i x_i / A, sum sign a_i y_i / A)` with `A` the signed net
    /// area.  Fails with `DegenerateComposite` exactly when the net area is
    /// zero, and with `Unrepresentable` when an intermediate leaves the
    /// representable range or the quotient is not rational.
    pub fn calculate_cog(&self) -> (r: Result<(Rat, Rat), SectionError>)
        requires
            self.wf(),
        ensures
            (r matches Err(e) && e == SectionError::DegenerateComposite) <==> (cog_sums_ok(
                self.shapes@,
            ) && pi_is_zero(comp_area_val(self.shapes@))),
            (r is Ok) <==> cog_ok(self.shapes@),
            r matches Ok(p) ==> {
                &&& p.0@ == cog_x_spec(self.shapes@)
                &&& p.1@ == cog_y_spec(self.shapes@)
                &&& p.0.wf()
                &&& p.1.wf()
                &&& pi_eq(pi_scale(p.0@, comp_area_val(self.shapes@)), comp_vx_val(self.shapes@))
                &&& pi_eq(pi_scale(p.1@, comp_area_val(self.shapes@)), comp_vy_val(self.shapes@))
            },
            r matches Err(e) ==> e == SectionError::DegenerateComposite || e
                == SectionError::Unrepresentable,
    {
        let ghost s = self.shapes@;
        let mut area_acc = Scalar::zero();
        let mut vx_acc = Scalar::zero();
        let mut vy_acc = Scalar::zero();
        let mut i: usize = 0;
        while i < self.shapes.len()
            invariant
                self.wf(),
                s == self.shapes@,
                0 <= i as int <= s.len(),
                comp_area_ok(s.subrange(0, i as int)),
                comp_vx_ok(s.subrange(0, i as int)),
                comp_vy_ok(s.subrange(0, i as int)),
                area_acc@ == comp_area_val(s.subrange(0, i as int)),
                vx_acc@ == comp_vx_val(s.subrange(0, i as int)),
                vy_acc@ == comp_vy_val(s.subrange(0, i as int)),
                area_acc.wf(),
                vx_acc.wf(),
                vy_acc.wf(),
            decreases s.len() - i as int,
        {
            let (sign, sh) = self.shapes[i];
            proof {
                assert(s.subrange(0, i as int + 1).drop_last() =~= s.subrange(0, i as int));
                assert(s.subrange(0, i as int + 1).last() == s[i as int]);
            }
            let a = match sh.area() {
                Some(v) => v,
                None => {
                    proof {
                        if comp_area_ok(s) {
                            lemma_comp_area_ok_prefix(s, i as int + 1);
                        }
                    }
                    return Err(SectionError::Unrepresentable);
                },
            };
            let cg = sh.get_cog();
            let tx = match a.scale(cg.0) {
                Some(v) => v,
                None => {
                    proof {
                        if comp_vx_ok(s) {
                            lemma_comp_vx_ok_prefix(s, i as int + 1);
                        }
                    }
                    return Err(SectionError::Unrepresentable);
                },
            };
            let ty = match a.scale(cg.1) {
                Some(v) => v,
                None => {
                    proof {
                        if comp_vy_ok(s) {
                            lemma_comp_vy_ok_prefix(s, i as int + 1);
                        }
                    }
                    return Err(SectionError::Unrepresentable);
                },
            };
            let next_area = if sign == 1 {
                area_acc.add(a)
            } else {
                area_acc.sub(a)
            };
            area_acc = match next_area {
                Some(v) => v,
                None => {
                    proof {
                        if comp_area_ok(s) {
                            lemma_comp_area_ok_prefix(s, i as int + 1);
                        }
                    }
                    return Err(SectionError::Unrepresentable);
                },
            };
            let next_vx = if sign == 1 {
                vx_acc.add(tx)
            } else {
                vx_acc.sub(tx)
            };
            vx_acc = match next_vx {
                Some(v) => v,
                None => {
                    proof {
                        if comp_vx_ok(s) {
                            lemma_comp_vx_ok_prefix(s, i as int + 1);
                        }
                    }
                    return Err(SectionError::Unrepresentable);
                },
            };
            let next_vy = if sign == 1 {
                vy_acc.add(ty)
            } else {
                vy_acc.sub(ty)
            };
            vy_acc = match next_vy {
                Some(v) => v,
                None => {
                    proof {
                        if comp_vy_ok(s) {
                            lemma_comp_vy_ok_prefix(s, i as int + 1);
                        }
                    }
                    return Err(SectionError::Unrepresentable);
                },
            };
            i = i + 1;
        }
        proof {
            assert(s.subrange(0, s.len() as int) =~= s);
        }
        if area_acc.is_zero() {
            return Err(SectionError::DegenerateComposite);
        }
        let cx = match scalar_ratio(vx_acc, area_acc) {
            Some(v) => v,
            None => {
                return Err(SectionError::Unrepresentable);
            },
        };
        let cy = match scalar_ratio(vy_acc, area_acc) {
            Some(v) => v,
            None => {
                return Err(SectionError::Unrepresentable);
            },
        };
        Ok((cx, cy))
    }

    /// Shifts every member's centre of gravity by the composite centroid, so
    /// that the composite's own centroid moves to the origin.  On failure the
    /// composite is left unchanged; the failure cases are those of
    /// `calculate_cog`, plus `Unrepresentable` when a shifted centre leaves
    /// the representable range.
    pub fn update_cog(&mut self) -> (r: Result<(), SectionError>)
        requires
            old(self).wf(),
        ensures
            final(self).wf(),
            r matches Err(_) ==> *final(self) == *old(self),
            (r matches Err(e) && e == SectionError::DegenerateComposite) <==> (cog_sums_ok(
                old(self).shapes@,
            ) && pi_is_zero(comp_area_val(old(self).shapes@))),
            (r is Ok) <==> (cog_ok(old(self).shapes@) && shift_fits(old(self).shapes@)),
            r matches Err(e) ==> e == SectionError::DegenerateComposite || e
                == SectionError::Unrepresentable,
            r is Ok ==> final(self).shapes@.len() == old(self).shapes@.len() && (forall|i: int|
                0 <= i < old(self).shapes@.len() ==> shifted_member(
                    old(self).shapes@,
                    old(self).shapes@[i],
                    #[trigger] final(self).shapes@[i],
                )),
    {
        let ghost s = self.shapes@;
        let cg = match self.calculate_cog() {
            Ok(c) => c,
            Err(e) => {
                return Err(e);
            },
        };
        let mut updated: Vec<(i8, StructuralShape)> = Vec::new();
        let mut i: usize = 0;
        while i < self.shapes.len()
            invariant
                self.wf(),
                *self == *old(self),
                s == self.shapes@,
                cg.0.wf(),
                cg.1.wf(),
                cg.0@ == cog_x_spec(s),
                cg.1@ == cog_y_spec(s),
                0 <= i as int <= s.len(),
                updated@.len() == i as int,
                forall|j: int|
                    0 <= j < i as int ==> shifted_member(s, s[j], #[trigger] updated@[j]),
                forall|j: int| 0 <= j < i as int ==> (#[trigger] updated@[j]).1.wf(),
                forall|j: int|
                    0 <= j < i as int ==> {
                        let c = (#[trigger] s[j]).1.cog_of();
                        fits(frac_sub(c.0@, cog_x_spec(s))) && fits(frac_sub(c.1@, cog_y_spec(s)))
                    },
            decreases s.len() - i as int,
        {
            let (sign, sh) = self.shapes[i];
            let c = sh.get_cog();
            let nx = match c.0.sub(cg.0) {
                Some(v) => v,
                None => {
                    proof {
                        assert(!(fits(frac_sub(s[i as int].1.cog_of().0@, cog_x_spec(s)))));
                    }
                    return Err(SectionError::Unrepresentable);
                },
            };
            let ny = match c.1.sub(cg.1) {
                Some(v) => v,
                None => {
                    proof {
                        assert(!(fits(frac_sub(s[i as int].1.cog_of().1@, cog_y_spec(s)))));
                    }
                    return Err(SectionError::Unrepresentable);
                },
            };
            let mut moved = sh;
            moved.set_cog((nx, ny));
            updated.push((sign, moved));
            i = i + 1;
        }
        self.shapes = updated;
        Ok(())
    }
}

/// Exact quotient of two scalars as a plain rational: the unique `q` with
/// `q * den == num`, when the quotient is rational and representable.
fn scalar_ratio(num: Scalar, den: Scalar) -> (r: Option<Rat>)
    requires
        num.wf(),
        den.wf(),
        !pi_is_zero(den@),
    ensures
        (r is Some) == ratio_ok(num@, den@),
        r matches Some(q) ==> {
            &&& q@ == ratio_val(num@, den@)
            &&& q.wf()
            &&& frac_eq(frac_mul(q@, den@.rat), num@.rat)
            &&& frac_eq(frac_mul(q@, den@.pi_coeff), num@.pi_coeff)
        },
{
    let nr = num.rat_component();
    let np = num.pi_component();
    let dr = den.rat_component();
    let dp = den.pi_component();
    if !dr.is_zero() {
        let q = match nr.div(dr) {
            Some(v) => v,
            None => {
                return None;
            },
        };
        let t = match q.mul(dp) {
            Some(v) => v,
            None => {
                return None;
            },
        };
        if t.eq_val(np) {
            proof {
                lemma_frac_div_cancels(nr@, dr@);
            }
            Some(q)
        } else {
            None
        }
    } else {
        if !nr.is_zero() {
            return None;
        }
        let q = match np.div(dp) {
            Some(v) => v,
            None => {
                return None;
            },
        };
        proof {
            lemma_frac_div_cancels(np@, dp@);
        }
        Some(q)
    }
}

/// Multiplying an exact quotient back by the divisor restores the dividend.
pub proof fn lemma_frac_div_cancels(a: Frac, b: Frac)
    requires
        b.n != 0,
    ensures
        frac_eq(frac_mul(frac_div(a, b), b), a),
{
    if b.n >= 0 {
        assert(((a.n * b.d) * b.n) * a.d == a.n * ((a.d * b.n) * b.d)) by (nonlinear_arith);
    } else {
        assert((-(a.n * b.d) * b.n) * a.d == a.n * ((-(a.d * b.n)) * b.d)) by (nonlinear_arith);
    }
}

impl Default for CompositeShape {
    /// Makes a new, empty composite shape.
    fn default() -> (r: Self)
        ensures
            r.shapes@ == Seq::<(i8, StructuralShape)>::empty(),
            r.wf(),
    {
        CompositeShape { shapes: Vec::new() }
    }
}

} // verus!
