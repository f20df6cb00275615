//! Laws of the section-property algebra, stated over the exact value models
//! and proved once and for all: axis symmetry of symmetric sections, the
//! degenerate I-beam, the parallel axis theorem, order-independence of
//! composite superposition, and self-consistency of centroid recentring.

use vstd::prelude::*;

use crate::composite::comp_area_val;
use crate::composite::comp_moi_x_val;
use crate::composite::comp_moi_y_val;
use crate::composite::comp_vx_val;
use crate::composite::comp_vy_val;
use crate::composite::cog_ok;
use crate::composite::cog_x_spec;
use crate::composite::cog_y_spec;
use crate::composite::lemma_frac_div_cancels;
use crate::composite::ratio_ok;
use crate::composite::ratio_val;
use crate::composite::shifted_member;
use crate::composite::signed_add;
use crate::composite::vx_term_val;
use crate::composite::vy_term_val;
use crate::rational::Frac;
use crate::rational::frac_add;
use crate::rational::frac_eq;
use crate::rational::frac_mul;
use crate::rational::frac_quarter;
use crate::rational::frac_sub;
use crate::rational::frac_twelfth;
use crate::rational::frac_wf;
use crate::rational::frac_zero;
use crate::rational::lemma_frac_add_congr;
use crate::rational::lemma_frac_add_zero_n;
use crate::rational::lemma_frac_eq_zero_n;
use crate::rational::lemma_frac_mul_zero_n;
use crate::rational::lemma_frac_add_zero;
use crate::rational::lemma_frac_div_wf;
use crate::rational::lemma_frac_mul_comm_eq;
use crate::rational::lemma_frac_mul_congr;
use crate::rational::lemma_frac_ops_wf;
use crate::rational::lemma_frac_sub_congr;
use crate::rational::lemma_frac_sub_zero_congr;
use crate::scalar::PiVal;
use crate::scalar::lemma_pi_add_congr;
use crate::scalar::lemma_pi_append_swap;
use crate::scalar::lemma_pi_eq_trans;
use crate::scalar::lemma_pi_ops_wf;
use crate::scalar::lemma_pi_rearrange;
use crate::scalar::lemma_pi_scale_congr;
use crate::scalar::lemma_pi_scale_dist_add;
use crate::scalar::lemma_pi_scale_dist_left;
use crate::scalar::lemma_pi_scale_wf;
use crate::scalar::lemma_pi_sub_congr;
use crate::scalar::lemma_pi_sub_self;
use crate::scalar::lemma_pi_zero_add;
use crate::scalar::lemma_pi_zero_terms;
use crate::scalar::pi_add;
use crate::scalar::pi_eq;
use crate::scalar::pi_is_zero;
use crate::scalar::pi_of_pi;
use crate::scalar::pi_of_rat;
use crate::scalar::pi_scale;
use crate::scalar::pi_sub;
use crate::scalar::pi_wf;
use crate::scalar::pi_zero;
use crate::shapes::StructuralShape;
use crate::shapes::area_val;
use crate::shapes::ibeam_inner_height;
use crate::shapes::moi_x_val;
use crate::shapes::moi_y_val;
use crate::shapes::rect_moi_x_val;
use crate::shapes::rect_moi_y_val;
use crate::shapes::rod_moi_val;

verus! {

/// A parallel-axis shift term with a zero-valued offset has zero-numerator
/// components.
proof fn lemma_shift_zero(c: Frac, a: PiVal)
    requires
        c.n == 0,
    ensures
        pi_scale(frac_mul(c, c), a).rat.n == 0,
        pi_scale(frac_mul(c, c), a).pi_coeff.n == 0,
{
    lemma_frac_mul_zero_n(c, c);
    lemma_frac_mul_zero_n(frac_mul(c, c), a.rat);
    lemma_frac_mul_zero_n(frac_mul(c, c), a.pi_coeff);
}

/// A rectangle with a zero-valued height has zero-numerator moment
/// components about both axes, whatever its offset.
proof fn lemma_rect_moi_zero_val(w: Frac, ih: Frac, c: Frac)
    requires
        ih.n == 0,
    ensures
        rect_moi_x_val(w, ih, c).rat.n == 0,
        rect_moi_x_val(w, ih, c).pi_coeff.n == 0,
        rect_moi_y_val(w, ih, c).rat.n == 0,
        rect_moi_y_val(w, ih, c).pi_coeff.n == 0,
{
    lemma_frac_mul_zero_n(ih, ih);
    lemma_frac_mul_zero_n(frac_mul(ih, ih), ih);
    let ih3 = frac_mul(frac_mul(ih, ih), ih);
    lemma_frac_mul_zero_n(ih3, w);
    lemma_frac_mul_zero_n(frac_mul(w, ih3), frac_twelfth());
    lemma_frac_mul_zero_n(ih, w);
    let cc = frac_mul(c, c);
    lemma_frac_mul_zero_n(frac_mul(w, ih), cc);
    lemma_frac_add_zero_n(
        frac_mul(frac_mul(w, ih3), frac_twelfth()),
        frac_mul(cc, frac_mul(w, ih)),
    );
    let w3 = frac_mul(frac_mul(w, w), w);
    lemma_frac_mul_zero_n(ih, w3);
    lemma_frac_mul_zero_n(frac_mul(ih, w3), frac_twelfth());
    lemma_frac_add_zero_n(
        frac_mul(frac_mul(ih, w3), frac_twelfth()),
        frac_mul(cc, frac_mul(w, ih)),
    );
    lemma_frac_mul_zero_n(frac_zero(), cc);
    lemma_frac_add_zero_n(frac_zero(), frac_mul(cc, frac_zero()));
    lemma_frac_mul_zero_n(frac_zero(), frac_mul(w, ih));
}

/// Rod moments with zero-valued centre offsets agree, whatever the
/// representations of the offsets.
proof fn lemma_rod_moi_zero_off(radius: Frac, c1: Frac, c2: Frac)
    requires
        c1.n == 0,
        c2.n == 0,
    ensures
        pi_eq(rod_moi_val(radius, c1), rod_moi_val(radius, c2)),
{
    let r2 = frac_mul(radius, radius);
    let cent = pi_of_pi(frac_mul(frac_mul(r2, r2), frac_quarter()));
    lemma_shift_zero(c1, pi_of_pi(r2));
    lemma_shift_zero(c2, pi_of_pi(r2));
    lemma_pi_zero_terms(
        cent,
        cent,
        pi_scale(frac_mul(c1, c1), pi_of_pi(r2)),
        pi_scale(frac_mul(c2, c2), pi_of_pi(r2)),
    );
}

/// Rectangle x-moments of equal dimensions with zero-valued centre offsets
/// agree.
proof fn lemma_rect_x_congr(w1: Frac, h1: Frac, c1: Frac, w2: Frac, h2: Frac, c2: Frac)
    requires
        frac_eq(w1, w2),
        frac_eq(h1, h2),
        c1.n == 0,
        c2.n == 0,
    ensures
        pi_eq(rect_moi_x_val(w1, h1, c1), rect_moi_x_val(w2, h2, c2)),
{
    lemma_frac_mul_congr(h1, h2, h1, h2);
    lemma_frac_mul_congr(frac_mul(h1, h1), frac_mul(h2, h2), h1, h2);
    let h31 = frac_mul(frac_mul(h1, h1), h1);
    let h32 = frac_mul(frac_mul(h2, h2), h2);
    lemma_frac_mul_congr(w1, w2, h31, h32);
    lemma_frac_mul_congr(frac_mul(w1, h31), frac_mul(w2, h32), frac_twelfth(), frac_twelfth());
    lemma_shift_zero(c1, pi_of_rat(frac_mul(w1, h1)));
    lemma_shift_zero(c2, pi_of_rat(frac_mul(w2, h2)));
    lemma_pi_zero_terms(
        pi_of_rat(frac_mul(frac_mul(w1, h31), frac_twelfth())),
        pi_of_rat(frac_mul(frac_mul(w2, h32), frac_twelfth())),
        pi_scale(frac_mul(c1, c1), pi_of_rat(frac_mul(w1, h1))),
        pi_scale(frac_mul(c2, c2), pi_of_rat(frac_mul(w2, h2))),
    );
}

/// For a square rectangle with zero-valued centre offsets, the x- and
/// y-moments agree.
proof fn lemma_rect_square_sym(w: Frac, h: Frac, c1: Frac, c2: Frac)
    requires
        frac_eq(w, h),
        c1.n == 0,
        c2.n == 0,
    ensures
        pi_eq(rect_moi_x_val(w, h, c1), rect_moi_y_val(w, h, c2)),
{
    lemma_frac_mul_congr(h, w, h, w);
    lemma_frac_mul_congr(frac_mul(h, h), frac_mul(w, w), h, w);
    let h3 = frac_mul(frac_mul(h, h), h);
    let w3 = frac_mul(frac_mul(w, w), w);
    lemma_frac_mul_congr(w, h, h3, w3);
    lemma_frac_mul_congr(frac_mul(w, h3), frac_mul(h, w3), frac_twelfth(), frac_twelfth());
    lemma_shift_zero(c1, pi_of_rat(frac_mul(w, h)));
    lemma_shift_zero(c2, pi_of_rat(frac_mul(w, h)));
    lemma_pi_zero_terms(
        pi_of_rat(frac_mul(frac_mul(w, h3), frac_twelfth())),
        pi_of_rat(frac_mul(frac_mul(h, w3), frac_twelfth())),
        pi_scale(frac_mul(c1, c1), pi_of_rat(frac_mul(w, h))),
        pi_scale(frac_mul(c2, c2), pi_of_rat(frac_mul(w, h))),
    );
}

/// The rectangle moment models are well-formed for well-formed inputs.
proof fn lemma_rect_moi_wf(w: Frac, h: Frac, c: Frac)
    requires
        frac_wf(w),
        frac_wf(h),
        frac_wf(c),
    ensures
        pi_wf(rect_moi_x_val(w, h, c)),
        pi_wf(rect_moi_y_val(w, h, c)),
{
    lemma_frac_ops_wf(h, h);
    lemma_frac_ops_wf(frac_mul(h, h), h);
    lemma_frac_ops_wf(w, frac_mul(frac_mul(h, h), h));
    lemma_frac_ops_wf(frac_mul(w, frac_mul(frac_mul(h, h), h)), frac_twelfth());
    lemma_frac_ops_wf(w, w);
    lemma_frac_ops_wf(frac_mul(w, w), w);
    lemma_frac_ops_wf(h, frac_mul(frac_mul(w, w), w));
    lemma_frac_ops_wf(frac_mul(h, frac_mul(frac_mul(w, w), w)), frac_twelfth());
    lemma_frac_ops_wf(c, c);
    lemma_frac_ops_wf(w, h);
    lemma_frac_ops_wf(frac_mul(c, c), frac_mul(w, h));
    lemma_frac_ops_wf(frac_mul(c, c), frac_zero());
    lemma_frac_ops_wf(
        frac_mul(frac_mul(w, frac_mul(frac_mul(h, h), h)), frac_twelfth()),
        frac_mul(frac_mul(c, c), frac_mul(w, h)),
    );
    lemma_frac_ops_wf(
        frac_mul(frac_mul(h, frac_mul(frac_mul(w, w), w)), frac_twelfth()),
        frac_mul(frac_mul(c, c), frac_mul(w, h)),
    );
    lemma_frac_ops_wf(frac_zero(), frac_mul(frac_mul(c, c), frac_zero()));
}

/// Symmetry: a rod or a pipe centred at the origin, a square rectangle or
/// square box beam centred at the origin, and a square I-beam centred at the
/// origin whose flanges meet in the middle, all have equal moments of
/// inertia about the two axes.
pub proof fn lemma_moi_symmetry(s: StructuralShape)
    requires
        s.wf(),
        frac_eq(s.cog_of().0@, frac_zero()),
        frac_eq(s.cog_of().1@, frac_zero()),
        match s {
            StructuralShape::Rod { .. } => true,
            StructuralShape::Pipe { .. } => true,
            StructuralShape::Rectangle { width, height, .. } => frac_eq(width@, height@),
            StructuralShape::BoxBeam { width, height, .. } => frac_eq(width@, height@),
            StructuralShape::IBeam { width, height, flange_thickness, .. } => frac_eq(
                width@,
                height@,
            ) && frac_eq(frac_add(flange_thickness@, flange_thickness@), height@),
        },
    ensures
        pi_eq(moi_x_val(s), moi_y_val(s)),
{
    lemma_frac_eq_zero_n(s.cog_of().0@);
    lemma_frac_eq_zero_n(s.cog_of().1@);
    match s {
        StructuralShape::Rod { radius, center_of_gravity } => {
            assert(center_of_gravity.1@.n == 0 && center_of_gravity.0@.n == 0);
            lemma_rod_moi_zero_off(radius@, center_of_gravity.1@, center_of_gravity.0@);
        },
        StructuralShape::Rectangle { width, height, center_of_gravity } => {
            assert(center_of_gravity.1@.n == 0 && center_of_gravity.0@.n == 0);
            lemma_rect_square_sym(width@, height@, center_of_gravity.1@, center_of_gravity.0@);
        },
        StructuralShape::Pipe { outer_radius, thickness, center_of_gravity } => {
            let cy = center_of_gravity.1@;
            let cx = center_of_gravity.0@;
            assert(cy.n == 0 && cx.n == 0);
            let inner = frac_sub(outer_radius@, thickness@);
            lemma_rod_moi_zero_off(outer_radius@, cy, cx);
            lemma_rod_moi_zero_off(inner, cy, cx);
            lemma_pi_zero_add(rod_moi_val(outer_radius@, cy));
            lemma_pi_zero_add(rod_moi_val(outer_radius@, cx));
            lemma_pi_sub_congr(
                rod_moi_val(outer_radius@, cy),
                rod_moi_val(outer_radius@, cx),
                rod_moi_val(inner, cy),
                rod_moi_val(inner, cx),
            );
        },
        StructuralShape::BoxBeam { width, height, thickness, center_of_gravity } => {
            let cy = center_of_gravity.1@;
            let cx = center_of_gravity.0@;
            assert(cy.n == 0 && cx.n == 0);
            let tt = frac_add(thickness@, thickness@);
            lemma_rect_x_congr(width@, height@, cy, height@, width@, cx);
            lemma_frac_sub_congr(width@, height@, tt, tt);
            lemma_frac_sub_congr(height@, width@, tt, tt);
            lemma_rect_x_congr(
                frac_sub(width@, tt),
                frac_sub(height@, tt),
                cy,
                frac_sub(height@, tt),
                frac_sub(width@, tt),
                cx,
            );
            lemma_pi_zero_add(rect_moi_x_val(width@, height@, cy));
            lemma_pi_zero_add(rect_moi_x_val(height@, width@, cx));
            lemma_pi_sub_congr(
                rect_moi_x_val(width@, height@, cy),
                rect_moi_x_val(height@, width@, cx),
                rect_moi_x_val(frac_sub(width@, tt), frac_sub(height@, tt), cy),
                rect_moi_x_val(frac_sub(height@, tt), frac_sub(width@, tt), cx),
            );
        },
        StructuralShape::IBeam { width, height, center_of_gravity, .. } => {
            let cy = center_of_gravity.1@;
            let cx = center_of_gravity.0@;
            assert(cy.n == 0 && cx.n == 0);
            lemma_ibeam_degenerates_to_rectangle(s);
            lemma_rect_square_sym(width@, height@, cy, cx);
            lemma_rect_moi_wf(width@, height@, cy);
            lemma_rect_moi_wf(width@, height@, cx);
            lemma_pi_eq_trans(
                moi_x_val(s),
                rect_moi_x_val(width@, height@, cy),
                rect_moi_y_val(width@, height@, cx),
            );
            lemma_pi_eq_trans(moi_x_val(s), rect_moi_y_val(width@, height@, cx), moi_y_val(s));
        },
    }
}

/// Equivalence: an I-beam whose two flanges meet in the middle of the
/// section (the flanges consume the full height) has the area and both
/// moments of the solid rectangle of the same outer dimensions.
pub proof fn lemma_ibeam_degenerates_to_rectangle(s: StructuralShape)
    requires
        s.wf(),
        s matches StructuralShape::IBeam { height, flange_thickness, .. } && frac_eq(
            frac_add(flange_thickness@, flange_thickness@),
            height@,
        ),
    ensures
        s matches StructuralShape::IBeam { width, height, center_of_gravity, .. } ==> {
            &&& pi_eq(area_val(s), pi_of_rat(frac_mul(width@, height@)))
            &&& pi_eq(moi_x_val(s), rect_moi_x_val(width@, height@, center_of_gravity.1@))
            &&& pi_eq(moi_y_val(s), rect_moi_y_val(width@, height@, center_of_gravity.0@))
        },
{
    match s {
        StructuralShape::IBeam { width, height, web_thickness, flange_thickness, center_of_gravity } => {
            let cy = center_of_gravity.1@;
            let cx = center_of_gravity.0@;
            let ih = ibeam_inner_height(height@, flange_thickness@);
            assert(ih.n == 0);
            let ww = frac_sub(width@, web_thickness@);
            lemma_frac_sub_zero_congr(
                frac_mul(width@, height@),
                frac_mul(width@, height@),
                frac_mul(ih, ww),
            );
            lemma_frac_mul_zero_n(ih, ww);
            let sw = crate::shapes::ibeam_side_width(width@, web_thickness@);
            let m0x = rect_moi_x_val(width@, height@, cy);
            let zx = rect_moi_x_val(sw, ih, cy);
            lemma_rect_moi_zero_val(sw, ih, cy);
            lemma_pi_zero_add(m0x);
            lemma_pi_zero_terms(m0x, m0x, zx, zx);
            lemma_pi_zero_terms(pi_sub(m0x, zx), m0x, zx, zx);
            let lc = crate::shapes::ibeam_left_center(cx, width@, web_thickness@);
            let rc = crate::shapes::ibeam_right_center(cx, width@, web_thickness@);
            let m0y = rect_moi_y_val(width@, height@, cx);
            let zl = rect_moi_y_val(sw, ih, lc);
            let zr = rect_moi_y_val(sw, ih, rc);
            lemma_rect_moi_zero_val(sw, ih, lc);
            lemma_rect_moi_zero_val(sw, ih, rc);
            lemma_pi_zero_add(m0y);
            lemma_pi_zero_terms(m0y, m0y, zl, zl);
            lemma_pi_zero_terms(pi_sub(m0y, zl), m0y, zr, zr);
        },
        _ => {
        },
    }
}

/// The rod moment model is well-formed for well-formed inputs.
proof fn lemma_rod_moi_wf(r: Frac, c: Frac)
    requires
        frac_wf(r),
        frac_wf(c),
    ensures
        pi_wf(rod_moi_val(r, c)),
{
    lemma_frac_ops_wf(r, r);
    let r2 = frac_mul(r, r);
    lemma_frac_ops_wf(r2, r2);
    lemma_frac_ops_wf(frac_mul(r2, r2), frac_quarter());
    lemma_frac_ops_wf(c, c);
    lemma_frac_ops_wf(frac_mul(c, c), r2);
    lemma_frac_ops_wf(frac_mul(c, c), frac_zero());
    lemma_frac_ops_wf(frac_zero(), frac_mul(frac_mul(c, c), frac_zero()));
    lemma_frac_ops_wf(frac_mul(frac_mul(r2, r2), frac_quarter()), frac_mul(frac_mul(c, c), r2));
}

/// Moving a rod's centre from the axis to offset `d` adds exactly
/// `(pi r^2) d^2` to its moment about that axis.
proof fn lemma_rod_shift(radius: Frac, c0: Frac, c1: Frac, d: Frac)
    requires
        c0.n == 0,
        frac_eq(c1, d),
    ensures
        pi_eq(
            rod_moi_val(radius, c1),
            pi_add(
                rod_moi_val(radius, c0),
                pi_scale(frac_mul(d, d), pi_of_pi(frac_mul(radius, radius))),
            ),
        ),
{
    let r2 = frac_mul(radius, radius);
    let cent = frac_mul(frac_mul(r2, r2), frac_quarter());
    lemma_frac_mul_congr(c1, d, c1, d);
    lemma_frac_mul_congr(frac_mul(c1, c1), frac_mul(d, d), r2, r2);
    lemma_frac_mul_zero_n(c0, c0);
    lemma_frac_mul_zero_n(frac_mul(c0, c0), r2);
    lemma_frac_add_zero(cent, frac_mul(frac_mul(c0, c0), r2));
    lemma_frac_mul_zero_n(frac_zero(), frac_mul(c0, c0));
    lemma_frac_mul_zero_n(frac_zero(), frac_mul(c1, c1));
    lemma_frac_mul_zero_n(frac_zero(), frac_mul(d, d));
    lemma_frac_add_zero_n(frac_zero(), frac_mul(frac_mul(c0, c0), frac_zero()));
    lemma_frac_add_zero_n(
        frac_add(frac_zero(), frac_mul(frac_mul(c0, c0), frac_zero())),
        frac_mul(frac_mul(d, d), frac_zero()),
    );
    lemma_frac_add_zero_n(frac_zero(), frac_mul(frac_mul(c1, c1), frac_zero()));
    lemma_frac_add_congr(
        cent,
        frac_add(cent, frac_mul(frac_mul(c0, c0), r2)),
        frac_mul(frac_mul(c1, c1), r2),
        frac_mul(frac_mul(d, d), r2),
    );
}

/// Moving a rectangle's centre from the x axis to a y offset of `d` adds
/// exactly `(w h) d^2` to its moment about the x axis.
proof fn lemma_rect_x_shift(w: Frac, h: Frac, c0: Frac, c1: Frac, d: Frac)
    requires
        c0.n == 0,
        frac_eq(c1, d),
    ensures
        pi_eq(
            rect_moi_x_val(w, h, c1),
            pi_add(
                rect_moi_x_val(w, h, c0),
                pi_scale(frac_mul(d, d), pi_of_rat(frac_mul(w, h))),
            ),
        ),
{
    let wh = frac_mul(w, h);
    let cent = frac_mul(frac_mul(w, frac_mul(frac_mul(h, h), h)), frac_twelfth());
    lemma_frac_mul_congr(c1, d, c1, d);
    lemma_frac_mul_congr(frac_mul(c1, c1), frac_mul(d, d), wh, wh);
    lemma_frac_mul_zero_n(c0, c0);
    lemma_frac_mul_zero_n(frac_mul(c0, c0), wh);
    lemma_frac_add_zero(cent, frac_mul(frac_mul(c0, c0), wh));
    lemma_frac_mul_zero_n(frac_zero(), frac_mul(c0, c0));
    lemma_frac_mul_zero_n(frac_zero(), frac_mul(c1, c1));
    lemma_frac_mul_zero_n(frac_zero(), frac_mul(d, d));
    lemma_frac_add_zero_n(frac_zero(), frac_mul(frac_mul(c0, c0), frac_zero()));
    lemma_frac_add_zero_n(
        frac_add(frac_zero(), frac_mul(frac_mul(c0, c0), frac_zero())),
        frac_mul(frac_mul(d, d), frac_zero()),
    );
    lemma_frac_add_zero_n(frac_zero(), frac_mul(frac_mul(c1, c1), frac_zero()));
    lemma_frac_add_congr(
        cent,
        frac_add(cent, frac_mul(frac_mul(c0, c0), wh)),
        frac_mul(frac_mul(c1, c1), wh),
        frac_mul(frac_mul(d, d), wh),
    );
}

/// Combines two shifted members: the difference of the shifted moments is
/// the difference of the centred moments plus `d^2` times the area
/// difference.
proof fn lemma_two_member_shift(
    a1: PiVal,
    a2: PiVal,
    b1: PiVal,
    b2: PiVal,
    dd: Frac,
    p1: PiVal,
    p2: PiVal,
)
    requires
        pi_eq(a1, pi_add(b1, pi_scale(dd, p1))),
        pi_eq(a2, pi_add(b2, pi_scale(dd, p2))),
        pi_wf(b1),
        pi_wf(b2),
        pi_wf(p1),
        pi_wf(p2),
        frac_wf(dd),
    ensures
        pi_eq(pi_sub(a1, a2), pi_add(pi_sub(b1, b2), pi_scale(dd, pi_sub(p1, p2)))),
{
    let s1 = pi_scale(dd, p1);
    let s2 = pi_scale(dd, p2);
    lemma_pi_scale_wf(dd, p1);
    lemma_pi_scale_wf(dd, p2);
    lemma_pi_ops_wf(b1, s1);
    lemma_pi_ops_wf(b2, s2);
    lemma_pi_ops_wf(pi_add(b1, s1), pi_add(b2, s2));
    lemma_pi_ops_wf(b1, b2);
    lemma_pi_ops_wf(s1, s2);
    lemma_pi_ops_wf(pi_sub(b1, b2), pi_sub(s1, s2));
    lemma_pi_sub_congr(a1, pi_add(b1, s1), a2, pi_add(b2, s2));
    lemma_pi_rearrange(b1, s1, b2, s2);
    crate::scalar::lemma_pi_scale_dist_sub(dd, p1, p2);
    lemma_pi_add_congr(pi_sub(b1, b2), pi_sub(b1, b2), pi_sub(s1, s2), pi_scale(dd, pi_sub(p1, p2)));
    lemma_pi_eq_trans(
        pi_sub(a1, a2),
        pi_sub(pi_add(b1, s1), pi_add(b2, s2)),
        pi_add(pi_sub(b1, b2), pi_sub(s1, s2)),
    );
    lemma_pi_eq_trans(
        pi_sub(a1, a2),
        pi_add(pi_sub(b1, b2), pi_sub(s1, s2)),
        pi_add(pi_sub(b1, b2), pi_scale(dd, pi_sub(p1, p2))),
    );
}

/// Parallel axis theorem about the x axis, for every shape: moving the
/// centre of gravity from the x axis to a y offset of `d` adds exactly
/// `area * d^2` to the moment about the x axis.  The hollow families
/// inherit the shift member by member through their decompositions.
pub proof fn lemma_parallel_axis_x(s0: StructuralShape, s1: StructuralShape, d: Frac)
    requires
        s0.wf(),
        s1.wf(),
        frac_wf(d),
        s1 == s0.with_cog(s1.cog_of()),
        s1.cog_of().0 == s0.cog_of().0,
        s0.cog_of().1@.n == 0,
        frac_eq(s1.cog_of().1@, d),
    ensures
        pi_eq(moi_x_val(s1), pi_add(moi_x_val(s0), pi_scale(frac_mul(d, d), area_val(s0)))),
{
    match s0 {
        StructuralShape::Rod { radius, center_of_gravity } => {
            lemma_rod_shift(radius@, center_of_gravity.1@, s1.cog_of().1@, d);
        },
        StructuralShape::Rectangle { width, height, center_of_gravity } => {
            lemma_rect_x_shift(width@, height@, center_of_gravity.1@, s1.cog_of().1@, d);
        },
        StructuralShape::Pipe { outer_radius, thickness, center_of_gravity } => {
            let c0 = center_of_gravity.1@;
            let c1 = s1.cog_of().1@;
            let dd = frac_mul(d, d);
            let rr = outer_radius@;
            let inner = frac_sub(rr, thickness@);
            lemma_rod_shift(rr, c0, c1, d);
            lemma_rod_shift(inner, c0, c1, d);
            lemma_frac_ops_wf(d, d);
            lemma_frac_ops_wf(rr, rr);
            lemma_frac_ops_wf(rr, thickness@);
            lemma_frac_ops_wf(inner, inner);
            lemma_rod_moi_wf(rr, c0);
            lemma_rod_moi_wf(inner, c0);
            lemma_two_member_shift(
                rod_moi_val(rr, c1),
                rod_moi_val(inner, c1),
                rod_moi_val(rr, c0),
                rod_moi_val(inner, c0),
                dd,
                pi_of_pi(frac_mul(rr, rr)),
                pi_of_pi(frac_mul(inner, inner)),
            );
            lemma_pi_zero_add(rod_moi_val(rr, c1));
            lemma_pi_zero_add(rod_moi_val(rr, c0));
            assert(pi_sub(pi_of_pi(frac_mul(rr, rr)), pi_of_pi(frac_mul(inner, inner)))
                == area_val(s0));
        },
        StructuralShape::BoxBeam { width, height, thickness, center_of_gravity } => {
            let c0 = center_of_gravity.1@;
            let c1 = s1.cog_of().1@;
            let dd = frac_mul(d, d);
            let tt = frac_add(thickness@, thickness@);
            let wi = frac_sub(width@, tt);
            let hi = frac_sub(height@, tt);
            lemma_rect_x_shift(width@, height@, c0, c1, d);
            lemma_rect_x_shift(wi, hi, c0, c1, d);
            lemma_frac_ops_wf(d, d);
            lemma_frac_ops_wf(thickness@, thickness@);
            lemma_frac_ops_wf(width@, tt);
            lemma_frac_ops_wf(height@, tt);
            lemma_frac_ops_wf(width@, height@);
            lemma_frac_ops_wf(wi, hi);
            lemma_rect_moi_wf(width@, height@, c0);
            lemma_rect_moi_wf(wi, hi, c0);
            lemma_two_member_shift(
                rect_moi_x_val(width@, height@, c1),
                rect_moi_x_val(wi, hi, c1),
                rect_moi_x_val(width@, height@, c0),
                rect_moi_x_val(wi, hi, c0),
                dd,
                pi_of_rat(frac_mul(width@, height@)),
                pi_of_rat(frac_mul(wi, hi)),
            );
            lemma_pi_zero_add(rect_moi_x_val(width@, height@, c1));
            lemma_pi_zero_add(rect_moi_x_val(width@, height@, c0));
            assert(pi_sub(pi_of_rat(frac_mul(width@, height@)), pi_of_rat(frac_mul(wi, hi)))
                == area_val(s0));
        },
        StructuralShape::IBeam { width, height, web_thickness, flange_thickness, center_of_gravity } => {
            let c0 = center_of_gravity.1@;
            let c1 = s1.cog_of().1@;
            let dd = frac_mul(d, d);
            let wmw = frac_sub(width@, web_thickness@);
            let sw = crate::shapes::ibeam_side_width(width@, web_thickness@);
            let ih = ibeam_inner_height(height@, flange_thickness@);
            let m1 = rect_moi_x_val(width@, height@, c1);
            let z1 = rect_moi_x_val(sw, ih, c1);
            let m0 = rect_moi_x_val(width@, height@, c0);
            let z0 = rect_moi_x_val(sw, ih, c0);
            let p0 = pi_of_rat(frac_mul(width@, height@));
            let pz = pi_of_rat(frac_mul(sw, ih));
            lemma_rect_x_shift(width@, height@, c0, c1, d);
            lemma_rect_x_shift(sw, ih, c0, c1, d);
            lemma_frac_ops_wf(d, d);
            lemma_frac_ops_wf(width@, web_thickness@);
            lemma_frac_ops_wf(wmw, crate::rational::frac_half());
            lemma_frac_ops_wf(flange_thickness@, flange_thickness@);
            lemma_frac_ops_wf(height@, frac_add(flange_thickness@, flange_thickness@));
            lemma_frac_ops_wf(width@, height@);
            lemma_frac_ops_wf(sw, ih);
            lemma_rect_moi_wf(width@, height@, c0);
            lemma_rect_moi_wf(sw, ih, c0);
            lemma_two_member_shift(m1, z1, m0, z0, dd, p0, pz);
            lemma_pi_ops_wf(p0, pz);
            lemma_pi_ops_wf(m0, z0);
            lemma_two_member_shift(
                pi_sub(m1, z1),
                z1,
                pi_sub(m0, z0),
                z0,
                dd,
                pi_sub(p0, pz),
                pz,
            );
            lemma_pi_zero_add(m1);
            lemma_pi_zero_add(m0);
            crate::rational::lemma_frac_sub_twice(frac_mul(width@, height@), frac_mul(sw, ih));
            assert(frac_eq(
                frac_add(frac_mul(sw, ih), frac_mul(sw, ih)),
                frac_mul(ih, wmw),
            )) by (nonlinear_arith)
                requires
                    sw == frac_mul(wmw, crate::rational::frac_half()),
                    crate::rational::frac_half() == (Frac { n: 1, d: 2 }),
            ;
            crate::rational::lemma_frac_sub_congr(
                frac_mul(width@, height@),
                frac_mul(width@, height@),
                frac_add(frac_mul(sw, ih), frac_mul(sw, ih)),
                frac_mul(ih, wmw),
            );
            lemma_frac_ops_wf(frac_mul(sw, ih), frac_mul(sw, ih));
            lemma_frac_ops_wf(
                frac_mul(width@, height@),
                frac_add(frac_mul(sw, ih), frac_mul(sw, ih)),
            );
            crate::rational::lemma_frac_eq_trans(
                frac_sub(frac_sub(frac_mul(width@, height@), frac_mul(sw, ih)), frac_mul(sw, ih)),
                frac_sub(frac_mul(width@, height@), frac_add(frac_mul(sw, ih), frac_mul(sw, ih))),
                frac_sub(frac_mul(width@, height@), frac_mul(ih, wmw)),
            );
            let bb = pi_sub(pi_sub(m0, z0), z0);
            lemma_pi_scale_congr(dd, dd, pi_sub(pi_sub(p0, pz), pz), area_val(s0));
            lemma_pi_add_congr(
                bb,
                bb,
                pi_scale(dd, pi_sub(pi_sub(p0, pz), pz)),
                pi_scale(dd, area_val(s0)),
            );
            lemma_pi_ops_wf(pi_sub(p0, pz), pz);
            lemma_pi_scale_wf(dd, pi_sub(pi_sub(p0, pz), pz));
            lemma_pi_ops_wf(pi_sub(m0, z0), z0);
            lemma_pi_ops_wf(bb, pi_scale(dd, pi_sub(pi_sub(p0, pz), pz)));
            lemma_pi_eq_trans(
                pi_sub(pi_sub(m1, z1), z1),
                pi_add(bb, pi_scale(dd, pi_sub(pi_sub(p0, pz), pz))),
                pi_add(bb, pi_scale(dd, area_val(s0))),
            );
        },
    }
}

/// Parallel axis theorem about the y axis: moving the centre of gravity
/// from the y axis to an x offset of `d` adds exactly `area * d^2` to the
/// moment about the y axis.  Stated for the rod, rectangle, pipe and box
/// beam; the I-beam's y decomposition has members that sit off the y axis,
/// so it is left out here.
pub proof fn lemma_parallel_axis_y(s0: StructuralShape, s1: StructuralShape, d: Frac)
    requires
        s0.wf(),
        s1.wf(),
        frac_wf(d),
        !(s0 matches StructuralShape::IBeam { .. }),
        s1 == s0.with_cog(s1.cog_of()),
        s1.cog_of().1 == s0.cog_of().1,
        s0.cog_of().0@.n == 0,
        frac_eq(s1.cog_of().0@, d),
    ensures
        pi_eq(moi_y_val(s1), pi_add(moi_y_val(s0), pi_scale(frac_mul(d, d), area_val(s0)))),
{
    match s0 {
        StructuralShape::Rod { radius, center_of_gravity } => {
            lemma_rod_shift(radius@, center_of_gravity.0@, s1.cog_of().0@, d);
        },
        StructuralShape::Rectangle { width, height, center_of_gravity } => {
            let c0 = center_of_gravity.0@;
            let c1 = s1.cog_of().0@;
            let wh = frac_mul(width@, height@);
            let cent = frac_mul(
                frac_mul(height@, frac_mul(frac_mul(width@, width@), width@)),
                frac_twelfth(),
            );
            lemma_frac_mul_congr(c1, d, c1, d);
            lemma_frac_mul_congr(frac_mul(c1, c1), frac_mul(d, d), wh, wh);
            lemma_frac_mul_zero_n(c0, c0);
            lemma_frac_mul_zero_n(frac_mul(c0, c0), wh);
            lemma_frac_add_zero(cent, frac_mul(frac_mul(c0, c0), wh));
            lemma_frac_mul_zero_n(frac_zero(), frac_mul(c0, c0));
            lemma_frac_mul_zero_n(frac_zero(), frac_mul(c1, c1));
            lemma_frac_mul_zero_n(frac_zero(), frac_mul(d, d));
            lemma_frac_add_zero_n(frac_zero(), frac_mul(frac_mul(c0, c0), frac_zero()));
            lemma_frac_add_zero_n(
                frac_add(frac_zero(), frac_mul(frac_mul(c0, c0), frac_zero())),
                frac_mul(frac_mul(d, d), frac_zero()),
            );
            lemma_frac_add_zero_n(frac_zero(), frac_mul(frac_mul(c1, c1), frac_zero()));
            lemma_frac_add_congr(
                cent,
                frac_add(cent, frac_mul(frac_mul(c0, c0), wh)),
                frac_mul(frac_mul(c1, c1), wh),
                frac_mul(frac_mul(d, d), wh),
            );
        },
        StructuralShape::Pipe { outer_radius, thickness, center_of_gravity } => {
            let c0 = center_of_gravity.0@;
            let c1 = s1.cog_of().0@;
            let dd = frac_mul(d, d);
            let rr = outer_radius@;
            let inner = frac_sub(rr, thickness@);
            lemma_rod_shift(rr, c0, c1, d);
            lemma_rod_shift(inner, c0, c1, d);
            lemma_frac_ops_wf(d, d);
            lemma_frac_ops_wf(rr, rr);
            lemma_frac_ops_wf(rr, thickness@);
            lemma_frac_ops_wf(inner, inner);
            lemma_rod_moi_wf(rr, c0);
            lemma_rod_moi_wf(inner, c0);
            lemma_two_member_shift(
                rod_moi_val(rr, c1),
                rod_moi_val(inner, c1),
                rod_moi_val(rr, c0),
                rod_moi_val(inner, c0),
                dd,
                pi_of_pi(frac_mul(rr, rr)),
                pi_of_pi(frac_mul(inner, inner)),
            );
            lemma_pi_zero_add(rod_moi_val(rr, c1));
            lemma_pi_zero_add(rod_moi_val(rr, c0));
            assert(pi_sub(pi_of_pi(frac_mul(rr, rr)), pi_of_pi(frac_mul(inner, inner)))
                == area_val(s0));
        },
        StructuralShape::BoxBeam { width, height, thickness, center_of_gravity } => {
            let c0 = center_of_gravity.0@;
            let c1 = s1.cog_of().0@;
            let dd = frac_mul(d, d);
            let tt = frac_add(thickness@, thickness@);
            let wi = frac_sub(width@, tt);
            let hi = frac_sub(height@, tt);
            lemma_rect_x_shift(height@, width@, c0, c1, d);
            lemma_rect_x_shift(hi, wi, c0, c1, d);
            lemma_frac_ops_wf(d, d);
            lemma_frac_ops_wf(thickness@, thickness@);
            lemma_frac_ops_wf(width@, tt);
            lemma_frac_ops_wf(height@, tt);
            lemma_frac_ops_wf(height@, width@);
            lemma_frac_ops_wf(hi, wi);
            lemma_frac_ops_wf(width@, height@);
            lemma_frac_ops_wf(wi, hi);
            lemma_rect_moi_wf(height@, width@, c0);
            lemma_rect_moi_wf(hi, wi, c0);
            let p1 = pi_of_rat(frac_mul(height@, width@));
            let p2 = pi_of_rat(frac_mul(hi, wi));
            lemma_two_member_shift(
                rect_moi_x_val(height@, width@, c1),
                rect_moi_x_val(hi, wi, c1),
                rect_moi_x_val(height@, width@, c0),
                rect_moi_x_val(hi, wi, c0),
                dd,
                p1,
                p2,
            );
            lemma_pi_zero_add(rect_moi_x_val(height@, width@, c1));
            lemma_pi_zero_add(rect_moi_x_val(height@, width@, c0));
            lemma_frac_mul_comm_eq(height@, width@);
            lemma_frac_mul_comm_eq(hi, wi);
            crate::rational::lemma_frac_sub_congr(
                frac_mul(height@, width@),
                frac_mul(width@, height@),
                frac_mul(hi, wi),
                frac_mul(wi, hi),
            );
            let bb = pi_sub(
                rect_moi_x_val(height@, width@, c0),
                rect_moi_x_val(hi, wi, c0),
            );
            lemma_pi_scale_congr(dd, dd, pi_sub(p1, p2), area_val(s0));
            lemma_pi_add_congr(bb, bb, pi_scale(dd, pi_sub(p1, p2)), pi_scale(dd, area_val(s0)));
            lemma_pi_ops_wf(p1, p2);
            lemma_pi_scale_wf(dd, pi_sub(p1, p2));
            lemma_pi_ops_wf(
                rect_moi_x_val(height@, width@, c0),
                rect_moi_x_val(hi, wi, c0),
            );
            lemma_pi_ops_wf(bb, pi_scale(dd, pi_sub(p1, p2)));
            lemma_pi_eq_trans(
                pi_sub(rect_moi_x_val(height@, width@, c1), rect_moi_x_val(hi, wi, c1)),
                pi_add(bb, pi_scale(dd, pi_sub(p1, p2))),
                pi_add(bb, pi_scale(dd, area_val(s0))),
            );
        },
        StructuralShape::IBeam { .. } => {
        },
    }
}

/// A geometrically valid shape has a non-negative area: both the rational
/// part and the coefficient of pi of its exact area are non-negative.
pub proof fn lemma_area_nonnegative(s: StructuralShape)
    requires
        s.wf(),
        crate::shapes::valid_geometry(s),
    ensures
        crate::rational::frac_le(frac_zero(), area_val(s).rat),
        crate::rational::frac_le(frac_zero(), area_val(s).pi_coeff),
{
    match s {
        StructuralShape::Rod { radius, .. } => {
            assert(frac_mul(radius@, radius@).n >= 0) by (nonlinear_arith)
                requires
                    radius@.n >= 0,
            ;
        },
        StructuralShape::Rectangle { width, height, .. } => {
            assert(frac_mul(width@, height@).n >= 0) by (nonlinear_arith)
                requires
                    width@.n >= 0,
                    height@.n >= 0,
            ;
        },
        StructuralShape::Pipe { outer_radius, thickness, .. } => {
            let rr = outer_radius@;
            let inner = frac_sub(rr, thickness@);
            lemma_frac_ops_wf(rr, thickness@);
            crate::rational::lemma_frac_sub_le(rr, thickness@);
            crate::rational::lemma_frac_mul_le(inner, rr, inner, rr);
        },
        StructuralShape::BoxBeam { width, height, thickness, .. } => {
            let tt = frac_add(thickness@, thickness@);
            let wi = frac_sub(width@, tt);
            let hi = frac_sub(height@, tt);
            assert(frac_add(thickness@, thickness@).n >= 0) by (nonlinear_arith)
                requires
                    thickness@.n >= 0,
                    thickness@.d >= 1,
            ;
            lemma_frac_ops_wf(thickness@, thickness@);
            lemma_frac_ops_wf(width@, tt);
            lemma_frac_ops_wf(height@, tt);
            crate::rational::lemma_frac_sub_le(width@, tt);
            crate::rational::lemma_frac_sub_le(height@, tt);
            crate::rational::lemma_frac_mul_le(wi, width@, hi, height@);
        },
        StructuralShape::IBeam { width, height, web_thickness, flange_thickness, .. } => {
            let ff = frac_add(flange_thickness@, flange_thickness@);
            let hh = frac_sub(height@, ff);
            let ww = frac_sub(width@, web_thickness@);
            assert(frac_add(flange_thickness@, flange_thickness@).n >= 0) by (nonlinear_arith)
                requires
                    flange_thickness@.n >= 0,
                    flange_thickness@.d >= 1,
            ;
            lemma_frac_ops_wf(flange_thickness@, flange_thickness@);
            lemma_frac_ops_wf(height@, ff);
            lemma_frac_ops_wf(width@, web_thickness@);
            crate::rational::lemma_frac_sub_le(height@, ff);
            crate::rational::lemma_frac_sub_le(width@, web_thickness@);
            crate::rational::lemma_frac_mul_le(hh, height@, ww, width@);
            lemma_frac_mul_comm_eq(height@, width@);
            lemma_frac_ops_wf(hh, ww);
            lemma_frac_ops_wf(height@, width@);
            lemma_frac_ops_wf(width@, height@);
            crate::rational::lemma_frac_le_eq_right(
                frac_mul(hh, ww),
                frac_mul(height@, width@),
                frac_mul(width@, height@),
            );
        },
    }
}

/// Order-independence of superposition: appending the same two signed
/// members in either order gives a composite with the same area and the
/// same moments about both axes.
pub proof fn lemma_append_order_irrelevant(
    s: Seq<(i8, StructuralShape)>,
    a: (i8, StructuralShape),
    b: (i8, StructuralShape),
)
    ensures
        pi_eq(comp_area_val(s.push(a).push(b)), comp_area_val(s.push(b).push(a))),
        pi_eq(comp_moi_x_val(s.push(a).push(b)), comp_moi_x_val(s.push(b).push(a))),
        pi_eq(comp_moi_y_val(s.push(a).push(b)), comp_moi_y_val(s.push(b).push(a))),
{
    assert(s.push(a).push(b).drop_last() =~= s.push(a));
    assert(s.push(a).drop_last() =~= s);
    assert(s.push(b).push(a).drop_last() =~= s.push(b));
    assert(s.push(b).drop_last() =~= s);
    lemma_signed_append_swap(comp_area_val(s), a.0, area_val(a.1), b.0, area_val(b.1));
    assert(comp_area_val(s.push(a)) == signed_add(comp_area_val(s), a.0, area_val(a.1)));
    assert(comp_area_val(s.push(b)) == signed_add(comp_area_val(s), b.0, area_val(b.1)));
    assert(comp_moi_x_val(s.push(a)) == signed_add(comp_moi_x_val(s), a.0, moi_x_val(a.1)));
    assert(comp_moi_x_val(s.push(b)) == signed_add(comp_moi_x_val(s), b.0, moi_x_val(b.1)));
    assert(comp_moi_y_val(s.push(a)) == signed_add(comp_moi_y_val(s), a.0, moi_y_val(a.1)));
    assert(comp_moi_y_val(s.push(b)) == signed_add(comp_moi_y_val(s), b.0, moi_y_val(b.1)));
    lemma_signed_append_swap(comp_moi_x_val(s), a.0, moi_x_val(a.1), b.0, moi_x_val(b.1));
    lemma_signed_append_swap(comp_moi_y_val(s), a.0, moi_y_val(a.1), b.0, moi_y_val(b.1));
    assert(comp_moi_x_val(s.push(a).push(b)) == signed_add(
        signed_add(comp_moi_x_val(s), a.0, moi_x_val(a.1)),
        b.0,
        moi_x_val(b.1),
    ));
    assert(comp_moi_x_val(s.push(b).push(a)) == signed_add(
        signed_add(comp_moi_x_val(s), b.0, moi_x_val(b.1)),
        a.0,
        moi_x_val(a.1),
    ));
    assert(comp_moi_y_val(s.push(a).push(b)) == signed_add(
        signed_add(comp_moi_y_val(s), a.0, moi_y_val(a.1)),
        b.0,
        moi_y_val(b.1),
    ));
    assert(comp_moi_y_val(s.push(b).push(a)) == signed_add(
        signed_add(comp_moi_y_val(s), b.0, moi_y_val(b.1)),
        a.0,
        moi_y_val(a.1),
    ));
}

/// Two signed terms appended to a sum can be appended in either order.
proof fn lemma_signed_append_swap(x: PiVal, sa: i8, ta: PiVal, sb: i8, tb: PiVal)
    ensures
        pi_eq(signed_add(signed_add(x, sa, ta), sb, tb), signed_add(signed_add(x, sb, tb), sa, ta)),
{
    lemma_pi_append_swap(x, ta, tb);
    lemma_pi_append_swap(x, tb, ta);
}

/// Removing one member from the area sum leaves the sum minus that member's
/// signed term.
proof fn lemma_comp_area_remove(s: Seq<(i8, StructuralShape)>, j: int)
    requires
        0 <= j < s.len(),
        forall|i: int| 0 <= i < s.len() ==> (#[trigger] s[i]).1.wf(),
    ensures
        pi_eq(
            comp_area_val(s),
            signed_add(comp_area_val(s.remove(j)), s[j].0, area_val(s[j].1)),
        ),
    decreases s.len(),
{
    if j == s.len() - 1 {
        assert(s.remove(j) =~= s.drop_last());
    } else {
        let t = s.drop_last();
        lemma_comp_area_remove(t, j);
        assert(s.remove(j).drop_last() =~= t.remove(j));
        assert(s.remove(j).last() == s.last());
        let l = s.last();
        let tj = s[j];
        assert(t[j] == s[j]);
        let core = comp_area_val(t.remove(j));
        lemma_signed_congr(
            comp_area_val(t),
            signed_add(core, tj.0, area_val(tj.1)),
            l.0,
            area_val(l.1),
        );
        lemma_signed_append_swap(core, tj.0, area_val(tj.1), l.0, area_val(l.1));
        assert(forall|i: int|
            0 <= i < t.remove(j).len() ==> (#[trigger] t.remove(j)[i]).1.wf());
        lemma_comp_vals_wf(t.remove(j));
        lemma_area_val_wf(tj.1);
        lemma_area_val_wf(l.1);
        lemma_pi_ops_wf(core, area_val(tj.1));
        lemma_pi_ops_wf(pi_add(core, area_val(tj.1)), area_val(l.1));
        lemma_pi_ops_wf(pi_sub(core, area_val(tj.1)), area_val(l.1));
        lemma_pi_eq_trans(
            comp_area_val(s),
            signed_add(signed_add(core, tj.0, area_val(tj.1)), l.0, area_val(l.1)),
            signed_add(signed_add(core, l.0, area_val(l.1)), tj.0, area_val(tj.1)),
        );
    }
}

/// Removing one member from the x-moment sum leaves the sum minus that
/// member's signed term.
proof fn lemma_comp_moi_x_remove(s: Seq<(i8, StructuralShape)>, j: int)
    requires
        0 <= j < s.len(),
        forall|i: int| 0 <= i < s.len() ==> (#[trigger] s[i]).1.wf(),
    ensures
        pi_eq(
            comp_moi_x_val(s),
            signed_add(comp_moi_x_val(s.remove(j)), s[j].0, moi_x_val(s[j].1)),
        ),
    decreases s.len(),
{
    if j == s.len() - 1 {
        assert(s.remove(j) =~= s.drop_last());
    } else {
        let t = s.drop_last();
        lemma_comp_moi_x_remove(t, j);
        assert(s.remove(j).drop_last() =~= t.remove(j));
        assert(s.remove(j).last() == s.last());
        let l = s.last();
        let tj = s[j];
        assert(t[j] == s[j]);
        let core = comp_moi_x_val(t.remove(j));
        lemma_signed_congr(
            comp_moi_x_val(t),
            signed_add(core, tj.0, moi_x_val(tj.1)),
            l.0,
            moi_x_val(l.1),
        );
        lemma_signed_append_swap(core, tj.0, moi_x_val(tj.1), l.0, moi_x_val(l.1));
        assert(forall|i: int|
            0 <= i < t.remove(j).len() ==> (#[trigger] t.remove(j)[i]).1.wf());
        lemma_comp_moi_wf(t.remove(j));
        lemma_moi_vals_wf(tj.1);
        lemma_moi_vals_wf(l.1);
        lemma_pi_ops_wf(core, moi_x_val(tj.1));
        lemma_pi_ops_wf(pi_add(core, moi_x_val(tj.1)), moi_x_val(l.1));
        lemma_pi_ops_wf(pi_sub(core, moi_x_val(tj.1)), moi_x_val(l.1));
        lemma_pi_eq_trans(
            comp_moi_x_val(s),
            signed_add(signed_add(core, tj.0, moi_x_val(tj.1)), l.0, moi_x_val(l.1)),
            signed_add(signed_add(core, l.0, moi_x_val(l.1)), tj.0, moi_x_val(tj.1)),
        );
    }
}

/// Removing one member from the y-moment sum leaves the sum minus that
/// member's signed term.
proof fn lemma_comp_moi_y_remove(s: Seq<(i8, StructuralShape)>, j: int)
    requires
        0 <= j < s.len(),
        forall|i: int| 0 <= i < s.len() ==> (#[trigger] s[i]).1.wf(),
    ensures
        pi_eq(
            comp_moi_y_val(s),
            signed_add(comp_moi_y_val(s.remove(j)), s[j].0, moi_y_val(s[j].1)),
        ),
    decreases s.len(),
{
    if j == s.len() - 1 {
        assert(s.remove(j) =~= s.drop_last());
    } else {
        let t = s.drop_last();
        lemma_comp_moi_y_remove(t, j);
        assert(s.remove(j).drop_last() =~= t.remove(j));
        assert(s.remove(j).last() == s.last());
        let l = s.last();
        let tj = s[j];
        assert(t[j] == s[j]);
        let core = comp_moi_y_val(t.remove(j));
        lemma_signed_congr(
            comp_moi_y_val(t),
            signed_add(core, tj.0, moi_y_val(tj.1)),
            l.0,
            moi_y_val(l.1),
        );
        lemma_signed_append_swap(core, tj.0, moi_y_val(tj.1), l.0, moi_y_val(l.1));
        assert(forall|i: int|
            0 <= i < t.remove(j).len() ==> (#[trigger] t.remove(j)[i]).1.wf());
        lemma_comp_moi_wf(t.remove(j));
        lemma_moi_vals_wf(tj.1);
        lemma_moi_vals_wf(l.1);
        lemma_pi_ops_wf(core, moi_y_val(tj.1));
        lemma_pi_ops_wf(pi_add(core, moi_y_val(tj.1)), moi_y_val(l.1));
        lemma_pi_ops_wf(pi_sub(core, moi_y_val(tj.1)), moi_y_val(l.1));
        lemma_pi_eq_trans(
            comp_moi_y_val(s),
            signed_add(signed_add(core, tj.0, moi_y_val(tj.1)), l.0, moi_y_val(l.1)),
            signed_add(signed_add(core, l.0, moi_y_val(l.1)), tj.0, moi_y_val(tj.1)),
        );
    }
}

/// Full order-independence of superposition: two composites whose signed
/// members form the same multiset have the same exact area and the same
/// exact moments about both axes, whatever the order of the `add` and `sub`
/// calls that built them.
pub proof fn lemma_composite_permutation(
    s1: Seq<(i8, StructuralShape)>,
    s2: Seq<(i8, StructuralShape)>,
)
    requires
        s1.to_multiset() == s2.to_multiset(),
        forall|i: int| 0 <= i < s1.len() ==> (#[trigger] s1[i]).1.wf(),
        forall|i: int| 0 <= i < s2.len() ==> (#[trigger] s2[i]).1.wf(),
    ensures
        pi_eq(comp_area_val(s1), comp_area_val(s2)),
        pi_eq(comp_moi_x_val(s1), comp_moi_x_val(s2)),
        pi_eq(comp_moi_y_val(s1), comp_moi_y_val(s2)),
    decreases s1.len(),
{
    broadcast use vstd::multiset::group_multiset_axioms;

    s1.to_multiset_ensures();
    s2.to_multiset_ensures();
    if s1.len() == 0 {
        assert(s2.len() == 0);
    } else {
        let x = s1.last();
        assert(s1.contains(x));
        assert(s1.to_multiset().count(x) > 0);
        assert(s2.to_multiset().count(x) > 0);
        assert(s2.contains(x));
        let j = choose|j: int| 0 <= j < s2.len() && s2[j] == x;
        let t1 = s1.drop_last();
        let t2 = s2.remove(j);
        t1.to_multiset_ensures();
        assert(s1 =~= t1.push(x));
        assert(t1.to_multiset() =~= t2.to_multiset());
        assert(forall|i: int| 0 <= i < t2.len() ==> (#[trigger] t2[i]).1.wf());
        lemma_composite_permutation(t1, t2);
        lemma_comp_area_remove(s2, j);
        lemma_comp_moi_x_remove(s2, j);
        lemma_comp_moi_y_remove(s2, j);
        lemma_comp_vals_wf(t2);
        lemma_comp_moi_wf(t2);
        lemma_area_val_wf(x.1);
        lemma_moi_vals_wf(x.1);
        lemma_signed_congr(comp_area_val(t1), comp_area_val(t2), x.0, area_val(x.1));
        lemma_signed_congr(comp_moi_x_val(t1), comp_moi_x_val(t2), x.0, moi_x_val(x.1));
        lemma_signed_congr(comp_moi_y_val(t1), comp_moi_y_val(t2), x.0, moi_y_val(x.1));
        lemma_pi_ops_wf(comp_area_val(t2), area_val(x.1));
        lemma_pi_ops_wf(comp_moi_x_val(t2), moi_x_val(x.1));
        lemma_pi_ops_wf(comp_moi_y_val(t2), moi_y_val(x.1));
        lemma_pi_eq_trans(
            comp_area_val(s1),
            signed_add(comp_area_val(t2), x.0, area_val(x.1)),
            comp_area_val(s2),
        );
        lemma_pi_eq_trans(
            comp_moi_x_val(s1),
            signed_add(comp_moi_x_val(t2), x.0, moi_x_val(x.1)),
            comp_moi_x_val(s2),
        );
        lemma_pi_eq_trans(
            comp_moi_y_val(s1),
            signed_add(comp_moi_y_val(t2), x.0, moi_y_val(x.1)),
            comp_moi_y_val(s2),
        );
    }
}

/// A signed append of the same term to equal sums gives equal sums.
proof fn lemma_signed_congr(acc: PiVal, acc2: PiVal, sgn: i8, t: PiVal)
    requires
        pi_eq(acc, acc2),
    ensures
        pi_eq(signed_add(acc, sgn, t), signed_add(acc2, sgn, t)),
{
    if sgn == 1i8 {
        lemma_pi_add_congr(acc, acc2, t, t);
    } else {
        lemma_pi_sub_congr(acc, acc2, t, t);
    }
}

/// The moment models of a well-formed shape are well-formed values.
proof fn lemma_moi_vals_wf(sh: StructuralShape)
    requires
        sh.wf(),
    ensures
        pi_wf(moi_x_val(sh)),
        pi_wf(moi_y_val(sh)),
{
    match sh {
        StructuralShape::Rod { radius, center_of_gravity } => {
            lemma_rod_moi_wf(radius@, center_of_gravity.1@);
            lemma_rod_moi_wf(radius@, center_of_gravity.0@);
        },
        StructuralShape::Rectangle { width, height, center_of_gravity } => {
            lemma_rect_moi_wf(width@, height@, center_of_gravity.1@);
            lemma_rect_moi_wf(width@, height@, center_of_gravity.0@);
        },
        StructuralShape::Pipe { outer_radius, thickness, center_of_gravity } => {
            let cy = center_of_gravity.1@;
            let cx = center_of_gravity.0@;
            let inner = frac_sub(outer_radius@, thickness@);
            lemma_frac_ops_wf(outer_radius@, thickness@);
            lemma_rod_moi_wf(outer_radius@, cy);
            lemma_rod_moi_wf(inner, cy);
            lemma_rod_moi_wf(outer_radius@, cx);
            lemma_rod_moi_wf(inner, cx);
            lemma_pi_ops_wf(pi_zero(), rod_moi_val(outer_radius@, cy));
            lemma_pi_ops_wf(pi_add(pi_zero(), rod_moi_val(outer_radius@, cy)), rod_moi_val(inner, cy));
            lemma_pi_ops_wf(pi_zero(), rod_moi_val(outer_radius@, cx));
            lemma_pi_ops_wf(pi_add(pi_zero(), rod_moi_val(outer_radius@, cx)), rod_moi_val(inner, cx));
        },
        StructuralShape::BoxBeam { width, height, thickness, center_of_gravity } => {
            let cy = center_of_gravity.1@;
            let cx = center_of_gravity.0@;
            let tt = frac_add(thickness@, thickness@);
            let wi = frac_sub(width@, tt);
            let hi = frac_sub(height@, tt);
            lemma_frac_ops_wf(thickness@, thickness@);
            lemma_frac_ops_wf(width@, tt);
            lemma_frac_ops_wf(height@, tt);
            lemma_rect_moi_wf(width@, height@, cy);
            lemma_rect_moi_wf(wi, hi, cy);
            lemma_rect_moi_wf(height@, width@, cx);
            lemma_rect_moi_wf(hi, wi, cx);
            lemma_pi_ops_wf(pi_zero(), rect_moi_x_val(width@, height@, cy));
            lemma_pi_ops_wf(
                pi_add(pi_zero(), rect_moi_x_val(width@, height@, cy)),
                rect_moi_x_val(wi, hi, cy),
            );
            lemma_pi_ops_wf(pi_zero(), rect_moi_x_val(height@, width@, cx));
            lemma_pi_ops_wf(
                pi_add(pi_zero(), rect_moi_x_val(height@, width@, cx)),
                rect_moi_x_val(hi, wi, cx),
            );
        },
        StructuralShape::IBeam { width, height, web_thickness, flange_thickness, center_of_gravity } => {
            let cy = center_of_gravity.1@;
            let cx = center_of_gravity.0@;
            let sw = crate::shapes::ibeam_side_width(width@, web_thickness@);
            let ih = ibeam_inner_height(height@, flange_thickness@);
            let lc = crate::shapes::ibeam_left_center(cx, width@, web_thickness@);
            let rc = crate::shapes::ibeam_right_center(cx, width@, web_thickness@);
            lemma_frac_ops_wf(flange_thickness@, flange_thickness@);
            lemma_frac_ops_wf(height@, frac_add(flange_thickness@, flange_thickness@));
            lemma_frac_ops_wf(width@, web_thickness@);
            lemma_frac_ops_wf(frac_sub(width@, web_thickness@), crate::rational::frac_half());
            lemma_frac_ops_wf(frac_sub(width@, web_thickness@), frac_quarter());
            lemma_frac_ops_wf(web_thickness@, crate::rational::frac_half());
            lemma_frac_ops_wf(cx, frac_mul(frac_sub(width@, web_thickness@), frac_quarter()));
            lemma_frac_ops_wf(
                frac_sub(cx, frac_mul(frac_sub(width@, web_thickness@), frac_quarter())),
                frac_mul(web_thickness@, crate::rational::frac_half()),
            );
            lemma_frac_ops_wf(
                frac_add(cx, frac_mul(frac_sub(width@, web_thickness@), frac_quarter())),
                frac_mul(web_thickness@, crate::rational::frac_half()),
            );
            lemma_rect_moi_wf(width@, height@, cy);
            lemma_rect_moi_wf(sw, ih, cy);
            lemma_rect_moi_wf(width@, height@, cx);
            lemma_rect_moi_wf(sw, ih, lc);
            lemma_rect_moi_wf(sw, ih, rc);
            lemma_pi_ops_wf(pi_zero(), rect_moi_x_val(width@, height@, cy));
            lemma_pi_ops_wf(
                pi_add(pi_zero(), rect_moi_x_val(width@, height@, cy)),
                rect_moi_x_val(sw, ih, cy),
            );
            lemma_pi_ops_wf(
                pi_sub(
                    pi_add(pi_zero(), rect_moi_x_val(width@, height@, cy)),
                    rect_moi_x_val(sw, ih, cy),
                ),
                rect_moi_x_val(sw, ih, cy),
            );
            lemma_pi_ops_wf(pi_zero(), rect_moi_y_val(width@, height@, cx));
            lemma_pi_ops_wf(
                pi_add(pi_zero(), rect_moi_y_val(width@, height@, cx)),
                rect_moi_y_val(sw, ih, lc),
            );
            lemma_pi_ops_wf(
                pi_sub(
                    pi_add(pi_zero(), rect_moi_y_val(width@, height@, cx)),
                    rect_moi_y_val(sw, ih, lc),
                ),
                rect_moi_y_val(sw, ih, rc),
            );
        },
    }
}

/// The composite moment sums over well-formed members are well-formed.
proof fn lemma_comp_moi_wf(s: Seq<(i8, StructuralShape)>)
    requires
        forall|i: int| 0 <= i < s.len() ==> (#[trigger] s[i]).1.wf(),
    ensures
        pi_wf(comp_moi_x_val(s)),
        pi_wf(comp_moi_y_val(s)),
    decreases s.len(),
{
    if s.len() > 0 {
        lemma_comp_moi_wf(s.drop_last());
        assert(s[s.len() - 1].1.wf());
        lemma_moi_vals_wf(s.last().1);
        lemma_pi_ops_wf(comp_moi_x_val(s.drop_last()), moi_x_val(s.last().1));
        lemma_pi_ops_wf(comp_moi_y_val(s.drop_last()), moi_y_val(s.last().1));
    }
}

/// The area of a shape does not depend on its centre of gravity.
proof fn lemma_area_val_with_cog(sh: StructuralShape, c: (crate::rational::Rat, crate::rational::Rat))
    ensures
        area_val(sh.with_cog(c)) == area_val(sh),
{
    match sh {
        StructuralShape::Rod { .. } => {
        },
        StructuralShape::Pipe { .. } => {
        },
        StructuralShape::Rectangle { .. } => {
        },
        StructuralShape::BoxBeam { .. } => {
        },
        StructuralShape::IBeam { .. } => {
        },
    }
}

/// The centre coordinates of a well-formed shape are well-formed rationals.
proof fn lemma_cog_wf(sh: StructuralShape)
    requires
        sh.wf(),
    ensures
        sh.cog_of().0.wf(),
        sh.cog_of().1.wf(),
{
    match sh {
        StructuralShape::Rod { .. } => {
        },
        StructuralShape::Pipe { .. } => {
        },
        StructuralShape::Rectangle { .. } => {
        },
        StructuralShape::BoxBeam { .. } => {
        },
        StructuralShape::IBeam { .. } => {
        },
    }
}

/// The exact area of a well-formed shape is a well-formed value.
proof fn lemma_area_val_wf(sh: StructuralShape)
    requires
        sh.wf(),
    ensures
        pi_wf(area_val(sh)),
{
    match sh {
        StructuralShape::Rod { radius, .. } => {
            lemma_frac_ops_wf(radius@, radius@);
        },
        StructuralShape::Pipe { outer_radius, thickness, .. } => {
            lemma_frac_ops_wf(outer_radius@, thickness@);
            let inner = frac_sub(outer_radius@, thickness@);
            lemma_frac_ops_wf(outer_radius@, outer_radius@);
            lemma_frac_ops_wf(inner, inner);
            lemma_frac_ops_wf(frac_mul(outer_radius@, outer_radius@), frac_mul(inner, inner));
        },
        StructuralShape::Rectangle { width, height, .. } => {
            lemma_frac_ops_wf(width@, height@);
        },
        StructuralShape::BoxBeam { width, height, thickness, .. } => {
            lemma_frac_ops_wf(thickness@, thickness@);
            let tt = frac_add(thickness@, thickness@);
            lemma_frac_ops_wf(width@, tt);
            lemma_frac_ops_wf(height@, tt);
            lemma_frac_ops_wf(width@, height@);
            lemma_frac_ops_wf(frac_sub(width@, tt), frac_sub(height@, tt));
            lemma_frac_ops_wf(
                frac_mul(width@, height@),
                frac_mul(frac_sub(width@, tt), frac_sub(height@, tt)),
            );
        },
        StructuralShape::IBeam { width, height, web_thickness, flange_thickness, .. } => {
            lemma_frac_ops_wf(flange_thickness@, flange_thickness@);
            let ff = frac_add(flange_thickness@, flange_thickness@);
            lemma_frac_ops_wf(height@, ff);
            lemma_frac_ops_wf(width@, web_thickness@);
            lemma_frac_ops_wf(width@, height@);
            lemma_frac_ops_wf(frac_sub(height@, ff), frac_sub(width@, web_thickness@));
            lemma_frac_ops_wf(
                frac_mul(width@, height@),
                frac_mul(frac_sub(height@, ff), frac_sub(width@, web_thickness@)),
            );
        },
    }
}

/// The composite sums over well-formed members are well-formed values.
proof fn lemma_comp_vals_wf(s: Seq<(i8, StructuralShape)>)
    requires
        forall|i: int| 0 <= i < s.len() ==> (#[trigger] s[i]).1.wf(),
    ensures
        pi_wf(comp_area_val(s)),
        pi_wf(comp_vx_val(s)),
        pi_wf(comp_vy_val(s)),
    decreases s.len(),
{
    if s.len() > 0 {
        lemma_comp_vals_wf(s.drop_last());
        let sh = s.last().1;
        assert(s[s.len() - 1].1.wf());
        lemma_cog_wf(sh);
        lemma_area_val_wf(sh);
        lemma_pi_scale_wf(sh.cog_of().0@, area_val(sh));
        lemma_pi_scale_wf(sh.cog_of().1@, area_val(sh));
        lemma_pi_ops_wf(comp_area_val(s.drop_last()), area_val(sh));
        lemma_pi_ops_wf(comp_vx_val(s.drop_last()), vx_term_val(sh));
        lemma_pi_ops_wf(comp_vy_val(s.drop_last()), vy_term_val(sh));
    }
}

/// Replacing every member by one with the same sign and area leaves the
/// exact area sum unchanged.
proof fn lemma_comp_area_pointwise(s: Seq<(i8, StructuralShape)>, s2: Seq<(i8, StructuralShape)>)
    requires
        s2.len() == s.len(),
        forall|i: int| 0 <= i < s.len() ==> (#[trigger] s2[i]).0 == s[i].0,
        forall|i: int| 0 <= i < s.len() ==> area_val((#[trigger] s2[i]).1) == area_val(s[i].1),
    ensures
        comp_area_val(s2) == comp_area_val(s),
    decreases s.len(),
{
    if s.len() > 0 {
        lemma_comp_area_pointwise(s.drop_last(), s2.drop_last());
        assert(s2[s.len() - 1].0 == s[s.len() - 1].0);
        assert(area_val(s2[s.len() - 1].1) == area_val(s[s.len() - 1].1));
    }
}

/// Shifting every member's x centre by `g` subtracts `g` times the net area
/// from the net x-weighted area sum.
proof fn lemma_comp_vx_shifted(s: Seq<(i8, StructuralShape)>, s2: Seq<(i8, StructuralShape)>, g: Frac)
    requires
        s2.len() == s.len(),
        frac_wf(g),
        forall|i: int| 0 <= i < s.len() ==> (#[trigger] s[i]).1.wf(),
        forall|i: int| 0 <= i < s.len() ==> (#[trigger] s2[i]).0 == s[i].0,
        forall|i: int| 0 <= i < s.len() ==> area_val((#[trigger] s2[i]).1) == area_val(s[i].1),
        forall|i: int|
            0 <= i < s.len() ==> (#[trigger] s2[i]).1.cog_of().0@ == frac_sub(
                s[i].1.cog_of().0@,
                g,
            ),
    ensures
        pi_eq(comp_vx_val(s2), pi_sub(comp_vx_val(s), pi_scale(g, comp_area_val(s)))),
    decreases s.len(),
{
    if s.len() == 0 {
        lemma_frac_mul_zero_n(frac_zero(), g);
        assert(pi_eq(pi_zero(), pi_sub(pi_zero(), pi_scale(g, pi_zero()))));
    } else {
        lemma_comp_vx_shifted(s.drop_last(), s2.drop_last(), g);
        let sp = s.drop_last();
        let sgn = s.last().0;
        let sh = s.last().1;
        let sh2 = s2.last().1;
        assert(s2[s.len() - 1].0 == s[s.len() - 1].0);
        assert(area_val(s2[s.len() - 1].1) == area_val(s[s.len() - 1].1));
        assert(s2[s.len() - 1].1.cog_of().0@ == frac_sub(s[s.len() - 1].1.cog_of().0@, g));
        assert(s[s.len() - 1].1.wf());
        let a = area_val(sh);
        let c1 = sh.cog_of().0@;
        let t1 = vx_term_val(sh);
        let t2 = vx_term_val(sh2);
        let v1p = comp_vx_val(sp);
        let v2p = comp_vx_val(s2.drop_last());
        let a1p = comp_area_val(sp);
        let p = pi_scale(g, a1p);
        let q = pi_scale(g, a);
        lemma_cog_wf(sh);
        lemma_area_val_wf(sh);
        lemma_comp_vals_wf(sp);
        lemma_pi_scale_wf(g, a1p);
        lemma_pi_scale_wf(g, a);
        lemma_pi_scale_wf(c1, a);
        lemma_pi_ops_wf(v1p, p);
        lemma_pi_ops_wf(t1, q);
        lemma_pi_ops_wf(pi_sub(v1p, p), pi_sub(t1, q));
        lemma_pi_ops_wf(v1p, t1);
        lemma_pi_ops_wf(p, q);
        lemma_pi_scale_dist_left(c1, g, a);
        if sgn == 1i8 {
            lemma_pi_add_congr(v2p, pi_sub(v1p, p), t2, pi_sub(t1, q));
            lemma_pi_rearrange(v1p, t1, p, q);
            lemma_pi_scale_dist_add(g, a1p, a);
            lemma_pi_sub_congr(
                pi_add(v1p, t1),
                pi_add(v1p, t1),
                pi_scale(g, pi_add(a1p, a)),
                pi_add(p, q),
            );
            lemma_pi_ops_wf(pi_add(v1p, t1), pi_add(p, q));
            lemma_pi_eq_trans(
                pi_add(v2p, t2),
                pi_add(pi_sub(v1p, p), pi_sub(t1, q)),
                pi_sub(pi_add(v1p, t1), pi_add(p, q)),
            );
            lemma_pi_eq_trans(
                pi_add(v2p, t2),
                pi_sub(pi_add(v1p, t1), pi_add(p, q)),
                pi_sub(pi_add(v1p, t1), pi_scale(g, pi_add(a1p, a))),
            );
        } else {
            lemma_pi_sub_congr(v2p, pi_sub(v1p, p), t2, pi_sub(t1, q));
            lemma_pi_rearrange(v1p, t1, p, q);
            crate::scalar::lemma_pi_scale_dist_sub(g, a1p, a);
            lemma_pi_sub_congr(
                pi_sub(v1p, t1),
                pi_sub(v1p, t1),
                pi_scale(g, pi_sub(a1p, a)),
                pi_sub(p, q),
            );
            lemma_pi_ops_wf(pi_sub(v1p, t1), pi_sub(p, q));
            lemma_pi_eq_trans(
                pi_sub(v2p, t2),
                pi_sub(pi_sub(v1p, p), pi_sub(t1, q)),
                pi_sub(pi_sub(v1p, t1), pi_sub(p, q)),
            );
            lemma_pi_eq_trans(
                pi_sub(v2p, t2),
                pi_sub(pi_sub(v1p, t1), pi_sub(p, q)),
                pi_sub(pi_sub(v1p, t1), pi_scale(g, pi_sub(a1p, a))),
            );
        }
    }
}

/// Shifting every member's y centre by `g` subtracts `g` times the net area
/// from the net y-weighted area sum.
proof fn lemma_comp_vy_shifted(s: Seq<(i8, StructuralShape)>, s2: Seq<(i8, StructuralShape)>, g: Frac)
    requires
        s2.len() == s.len(),
        frac_wf(g),
        forall|i: int| 0 <= i < s.len() ==> (#[trigger] s[i]).1.wf(),
        forall|i: int| 0 <= i < s.len() ==> (#[trigger] s2[i]).0 == s[i].0,
        forall|i: int| 0 <= i < s.len() ==> area_val((#[trigger] s2[i]).1) == area_val(s[i].1),
        forall|i: int|
            0 <= i < s.len() ==> (#[trigger] s2[i]).1.cog_of().1@ == frac_sub(
                s[i].1.cog_of().1@,
                g,
            ),
    ensures
        pi_eq(comp_vy_val(s2), pi_sub(comp_vy_val(s), pi_scale(g, comp_area_val(s)))),
    decreases s.len(),
{
    if s.len() == 0 {
        lemma_frac_mul_zero_n(frac_zero(), g);
        assert(pi_eq(pi_zero(), pi_sub(pi_zero(), pi_scale(g, pi_zero()))));
    } else {
        lemma_comp_vy_shifted(s.drop_last(), s2.drop_last(), g);
        let sp = s.drop_last();
        let sgn = s.last().0;
        let sh = s.last().1;
        let sh2 = s2.last().1;
        assert(s2[s.len() - 1].0 == s[s.len() - 1].0);
        assert(area_val(s2[s.len() - 1].1) == area_val(s[s.len() - 1].1));
        assert(s2[s.len() - 1].1.cog_of().1@ == frac_sub(s[s.len() - 1].1.cog_of().1@, g));
        assert(s[s.len() - 1].1.wf());
        let a = area_val(sh);
        let c1 = sh.cog_of().1@;
        let t1 = vy_term_val(sh);
        let t2 = vy_term_val(sh2);
        let v1p = comp_vy_val(sp);
        let v2p = comp_vy_val(s2.drop_last());
        let a1p = comp_area_val(sp);
        let p = pi_scale(g, a1p);
        let q = pi_scale(g, a);
        lemma_cog_wf(sh);
        lemma_area_val_wf(sh);
        lemma_comp_vals_wf(sp);
        lemma_pi_scale_wf(g, a1p);
        lemma_pi_scale_wf(g, a);
        lemma_pi_scale_wf(c1, a);
        lemma_pi_ops_wf(v1p, p);
        lemma_pi_ops_wf(t1, q);
        lemma_pi_ops_wf(pi_sub(v1p, p), pi_sub(t1, q));
        lemma_pi_ops_wf(v1p, t1);
        lemma_pi_ops_wf(p, q);
        lemma_pi_scale_dist_left(c1, g, a);
        if sgn == 1i8 {
            lemma_pi_add_congr(v2p, pi_sub(v1p, p), t2, pi_sub(t1, q));
            lemma_pi_rearrange(v1p, t1, p, q);
            lemma_pi_scale_dist_add(g, a1p, a);
            lemma_pi_sub_congr(
                pi_add(v1p, t1),
                pi_add(v1p, t1),
                pi_scale(g, pi_add(a1p, a)),
                pi_add(p, q),
            );
            lemma_pi_ops_wf(pi_add(v1p, t1), pi_add(p, q));
            lemma_pi_eq_trans(
                pi_add(v2p, t2),
                pi_add(pi_sub(v1p, p), pi_sub(t1, q)),
                pi_sub(pi_add(v1p, t1), pi_add(p, q)),
            );
            lemma_pi_eq_trans(
                pi_add(v2p, t2),
                pi_sub(pi_add(v1p, t1), pi_add(p, q)),
                pi_sub(pi_add(v1p, t1), pi_scale(g, pi_add(a1p, a))),
            );
        } else {
            lemma_pi_sub_congr(v2p, pi_sub(v1p, p), t2, pi_sub(t1, q));
            lemma_pi_rearrange(v1p, t1, p, q);
            crate::scalar::lemma_pi_scale_dist_sub(g, a1p, a);
            lemma_pi_sub_congr(
                pi_sub(v1p, t1),
                pi_sub(v1p, t1),
                pi_scale(g, pi_sub(a1p, a)),
                pi_sub(p, q),
            );
            lemma_pi_ops_wf(pi_sub(v1p, t1), pi_sub(p, q));
            lemma_pi_eq_trans(
                pi_sub(v2p, t2),
                pi_sub(pi_sub(v1p, p), pi_sub(t1, q)),
                pi_sub(pi_sub(v1p, t1), pi_sub(p, q)),
            );
            lemma_pi_eq_trans(
                pi_sub(v2p, t2),
                pi_sub(pi_sub(v1p, t1), pi_sub(p, q)),
                pi_sub(pi_sub(v1p, t1), pi_scale(g, pi_sub(a1p, a))),
            );
        }
    }
}

/// The composite centroid is defined by its equation: centroid times net
/// area equals the net first moment.
proof fn lemma_ratio_defining(num: PiVal, den: PiVal)
    requires
        ratio_ok(num, den),
        !pi_is_zero(den),
    ensures
        pi_eq(pi_scale(ratio_val(num, den), den), num),
{
    if !frac_eq(den.rat, frac_zero()) {
        lemma_frac_div_cancels(num.rat, den.rat);
    } else {
        lemma_frac_eq_zero_n(den.rat);
        lemma_frac_div_cancels(num.pi_coeff, den.pi_coeff);
        lemma_frac_mul_zero_n(den.rat, ratio_val(num, den));
        lemma_frac_eq_zero_n(num.rat);
    }
}

/// A value equal to a well-formed zero value is zero.
proof fn lemma_pi_is_zero_of_eq(a: PiVal, b: PiVal)
    requires
        pi_eq(a, b),
        pi_is_zero(b),
        pi_wf(b),
    ensures
        pi_is_zero(a),
{
    crate::rational::lemma_frac_eq_trans(a.rat, b.rat, frac_zero());
    crate::rational::lemma_frac_eq_trans(a.pi_coeff, b.pi_coeff, frac_zero());
}

/// Recentring: after a successful `update_cog` (every member shifted by the
/// composite centroid), the composite's net area is unchanged and both of
/// its net first moments vanish, so its centroid is the origin.
pub proof fn lemma_update_cog_recenters(
    s: Seq<(i8, StructuralShape)>,
    s2: Seq<(i8, StructuralShape)>,
)
    requires
        s2.len() == s.len(),
        forall|i: int| 0 <= i < s.len() ==> (#[trigger] s[i]).1.wf(),
        forall|i: int| 0 <= i < s.len() ==> shifted_member(s, s[i], #[trigger] s2[i]),
        cog_ok(s),
    ensures
        comp_area_val(s2) == comp_area_val(s),
        pi_is_zero(comp_vx_val(s2)),
        pi_is_zero(comp_vy_val(s2)),
{
    let gx = cog_x_spec(s);
    let gy = cog_y_spec(s);
    let va = comp_area_val(s);
    let vx = comp_vx_val(s);
    let vy = comp_vy_val(s);
    lemma_comp_vals_wf(s);
    if !frac_eq(va.rat, frac_zero()) {
        lemma_frac_div_wf(vx.rat, va.rat);
        lemma_frac_div_wf(vy.rat, va.rat);
    } else {
        lemma_frac_eq_zero_n(va.rat);
        lemma_frac_div_wf(vx.pi_coeff, va.pi_coeff);
        lemma_frac_div_wf(vy.pi_coeff, va.pi_coeff);
    }
    assert forall|i: int| 0 <= i < s.len() implies area_val((#[trigger] s2[i]).1) == area_val(
        s[i].1,
    ) by {
        lemma_area_val_with_cog(s[i].1, s2[i].1.cog_of());
    };
    lemma_comp_area_pointwise(s, s2);
    lemma_comp_vx_shifted(s, s2, gx);
    lemma_comp_vy_shifted(s, s2, gy);
    lemma_ratio_defining(vx, va);
    lemma_ratio_defining(vy, va);
    lemma_pi_scale_wf(gx, va);
    lemma_pi_scale_wf(gy, va);
    lemma_pi_ops_wf(vx, pi_scale(gx, va));
    lemma_pi_ops_wf(vy, pi_scale(gy, va));
    lemma_pi_ops_wf(vx, vx);
    lemma_pi_ops_wf(vy, vy);
    lemma_pi_sub_congr(vx, vx, pi_scale(gx, va), vx);
    lemma_pi_sub_self(vx, vx);
    lemma_pi_is_zero_of_eq(pi_sub(vx, pi_scale(gx, va)), pi_sub(vx, vx));
    lemma_pi_is_zero_of_eq(comp_vx_val(s2), pi_sub(vx, pi_scale(gx, va)));
    lemma_pi_sub_congr(vy, vy, pi_scale(gy, va), vy);
    lemma_pi_sub_self(vy, vy);
    lemma_pi_is_zero_of_eq(pi_sub(vy, pi_scale(gy, va)), pi_sub(vy, vy));
    lemma_pi_is_zero_of_eq(comp_vy_val(s2), pi_sub(vy, pi_scale(gy, va)));
}

/// Idempotence: once both net first moments of a composite vanish, a further
/// `update_cog` shifts every member by a zero-valued centroid, so each
/// member's centre of gravity keeps its value.
pub proof fn lemma_update_cog_idempotent(
    s2: Seq<(i8, StructuralShape)>,
    s3: Seq<(i8, StructuralShape)>,
)
    requires
        s3.len() == s2.len(),
        forall|i: int| 0 <= i < s2.len() ==> shifted_member(s2, s2[i], #[trigger] s3[i]),
        pi_is_zero(comp_vx_val(s2)),
        pi_is_zero(comp_vy_val(s2)),
    ensures
        forall|i: int|
            0 <= i < s2.len() ==> {
                &&& (#[trigger] s3[i]).0 == s2[i].0
                &&& s3[i].1 == s2[i].1.with_cog(s3[i].1.cog_of())
                &&& frac_eq(s3[i].1.cog_of().0@, s2[i].1.cog_of().0@)
                &&& frac_eq(s3[i].1.cog_of().1@, s2[i].1.cog_of().1@)
            },
{
    let gx = cog_x_spec(s2);
    let gy = cog_y_spec(s2);
    lemma_frac_eq_zero_n(comp_vx_val(s2).rat);
    lemma_frac_eq_zero_n(comp_vx_val(s2).pi_coeff);
    lemma_frac_eq_zero_n(comp_vy_val(s2).rat);
    lemma_frac_eq_zero_n(comp_vy_val(s2).pi_coeff);
    crate::rational::lemma_frac_div_zero_num(comp_vx_val(s2).rat, comp_area_val(s2).rat);
    crate::rational::lemma_frac_div_zero_num(
        comp_vx_val(s2).pi_coeff,
        comp_area_val(s2).pi_coeff,
    );
    crate::rational::lemma_frac_div_zero_num(comp_vy_val(s2).rat, comp_area_val(s2).rat);
    crate::rational::lemma_frac_div_zero_num(
        comp_vy_val(s2).pi_coeff,
        comp_area_val(s2).pi_coeff,
    );
    assert(gx.n == 0);
    assert(gy.n == 0);
    assert forall|i: int| 0 <= i < s2.len() implies {
        &&& (#[trigger] s3[i]).0 == s2[i].0
        &&& s3[i].1 == s2[i].1.with_cog(s3[i].1.cog_of())
        &&& frac_eq(s3[i].1.cog_of().0@, s2[i].1.cog_of().0@)
        &&& frac_eq(s3[i].1.cog_of().1@, s2[i].1.cog_of().1@)
    } by {
        lemma_frac_add_zero(s2[i].1.cog_of().0@, gx);
        lemma_frac_add_zero(s2[i].1.cog_of().1@, gy);
    };
}

} // verus!
