//! Primitive cross-section shapes and their exact section properties.
//!
//! Each shape carries its immutable dimensions and a mutable centre of
//! gravity in a shared reference frame.  `area`, `moi_x` and `moi_y` are pure
//! functions of those fields.  The moments of the hollow families (pipe, box
//! beam, I-beam) are not computed from per-family closed forms: each such
//! shape is decomposed into an ephemeral composite of rods or rectangles and
//! the moment is the signed sum of the members' moments, so the rod and
//! rectangle formulas are the single source of truth.
//!
//! Every accessor returns `None` exactly when some intermediate of the exact
//! computation leaves the representable range; the `*_ok` spec functions
//! mirror that condition and the `*_val` spec functions give the exact value.

use vstd::prelude::*;

use crate::composite::CompositeShape;
use crate::composite::lemma_moi_x_fold2;
use crate::composite::lemma_moi_x_fold3;
use crate::composite::lemma_moi_y_fold3;
use crate::rational::Frac;
use crate::rational::Rat;
use crate::rational::fits;
use crate::rational::frac_add;
use crate::rational::frac_half;
use crate::rational::frac_le;
use crate::rational::frac_mul;
use crate::rational::frac_quarter;
use crate::rational::frac_sub;
use crate::rational::frac_twelfth;
use crate::rational::frac_zero;
use crate::scalar::PiVal;
use crate::scalar::Scalar;
use crate::scalar::pi_add;
use crate::scalar::pi_add_ok;
use crate::scalar::pi_of_pi;
use crate::scalar::pi_of_rat;
use crate::scalar::pi_scale;
use crate::scalar::pi_scale_ok;
use crate::scalar::pi_sub;
use crate::scalar::pi_sub_ok;
use crate::scalar::pi_zero;

verus! {

/// Failures reported by the library.
#[derive(Clone, Copy, Debug, PartialEq, Eq, Structural)]
pub enum SectionError {
    /// A subtractive dimension exceeds the dimension it is removed from, or a
    /// length is negative: the shape would have negative area.
    InvalidGeometry,
    /// The centroid of a composite with zero net area was requested.
    DegenerateComposite,
    /// The exact result of the computation cannot be held by the numeric
    /// representation (a component leaves the `i64` range, or a centroid is
    /// not a rational number).
    Unrepresentable,
}

/// A primitive structural cross-section.
///
/// Dimensions are exact rationals; `center_of_gravity` locates the shape's
/// own centroid in the shared reference frame and is the only mutable part.
#[derive(Clone, Copy, Debug)]
pub enum StructuralShape {
    /// Hollow circular section.
    Pipe {
        /// Outer radius of the pipe.
        outer_radius: Rat,
        /// Thickness of the pipe wall.
        thickness: Rat,
        /// Coordinates of the centre of gravity.
        center_of_gravity: (Rat, Rat),
    },
    /// I-shaped section: two flanges joined by a web.
    IBeam {
        /// Width of the beam.
        width: Rat,
        /// Height of the beam.
        height: Rat,
        /// Thickness of the web.
        web_thickness: Rat,
        /// Thickness of each flange.
        flange_thickness: Rat,
        /// Coordinates of the centre of gravity.
        center_of_gravity: (Rat, Rat),
    },
    /// Hollow rectangular section.
    BoxBeam {
        /// Width of the box beam.
        width: Rat,
        /// Height of the box beam.
        height: Rat,
        /// Thickness of the wall.
        thickness: Rat,
        /// Coordinates of the centre of gravity.
        center_of_gravity: (Rat, Rat),
    },
    /// Solid circular section.
    Rod {
        /// Radius of the rod.
        radius: Rat,
        /// Coordinates of the centre of gravity.
        center_of_gravity: (Rat, Rat),
    },
    /// Solid rectangular section.
    Rectangle {
        /// Width of the rectangle.
        width: Rat,
        /// Height of the rectangle.
        height: Rat,
        /// Coordinates of the centre of gravity.
        center_of_gravity: (Rat, Rat),
    },
}

/// A rod with non-negative radius has meaningful geometry.
pub open spec fn rod_valid(radius: Frac) -> bool {
    frac_le(frac_zero(), radius)
}

/// A pipe keeps a non-negative area when the wall thickness does not exceed
/// the outer radius.
pub open spec fn pipe_valid(outer_radius: Frac, thickness: Frac) -> bool {
    frac_le(frac_zero(), thickness) && frac_le(thickness, outer_radius)
}

/// A rectangle with non-negative sides has meaningful geometry.
pub open spec fn rectangle_valid(width: Frac, height: Frac) -> bool {
    frac_le(frac_zero(), width) && frac_le(frac_zero(), height)
}

/// A box beam keeps a non-negative area when the two walls fit inside both
/// outer dimensions.
pub open spec fn boxbeam_valid(width: Frac, height: Frac, thickness: Frac) -> bool {
    frac_le(frac_zero(), thickness) && frac_le(frac_add(thickness, thickness), width) && frac_le(
        frac_add(thickness, thickness),
        height,
    )
}

/// An I-beam keeps a non-negative area when the two flanges fit inside the
/// height and the web inside the width.
pub open spec fn ibeam_valid(width: Frac, height: Frac, web: Frac, flange: Frac) -> bool {
    frac_le(frac_zero(), web) && frac_le(frac_zero(), flange) && frac_le(
        frac_add(flange, flange),
        height,
    ) && frac_le(web, width)
}

/// The shape's dimensions describe a physically meaningful (non-negative
/// area) section.
pub open spec fn valid_geometry(s: StructuralShape) -> bool {
    match s {
        StructuralShape::Rod { radius, .. } => rod_valid(radius@),
        StructuralShape::Pipe { outer_radius, thickness, .. } => pipe_valid(
            outer_radius@,
            thickness@,
        ),
        StructuralShape::Rectangle { width, height, .. } => rectangle_valid(width@, height@),
        StructuralShape::BoxBeam { width, height, thickness, .. } => boxbeam_valid(
            width@,
            height@,
            thickness@,
        ),
        StructuralShape::IBeam { width, height, web_thickness, flange_thickness, .. } => ibeam_valid(
            width@,
            height@,
            web_thickness@,
            flange_thickness@,
        ),
    }
}

/// Exact cross-sectional area of the shape: outer minus inner product for the
/// hollow families, a simple product for the solid ones.
pub open spec fn area_val(s: StructuralShape) -> PiVal {
    match s {
        StructuralShape::Rod { radius, .. } => pi_of_pi(frac_mul(radius@, radius@)),
        StructuralShape::Pipe { outer_radius, thickness, .. } => {
            let inner = frac_sub(outer_radius@, thickness@);
            pi_of_pi(frac_sub(frac_mul(outer_radius@, outer_radius@), frac_mul(inner, inner)))
        },
        StructuralShape::Rectangle { width, height, .. } => pi_of_rat(frac_mul(width@, height@)),
        StructuralShape::BoxBeam { width, height, thickness, .. } => {
            let tt = frac_add(thickness@, thickness@);
            let wi = frac_sub(width@, tt);
            let hi = frac_sub(height@, tt);
            pi_of_rat(frac_sub(frac_mul(width@, height@), frac_mul(wi, hi)))
        },
        StructuralShape::IBeam { width, height, web_thickness, flange_thickness, .. } => {
            let hh = frac_sub(height@, frac_add(flange_thickness@, flange_thickness@));
            let ww = frac_sub(width@, web_thickness@);
            pi_of_rat(frac_sub(frac_mul(width@, height@), frac_mul(hh, ww)))
        },
    }
}

/// Every intermediate of the exact area computation is representable.
pub open spec fn area_ok(s: StructuralShape) -> bool {
    match s {
        StructuralShape::Rod { radius, .. } => fits(frac_mul(radius@, radius@)),
        StructuralShape::Pipe { outer_radius, thickness, .. } => {
            let inner = frac_sub(outer_radius@, thickness@);
            let o2 = frac_mul(outer_radius@, outer_radius@);
            let i2 = frac_mul(inner, inner);
            fits(inner) && fits(o2) && fits(i2) && fits(frac_sub(o2, i2))
        },
        StructuralShape::Rectangle { width, height, .. } => fits(frac_mul(width@, height@)),
        StructuralShape::BoxBeam { width, height, thickness, .. } => {
            let tt = frac_add(thickness@, thickness@);
            let wi = frac_sub(width@, tt);
            let hi = frac_sub(height@, tt);
            let o = frac_mul(width@, height@);
            let i = frac_mul(wi, hi);
            fits(tt) && fits(wi) && fits(hi) && fits(o) && fits(i) && fits(frac_sub(o, i))
        },
        StructuralShape::IBeam { width, height, web_thickness, flange_thickness, .. } => {
            let ff = frac_add(flange_thickness@, flange_thickness@);
            let hh = frac_sub(height@, ff);
            let ww = frac_sub(width@, web_thickness@);
            let o = frac_mul(width@, height@);
            let i = frac_mul(hh, ww);
            fits(ff) && fits(hh) && fits(ww) && fits(o) && fits(i) && fits(frac_sub(o, i))
        },
    }
}

impl StructuralShape {
    /// All stored rationals are valid representations.
    pub open spec fn wf(self) -> bool {
        match self {
            StructuralShape::Rod { radius, center_of_gravity } => radius.wf()
                && center_of_gravity.0.wf() && center_of_gravity.1.wf(),
            StructuralShape::Pipe { outer_radius, thickness, center_of_gravity } => outer_radius.wf()
                && thickness.wf() && center_of_gravity.0.wf() && center_of_gravity.1.wf(),
            StructuralShape::Rectangle { width, height, center_of_gravity } => width.wf()
                && height.wf() && center_of_gravity.0.wf() && center_of_gravity.1.wf(),
            StructuralShape::BoxBeam { width, height, thickness, center_of_gravity } => width.wf()
                && height.wf() && thickness.wf() && center_of_gravity.0.wf()
                && center_of_gravity.1.wf(),
            StructuralShape::IBeam {
                width,
                height,
                web_thickness,
                flange_thickness,
                center_of_gravity,
            } => width.wf() && height.wf() && web_thickness.wf() && flange_thickness.wf()
                && center_of_gravity.0.wf() && center_of_gravity.1.wf(),
        }
    }

    /// The stored centre of gravity.
    pub open spec fn cog_of(self) -> (Rat, Rat) {
        match self {
            StructuralShape::Rod { center_of_gravity, .. } => center_of_gravity,
            StructuralShape::Pipe { center_of_gravity, .. } => center_of_gravity,
            StructuralShape::Rectangle { center_of_gravity, .. } => center_of_gravity,
            StructuralShape::BoxBeam { center_of_gravity, .. } => center_of_gravity,
            StructuralShape::IBeam { center_of_gravity, .. } => center_of_gravity,
        }
    }

    /// The same shape with its centre of gravity replaced.
    pub open spec fn with_cog(self, cog: (Rat, Rat)) -> StructuralShape {
        match self {
            StructuralShape::Rod { radius, .. } => StructuralShape::Rod {
                radius,
                center_of_gravity: cog,
            },
            StructuralShape::Pipe { outer_radius, thickness, .. } => StructuralShape::Pipe {
                outer_radius,
                thickness,
                center_of_gravity: cog,
            },
            StructuralShape::Rectangle { width, height, .. } => StructuralShape::Rectangle {
                width,
                height,
                center_of_gravity: cog,
            },
            StructuralShape::BoxBeam { width, height, thickness, .. } => StructuralShape::BoxBeam {
                width,
                height,
                thickness,
                center_of_gravity: cog,
            },
            StructuralShape::IBeam {
                width,
                height,
                web_thickness,
                flange_thickness,
                ..
            } => StructuralShape::IBeam {
                width,
                height,
                web_thickness,
                flange_thickness,
                center_of_gravity: cog,
            },
        }
    }

    /// Makes a rod, centred at the origin.  Rejects a negative radius.
    pub fn new_rod(radius: Rat) -> (r: Result<StructuralShape, SectionError>)
        requires
            radius.wf(),
        ensures
            (r is Ok) == rod_valid(radius@),
            r matches Ok(s) ==> (s matches StructuralShape::Rod {
                radius: rr,
                center_of_gravity: c,
            } && rr == radius && c.0@ == frac_zero() && c.1@ == frac_zero()) && s.wf(),
            r matches Err(e) ==> e == SectionError::InvalidGeometry,
    {
        if Rat::zero().le(radius) {
            Ok(
                StructuralShape::Rod {
                    radius,
                    center_of_gravity: (Rat::zero(), Rat::zero()),
                },
            )
        } else {
            Err(SectionError::InvalidGeometry)
        }
    }

    /// Makes a pipe, centred at the origin.  Rejects a negative wall
    /// thickness and a wall thicker than the outer radius.
    pub fn new_pipe(radius: Rat, thickness: Rat) -> (r: Result<StructuralShape, SectionError>)
        requires
            radius.wf(),
            thickness.wf(),
        ensures
            (r is Ok) == pipe_valid(radius@, thickness@),
            r matches Ok(s) ==> (s matches StructuralShape::Pipe {
                outer_radius: rr,
                thickness: tt,
                center_of_gravity: c,
            } && rr == radius && tt == thickness && c.0@ == frac_zero() && c.1@ == frac_zero())
                && s.wf(),
            r matches Err(e) ==> e == SectionError::InvalidGeometry,
    {
        if Rat::zero().le(thickness) && thickness.le(radius) {
            Ok(
                StructuralShape::Pipe {
                    outer_radius: radius,
                    thickness,
                    center_of_gravity: (Rat::zero(), Rat::zero()),
                },
            )
        } else {
            Err(SectionError::InvalidGeometry)
        }
    }

    /// Makes a rectangle, centred at the origin.  Rejects negative sides.
    pub fn new_rectangle(height: Rat, width: Rat) -> (r: Result<StructuralShape, SectionError>)
        requires
            height.wf(),
            width.wf(),
        ensures
            (r is Ok) == rectangle_valid(width@, height@),
            r matches Ok(s) ==> (s matches StructuralShape::Rectangle {
                width: ww,
                height: hh,
                center_of_gravity: c,
            } && ww == width && hh == height && c.0@ == frac_zero() && c.1@ == frac_zero())
                && s.wf(),
            r matches Err(e) ==> e == SectionError::InvalidGeometry,
    {
        if Rat::zero().le(width) && Rat::zero().le(height) {
            Ok(
                StructuralShape::Rectangle {
                    width,
                    height,
                    center_of_gravity: (Rat::zero(), Rat::zero()),
                },
            )
        } else {
            Err(SectionError::InvalidGeometry)
        }
    }

    /// Makes a box beam, centred at the origin.  Rejects a negative wall
    /// thickness and walls that do not fit inside the outer dimensions.
    pub fn new_boxbeam(height: Rat, width: Rat, thickness: Rat) -> (r: Result<
        StructuralShape,
        SectionError,
    >)
        requires
            height.wf(),
            width.wf(),
            thickness.wf(),
        ensures
            (r is Ok) == boxbeam_valid(width@, height@, thickness@),
            r matches Ok(s) ==> (s matches StructuralShape::BoxBeam {
                width: ww,
                height: hh,
                thickness: tt,
                center_of_gravity: c,
            } && ww == width && hh == height && tt == thickness && c.0@ == frac_zero() && c.1@
                == frac_zero()) && s.wf(),
            r matches Err(e) ==> e == SectionError::InvalidGeometry,
    {
        if Rat::zero().le(thickness) && thickness.double_le(width) && thickness.double_le(height) {
            Ok(
                StructuralShape::BoxBeam {
                    width,
                    height,
                    thickness,
                    center_of_gravity: (Rat::zero(), Rat::zero()),
                },
            )
        } else {
            Err(SectionError::InvalidGeometry)
        }
    }

    /// Makes an I-beam, centred at the origin.  Rejects negative thicknesses,
    /// flanges that do not fit inside the height, and a web wider than the
    /// section.
    pub fn new_ibeam(
        height: Rat,
        width: Rat,
        web_thickness: Rat,
        flange_thickness: Rat,
    ) -> (r: Result<StructuralShape, SectionError>)
        requires
            height.wf(),
            width.wf(),
            web_thickness.wf(),
            flange_thickness.wf(),
        ensures
            (r is Ok) == ibeam_valid(width@, height@, web_thickness@, flange_thickness@),
            r matches Ok(s) ==> (s matches StructuralShape::IBeam {
                width: ww,
                height: hh,
                web_thickness: wt,
                flange_thickness: ft,
                center_of_gravity: c,
            } && ww == width && hh == height && wt == web_thickness && ft == flange_thickness
                && c.0@ == frac_zero() && c.1@ == frac_zero()) && s.wf(),
            r matches Err(e) ==> e == SectionError::InvalidGeometry,
    {
        if Rat::zero().le(web_thickness) && Rat::zero().le(flange_thickness)
            && flange_thickness.double_le(height) && web_thickness.le(width) {
            Ok(
                StructuralShape::IBeam {
                    width,
                    height,
                    web_thickness,
                    flange_thickness,
                    center_of_gravity: (Rat::zero(), Rat::zero()),
                },
            )
        } else {
            Err(SectionError::InvalidGeometry)
        }
    }

    /// Returns the current centre of gravity of the shape.
    pub fn get_cog(&self) -> (r: (Rat, Rat))
        ensures
            r == self.cog_of(),
    {
        match *self {
            StructuralShape::Pipe { center_of_gravity, .. } => center_of_gravity,
            StructuralShape::IBeam { center_of_gravity, .. } => center_of_gravity,
            StructuralShape::BoxBeam { center_of_gravity, .. } => center_of_gravity,
            StructuralShape::Rod { center_of_gravity, .. } => center_of_gravity,
            StructuralShape::Rectangle { center_of_gravity, .. } => center_of_gravity,
        }
    }

    /// Moves the shape's centre of gravity; every other field is kept.
    pub fn set_cog(&mut self, cog: (Rat, Rat))
        ensures
            *final(self) == old(self).with_cog(cog),
    {
        match self {
            StructuralShape::Pipe { center_of_gravity, .. } => {
                *center_of_gravity = cog;
            },
            StructuralShape::IBeam { center_of_gravity, .. } => {
                *center_of_gravity = cog;
            },
            StructuralShape::BoxBeam { center_of_gravity, .. } => {
                *center_of_gravity = cog;
            },
            StructuralShape::Rod { center_of_gravity, .. } => {
                *center_of_gravity = cog;
            },
            StructuralShape::Rectangle { center_of_gravity, .. } => {
                *center_of_gravity = cog;
            },
        }
    }

    /// Exact cross-sectional area.  `None` exactly when an intermediate of
    /// the computation is not representable.
    pub fn area(&self) -> (r: Option<Scalar>)
        requires
            self.wf(),
        ensures
            (r is Some) == area_ok(*self),
            r matches Some(q) ==> q@ == area_val(*self) && q.wf(),
    {
        match *self {
            StructuralShape::Rod { radius, .. } => {
                let r2 = match radius.mul(radius) {
                    Some(v) => v,
                    None => {
                        return None;
                    },
                };
                Some(Scalar::of_pi(r2))
            },
            StructuralShape::Pipe { outer_radius, thickness, .. } => {
                let inner = match outer_radius.sub(thickness) {
                    Some(v) => v,
                    None => {
                        return None;
                    },
                };
                let o2 = match outer_radius.mul(outer_radius) {
                    Some(v) => v,
                    None => {
                        return None;
                    },
                };
                let i2 = match inner.mul(inner) {
                    Some(v) => v,
                    None => {
                        return None;
                    },
                };
                let d = match o2.sub(i2) {
                    Some(v) => v,
                    None => {
                        return None;
                    },
                };
                Some(Scalar::of_pi(d))
            },
            StructuralShape::Rectangle { width, height, .. } => {
                let a = match width.mul(height) {
                    Some(v) => v,
                    None => {
                        return None;
                    },
                };
                Some(Scalar::of_rat(a))
            },
            StructuralShape::BoxBeam { width, height, thickness, .. } => {
                let tt = match thickness.add(thickness) {
                    Some(v) => v,
                    None => {
                        return None;
                    },
                };
                let wi = match width.sub(tt) {
                    Some(v) => v,
                    None => {
                        return None;
                    },
                };
                let hi = match height.sub(tt) {
                    Some(v) => v,
                    None => {
                        return None;
                    },
                };
                let o = match width.mul(height) {
                    Some(v) => v,
                    None => {
                        return None;
                    },
                };
                let i = match wi.mul(hi) {
                    Some(v) => v,
                    None => {
                        return None;
                    },
                };
                let d = match o.sub(i) {
                    Some(v) => v,
                    None => {
                        return None;
                    },
                };
                Some(Scalar::of_rat(d))
            },
            StructuralShape::IBeam { width, height, web_thickness, flange_thickness, .. } => {
                let ff = match flange_thickness.add(flange_thickness) {
                    Some(v) => v,
                    None => {
                        return None;
                    },
                };
                let hh = match height.sub(ff) {
                    Some(v) => v,
                    None => {
                        return None;
                    },
                };
                let ww = match width.sub(web_thickness) {
                    Some(v) => v,
                    None => {
                        return None;
                    },
                };
                let o = match width.mul(height) {
                    Some(v) => v,
                    None => {
                        return None;
                    },
                };
                let i = match hh.mul(ww) {
                    Some(v) => v,
                    None => {
                        return None;
                    },
                };
                let d = match o.sub(i) {
                    Some(v) => v,
                    None => {
                        return None;
                    },
                };
                Some(Scalar::of_rat(d))
            },
        }
    }
}

/// Solid shapes are the leaves of the moment computation; hollow shapes
/// decompose into an ephemeral composite of leaves.  Used as the termination
/// measure of the mutual recursion between shape and composite moments.
pub open spec fn shape_rank(s: StructuralShape) -> nat {
    match s {
        StructuralShape::Rod { .. } => 0,
        StructuralShape::Rectangle { .. } => 0,
        _ => 1,
    }
}

/// Moment of inertia of a solid rod about a frame axis passing `off` away
/// from the rod's centre: `pi r^4 / 4 + (pi r^2) off^2` (parallel axis
/// theorem baked in).
pub open spec fn rod_moi_val(radius: Frac, off: Frac) -> PiVal {
    let r2 = frac_mul(radius, radius);
    pi_add(
        pi_of_pi(frac_mul(frac_mul(r2, r2), frac_quarter())),
        pi_scale(frac_mul(off, off), pi_of_pi(r2)),
    )
}

/// Every intermediate of the rod moment computation is representable.
pub open spec fn rod_moi_ok(radius: Frac, off: Frac) -> bool {
    let r2 = frac_mul(radius, radius);
    let r4 = frac_mul(r2, r2);
    let cent = frac_mul(r4, frac_quarter());
    let c2 = frac_mul(off, off);
    fits(r2) && fits(r4) && fits(cent) && fits(c2) && pi_scale_ok(c2, pi_of_pi(r2)) && pi_add_ok(
        pi_of_pi(cent),
        pi_scale(c2, pi_of_pi(r2)),
    )
}

/// Moment of inertia of a solid rectangle about a frame axis parallel to its
/// width, passing `off` away from its centre: `w h^3 / 12 + (w h) off^2`.
pub open spec fn rect_moi_x_val(width: Frac, height: Frac, off: Frac) -> PiVal {
    let h3 = frac_mul(frac_mul(height, height), height);
    pi_add(
        pi_of_rat(frac_mul(frac_mul(width, h3), frac_twelfth())),
        pi_scale(frac_mul(off, off), pi_of_rat(frac_mul(width, height))),
    )
}

/// Every intermediate of the rectangle x-moment computation is representable.
pub open spec fn rect_moi_x_ok(width: Frac, height: Frac, off: Frac) -> bool {
    let h2 = frac_mul(height, height);
    let h3 = frac_mul(h2, height);
    let wh3 = frac_mul(width, h3);
    let cent = frac_mul(wh3, frac_twelfth());
    let c2 = frac_mul(off, off);
    let area = pi_of_rat(frac_mul(width, height));
    fits(h2) && fits(h3) && fits(wh3) && fits(cent) && fits(frac_mul(width, height)) && fits(c2)
        && pi_scale_ok(c2, area) && pi_add_ok(pi_of_rat(cent), pi_scale(c2, area))
}

/// Moment of inertia of a solid rectangle about a frame axis parallel to its
/// height, passing `off` away from its centre: `h w^3 / 12 + (w h) off^2`
/// (the x formula with the roles of width and height swapped).
pub open spec fn rect_moi_y_val(width: Frac, height: Frac, off: Frac) -> PiVal {
    let w3 = frac_mul(frac_mul(width, width), width);
    pi_add(
        pi_of_rat(frac_mul(frac_mul(height, w3), frac_twelfth())),
        pi_scale(frac_mul(off, off), pi_of_rat(frac_mul(width, height))),
    )
}

/// Every intermediate of the rectangle y-moment computation is representable.
pub open spec fn rect_moi_y_ok(width: Frac, height: Frac, off: Frac) -> bool {
    let w2 = frac_mul(width, width);
    let w3 = frac_mul(w2, width);
    let hw3 = frac_mul(height, w3);
    let cent = frac_mul(hw3, frac_twelfth());
    let c2 = frac_mul(off, off);
    let area = pi_of_rat(frac_mul(width, height));
    fits(w2) && fits(w3) && fits(hw3) && fits(cent) && fits(frac_mul(width, height)) && fits(c2)
        && pi_scale_ok(c2, area) && pi_add_ok(pi_of_rat(cent), pi_scale(c2, area))
}

/// Height of the two rectangles removed beside an I-beam's web.
pub open spec fn ibeam_inner_height(height: Frac, flange: Frac) -> Frac {
    frac_sub(height, frac_add(flange, flange))
}

/// Width of each rectangle removed beside an I-beam's web.
pub open spec fn ibeam_side_width(width: Frac, web: Frac) -> Frac {
    frac_mul(frac_sub(width, web), frac_half())
}

/// x coordinate of the centre of the rectangle removed left of the web.
pub open spec fn ibeam_left_center(cx: Frac, width: Frac, web: Frac) -> Frac {
    frac_sub(frac_sub(cx, frac_mul(frac_sub(width, web), frac_quarter())), frac_mul(web, frac_half()))
}

/// x coordinate of the centre of the rectangle removed right of the web.
pub open spec fn ibeam_right_center(cx: Frac, width: Frac, web: Frac) -> Frac {
    frac_add(frac_add(cx, frac_mul(frac_sub(width, web), frac_quarter())), frac_mul(web, frac_half()))
}

/// Every dimension of the I-beam decomposition is representable.
pub open spec fn ibeam_parts_ok(width: Frac, height: Frac, web: Frac, flange: Frac, cx: Frac) -> bool {
    let ff = frac_add(flange, flange);
    let wmw = frac_sub(width, web);
    let qw = frac_mul(wmw, frac_quarter());
    let wh = frac_mul(web, frac_half());
    fits(ff) && fits(frac_sub(height, ff)) && fits(wmw) && fits(frac_mul(wmw, frac_half())) && fits(
        qw,
    ) && fits(wh) && fits(frac_sub(cx, qw)) && fits(frac_sub(frac_sub(cx, qw), wh)) && fits(
        frac_add(cx, qw),
    ) && fits(frac_add(frac_add(cx, qw), wh))
}

/// Exact moment of inertia of the shape about the frame's x axis.  For the
/// hollow families this is the signed sum over the decomposition into rods
/// or rectangles (seeded with zero, exactly as the composite fold computes
/// it); the parallel-axis shift of each member uses the y coordinate of its
/// centre of gravity.
pub open spec fn moi_x_val(s: StructuralShape) -> PiVal {
    match s {
        StructuralShape::Rod { radius, center_of_gravity } => rod_moi_val(
            radius@,
            center_of_gravity.1@,
        ),
        StructuralShape::Rectangle { width, height, center_of_gravity } => rect_moi_x_val(
            width@,
            height@,
            center_of_gravity.1@,
        ),
        StructuralShape::Pipe { outer_radius, thickness, center_of_gravity } => {
            let cy = center_of_gravity.1@;
            pi_sub(
                pi_add(pi_zero(), rod_moi_val(outer_radius@, cy)),
                rod_moi_val(frac_sub(outer_radius@, thickness@), cy),
            )
        },
        StructuralShape::BoxBeam { width, height, thickness, center_of_gravity } => {
            let cy = center_of_gravity.1@;
            let tt = frac_add(thickness@, thickness@);
            pi_sub(
                pi_add(pi_zero(), rect_moi_x_val(width@, height@, cy)),
                rect_moi_x_val(frac_sub(width@, tt), frac_sub(height@, tt), cy),
            )
        },
        StructuralShape::IBeam { width, height, web_thickness, flange_thickness, center_of_gravity } => {
            let cy = center_of_gravity.1@;
            let sw = ibeam_side_width(width@, web_thickness@);
            let ih = ibeam_inner_height(height@, flange_thickness@);
            pi_sub(
                pi_sub(
                    pi_add(pi_zero(), rect_moi_x_val(width@, height@, cy)),
                    rect_moi_x_val(sw, ih, cy),
                ),
                rect_moi_x_val(sw, ih, cy),
            )
        },
    }
}

/// Every intermediate of the exact x-moment computation is representable.
pub open spec fn moi_x_ok(s: StructuralShape) -> bool {
    match s {
        StructuralShape::Rod { radius, center_of_gravity } => rod_moi_ok(
            radius@,
            center_of_gravity.1@,
        ),
        StructuralShape::Rectangle { width, height, center_of_gravity } => rect_moi_x_ok(
            width@,
            height@,
            center_of_gravity.1@,
        ),
        StructuralShape::Pipe { outer_radius, thickness, center_of_gravity } => {
            let cy = center_of_gravity.1@;
            let inner = frac_sub(outer_radius@, thickness@);
            let m0 = rod_moi_val(outer_radius@, cy);
            let m1 = rod_moi_val(inner, cy);
            fits(inner) && rod_moi_ok(outer_radius@, cy) && pi_add_ok(pi_zero(), m0) && rod_moi_ok(
                inner,
                cy,
            ) && pi_sub_ok(pi_add(pi_zero(), m0), m1)
        },
        StructuralShape::BoxBeam { width, height, thickness, center_of_gravity } => {
            let cy = center_of_gravity.1@;
            let tt = frac_add(thickness@, thickness@);
            let wi = frac_sub(width@, tt);
            let hi = frac_sub(height@, tt);
            let m0 = rect_moi_x_val(width@, height@, cy);
            let m1 = rect_moi_x_val(wi, hi, cy);
            fits(tt) && fits(wi) && fits(hi) && rect_moi_x_ok(width@, height@, cy) && pi_add_ok(
                pi_zero(),
                m0,
            ) && rect_moi_x_ok(wi, hi, cy) && pi_sub_ok(pi_add(pi_zero(), m0), m1)
        },
        StructuralShape::IBeam { width, height, web_thickness, flange_thickness, center_of_gravity } => {
            let cx = center_of_gravity.0@;
            let cy = center_of_gravity.1@;
            let sw = ibeam_side_width(width@, web_thickness@);
            let ih = ibeam_inner_height(height@, flange_thickness@);
            let m0 = rect_moi_x_val(width@, height@, cy);
            let m1 = rect_moi_x_val(sw, ih, cy);
            let acc1 = pi_add(pi_zero(), m0);
            let acc2 = pi_sub(acc1, m1);
            ibeam_parts_ok(width@, height@, web_thickness@, flange_thickness@, cx)
                && rect_moi_x_ok(width@, height@, cy) && pi_add_ok(pi_zero(), m0) && rect_moi_x_ok(
                sw,
                ih,
                cy,
            ) && pi_sub_ok(acc1, m1) && pi_sub_ok(acc2, m1)
        },
    }
}

/// Exact moment of inertia of the shape about the frame's y axis: the
/// x-moment of the shape rotated a quarter turn (width and height roles
/// swapped, centre coordinates swapped); the I-beam keeps its own
/// decomposition, whose removed rectangles are offset along x.
pub open spec fn moi_y_val(s: StructuralShape) -> PiVal {
    match s {
        StructuralShape::Rod { radius, center_of_gravity } => rod_moi_val(
            radius@,
            center_of_gravity.0@,
        ),
        StructuralShape::Rectangle { width, height, center_of_gravity } => rect_moi_y_val(
            width@,
            height@,
            center_of_gravity.0@,
        ),
        StructuralShape::Pipe { outer_radius, thickness, center_of_gravity } => {
            let cx = center_of_gravity.0@;
            pi_sub(
                pi_add(pi_zero(), rod_moi_val(outer_radius@, cx)),
                rod_moi_val(frac_sub(outer_radius@, thickness@), cx),
            )
        },
        StructuralShape::BoxBeam { width, height, thickness, center_of_gravity } => {
            let cx = center_of_gravity.0@;
            let tt = frac_add(thickness@, thickness@);
            pi_sub(
                pi_add(pi_zero(), rect_moi_x_val(height@, width@, cx)),
                rect_moi_x_val(frac_sub(height@, tt), frac_sub(width@, tt), cx),
            )
        },
        StructuralShape::IBeam { width, height, web_thickness, flange_thickness, center_of_gravity } => {
            let cx = center_of_gravity.0@;
            let sw = ibeam_side_width(width@, web_thickness@);
            let ih = ibeam_inner_height(height@, flange_thickness@);
            let lc = ibeam_left_center(cx, width@, web_thickness@);
            let rc = ibeam_right_center(cx, width@, web_thickness@);
            pi_sub(
                pi_sub(
                    pi_add(pi_zero(), rect_moi_y_val(width@, height@, cx)),
                    rect_moi_y_val(sw, ih, lc),
                ),
                rect_moi_y_val(sw, ih, rc),
            )
        },
    }
}

/// Every intermediate of the exact y-moment computation is representable.
pub open spec fn moi_y_ok(s: StructuralShape) -> bool {
    match s {
        StructuralShape::Rod { radius, center_of_gravity } => rod_moi_ok(
            radius@,
            center_of_gravity.0@,
        ),
        StructuralShape::Rectangle { width, height, center_of_gravity } => rect_moi_y_ok(
            width@,
            height@,
            center_of_gravity.0@,
        ),
        StructuralShape::Pipe { outer_radius, thickness, center_of_gravity } => {
            let cx = center_of_gravity.0@;
            let inner = frac_sub(outer_radius@, thickness@);
            let m0 = rod_moi_val(outer_radius@, cx);
            let m1 = rod_moi_val(inner, cx);
            fits(inner) && rod_moi_ok(outer_radius@, cx) && pi_add_ok(pi_zero(), m0) && rod_moi_ok(
                inner,
                cx,
            ) && pi_sub_ok(pi_add(pi_zero(), m0), m1)
        },
        StructuralShape::BoxBeam { width, height, thickness, center_of_gravity } => {
            let cx = center_of_gravity.0@;
            let tt = frac_add(thickness@, thickness@);
            let wi = frac_sub(height@, tt);
            let hi = frac_sub(width@, tt);
            let m0 = rect_moi_x_val(height@, width@, cx);
            let m1 = rect_moi_x_val(wi, hi, cx);
            fits(tt) && fits(wi) && fits(hi) && rect_moi_x_ok(height@, width@, cx) && pi_add_ok(
                pi_zero(),
                m0,
            ) && rect_moi_x_ok(wi, hi, cx) && pi_sub_ok(pi_add(pi_zero(), m0), m1)
        },
        StructuralShape::IBeam { width, height, web_thickness, flange_thickness, center_of_gravity } => {
            let cx = center_of_gravity.0@;
            let sw = ibeam_side_width(width@, web_thickness@);
            let ih = ibeam_inner_height(height@, flange_thickness@);
            let lc = ibeam_left_center(cx, width@, web_thickness@);
            let rc = ibeam_right_center(cx, width@, web_thickness@);
            let m0 = rect_moi_y_val(width@, height@, cx);
            let m1 = rect_moi_y_val(sw, ih, lc);
            let m2 = rect_moi_y_val(sw, ih, rc);
            let acc1 = pi_add(pi_zero(), m0);
            let acc2 = pi_sub(acc1, m1);
            ibeam_parts_ok(width@, height@, web_thickness@, flange_thickness@, cx)
                && rect_moi_y_ok(width@, height@, cx) && pi_add_ok(pi_zero(), m0) && rect_moi_y_ok(
                sw,
                ih,
                lc,
            ) && pi_sub_ok(acc1, m1) && rect_moi_y_ok(sw, ih, rc) && pi_sub_ok(acc2, m2)
        },
    }
}

/// Builds the length `n / d`, mirroring `Rat::new`: `None` exactly when `d`
/// is zero or the normalized pair is not representable.
pub fn length(n: i64, d: i64) -> (r: Option<Rat>)
    ensures
        d == 0 ==> r is None,
        d != 0 ==> ({
            let v = if d as int > 0 {
                Frac { n: n as int, d: d as int }
            } else {
                Frac { n: -(n as int), d: -(d as int) }
            };
            &&& (r is Some) == (crate::rational::fit(v) is Some)
            &&& r matches Some(q) ==> q@ == v && q.wf()
        }),
{
    Rat::new(n, d)
}

/// Pairs two lengths into a point.
pub fn point(p0: Rat, p1: Rat) -> (r: (Rat, Rat))
    ensures
        r.0 == p0,
        r.1 == p1,
{
    (p0, p1)
}

/// Swaps the two coordinates of a point.
fn swap(pair: (Rat, Rat)) -> (r: (Rat, Rat))
    ensures
        r.0 == pair.1,
        r.1 == pair.0,
{
    (pair.1, pair.0)
}

/// Builds the ephemeral composite that decomposes an I-beam: the full
/// rectangle, minus one rectangle on each side of the web between the
/// flanges.  `None` exactly when a derived dimension is not representable.
fn composite_ibeam(
    width: Rat,
    height: Rat,
    web_thickness: Rat,
    flange_thickness: Rat,
    center_of_gravity: (Rat, Rat),
) -> (r: Option<CompositeShape>)
    requires
        width.wf(),
        height.wf(),
        web_thickness.wf(),
        flange_thickness.wf(),
        center_of_gravity.0.wf(),
        center_of_gravity.1.wf(),
    ensures
        (r is Some) == ibeam_parts_ok(
            width@,
            height@,
            web_thickness@,
            flange_thickness@,
            center_of_gravity.0@,
        ),
        r matches Some(c) ==> {
            &&& c.wf()
            &&& c.shapes@.len() == 3
            &&& c.shapes@[0].0 == 1i8
            &&& c.shapes@[1].0 == -1i8
            &&& c.shapes@[2].0 == -1i8
            &&& c.shapes@[0].1 == (StructuralShape::Rectangle { width, height, center_of_gravity })
            &&& (c.shapes@[1].1 matches StructuralShape::Rectangle {
                width: sw,
                height: sh,
                center_of_gravity: sc,
            } && sw@ == ibeam_side_width(width@, web_thickness@) && sh@ == ibeam_inner_height(
                height@,
                flange_thickness@,
            ) && sc.0@ == ibeam_left_center(center_of_gravity.0@, width@, web_thickness@) && sc.1
                == center_of_gravity.1)
            &&& (c.shapes@[2].1 matches StructuralShape::Rectangle {
                width: sw,
                height: sh,
                center_of_gravity: sc,
            } && sw@ == ibeam_side_width(width@, web_thickness@) && sh@ == ibeam_inner_height(
                height@,
                flange_thickness@,
            ) && sc.0@ == ibeam_right_center(center_of_gravity.0@, width@, web_thickness@) && sc.1
                == center_of_gravity.1)
        },
{
    let ff = match flange_thickness.add(flange_thickness) {
        Some(v) => v,
        None => {
            return None;
        },
    };
    let ih = match height.sub(ff) {
        Some(v) => v,
        None => {
            return None;
        },
    };
    let wmw = match width.sub(web_thickness) {
        Some(v) => v,
        None => {
            return None;
        },
    };
    let sw = match wmw.mul(Rat::of(1, 2)) {
        Some(v) => v,
        None => {
            return None;
        },
    };
    let qw = match wmw.mul(Rat::of(1, 4)) {
        Some(v) => v,
        None => {
            return None;
        },
    };
    let wh = match web_thickness.mul(Rat::of(1, 2)) {
        Some(v) => v,
        None => {
            return None;
        },
    };
    let lc1 = match center_of_gravity.0.sub(qw) {
        Some(v) => v,
        None => {
            return None;
        },
    };
    let lc = match lc1.sub(wh) {
        Some(v) => v,
        None => {
            return None;
        },
    };
    let rc1 = match center_of_gravity.0.add(qw) {
        Some(v) => v,
        None => {
            return None;
        },
    };
    let rc = match rc1.add(wh) {
        Some(v) => v,
        None => {
            return None;
        },
    };
    Some(
        CompositeShape::new().add(
            StructuralShape::Rectangle { width, height, center_of_gravity },
        ).sub(
            StructuralShape::Rectangle {
                width: sw,
                height: ih,
                center_of_gravity: (lc, center_of_gravity.1),
            },
        ).sub(
            StructuralShape::Rectangle {
                width: sw,
                height: ih,
                center_of_gravity: (rc, center_of_gravity.1),
            },
        ),
    )
}

impl StructuralShape {
    /// Exact moment of inertia about the frame's x axis, with the
    /// parallel-axis shift for the stored centre of gravity included.  The
    /// hollow families delegate to an ephemeral composite over rods or
    /// rectangles rather than using their own closed forms.  `None` exactly
    /// when an intermediate of the exact computation is not representable.
    pub fn moi_x(&self) -> (r: Option<Scalar>)
        requires
            self.wf(),
        ensures
            (r is Some) == moi_x_ok(*self),
            r matches Some(q) ==> q@ == moi_x_val(*self) && q.wf(),
        decreases shape_rank(*self), 0nat,
    {
        match *self {
            StructuralShape::Rod { radius, center_of_gravity } => {
                let r2 = match radius.mul(radius) {
                    Some(v) => v,
                    None => {
                        return None;
                    },
                };
                let r4 = match r2.mul(r2) {
                    Some(v) => v,
                    None => {
                        return None;
                    },
                };
                let cent = match r4.mul(Rat::of(1, 4)) {
                    Some(v) => v,
                    None => {
                        return None;
                    },
                };
                let a = match self.area() {
                    Some(v) => v,
                    None => {
                        return None;
                    },
                };
                let c2 = match center_of_gravity.1.mul(center_of_gravity.1) {
                    Some(v) => v,
                    None => {
                        return None;
                    },
                };
                let shift = match a.scale(c2) {
                    Some(v) => v,
                    None => {
                        return None;
                    },
                };
                Scalar::of_pi(cent).add(shift)
            },
            StructuralShape::Rectangle { width, height, center_of_gravity } => {
                let h2 = match height.mul(height) {
                    Some(v) => v,
                    None => {
                        return None;
                    },
                };
                let h3 = match h2.mul(height) {
                    Some(v) => v,
                    None => {
                        return None;
                    },
                };
                let wh3 = match width.mul(h3) {
                    Some(v) => v,
                    None => {
                        return None;
                    },
                };
                let cent = match wh3.mul(Rat::of(1, 12)) {
                    Some(v) => v,
                    None => {
                        return None;
                    },
                };
                let a = match self.area() {
                    Some(v) => v,
                    None => {
                        return None;
                    },
                };
                let c2 = match center_of_gravity.1.mul(center_of_gravity.1) {
                    Some(v) => v,
                    None => {
                        return None;
                    },
                };
                let shift = match a.scale(c2) {
                    Some(v) => v,
                    None => {
                        return None;
                    },
                };
                Scalar::of_rat(cent).add(shift)
            },
            StructuralShape::Pipe { outer_radius, thickness, center_of_gravity } => {
                let inner = match outer_radius.sub(thickness) {
                    Some(v) => v,
                    None => {
                        return None;
                    },
                };
                let comp = CompositeShape::new().add(
                    StructuralShape::Rod { radius: outer_radius, center_of_gravity },
                ).sub(StructuralShape::Rod { radius: inner, center_of_gravity });
                proof {
                    let m0 = (1i8, StructuralShape::Rod { radius: outer_radius, center_of_gravity });
                    let m1 = (-1i8, StructuralShape::Rod { radius: inner, center_of_gravity });
                    assert(comp.shapes@ =~= seq![m0, m1]);
                    lemma_moi_x_fold2(m0, m1);
                }
                comp.moi_x()
            },
            StructuralShape::BoxBeam { width, height, thickness, center_of_gravity } => {
                let tt = match thickness.add(thickness) {
                    Some(v) => v,
                    None => {
                        return None;
                    },
                };
                let wi = match width.sub(tt) {
                    Some(v) => v,
                    None => {
                        return None;
                    },
                };
                let hi = match height.sub(tt) {
                    Some(v) => v,
                    None => {
                        return None;
                    },
                };
                let comp = CompositeShape::new().add(
                    StructuralShape::Rectangle { width, height, center_of_gravity },
                ).sub(StructuralShape::Rectangle { width: wi, height: hi, center_of_gravity });
                proof {
                    let m0 = (1i8, StructuralShape::Rectangle { width, height, center_of_gravity });
                    let m1 = (
                        -1i8,
                        StructuralShape::Rectangle { width: wi, height: hi, center_of_gravity },
                    );
                    assert(comp.shapes@ =~= seq![m0, m1]);
                    lemma_moi_x_fold2(m0, m1);
                }
                comp.moi_x()
            },
            StructuralShape::IBeam {
                width,
                height,
                web_thickness,
                flange_thickness,
                center_of_gravity,
            } => {
                let comp = match composite_ibeam(
                    width,
                    height,
                    web_thickness,
                    flange_thickness,
                    center_of_gravity,
                ) {
                    Some(c) => c,
                    None => {
                        return None;
                    },
                };
                proof {
                    let m0 = comp.shapes@[0];
                    let m1 = comp.shapes@[1];
                    let m2 = comp.shapes@[2];
                    assert(comp.shapes@ =~= seq![m0, m1, m2]);
                    lemma_moi_x_fold3(m0, m1, m2);
                }
                comp.moi_x()
            },
        }
    }

    /// Exact moment of inertia about the frame's y axis.  Computed by
    /// rotating the section a quarter turn and reusing the x-axis formulas
    /// (so the two axes cannot drift apart); the I-beam reuses its own
    /// decomposition, whose side rectangles are offset along x.  `None`
    /// exactly when an intermediate of the exact computation is not
    /// representable.
    pub fn moi_y(&self) -> (r: Option<Scalar>)
        requires
            self.wf(),
        ensures
            (r is Some) == moi_y_ok(*self),
            r matches Some(q) ==> q@ == moi_y_val(*self) && q.wf(),
        decreases shape_rank(*self), 2nat,
    {
        match *self {
            StructuralShape::Rod { radius, center_of_gravity } => {
                let r2 = match radius.mul(radius) {
                    Some(v) => v,
                    None => {
                        return None;
                    },
                };
                let r4 = match r2.mul(r2) {
                    Some(v) => v,
                    None => {
                        return None;
                    },
                };
                let cent = match r4.mul(Rat::of(1, 4)) {
                    Some(v) => v,
                    None => {
                        return None;
                    },
                };
                let a = match self.area() {
                    Some(v) => v,
                    None => {
                        return None;
                    },
                };
                let c2 = match center_of_gravity.0.mul(center_of_gravity.0) {
                    Some(v) => v,
                    None => {
                        return None;
                    },
                };
                let shift = match a.scale(c2) {
                    Some(v) => v,
                    None => {
                        return None;
                    },
                };
                Scalar::of_pi(cent).add(shift)
            },
            StructuralShape::Rectangle { width, height, center_of_gravity } => {
                let w2 = match width.mul(width) {
                    Some(v) => v,
                    None => {
                        return None;
                    },
                };
                let w3 = match w2.mul(width) {
                    Some(v) => v,
                    None => {
                        return None;
                    },
                };
                let hw3 = match height.mul(w3) {
                    Some(v) => v,
                    None => {
                        return None;
                    },
                };
                let cent = match hw3.mul(Rat::of(1, 12)) {
                    Some(v) => v,
                    None => {
                        return None;
                    },
                };
                let a = match self.area() {
                    Some(v) => v,
                    None => {
                        return None;
                    },
                };
                let c2 = match center_of_gravity.0.mul(center_of_gravity.0) {
                    Some(v) => v,
                    None => {
                        return None;
                    },
                };
                let shift = match a.scale(c2) {
                    Some(v) => v,
                    None => {
                        return None;
                    },
                };
                Scalar::of_rat(cent).add(shift)
            },
            StructuralShape::Pipe { outer_radius, thickness, center_of_gravity } => {
                let rotated = StructuralShape::Pipe {
                    outer_radius,
                    thickness,
                    center_of_gravity: swap(center_of_gravity),
                };
                rotated.moi_x()
            },
            StructuralShape::BoxBeam { width, height, thickness, center_of_gravity } => {
                let rotated = StructuralShape::BoxBeam {
                    width: height,
                    height: width,
                    thickness,
                    center_of_gravity: swap(center_of_gravity),
                };
                rotated.moi_x()
            },
            StructuralShape::IBeam {
                width,
                height,
                web_thickness,
                flange_thickness,
                center_of_gravity,
            } => {
                let comp = match composite_ibeam(
                    width,
                    height,
                    web_thickness,
                    flange_thickness,
                    center_of_gravity,
                ) {
                    Some(c) => c,
                    None => {
                        return None;
                    },
                };
                proof {
                    let m0 = comp.shapes@[0];
                    let m1 = comp.shapes@[1];
                    let m2 = comp.shapes@[2];
                    assert(comp.shapes@ =~= seq![m0, m1, m2]);
                    lemma_moi_y_fold3(m0, m1, m2);
                }
                comp.moi_y()
            },
        }
    }
}

} // verus!
