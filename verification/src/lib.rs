//! Exact section-property computations for structural cross-sections.
//!
//! The library computes cross-sectional area, centroid, and second moments of
//! area for five canonical shape families (rod, pipe, rectangle, box beam,
//! I-beam) and for composites built by signed superposition of those
//! primitives.  All arithmetic is exact: every value is represented as
//! `a + b * pi` with `a` and `b` rational, so the closed-form results
//! (`pi / 4` for a unit rod, `16 / 12` for a 2-by-2 rectangle) come out
//! exactly rather than as floating-point approximations.

mod composite;
mod laws;

pub use laws::lemma_append_order_irrelevant;
pub use laws::lemma_area_nonnegative;
pub use laws::lemma_composite_permutation;
pub use laws::lemma_ibeam_degenerates_to_rectangle;
pub use laws::lemma_moi_symmetry;
pub use laws::lemma_parallel_axis_x;
pub use laws::lemma_parallel_axis_y;
pub use laws::lemma_update_cog_idempotent;
pub use laws::lemma_update_cog_recenters;
mod rational;
mod scalar;
mod shapes;

pub use composite::CompositeShape;
pub use composite::cog_ok;
pub use composite::cog_sums_ok;
pub use composite::cog_x_spec;
pub use composite::cog_y_spec;
pub use composite::comp_area_ok;
pub use composite::comp_area_val;
pub use composite::comp_moi_x_ok;
pub use composite::comp_moi_x_val;
pub use composite::comp_moi_y_ok;
pub use composite::comp_moi_y_val;
pub use composite::comp_vx_ok;
pub use composite::comp_vx_val;
pub use composite::comp_vy_ok;
pub use composite::comp_vy_val;
pub use composite::ratio_ok;
pub use composite::ratio_val;
pub use composite::signed_add;
pub use composite::signed_add_ok;
pub use composite::vx_term_ok;
pub use composite::vx_term_val;
pub use composite::vy_term_ok;
pub use composite::vy_term_val;

pub use shapes::SectionError;
pub use shapes::StructuralShape;
pub use shapes::area_ok;
pub use shapes::area_val;
pub use shapes::boxbeam_valid;
pub use shapes::ibeam_valid;
pub use shapes::pipe_valid;
pub use shapes::rectangle_valid;
pub use shapes::rod_valid;
pub use shapes::valid_geometry;
pub use shapes::length;
pub use shapes::point;
pub use shapes::moi_x_ok;
pub use shapes::moi_x_val;
pub use shapes::moi_y_ok;
pub use shapes::moi_y_val;
pub use shapes::rod_moi_ok;
pub use shapes::rod_moi_val;
pub use shapes::rect_moi_x_ok;
pub use shapes::rect_moi_x_val;
pub use shapes::rect_moi_y_ok;
pub use shapes::rect_moi_y_val;
pub use shapes::shape_rank;
pub use shapes::ibeam_inner_height;
pub use shapes::ibeam_left_center;
pub use shapes::ibeam_parts_ok;
pub use shapes::ibeam_right_center;
pub use shapes::ibeam_side_width;

pub use scalar::PiVal;
pub use scalar::Scalar;
pub use scalar::pi_add;
pub use scalar::pi_eq;
pub use scalar::pi_is_zero;
pub use scalar::pi_neg;
pub use scalar::pi_of_pi;
pub use scalar::pi_of_rat;
pub use scalar::pi_scale;
pub use scalar::pi_sub;
pub use scalar::pi_wf;
pub use scalar::pi_zero;

pub use rational::Frac;
pub use rational::Rat;
pub use rational::frac_add;
pub use rational::frac_eq;
pub use rational::frac_int;
pub use rational::frac_mul;
pub use rational::frac_neg;
pub use rational::frac_sub;
pub use rational::frac_wf;
pub use rational::frac_zero;
