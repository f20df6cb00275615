use structural_shapes::CompositeShape;
use structural_shapes::Rat;
use structural_shapes::Scalar;
use structural_shapes::SectionError;
use structural_shapes::StructuralShape;
use structural_shapes::length;
use structural_shapes::point;

fn rat(n: i64, d: i64) -> Rat {
    length(n, d).unwrap()
}

#[test]
fn constructors_accept_valid_dimensions() {
    assert!(StructuralShape::new_rod(rat(2, 1)).is_ok());
    assert!(StructuralShape::new_pipe(rat(2, 1), rat(3, 20)).is_ok());
    assert!(StructuralShape::new_rectangle(rat(2, 1), rat(3, 1)).is_ok());
    assert!(StructuralShape::new_boxbeam(rat(2, 1), rat(2, 1), rat(3, 20)).is_ok());
    assert!(StructuralShape::new_ibeam(rat(2, 1), rat(2, 1), rat(3, 20), rat(3, 20)).is_ok());
}

#[test]
fn constructors_reject_negative_lengths() {
    assert_eq!(
        StructuralShape::new_rod(rat(-1, 1)).unwrap_err(),
        SectionError::InvalidGeometry
    );
    assert_eq!(
        StructuralShape::new_rectangle(rat(-2, 1), rat(3, 1)).unwrap_err(),
        SectionError::InvalidGeometry
    );
}

#[test]
fn constructors_reject_oversized_walls() {
    assert_eq!(
        StructuralShape::new_pipe(rat(1, 1), rat(2, 1)).unwrap_err(),
        SectionError::InvalidGeometry
    );
    assert_eq!(
        StructuralShape::new_boxbeam(rat(2, 1), rat(2, 1), rat(3, 2)).unwrap_err(),
        SectionError::InvalidGeometry
    );
    assert_eq!(
        StructuralShape::new_ibeam(rat(2, 1), rat(2, 1), rat(3, 1), rat(1, 2)).unwrap_err(),
        SectionError::InvalidGeometry
    );
}

#[test]
fn pipe_area_value() {
    let x = StructuralShape::new_pipe(rat(2, 1), rat(1, 1)).unwrap();
    assert!(x.area().unwrap().eq_val(Scalar::of_pi(rat(3, 1))));
}

#[test]
fn boxbeam_area_value() {
    let x = StructuralShape::new_boxbeam(rat(3, 1), rat(3, 1), rat(1, 1)).unwrap();
    assert!(x.area().unwrap().eq_val(Scalar::of_rat(rat(8, 1))));
}

#[test]
fn parallel_axis_shifts_moment_by_area_offset_squared() {
    let mut rod = StructuralShape::new_rod(rat(1, 1)).unwrap();
    rod.set_cog(point(rat(0, 1), rat(2, 1)));
    let expected = Scalar::of_pi(rat(1, 4)).add(Scalar::of_pi(rat(4, 1))).unwrap();
    assert!(rod.moi_x().unwrap().eq_val(expected));
    let mut rect = StructuralShape::new_rectangle(rat(2, 1), rat(2, 1)).unwrap();
    rect.set_cog(point(rat(3, 1), rat(0, 1)));
    let expected2 = Scalar::of_rat(rat(16, 12)).add(Scalar::of_rat(rat(36, 1))).unwrap();
    assert!(rect.moi_y().unwrap().eq_val(expected2));
}

#[test]
fn cog_round_trip_and_getter() {
    let mut rod = StructuralShape::new_rod(rat(1, 1)).unwrap();
    let c = rod.get_cog();
    assert!(c.0.eq_val(rat(0, 1)));
    assert!(c.1.eq_val(rat(0, 1)));
    rod.set_cog(point(rat(5, 2), rat(-7, 3)));
    let c2 = rod.get_cog();
    assert!(c2.0.eq_val(rat(5, 2)));
    assert!(c2.1.eq_val(rat(-7, 3)));
}

#[test]
fn composite_additivity() {
    let rod = StructuralShape::new_rod(rat(2, 1)).unwrap();
    let rect = StructuralShape::new_rectangle(rat(3, 1), rat(2, 1)).unwrap();
    let comp = CompositeShape::new().add(rod).add(rect);
    let expected_area = Scalar::of_pi(rat(4, 1)).add(Scalar::of_rat(rat(6, 1))).unwrap();
    assert!(comp.area().unwrap().eq_val(expected_area));
    let sum_x = rod.moi_x().unwrap().add(rect.moi_x().unwrap()).unwrap();
    assert!(comp.moi_x().unwrap().eq_val(sum_x));
    let sum_y = rod.moi_y().unwrap().add(rect.moi_y().unwrap()).unwrap();
    assert!(comp.moi_y().unwrap().eq_val(sum_y));
}

#[test]
fn composite_order_does_not_matter() {
    let a = StructuralShape::new_rod(rat(1, 1)).unwrap();
    let b = StructuralShape::new_rectangle(rat(3, 1), rat(2, 1)).unwrap();
    let ab = CompositeShape::new().add(a).sub(b);
    let ba = CompositeShape::new().sub(b).add(a);
    assert!(ab.area().unwrap().eq_val(ba.area().unwrap()));
    assert!(ab.moi_x().unwrap().eq_val(ba.moi_x().unwrap()));
    assert!(ab.moi_y().unwrap().eq_val(ba.moi_y().unwrap()));
}

#[test]
fn polar_moment_is_sum_of_axis_moments() {
    let comp = CompositeShape::new().add(StructuralShape::new_rod(rat(2, 1)).unwrap());
    let expected = comp.moi_x().unwrap().add(comp.moi_y().unwrap()).unwrap();
    assert!(comp.polar_moi().unwrap().eq_val(expected));
}

#[test]
fn zero_net_area_centroid_is_degenerate() {
    let sq = StructuralShape::new_rectangle(rat(1, 1), rat(1, 1)).unwrap();
    let comp = CompositeShape::new().add(sq).sub(sq);
    assert_eq!(comp.calculate_cog().unwrap_err(), SectionError::DegenerateComposite);
    let empty = CompositeShape::new();
    assert_eq!(empty.calculate_cog().unwrap_err(), SectionError::DegenerateComposite);
}

#[test]
fn irrational_centroid_is_unrepresentable() {
    let mut rod = StructuralShape::new_rod(rat(1, 1)).unwrap();
    rod.set_cog(point(rat(1, 1), rat(0, 1)));
    let rect = StructuralShape::new_rectangle(rat(1, 1), rat(1, 1)).unwrap();
    let comp = CompositeShape::new().add(rod).add(rect);
    assert_eq!(comp.calculate_cog().unwrap_err(), SectionError::Unrepresentable);
}

#[test]
fn oversized_dimensions_overflow_the_representation() {
    let big = rat(i64::MAX, 1);
    let rect = StructuralShape::Rectangle {
        width: big,
        height: big,
        center_of_gravity: point(rat(0, 1), rat(0, 1)),
    };
    assert!(rect.area().is_none());
    assert!(rect.moi_x().is_none());
}

#[test]
fn update_cog_recenters_and_is_idempotent() {
    let mut outer = StructuralShape::new_rectangle(rat(4, 1), rat(4, 1)).unwrap();
    outer.set_cog(point(rat(2, 1), rat(3, 2)));
    let mut inner = StructuralShape::new_rectangle(rat(2, 1), rat(2, 1)).unwrap();
    inner.set_cog(point(rat(2, 1), rat(3, 2)));
    let mut comp = CompositeShape::new().add(outer).sub(inner);
    comp.update_cog().unwrap();
    let cog = comp.calculate_cog().unwrap();
    assert!(cog.0.eq_val(rat(0, 1)));
    assert!(cog.1.eq_val(rat(0, 1)));
    let before: Vec<(Rat, Rat)> = comp.shapes.iter().map(|p| p.1.get_cog()).collect();
    comp.update_cog().unwrap();
    let after: Vec<(Rat, Rat)> = comp.shapes.iter().map(|p| p.1.get_cog()).collect();
    assert_eq!(before.len(), after.len());
    for i in 0..before.len() {
        assert!(before[i].0.eq_val(after[i].0));
        assert!(before[i].1.eq_val(after[i].1));
    }
}

#[test]
fn degenerate_ibeam_matches_rectangle_off_origin() {
    let mut ib = StructuralShape::new_ibeam(rat(2, 1), rat(2, 1), rat(1, 1), rat(1, 1)).unwrap();
    ib.set_cog(point(rat(1, 2), rat(5, 3)));
    let mut rect = StructuralShape::new_rectangle(rat(2, 1), rat(2, 1)).unwrap();
    rect.set_cog(point(rat(1, 2), rat(5, 3)));
    assert!(ib.area().unwrap().eq_val(rect.area().unwrap()));
    assert!(ib.moi_x().unwrap().eq_val(rect.moi_x().unwrap()));
    assert!(ib.moi_y().unwrap().eq_val(rect.moi_y().unwrap()));
}

#[test]
fn length_rejects_zero_denominator() {
    assert!(length(1, 0).is_none());
    assert!(length(3, -2).unwrap().eq_val(rat(-3, 2)));
}
