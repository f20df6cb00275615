use structural_shapes::CompositeShape;
use structural_shapes::Rat;
use structural_shapes::Scalar;
use structural_shapes::StructuralShape;
use structural_shapes::length;
use structural_shapes::point;

fn meters(n: i64, d: i64) -> Rat {
    length(n, d).unwrap()
}

#[test]
fn rod_symmetry() {
    let x = StructuralShape::Rod {
        radius: meters(1, 1),
        center_of_gravity: point(meters(0, 1), meters(0, 1)),
    };
    assert!(x.moi_x().unwrap().eq_val(x.moi_y().unwrap()));
}

#[test]
fn rod_value() {
    let x = StructuralShape::Rod {
        radius: meters(1, 1),
        center_of_gravity: point(meters(0, 1), meters(0, 1)),
    };
    assert!(x.moi_x().unwrap().eq_val(Scalar::of_pi(meters(1, 4))));
}

#[test]
fn pipe_symmetry() {
    let x = StructuralShape::Pipe {
        outer_radius: meters(1, 1),
        thickness: meters(1, 100),
        center_of_gravity: point(meters(0, 1), meters(0, 1)),
    };
    assert!(x.moi_x().unwrap().eq_val(x.moi_y().unwrap()));
}

#[test]
fn pipe_value() {
    let x = StructuralShape::Pipe {
        outer_radius: meters(2, 1),
        thickness: meters(1, 1),
        center_of_gravity: point(meters(0, 1), meters(0, 1)),
    };
    assert!(x.moi_x().unwrap().eq_val(Scalar::of_pi(meters(15, 4))));
}

#[test]
fn rectangle_symmetry() {
    let x = StructuralShape::Rectangle {
        width: meters(2, 1),
        height: meters(2, 1),
        center_of_gravity: point(meters(0, 1), meters(0, 1)),
    };
    assert!(x.moi_x().unwrap().eq_val(x.moi_y().unwrap()));
}

#[test]
fn rectangle_value() {
    let x = StructuralShape::Rectangle {
        width: meters(2, 1),
        height: meters(2, 1),
        center_of_gravity: point(meters(0, 1), meters(0, 1)),
    };
    assert!(x.moi_x().unwrap().eq_val(Scalar::of_rat(meters(16, 12))));
}

#[test]
fn boxbeam_symmetry() {
    let x = StructuralShape::BoxBeam {
        width: meters(3, 1),
        height: meters(3, 1),
        thickness: meters(1, 1),
        center_of_gravity: point(meters(0, 1), meters(0, 1)),
    };
    assert!(x.moi_x().unwrap().eq_val(x.moi_y().unwrap()));
}

#[test]
fn boxbeam_value() {
    let x = StructuralShape::BoxBeam {
        width: meters(3, 1),
        height: meters(3, 1),
        thickness: meters(1, 1),
        center_of_gravity: point(meters(0, 1), meters(0, 1)),
    };
    assert!(x.moi_x().unwrap().eq_val(Scalar::of_rat(meters(80, 12))));
}

#[test]
fn ibeam_symmetry() {
    let x = StructuralShape::IBeam {
        width: meters(2, 1),
        height: meters(2, 1),
        flange_thickness: meters(1, 1),
        web_thickness: meters(1, 1),
        center_of_gravity: point(meters(0, 1), meters(0, 1)),
    };
    assert!(x.moi_x().unwrap().eq_val(x.moi_y().unwrap()));
}

#[test]
fn ibeam_value() {
    let x = StructuralShape::IBeam {
        width: meters(2, 1),
        height: meters(2, 1),
        flange_thickness: meters(1, 1),
        web_thickness: meters(1, 1),
        center_of_gravity: point(meters(0, 1), meters(0, 1)),
    };
    let y = StructuralShape::Rectangle {
        width: meters(2, 1),
        height: meters(2, 1),
        center_of_gravity: point(meters(0, 1), meters(0, 1)),
    };
    assert!(x.moi_x().unwrap().eq_val(y.moi_x().unwrap()));
    assert!(x.moi_y().unwrap().eq_val(y.moi_y().unwrap()));
}

#[test]
fn composite_chain() {
    let x = CompositeShape::new()
        .add(StructuralShape::Rod {
            radius: meters(2, 1),
            center_of_gravity: point(meters(3, 1), meters(0, 1)),
        })
        .add(StructuralShape::Rod {
            radius: meters(2, 1),
            center_of_gravity: point(meters(-3, 1), meters(0, 1)),
        });
    println!("moi-x: {}", format!("{:?}", x.moi_x().unwrap()));
    println!("moi-y: {}", format!("{:?}", x.moi_y().unwrap()));
    println!("moi-z: {}", format!("{:?}", x.polar_moi().unwrap()));
    println!("area: {}", format!("{:?}", x.area().unwrap()));
}

#[test]
fn composite_nonchained() {
    let mut x = CompositeShape::new();
    x = x.add(StructuralShape::Rod {
        radius: meters(2, 1),
        center_of_gravity: point(meters(3, 1), meters(0, 1)),
    });
    x = x.add(StructuralShape::Rod {
        radius: meters(2, 1),
        center_of_gravity: point(meters(-3, 1), meters(0, 1)),
    });
    println!("moi-x: {}", format!("{:?}", x.moi_x().unwrap()));
    println!("moi-y: {}", format!("{:?}", x.moi_y().unwrap()));
    println!("moi-z: {}", format!("{:?}", x.polar_moi().unwrap()));
    println!("area: {}", format!("{:?}", x.area().unwrap()));
}

#[test]
fn composite_cog_calculation() {
    let mut x = CompositeShape::new()
        .add(StructuralShape::Rectangle {
            width: meters(1, 1),
            height: meters(1, 1),
            center_of_gravity: point(meters(2, 1), meters(3, 2)),
        })
        .sub(StructuralShape::Rectangle {
            width: meters(9, 10),
            height: meters(9, 10),
            center_of_gravity: point(meters(2, 1), meters(3, 2)),
        });
    let cog = x.calculate_cog().unwrap();
    assert!(cog.0.eq_val(meters(2, 1)));
    assert!(cog.1.eq_val(meters(3, 2)));
    x.update_cog().unwrap();
    let cog2 = x.calculate_cog().unwrap();
    assert!(cog2.0.eq_val(meters(0, 1)));
    assert!(cog2.1.eq_val(meters(0, 1)));
}
