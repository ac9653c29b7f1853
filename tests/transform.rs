use voxelize::drawing::Brush;
use voxelize::transform::{Plane, Rotation, Transform, TransformStep};

const ROTATIONS: [Rotation; 6] = [
    Rotation::XPos,
    Rotation::XNeg,
    Rotation::YPos,
    Rotation::YNeg,
    Rotation::ZPos,
    Rotation::ZNeg,
];

const DIRECTIONS: [Brush; 6] = [
    Brush::XPos,
    Brush::XNeg,
    Brush::YPos,
    Brush::YNeg,
    Brush::ZPos,
    Brush::ZNeg,
];

#[test]
fn scale_applies_to_point_and_translation() {
    let t = Transform::with_scale(2).translate(1, 2, 3);
    assert_eq!(t.apply(1, 1, 1), (4, 6, 8));
}

#[test]
fn each_rotation_moves_a_point() {
    let p = (1, 2, 3);
    let expected = [(1, -3, 2), (1, 3, -2), (3, 2, -1), (-3, 2, 1), (-2, 1, 3), (2, -1, 3)];
    for (r, e) in ROTATIONS.iter().zip(expected.iter()) {
        assert_eq!(Transform::new().rotate(*r).apply(p.0, p.1, p.2), *e);
    }
}

#[test]
fn mirror_negates_one_axis() {
    assert_eq!(Transform::new().mirror(Plane::XY).apply(1, 2, 3), (1, 2, -3));
    assert_eq!(Transform::new().mirror(Plane::XZ).apply(1, 2, 3), (1, -2, 3));
    assert_eq!(Transform::new().mirror(Plane::YZ).apply(1, 2, 3), (-1, 2, 3));
}

#[test]
fn composition_applies_steps_in_literal_order() {
    let a = Transform::new().rotate(Rotation::XPos);
    let b = Transform::new().translate(1, 0, 0);
    let c = Transform::new().mirror(Plane::YZ);
    let composed = a.duplicate().followed_by(&b).followed_by(&c);
    assert_eq!(composed.apply(1, 2, 3), (-2, -3, 2));

    let (x, y, z) = TransformStep::Rotate(Rotation::XPos).apply(1, 2, 3, 1);
    let (x, y, z) = TransformStep::Translate { dx: 1, dy: 0, dz: 0 }.apply(x, y, z, 1);
    let (x, y, z) = TransformStep::Mirror(Plane::YZ).apply(x, y, z, 1);
    assert_eq!((x, y, z), (-2, -3, 2));

    let reversed = c.followed_by(&b).followed_by(&a);
    assert_eq!(reversed.apply(1, 2, 3), (0, -3, 2));
}

#[test]
fn composition_keeps_the_first_scale() {
    let t = Transform::with_scale(3).followed_by(&Transform::with_scale(5).translate(1, 0, 0));
    assert_eq!(t.scaling, 3);
    assert_eq!(t.apply(1, 0, 0), (6, 0, 0));
}

#[test]
fn rotation_permutes_the_six_directions() {
    for r in ROTATIONS.iter() {
        let t = Transform::new().rotate(*r);
        assert_eq!(t.brush(Brush::Full), Brush::Full);
        let images: Vec<Brush> = DIRECTIONS.iter().map(|b| t.brush(*b)).collect();
        for (i, a) in images.iter().enumerate() {
            assert_ne!(*a, Brush::Full);
            for b in images.iter().skip(i + 1) {
                assert_ne!(a, b);
            }
        }
    }
}

fn unit(b: Brush) -> (i32, i32, i32) {
    match b {
        Brush::Full => (0, 0, 0),
        Brush::XPos => (1, 0, 0),
        Brush::XNeg => (-1, 0, 0),
        Brush::YPos => (0, 1, 0),
        Brush::YNeg => (0, -1, 0),
        Brush::ZPos => (0, 0, 1),
        Brush::ZNeg => (0, 0, -1),
    }
}

#[test]
fn rotation_of_a_brush_follows_its_vector() {
    for r in ROTATIONS.iter() {
        let t = Transform::new().rotate(*r);
        for b in DIRECTIONS.iter() {
            let (x, y, z) = unit(*b);
            assert_eq!(unit(t.brush(*b)), t.rotate_only(x, y, z));
        }
    }
}

#[test]
fn mirror_twice_is_identity() {
    for plane in [Plane::XY, Plane::XZ, Plane::YZ] {
        let t = Transform::new().mirror(plane).mirror(plane);
        assert_eq!(t.apply(4, -5, 6), (4, -5, 6));
        for b in DIRECTIONS.iter() {
            assert_eq!(t.brush(*b), *b);
        }
    }
}

#[test]
fn mirror_flips_the_brush_across_its_plane() {
    let t = Transform::new().mirror(Plane::XZ);
    assert_eq!(t.brush(Brush::YPos), Brush::YNeg);
    assert_eq!(t.brush(Brush::XPos), Brush::XPos);
    assert_eq!(t.brush(Brush::Full), Brush::Full);
}

#[test]
fn rotate_only_skips_translation_and_mirror() {
    let t = Transform::new()
        .translate(5, 5, 5)
        .mirror(Plane::XZ)
        .rotate(Rotation::ZPos);
    assert_eq!(t.rotate_only(0, 1, 0), (-1, 0, 0));
}

#[test]
fn checked_apply_reports_overflow() {
    let t = Transform::with_scale(2);
    assert_eq!(t.checked_apply(i32::MAX, 0, 0), None);
    assert_eq!(t.checked_apply(3, 0, 0), Some((6, 0, 0)));
    let shifted = Transform::new().translate(1, 0, 0);
    assert_eq!(shifted.checked_apply(i32::MAX, 0, 0), None);
}
