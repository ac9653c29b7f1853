use vstd::prelude::*;

use crate::drawing::{cuboid_shape, Cuboid, Primitive, PrimitiveShape};
use crate::mob::box_part;
use crate::model::Model;
use crate::transform::{Plane, Rotation, Transform, TransformStep};

verus! {

/// A player figure: head, hat layer, body, arms and legs.
#[derive(Debug)]
pub struct Skin {
    pub texture: String,
    pub head: Cuboid,
    pub hat: Cuboid,
    pub body: Cuboid,
    pub right_arm: Cuboid,
    pub left_arm: Cuboid,
    pub right_leg: Cuboid,
    pub left_leg: Cuboid,
}

/// The placement of the right arm when it hangs down.
pub open spec fn arm_down() -> Seq<TransformStep> {
    seq![TransformStep::Translate { dx: -4i32, dy: -8i32, dz: -2i32 }]
}

/// The placement of the right arm when it points forward.
pub open spec fn arm_forward() -> Seq<TransformStep> {
    seq![
        TransformStep::Rotate(Rotation::XNeg),
        TransformStep::Translate { dx: -4i32, dy: -8i32, dz: -5i32 },
    ]
}

/// The figure's boxes: head, hat, body, right arm (placed by `right_arm`),
/// left arm, right leg, left leg; the left limbs are the right ones mirrored.
pub open spec fn skin_shapes(right_arm: Seq<TransformStep>) -> Seq<PrimitiveShape> {
    seq![
        cuboid_shape((8, 8, 8), (8, 0), (16, 0), (0, 8), (16, 8), (8, 8), (24, 8), seq![]),
        cuboid_shape((8, 8, 8), (40, 0), (48, 0), (32, 8), (48, 8), (40, 8), (56, 8), seq![
            TransformStep::Translate { dx: 0i32, dy: 10i32, dz: 0i32 },
        ]),
        cuboid_shape((8, 12, 4), (20, 16), (28, 16), (16, 20), (28, 20), (20, 20), (32, 20), seq![
            TransformStep::Translate { dx: 0i32, dy: -8i32, dz: -2i32 },
        ]),
        cuboid_shape((4, 12, 4), (44, 16), (48, 16), (40, 20), (48, 20), (44, 20), (52, 20), right_arm),
        cuboid_shape((4, 12, 4), (44, 16), (48, 16), (40, 20), (48, 20), (44, 20), (52, 20), seq![
            TransformStep::Mirror(Plane::YZ),
            TransformStep::Translate { dx: 13i32, dy: -8i32, dz: -2i32 },
        ]),
        cuboid_shape((4, 12, 4), (4, 16), (8, 16), (0, 20), (8, 20), (4, 20), (12, 20), seq![
            TransformStep::Translate { dx: 0i32, dy: -20i32, dz: -2i32 },
        ]),
        cuboid_shape((4, 12, 4), (4, 16), (8, 16), (0, 20), (8, 20), (4, 20), (12, 20), seq![
            TransformStep::Mirror(Plane::YZ),
            TransformStep::Translate { dx: 9i32, dy: -20i32, dz: -2i32 },
        ]),
    ]
}

impl Skin {
    /// The figure of the named player, with the skin `skins/<name>.png`.
    pub fn player(name: &str) -> (r: Self)
        ensures
            r.shapes() == skin_shapes(arm_down()),
            r.texture@ == "skins/"@ + name@ + ".png"@,
    {
        let mut texture = String::from_str("skins/");
        texture.append(name);
        texture.append(".png");
        let hat_position = Transform::new().translate(0, 10, 0);
        let body_position = Transform::new().translate(0, -8, -2);
        let right_arm_position = Transform::new().translate(-4, -8, -2);
        let left_arm_position = Transform::new().mirror(Plane::YZ).translate(13, -8, -2);
        let right_leg_position = Transform::new().translate(0, -20, -2);
        let left_leg_position = Transform::new().mirror(Plane::YZ).translate(9, -20, -2);
        proof {
            assert(hat_position.step_seq() =~= seq![
                TransformStep::Translate { dx: 0i32, dy: 10i32, dz: 0i32 },
            ]);
            assert(body_position.step_seq() =~= seq![
                TransformStep::Translate { dx: 0i32, dy: -8i32, dz: -2i32 },
            ]);
            assert(right_arm_position.step_seq() =~= arm_down());
            assert(left_arm_position.step_seq() =~= seq![
                TransformStep::Mirror(Plane::YZ),
                TransformStep::Translate { dx: 13i32, dy: -8i32, dz: -2i32 },
            ]);
            assert(right_leg_position.step_seq() =~= seq![
                TransformStep::Translate { dx: 0i32, dy: -20i32, dz: -2i32 },
            ]);
            assert(left_leg_position.step_seq() =~= seq![
                TransformStep::Mirror(Plane::YZ),
                TransformStep::Translate { dx: 9i32, dy: -20i32, dz: -2i32 },
            ]);
            assert(Seq::<TransformStep>::empty() =~= seq![]);
        }
        let r = Skin {
            texture,
            head: box_part(
                (8, 8, 8),
                (8, 0),
                (16, 0),
                (0, 8),
                (16, 8),
                (8, 8),
                (24, 8),
                Transform::new(),
            ),
            hat: box_part(
                (8, 8, 8),
                (40, 0),
                (48, 0),
                (32, 8),
                (48, 8),
                (40, 8),
                (56, 8),
                hat_position,
            ),
            body: box_part(
                (8, 12, 4),
                (20, 16),
                (28, 16),
                (16, 20),
                (28, 20),
                (20, 20),
                (32, 20),
                body_position,
            ),
            right_arm: box_part(
                (4, 12, 4),
                (44, 16),
                (48, 16),
                (40, 20),
                (48, 20),
                (44, 20),
                (52, 20),
                right_arm_position,
            ),
            left_arm: box_part(
                (4, 12, 4),
                (44, 16),
                (48, 16),
                (40, 20),
                (48, 20),
                (44, 20),
                (52, 20),
                left_arm_position,
            ),
            right_leg: box_part(
                (4, 12, 4),
                (4, 16),
                (8, 16),
                (0, 20),
                (8, 20),
                (4, 20),
                (12, 20),
                right_leg_position,
            ),
            left_leg: box_part(
                (4, 12, 4),
                (4, 16),
                (8, 16),
                (0, 20),
                (8, 20),
                (4, 20),
                (12, 20),
                left_leg_position,
            ),
        };
        proof {
            assert(r.shapes() =~= skin_shapes(arm_down()));
        }
        r
    }

    /// The same figure with the right arm pointing forward.
    pub fn right_arm_forward(self) -> (r: Self)
        ensures
            r.shapes() == self.shapes().update(3, Primitive::Cuboid(self.right_arm).shape().update_position(arm_forward())),
            r.texture == self.texture,
    {
        let position = Transform::new().rotate(Rotation::XNeg).translate(-4, -8, -5);
        proof {
            assert(position.step_seq() =~= arm_forward());
        }
        let mut s = self;
        s.right_arm.position = position;
        proof {
            assert(s.shapes() =~= self.shapes().update(3, Primitive::Cuboid(self.right_arm).shape().update_position(arm_forward())));
        }
        s
    }
}

impl Model for Skin {
    open spec fn shapes(&self) -> Seq<PrimitiveShape> {
        seq![
            Primitive::Cuboid(self.head).shape(),
            Primitive::Cuboid(self.hat).shape(),
            Primitive::Cuboid(self.body).shape(),
            Primitive::Cuboid(self.right_arm).shape(),
            Primitive::Cuboid(self.left_arm).shape(),
            Primitive::Cuboid(self.right_leg).shape(),
            Primitive::Cuboid(self.left_leg).shape(),
        ]
    }

    fn parts(&self) -> (r: Vec<Primitive>) {
        let mut r: Vec<Primitive> = Vec::new();
        r.push(Primitive::Cuboid(self.head.duplicate()));
        r.push(Primitive::Cuboid(self.hat.duplicate()));
        r.push(Primitive::Cuboid(self.body.duplicate()));
        r.push(Primitive::Cuboid(self.right_arm.duplicate()));
        r.push(Primitive::Cuboid(self.left_arm.duplicate()));
        r.push(Primitive::Cuboid(self.right_leg.duplicate()));
        r.push(Primitive::Cuboid(self.left_leg.duplicate()));
        proof {
            assert(r@.map_values(|p: Primitive| p.shape()) =~= self.shapes());
        }
        r
    }
}

} // verus!
