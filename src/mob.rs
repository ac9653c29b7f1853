use vstd::prelude::*;

use crate::drawing::{cuboid_shape, Cuboid, Dimensions3D, Primitive, PrimitiveShape, TextureOffsets};
use crate::items::TEXTURE_DIR;
use crate::model::{str_eq, Model};
use crate::transform::{Rotation, Transform, TransformStep};

verus! {

/// The goat, built from seven boxes.
#[derive(Debug)]
pub struct Goat {
    pub texture: String,
    pub head: Cuboid,
    pub torso: Cuboid,
    pub coat: Cuboid,
    pub front_left_leg: Cuboid,
    pub front_right_leg: Cuboid,
    pub rear_left_leg: Cuboid,
    pub rear_right_leg: Cuboid,
}

/// The goat's boxes: head, torso, coat, then the front left, front right,
/// rear left and rear right legs.
pub open spec fn goat_shapes() -> Seq<PrimitiveShape> {
    seq![
        cuboid_shape((5, 7, 10), (44, 46), (49, 46), (34, 56), (49, 56), (44, 56), (59, 56), seq![
            TransformStep::Rotate(Rotation::XPos),
            TransformStep::Translate { dx: 2i32, dy: -10i32, dz: 7i32 },
        ]),
        cuboid_shape((9, 11, 16), (17, 1), (26, 1), (1, 17), (26, 17), (17, 17), (42, 17), seq![]),
        cuboid_shape((11, 14, 11), (11, 28), (22, 28), (0, 39), (22, 39), (11, 39), (33, 39), seq![
            TransformStep::Translate { dx: -1i32, dy: 1i32, dz: 1i32 },
        ]),
        cuboid_shape((3, 10, 3), (38, 2), (41, 2), (35, 5), (41, 5), (38, 5), (44, 5), seq![
            TransformStep::Translate { dx: 5i32, dy: -7i32, dz: -1i32 },
        ]),
        cuboid_shape((3, 10, 3), (52, 2), (55, 2), (49, 5), (55, 5), (52, 5), (59, 5), seq![
            TransformStep::Translate { dx: 1i32, dy: -7i32, dz: -1i32 },
        ]),
        cuboid_shape((3, 6, 3), (39, 29), (42, 29), (36, 32), (42, 32), (39, 32), (45, 32), seq![
            TransformStep::Translate { dx: 5i32, dy: -11i32, dz: -11i32 },
        ]),
        cuboid_shape((3, 6, 3), (52, 29), (55, 29), (49, 32), (55, 32), (52, 32), (59, 32), seq![
            TransformStep::Translate { dx: 1i32, dy: -11i32, dz: -11i32 },
        ]),
    ]
}

/// A box of the given size and texture rectangles, placed by `position`.
pub fn box_part(
    dimensions: (u32, u32, u32),
    top: (u32, u32),
    bottom: (u32, u32),
    right: (u32, u32),
    left: (u32, u32),
    front: (u32, u32),
    back: (u32, u32),
    position: Transform,
) -> (r: Cuboid)
    ensures
        Primitive::Cuboid(r).shape() == cuboid_shape(
            dimensions,
            top,
            bottom,
            right,
            left,
            front,
            back,
            position.step_seq(),
        ),
        r.position.scaling == position.scaling,
{
    Cuboid {
        dimensions: Dimensions3D { x: dimensions.0, y: dimensions.1, z: dimensions.2 },
        offsets: TextureOffsets { top, bottom, right, left, front, back },
        position,
    }
}

/// The mob of the given name.
pub fn get_mob(name: &str) -> (r: Option<Goat>)
    ensures
        name@ == "goat"@ ==> (r matches Some(g) && g.shapes() == goat_shapes()
            && g.texture@ == TEXTURE_DIR@ + "entity/goat/goat.png"@),
        name@ != "goat"@ ==> r is None,
{
    if str_eq(name, "goat") {
        Some(Goat::new())
    } else {
        None
    }
}

impl Goat {
    pub fn new() -> (r: Self)
        ensures
            r.shapes() == goat_shapes(),
            r.texture@ == TEXTURE_DIR@ + "entity/goat/goat.png"@,
    {
        let mut texture = String::from_str(TEXTURE_DIR);
        texture.append("entity/goat/goat.png");
        let head_position = Transform::new().rotate(Rotation::XPos).translate(2, -10, 7);
        let coat_position = Transform::new().translate(-1, 1, 1);
        let fl_position = Transform::new().translate(5, -7, -1);
        let fr_position = Transform::new().translate(1, -7, -1);
        let rl_position = Transform::new().translate(5, -11, -11);
        let rr_position = Transform::new().translate(1, -11, -11);
        proof {
            assert(head_position.step_seq() =~= seq![
                TransformStep::Rotate(Rotation::XPos),
                TransformStep::Translate { dx: 2i32, dy: -10i32, dz: 7i32 },
            ]);
            assert(coat_position.step_seq() =~= seq![TransformStep::Translate { dx: -1i32, dy: 1i32, dz: 1i32 }]);
            assert(fl_position.step_seq() =~= seq![TransformStep::Translate { dx: 5i32, dy: -7i32, dz: -1i32 }]);
            assert(fr_position.step_seq() =~= seq![TransformStep::Translate { dx: 1i32, dy: -7i32, dz: -1i32 }]);
            assert(rl_position.step_seq() =~= seq![
                TransformStep::Translate { dx: 5i32, dy: -11i32, dz: -11i32 },
            ]);
            assert(rr_position.step_seq() =~= seq![
                TransformStep::Translate { dx: 1i32, dy: -11i32, dz: -11i32 },
            ]);
            assert(Seq::<TransformStep>::empty() =~= seq![]);
        }
        let r = Goat {
            texture,
            head: box_part(
                (5, 7, 10),
                (44, 46),
                (49, 46),
                (34, 56),
                (49, 56),
                (44, 56),
                (59, 56),
                head_position,
            ),
            torso: box_part(
                (9, 11, 16),
                (17, 1),
                (26, 1),
                (1, 17),
                (26, 17),
                (17, 17),
                (42, 17),
                Transform::new(),
            ),
            coat: box_part(
                (11, 14, 11),
                (11, 28),
                (22, 28),
                (0, 39),
                (22, 39),
                (11, 39),
                (33, 39),
                coat_position,
            ),
            front_left_leg: box_part(
                (3, 10, 3),
                (38, 2),
                (41, 2),
                (35, 5),
                (41, 5),
                (38, 5),
                (44, 5),
                fl_position,
            ),
            front_right_leg: box_part(
                (3, 10, 3),
                (52, 2),
                (55, 2),
                (49, 5),
                (55, 5),
                (52, 5),
                (59, 5),
                fr_position,
            ),
            rear_left_leg: box_part(
                (3, 6, 3),
                (39, 29),
                (42, 29),
                (36, 32),
                (42, 32),
                (39, 32),
                (45, 32),
                rl_position,
            ),
            rear_right_leg: box_part(
                (3, 6, 3),
                (52, 29),
                (55, 29),
                (49, 32),
                (55, 32),
                (52, 32),
                (59, 32),
                rr_position,
            ),
        };
        proof {
            assert(r.shapes() =~= goat_shapes());
        }
        r
    }
}

impl Model for Goat {
    open spec fn shapes(&self) -> Seq<PrimitiveShape> {
        seq![
            Primitive::Cuboid(self.head).shape(),
            Primitive::Cuboid(self.torso).shape(),
            Primitive::Cuboid(self.coat).shape(),
            Primitive::Cuboid(self.front_left_leg).shape(),
            Primitive::Cuboid(self.front_right_leg).shape(),
            Primitive::Cuboid(self.rear_left_leg).shape(),
            Primitive::Cuboid(self.rear_right_leg).shape(),
        ]
    }

    fn parts(&self) -> (r: Vec<Primitive>) {
        let mut r: Vec<Primitive> = Vec::new();
        r.push(Primitive::Cuboid(self.head.duplicate()));
        r.push(Primitive::Cuboid(self.torso.duplicate()));
        r.push(Primitive::Cuboid(self.coat.duplicate()));
        r.push(Primitive::Cuboid(self.front_left_leg.duplicate()));
        r.push(Primitive::Cuboid(self.front_right_leg.duplicate()));
        r.push(Primitive::Cuboid(self.rear_left_leg.duplicate()));
        r.push(Primitive::Cuboid(self.rear_right_leg.duplicate()));
        proof {
            assert(r@.map_values(|p: Primitive| p.shape()) =~= self.shapes());
        }
        r
    }
}

} // verus!
