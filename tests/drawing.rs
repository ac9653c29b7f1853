use voxelize::drawing::{
    draw_primitives, Brush, Cuboid, Dimensions2D, Dimensions3D, DrawError, Face, Plane, Primitive,
    Texture, TextureOffsets,
};
use voxelize::materials::{Aspect, Axis, Block as CatalogEntry, Property, Texturing};
use voxelize::nbt::{Coords, DataVersion, Structure};
use voxelize::transform::{Rotation, Transform, TransformStep};

fn entry(id: &str, texturing: Texturing, part: Option<Aspect>, color: [u8; 3]) -> CatalogEntry {
    CatalogEntry { block_id: id.to_string(), texturing, part, avg_color: color }
}

fn single_texel(px: [u8; 4]) -> Texture {
    Texture::new(1, 1, vec![vec![px]]).unwrap()
}

fn unit_face() -> Face {
    Face { x: 0, y: 0, width: 1, height: 1, transform: Transform::new() }
}

#[test]
fn brush_thickness_at_scale_three() {
    let top = Brush::YPos.make_offsets(3);
    assert_eq!(top.len(), 9);
    assert!(top.iter().all(|o| o.1 == 2));
    let mut expected = vec![];
    for x in 0..3 {
        for z in 0..3 {
            expected.push((x, 2, z));
        }
    }
    assert_eq!(top, expected);

    let full = Brush::Full.make_offsets(3);
    assert_eq!(full.len(), 27);
    let mut cube = vec![];
    for x in 0..3 {
        for y in 0..3 {
            for z in 0..3 {
                cube.push((x, y, z));
            }
        }
    }
    assert_eq!(full, cube);
}

#[test]
fn negative_brush_pins_the_zero_layer() {
    assert_eq!(Brush::XNeg.make_offsets(2), vec![(0, 0, 0), (0, 0, 1), (0, 1, 0), (0, 1, 1)]);
    assert_eq!(Brush::ZPos.make_offsets(1), vec![(0, 0, 0)]);
}

#[test]
fn no_offsets_without_a_positive_scale() {
    assert!(Brush::Full.make_offsets(0).is_empty());
    assert!(Brush::XPos.make_offsets(-4).is_empty());
}

#[test]
fn cuboid_has_six_oriented_faces() {
    let cuboid = Cuboid {
        dimensions: Dimensions3D::from([2, 3, 4]),
        offsets: TextureOffsets {
            top: (1, 2),
            bottom: (3, 4),
            right: (5, 6),
            left: (7, 8),
            front: (9, 10),
            back: (11, 12),
        },
        position: Transform::new(),
    };
    let faces = cuboid.faces();
    assert_eq!(faces.len(), 6);
    let brushes: Vec<Brush> = faces.iter().map(|f| f.1).collect();
    assert_eq!(
        brushes,
        vec![Brush::YPos, Brush::YNeg, Brush::YPos, Brush::YPos, Brush::YPos, Brush::YPos]
    );
    let top = &faces[0].0;
    assert_eq!((top.x, top.y, top.width, top.height), (1, 2, 2, 4));
    assert_eq!(top.transform.steps, vec![TransformStep::Translate { dx: 1, dy: 0, dz: -3 }]);
    let bottom = &faces[1].0;
    assert_eq!((bottom.x, bottom.y, bottom.width, bottom.height), (3, 4, 2, 4));
    assert_eq!(bottom.transform.steps, vec![TransformStep::Translate { dx: 1, dy: -2, dz: -3 }]);
    let back = &faces[2].0;
    assert_eq!((back.x, back.y, back.width, back.height), (11, 12, 2, 3));
    assert_eq!(
        back.transform.steps,
        vec![
            TransformStep::Rotate(Rotation::XPos),
            TransformStep::Rotate(Rotation::YPos),
            TransformStep::Rotate(Rotation::YPos),
            TransformStep::Translate { dx: 2, dy: 0, dz: -3 },
        ]
    );
    let right = &faces[3].0;
    assert_eq!((right.x, right.y, right.width, right.height), (5, 6, 4, 3));
    let left = &faces[4].0;
    assert_eq!((left.x, left.y, left.width, left.height), (7, 8, 4, 3));
    assert_eq!(
        left.transform.steps,
        vec![
            TransformStep::Rotate(Rotation::XPos),
            TransformStep::Rotate(Rotation::YPos),
            TransformStep::Translate { dx: 2, dy: 0, dz: 0 },
        ]
    );
    let front = &faces[5].0;
    assert_eq!((front.x, front.y, front.width, front.height), (9, 10, 2, 3));
    assert_eq!(
        front.transform.steps,
        vec![TransformStep::Rotate(Rotation::XPos), TransformStep::Translate { dx: 1, dy: 0, dz: 0 }]
    );
}

#[test]
fn plane_has_one_full_face() {
    let plane = Plane {
        dimensions: Dimensions2D::from([5, 6]),
        offset: (7, 8),
        position: Transform::new(),
    };
    let (face, brush) = plane.face();
    assert_eq!(brush, Brush::Full);
    assert_eq!((face.x, face.y, face.width, face.height), (7, 8, 5, 6));
    assert!(face.transform.steps.is_empty());
}

#[test]
fn texel_below_alpha_threshold_writes_nothing() {
    let catalog = vec![entry("white_wool", Texturing::Uniform, None, [255, 255, 255])];
    let mut s = Structure::new(DataVersion::Minecraft1_20_1);
    let r = unit_face().draw(
        &mut s,
        &single_texel([255, 255, 255, 127]),
        &catalog,
        &Transform::with_scale(2),
        &Transform::new(),
        Brush::YPos,
    );
    assert_eq!(r, Ok(()));
    assert!(s.blocks.is_empty());
    assert!(s.palette.is_empty());
}

#[test]
fn texel_at_alpha_threshold_paints_its_brush() {
    let catalog = vec![entry("white_wool", Texturing::Uniform, None, [255, 255, 255])];
    let mut s = Structure::new(DataVersion::Minecraft1_20_1);
    let r = unit_face().draw(
        &mut s,
        &single_texel([255, 255, 255, 128]),
        &catalog,
        &Transform::with_scale(2),
        &Transform::new(),
        Brush::YPos,
    );
    assert_eq!(r, Ok(()));
    let positions: Vec<Coords> = s.blocks.iter().map(|b| b.pos).collect();
    assert_eq!(
        positions,
        vec![
            Coords::new(0, 1, 0),
            Coords::new(0, 1, 1),
            Coords::new(1, 1, 0),
            Coords::new(1, 1, 1),
        ]
    );
    assert!(s.blocks.iter().all(|b| b.state == 0));
    assert_eq!(s.palette.len(), 1);
    assert_eq!(s.palette[0].name, "white_wool");
}

#[test]
fn single_red_plane_becomes_one_red_voxel() {
    let catalog = vec![entry("red_wool", Texturing::Uniform, None, [255, 0, 0])];
    let parts = vec![Primitive::Plane(Plane {
        dimensions: Dimensions2D { x: 1, y: 1 },
        offset: (0, 0),
        position: Transform::new(),
    })];
    let mut s = Structure::new(DataVersion::Minecraft1_20_1);
    let r = draw_primitives(&parts, &mut s, 1, &single_texel([255, 0, 0, 255]), &catalog);
    assert_eq!(r, Ok(()));
    assert_eq!(s.blocks.len(), 1);
    assert_eq!(s.blocks[0].pos, Coords::new(0, 0, 0));
    assert_eq!(s.blocks[0].state, 0);
    assert_eq!(s.palette.len(), 1);
    assert_eq!(s.palette[0].name, "red_wool");
    assert_eq!(s.palette[0].property, None);
}

#[test]
fn rows_are_drawn_top_to_bottom_left_to_right() {
    let catalog = vec![
        entry("black", Texturing::Uniform, None, [0, 0, 0]),
        entry("white", Texturing::Uniform, None, [255, 255, 255]),
    ];
    let texture = Texture::new(
        2,
        2,
        vec![
            vec![[255, 255, 255, 255], [0, 0, 0, 255]],
            vec![[0, 0, 0, 0], [255, 255, 255, 255]],
        ],
    )
    .unwrap();
    let face = Face { x: 0, y: 0, width: 2, height: 2, transform: Transform::new() };
    let mut s = Structure::new(DataVersion::Minecraft1_20_1);
    let r = face.draw(&mut s, &texture, &catalog, &Transform::new(), &Transform::new(), Brush::Full);
    assert_eq!(r, Ok(()));
    let placed: Vec<(Coords, i32)> = s.blocks.iter().map(|b| (b.pos, b.state)).collect();
    assert_eq!(
        placed,
        vec![(Coords::new(0, 0, 0), 0), (Coords::new(1, 0, 0), 1), (Coords::new(1, 0, 1), 0)]
    );
    assert_eq!(s.palette[0].name, "white");
    assert_eq!(s.palette[1].name, "black");
}

#[test]
fn normal_of_a_face_selects_the_axis_property() {
    let catalog = vec![entry("oak_log", Texturing::Axis, Some(Aspect::Top), [100, 80, 50])];
    let mut s = Structure::new(DataVersion::Minecraft1_20_1);
    let standing = Transform::new().rotate(Rotation::XPos);
    let r = unit_face().draw(
        &mut s,
        &single_texel([100, 80, 50, 255]),
        &catalog,
        &Transform::new(),
        &standing,
        Brush::YPos,
    );
    assert_eq!(r, Ok(()));
    assert_eq!(s.palette[0].property, Some(Property::Axis(Axis::Z)));
}

#[test]
fn face_outside_the_texture_is_refused() {
    let catalog = vec![entry("red_wool", Texturing::Uniform, None, [255, 0, 0])];
    let face = Face { x: 1, y: 0, width: 1, height: 1, transform: Transform::new() };
    let mut s = Structure::new(DataVersion::Minecraft1_20_1);
    let r = face.draw(
        &mut s,
        &single_texel([255, 0, 0, 255]),
        &catalog,
        &Transform::new(),
        &Transform::new(),
        Brush::Full,
    );
    assert_eq!(r, Err(DrawError::OutOfBounds));
    assert!(s.blocks.is_empty());
}

#[test]
fn coordinates_past_i32_are_refused() {
    let catalog = vec![entry("red_wool", Texturing::Uniform, None, [255, 0, 0])];
    let mut s = Structure::new(DataVersion::Minecraft1_20_1);
    let far = Transform::new().translate(i32::MAX, 0, 0);
    let r = unit_face().draw(
        &mut s,
        &single_texel([255, 0, 0, 255]),
        &catalog,
        &Transform::with_scale(2),
        &far,
        Brush::Full,
    );
    assert_eq!(r, Err(DrawError::Overflow));
    assert!(s.blocks.is_empty());
}

#[test]
fn scale_past_i32_is_refused() {
    let parts = vec![Primitive::Plane(Plane {
        dimensions: Dimensions2D { x: 1, y: 1 },
        offset: (0, 0),
        position: Transform::new(),
    })];
    let mut s = Structure::new(DataVersion::Minecraft1_20_1);
    let r = draw_primitives(&parts, &mut s, u32::MAX, &single_texel([1, 2, 3, 255]), &vec![]);
    assert_eq!(r, Err(DrawError::Overflow));
    assert!(s.blocks.is_empty());
}

#[test]
fn empty_catalog_places_air() {
    let parts = vec![Primitive::Cuboid(Cuboid {
        dimensions: Dimensions3D { x: 1, y: 1, z: 1 },
        offsets: TextureOffsets {
            top: (0, 0),
            bottom: (0, 0),
            right: (0, 0),
            left: (0, 0),
            front: (0, 0),
            back: (0, 0),
        },
        position: Transform::new(),
    })];
    let mut s = Structure::new(DataVersion::Minecraft1_20_1);
    let r = draw_primitives(&parts, &mut s, 1, &single_texel([9, 9, 9, 255]), &vec![]);
    assert_eq!(r, Ok(()));
    assert_eq!(s.palette.len(), 1);
    assert_eq!(s.palette[0].name, "air");
    assert!(!s.blocks.is_empty());
}

#[test]
fn texture_shape_is_checked() {
    assert!(Texture::new(2, 1, vec![vec![[0, 0, 0, 0]]]).is_none());
    assert!(Texture::new(1, 2, vec![vec![[0, 0, 0, 0]]]).is_none());
    assert!(Texture::new(1, 1, vec![vec![[0, 0, 0, 0]]]).is_some());
}
