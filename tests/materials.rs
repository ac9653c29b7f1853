use voxelize::materials::{
    find_closest, Aspect, Axis, Block, Direction, Facing, Orient, Property, Texturing,
};

fn entry(id: &str, texturing: Texturing, part: Option<Aspect>, color: [u8; 3]) -> Block {
    Block { block_id: id.to_string(), texturing, part, avg_color: color }
}

#[test]
fn unit_vectors_give_directions() {
    assert_eq!(Direction::from_unit((0, 5, 0)), Ok(Direction::PosY));
    assert_eq!(Direction::from_unit((-3, 0, 0)), Ok(Direction::NegX));
    assert_eq!(Direction::from_unit((0, 0, -1)), Ok(Direction::NegZ));
    assert_eq!(Direction::from_unit((1, 0, 0)), Ok(Direction::PosX));
    assert_eq!(Direction::from_unit((0, -2, 0)), Ok(Direction::NegY));
    assert_eq!(Direction::from_unit((0, 0, 7)), Ok(Direction::PosZ));
}

#[test]
fn other_vectors_give_no_direction() {
    assert_eq!(Direction::from_unit((1, 1, 0)), Err(()));
    assert_eq!(Direction::from_unit((0, 0, 0)), Err(()));
}

#[test]
fn axis_table() {
    let top = entry("log", Texturing::Axis, Some(Aspect::Top), [0, 0, 0]);
    let side = entry("log", Texturing::Axis, Some(Aspect::Side), [0, 0, 0]);
    let unnamed = entry("log", Texturing::Axis, Some(Aspect::Unnamed), [0, 0, 0]);
    let x = Orient::with(Property::Axis(Axis::X));
    let y = Orient::with(Property::Axis(Axis::Y));
    let z = Orient::with(Property::Axis(Axis::Z));
    assert_eq!(top.try_orient(Texturing::Axis, Direction::NegX), Some(x));
    assert_eq!(top.try_orient(Texturing::Axis, Direction::PosY), Some(y));
    assert_eq!(top.try_orient(Texturing::Axis, Direction::NegZ), Some(z));
    assert_eq!(side.try_orient(Texturing::Axis, Direction::PosX), Some(z));
    assert_eq!(side.try_orient(Texturing::Axis, Direction::NegY), Some(x));
    assert_eq!(unnamed.try_orient(Texturing::Axis, Direction::PosZ), Some(x));
}

#[test]
fn facing_tables() {
    let front4 = entry("furnace", Texturing::Facing4, Some(Aspect::Front), [0, 0, 0]);
    let side4 = entry("furnace", Texturing::Facing4, Some(Aspect::Side), [0, 0, 0]);
    let top4 = entry("furnace", Texturing::Facing4, Some(Aspect::Top), [0, 0, 0]);
    let bottom4 = entry("furnace", Texturing::Facing4, Some(Aspect::Bottom), [0, 0, 0]);
    let facing = |f| Some(Orient::with(Property::Facing(f)));
    assert_eq!(front4.try_orient(Texturing::Facing4, Direction::NegZ), facing(Facing::North));
    assert_eq!(front4.try_orient(Texturing::Facing4, Direction::PosX), facing(Facing::East));
    assert_eq!(front4.try_orient(Texturing::Facing4, Direction::PosY), None);
    assert_eq!(side4.try_orient(Texturing::Facing4, Direction::PosZ), facing(Facing::North));
    assert_eq!(side4.try_orient(Texturing::Facing4, Direction::PosX), facing(Facing::West));
    assert_eq!(top4.try_orient(Texturing::Facing4, Direction::PosY), Some(Orient::AsIs));
    assert_eq!(top4.try_orient(Texturing::Facing4, Direction::NegY), None);
    assert_eq!(bottom4.try_orient(Texturing::Facing4, Direction::NegY), Some(Orient::AsIs));

    let front6 = entry("observer", Texturing::Facing6, Some(Aspect::Front), [0, 0, 0]);
    let back6 = entry("observer", Texturing::Facing6, Some(Aspect::Back), [0, 0, 0]);
    assert_eq!(front6.try_orient(Texturing::Facing6, Direction::PosY), facing(Facing::Up));
    assert_eq!(back6.try_orient(Texturing::Facing6, Direction::PosY), facing(Facing::Down));
    assert_eq!(front6.try_orient(Texturing::Facing6, Direction::NegX), facing(Facing::West));
    assert_eq!(back6.try_orient(Texturing::Facing6, Direction::NegX), facing(Facing::East));
}

#[test]
fn upright_and_uniform_tables() {
    let top = entry("pillar", Texturing::Upright, Some(Aspect::Top), [0, 0, 0]);
    let side = entry("pillar", Texturing::Upright, Some(Aspect::Side), [0, 0, 0]);
    assert_eq!(top.try_orient(Texturing::Upright, Direction::NegY), Some(Orient::AsIs));
    assert_eq!(top.try_orient(Texturing::Upright, Direction::PosX), None);
    assert_eq!(side.try_orient(Texturing::Upright, Direction::NegZ), Some(Orient::AsIs));
    assert_eq!(side.try_orient(Texturing::Upright, Direction::PosY), None);
    let plain = entry("stone", Texturing::Uniform, None, [0, 0, 0]);
    assert_eq!(plain.try_orient(Texturing::Uniform, Direction::NegZ), Some(Orient::AsIs));
    let unnamed = entry("log", Texturing::Axis, None, [0, 0, 0]);
    assert_eq!(unnamed.try_orient(Texturing::Axis, Direction::PosY), None);
    let other = entry("log", Texturing::Axis, Some(Aspect::Other), [0, 0, 0]);
    assert_eq!(other.try_orient(Texturing::Axis, Direction::PosY), None);
}

#[test]
fn distance_is_squared_euclidean() {
    let b = entry("x", Texturing::Uniform, None, [10, 20, 30]);
    assert_eq!(b.distance(&[13, 24, 30, 255]), 25);
    let far = entry("x", Texturing::Uniform, None, [0, 0, 0]);
    assert_eq!(far.distance(&[255, 255, 255]), 3 * 255 * 255);
}

#[test]
fn tie_goes_to_the_earlier_candidate() {
    let catalog = vec![
        entry("first", Texturing::Uniform, None, [10, 0, 0]),
        entry("second", Texturing::Uniform, None, [0, 10, 0]),
    ];
    let p = find_closest(&catalog, &[0, 0, 0, 255], Direction::PosY);
    assert_eq!(p.name, "first");
    let swapped = vec![
        entry("second", Texturing::Uniform, None, [0, 10, 0]),
        entry("first", Texturing::Uniform, None, [10, 0, 0]),
    ];
    assert_eq!(find_closest(&swapped, &[0, 0, 0, 255], Direction::PosY).name, "second");
}

#[test]
fn closest_legal_candidate_wins() {
    let catalog = vec![
        entry("far", Texturing::Uniform, None, [200, 200, 200]),
        entry("near_but_wrong_side", Texturing::Facing4, Some(Aspect::Top), [10, 10, 10]),
        entry("near", Texturing::Facing6, Some(Aspect::Front), [12, 12, 12]),
    ];
    let p = find_closest(&catalog, &[10, 10, 10, 255], Direction::PosZ);
    assert_eq!(p.name, "near");
    assert_eq!(p.property, Some(Property::Facing(Facing::South)));
    let q = find_closest(&catalog, &[10, 10, 10, 255], Direction::PosY);
    assert_eq!(q.name, "near_but_wrong_side");
    assert_eq!(q.property, None);
}

#[test]
fn no_legal_candidate_gives_air() {
    assert_eq!(find_closest(&vec![], &[1, 2, 3], Direction::PosX).name, "air");
    let catalog = vec![entry("grass", Texturing::Facing4, Some(Aspect::Top), [0, 255, 0])];
    let p = find_closest(&catalog, &[0, 255, 0], Direction::NegX);
    assert_eq!(p.name, "air");
    assert_eq!(p.property, None);
}
