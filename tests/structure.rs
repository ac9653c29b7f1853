use voxelize::materials::{Axis, Property};
use voxelize::nbt::{Block, Coords, DataVersion, NormalizeError, Palette, Structure};

fn positions(s: &Structure) -> Vec<Coords> {
    s.blocks.iter().map(|b| b.pos).collect()
}

#[test]
fn palette_keeps_first_seen_order_without_duplicates() {
    let mut s = Structure::new(DataVersion::Minecraft1_20_1);
    s.set((0, 0, 0), Palette::new("stone"));
    s.set((1, 0, 0), Palette::new("dirt"));
    s.set((2, 0, 0), Palette::new("stone"));
    s.set((3, 0, 0), Palette::new("stone").with_property(Property::Axis(Axis::X)));
    let names: Vec<&str> = s.palette.iter().map(|p| p.name.as_str()).collect();
    assert_eq!(names, vec!["stone", "dirt", "stone"]);
    assert_eq!(s.palette[2].property, Some(Property::Axis(Axis::X)));
    let states: Vec<i32> = s.blocks.iter().map(|b| b.state).collect();
    assert_eq!(states, vec![0, 1, 0, 2]);
}

#[test]
fn writing_a_position_again_replaces_its_block() {
    let mut s = Structure::new(DataVersion::Minecraft1_20_1);
    s.set_block(Coords::new(1, 2, 3), Palette::new("stone"));
    s.set_block(Coords::new(4, 5, 6), Palette::new("stone"));
    s.set_block(Coords::new(1, 2, 3), Palette::new("glass"));
    assert_eq!(s.blocks.len(), 2);
    assert_eq!(s.blocks[0], Block { state: 1, pos: Coords::new(1, 2, 3) });
    assert_eq!(s.blocks[1], Block { state: 0, pos: Coords::new(4, 5, 6) });
    assert_eq!(s.palette.len(), 2);
}

#[test]
fn normalization_recenters_and_sizes() {
    let mut s = Structure::new(DataVersion::Minecraft1_20_1);
    s.set((-2, 0, 1), Palette::new("stone"));
    s.set((3, 5, -1), Palette::new("stone"));
    assert_eq!(s.normalize(), Ok(()));
    assert_eq!(s.size, Coords::new(6, 6, 3));
    assert_eq!(positions(&s), vec![Coords::new(0, 0, 2), Coords::new(5, 5, 0)]);
}

#[test]
fn normalizing_an_empty_structure_fails() {
    let mut s = Structure::new(DataVersion::Minecraft1_20_1);
    assert_eq!(s.normalize(), Err(NormalizeError::Empty));
    assert_eq!(s.size, Coords::new(0, 0, 0));
}

#[test]
fn normalizing_too_wide_a_structure_fails() {
    let mut s = Structure::new(DataVersion::Minecraft1_20_1);
    s.set((i32::MIN, 0, 0), Palette::new("stone"));
    s.set((i32::MAX, 0, 0), Palette::new("stone"));
    assert_eq!(s.normalize(), Err(NormalizeError::TooLarge));
    assert_eq!(positions(&s), vec![Coords::new(i32::MIN, 0, 0), Coords::new(i32::MAX, 0, 0)]);
}

#[test]
fn single_block_normalizes_to_origin() {
    let mut s = Structure::new(DataVersion::Minecraft1_20_6);
    s.set((7, -8, 9), Palette::new("stone"));
    assert_eq!(s.normalize(), Ok(()));
    assert_eq!(s.size, Coords::new(1, 1, 1));
    assert_eq!(positions(&s), vec![Coords::new(0, 0, 0)]);
}

#[test]
fn data_version_numbers() {
    assert_eq!(DataVersion::Minecraft1_20_1.number(), 3465);
    assert_eq!(DataVersion::Minecraft1_20_4.number(), 3700);
    assert_eq!(DataVersion::Minecraft1_20_6.number(), 3839);
}

#[test]
fn coords_from_a_tuple() {
    assert_eq!(Coords::from((1, -2, 3)), Coords::new(1, -2, 3));
}

#[test]
fn palette_entries_compare_by_name_and_property() {
    let a = Palette::new("log").with_property(Property::Axis(Axis::Y));
    let b = Palette::new("log").with_property(Property::Axis(Axis::Y));
    let c = Palette::new("log");
    assert!(a.same_as(&b));
    assert!(!a.same_as(&c));
    assert!(a.duplicate().same_as(&a));
}
