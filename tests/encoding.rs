use voxelize::materials::{Aspect, Axis, Property};
use voxelize::nbt::{Coords, DataVersion, Palette, Structure, Tag};

fn bytes_of(tag: &Tag, name: &str) -> Vec<u8> {
    let mut data = vec![];
    tag.serialize(name, &mut data);
    data
}

#[test]
fn integers_are_big_endian() {
    assert_eq!(bytes_of(&Tag::Int(1), "a"), vec![3, 0, 1, b'a', 0, 0, 0, 1]);
    assert_eq!(bytes_of(&Tag::Short(-2), ""), vec![2, 0, 0, 0xFF, 0xFE]);
    assert_eq!(bytes_of(&Tag::Byte(-1), ""), vec![1, 0, 0, 0xFF]);
    assert_eq!(
        bytes_of(&Tag::Long(-1), ""),
        vec![4, 0, 0, 0xFF, 0xFF, 0xFF, 0xFF, 0xFF, 0xFF, 0xFF, 0xFF]
    );
    assert_eq!(
        bytes_of(&Tag::Long(0x0102_0304_0506_0708), ""),
        vec![4, 0, 0, 1, 2, 3, 4, 5, 6, 7, 8]
    );
    assert_eq!(bytes_of(&Tag::Int(0x1234_5678), ""), vec![3, 0, 0, 0x12, 0x34, 0x56, 0x78]);
}

#[test]
fn strings_carry_their_utf8_length() {
    let mut data = vec![];
    Tag::String("h\u{e9}".to_string()).raw_serialize(&mut data);
    assert_eq!(data, vec![0, 3, b'h', 0xC3, 0xA9]);
}

#[test]
fn lists_carry_element_type_and_length() {
    let mut data = vec![];
    Tag::List(vec![Tag::Int(7), Tag::Int(-1)]).raw_serialize(&mut data);
    assert_eq!(data, vec![3, 0, 0, 0, 2, 0, 0, 0, 7, 0xFF, 0xFF, 0xFF, 0xFF]);
    let mut empty = vec![];
    Tag::List(vec![]).raw_serialize(&mut empty);
    assert_eq!(empty, vec![0, 0, 0, 0, 0]);
}

#[test]
fn compounds_end_with_a_zero_byte() {
    let tag = Tag::Compound(vec![("x".to_string(), Tag::Byte(5)), ("".to_string(), Tag::End)]);
    let mut data = vec![];
    tag.raw_serialize(&mut data);
    assert_eq!(data, vec![1, 0, 1, b'x', 5, 0, 0, 0, 0]);
}

#[test]
fn arrays_carry_their_length() {
    let mut data = vec![];
    Tag::ByteArray(vec![1, -1]).raw_serialize(&mut data);
    assert_eq!(data, vec![0, 0, 0, 2, 1, 0xFF]);
    let mut ints = vec![];
    Tag::IntArray(vec![1]).raw_serialize(&mut ints);
    assert_eq!(ints, vec![0, 0, 0, 1, 0, 0, 0, 1]);
    let mut longs = vec![];
    Tag::LongArray(vec![2]).raw_serialize(&mut longs);
    assert_eq!(longs, vec![0, 0, 0, 1, 0, 0, 0, 0, 0, 0, 0, 2]);
}

#[test]
fn tag_ids() {
    assert_eq!(Tag::End.id(), 0);
    assert_eq!(Tag::String(String::new()).id(), 8);
    assert_eq!(Tag::List(vec![]).id(), 9);
    assert_eq!(Tag::Compound(vec![]).id(), 10);
    assert_eq!(Tag::LongArray(vec![]).id(), 12);
}

#[test]
fn palette_entry_tree() {
    let tag = Palette::new("oak_log").with_property(Property::Axis(Axis::Z)).to_nbt();
    let mut data = vec![];
    tag.raw_serialize(&mut data);
    let mut expected = vec![8, 0, 4];
    expected.extend_from_slice(b"Name");
    expected.extend_from_slice(&[0, 7]);
    expected.extend_from_slice(b"oak_log");
    expected.extend_from_slice(&[10, 0, 10]);
    expected.extend_from_slice(b"Properties");
    expected.extend_from_slice(&[8, 0, 4]);
    expected.extend_from_slice(b"axis");
    expected.extend_from_slice(&[0, 1, b'z', 0, 0]);
    assert_eq!(data, expected);
}

#[test]
fn structure_file_layout() {
    let mut s = Structure::new(DataVersion::Minecraft1_20_1);
    s.set((0, 0, 0), Palette::new("a"));
    assert_eq!(s.normalize(), Ok(()));
    let bytes = s.encode();
    let mut expected = vec![10, 0, 0];
    expected.extend_from_slice(&[3, 0, 11]);
    expected.extend_from_slice(b"DataVersion");
    expected.extend_from_slice(&3465i32.to_be_bytes());
    expected.extend_from_slice(&[9, 0, 4]);
    expected.extend_from_slice(b"size");
    expected.extend_from_slice(&[3, 0, 0, 0, 3, 0, 0, 0, 1, 0, 0, 0, 1, 0, 0, 0, 1]);
    expected.extend_from_slice(&[9, 0, 7]);
    expected.extend_from_slice(b"palette");
    expected.extend_from_slice(&[10, 0, 0, 0, 1]);
    expected.extend_from_slice(&[8, 0, 4]);
    expected.extend_from_slice(b"Name");
    expected.extend_from_slice(&[0, 1, b'a']);
    expected.extend_from_slice(&[10, 0, 10]);
    expected.extend_from_slice(b"Properties");
    expected.extend_from_slice(&[0, 0]);
    expected.extend_from_slice(&[9, 0, 6]);
    expected.extend_from_slice(b"blocks");
    expected.extend_from_slice(&[10, 0, 0, 0, 1]);
    expected.extend_from_slice(&[3, 0, 5]);
    expected.extend_from_slice(b"state");
    expected.extend_from_slice(&[0, 0, 0, 0]);
    expected.extend_from_slice(&[9, 0, 3]);
    expected.extend_from_slice(b"pos");
    expected.extend_from_slice(&[3, 0, 0, 0, 3, 0, 0, 0, 0, 0, 0, 0, 0, 0, 0, 0, 0]);
    expected.extend_from_slice(&[0, 0]);
    assert_eq!(bytes, expected);
}

#[test]
fn coords_tree() {
    let mut data = vec![];
    Coords::new(1, -1, 2).to_nbt().raw_serialize(&mut data);
    assert_eq!(data, vec![3, 0, 0, 0, 3, 0, 0, 0, 1, 0xFF, 0xFF, 0xFF, 0xFF, 0, 0, 0, 2]);
}

#[test]
fn aspect_names() {
    assert_eq!(Aspect::from_name(""), Aspect::Unnamed);
    assert_eq!(Aspect::from_name("top"), Aspect::Top);
    assert_eq!(Aspect::from_name("side"), Aspect::Side);
    assert_eq!(Aspect::from_name("front"), Aspect::Front);
    assert_eq!(Aspect::from_name("lid"), Aspect::Other);
}
