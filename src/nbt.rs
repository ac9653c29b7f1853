use vstd::prelude::*;

use crate::materials::{property_name, property_value, Property};
use vstd::utf8::encode_utf8;

verus! {

/// A lattice position.
#[derive(Clone, Copy, PartialEq, Eq, Structural, Debug)]
pub struct Coords {
    pub x: i32,
    pub y: i32,
    pub z: i32,
}

impl Coords {
    pub fn new(x: i32, y: i32, z: i32) -> (r: Self)
        ensures
            r == (Coords { x, y, z }),
    {
        Coords { x, y, z }
    }
}

impl From<(i32, i32, i32)> for Coords {
    fn from(value: (i32, i32, i32)) -> (r: Self) {
        Coords { x: value.0, y: value.1, z: value.2 }
    }
}

impl vstd::std_specs::convert::FromSpecImpl<(i32, i32, i32)> for Coords {
    open spec fn obeys_from_spec() -> bool {
        true
    }

    open spec fn from_spec(v: (i32, i32, i32)) -> Coords {
        Coords { x: v.0, y: v.1, z: v.2 }
    }
}

/// A material as stored in a structure's palette: a block identity and at
/// most one orientation property.
#[derive(Clone, Debug)]
pub struct Palette {
    pub name: String,
    pub property: Option<Property>,
}

/// What a palette entry is: its name and its property.
pub type PaletteView = (Seq<char>, Option<Property>);

impl View for Palette {
    type V = PaletteView;

    open spec fn view(&self) -> PaletteView {
        (self.name@, self.property)
    }
}

impl Palette {
    pub fn new(name: &str) -> (r: Self)
        ensures
            r@ == (name@, None::<Property>),
    {
        Palette { name: name.to_owned(), property: None }
    }

    /// Sets the orientation property, replacing any earlier one.
    pub fn with_property(self, property: Property) -> (r: Self)
        ensures
            r@ == (self@.0, Some(property)),
    {
        Palette { name: self.name, property: Some(property) }
    }

    /// A copy with the same name and property.
    pub fn duplicate(&self) -> (r: Self)
        ensures
            r@ == self@,
    {
        Palette { name: self.name.clone(), property: self.property }
    }

    /// Whether two entries name the same material.
    pub fn same_as(&self, other: &Palette) -> (r: bool)
        ensures
            r == (self@ == other@),
    {
        let same_property = match (self.property, other.property) {
            (None, None) => true,
            (Some(a), Some(b)) => a == b,
            _ => false,
        };
        same_property && self.name == other.name
    }
}

/// One placed voxel: an index into the palette and a position.
#[derive(Clone, Copy, PartialEq, Eq, Structural, Debug)]
pub struct Block {
    pub state: i32,
    pub pos: Coords,
}

/// The game version whose structure format is written.
#[derive(Clone, Copy, PartialEq, Eq, Structural, Debug)]
pub enum DataVersion {
    Minecraft1_20_1,
    Minecraft1_20_2,
    Minecraft1_20_3,
    Minecraft1_20_4,
    Minecraft1_20_5,
    Minecraft1_20_6,
}

pub open spec fn data_version_number(v: DataVersion) -> i32 {
    match v {
        DataVersion::Minecraft1_20_1 => 3465,
        DataVersion::Minecraft1_20_2 => 3578,
        DataVersion::Minecraft1_20_3 => 3698,
        DataVersion::Minecraft1_20_4 => 3700,
        DataVersion::Minecraft1_20_5 => 3837,
        DataVersion::Minecraft1_20_6 => 3839,
    }
}

impl DataVersion {
    /// The number that the format stores for this version.
    pub fn number(&self) -> (r: i32)
        ensures
            r == data_version_number(*self),
    {
        match self {
            DataVersion::Minecraft1_20_1 => 3465,
            DataVersion::Minecraft1_20_2 => 3578,
            DataVersion::Minecraft1_20_3 => 3698,
            DataVersion::Minecraft1_20_4 => 3700,
            DataVersion::Minecraft1_20_5 => 3837,
            DataVersion::Minecraft1_20_6 => 3839,
        }
    }
}

/// A value of the structure file's tag tree. Compound entries keep their
/// order.
#[derive(Debug)]
pub enum Tag {
    End,
    Byte(i8),
    Short(i16),
    Int(i32),
    Long(i64),
    ByteArray(Vec<i8>),
    String(String),
    List(Vec<Tag>),
    Compound(Vec<(String, Tag)>),
    IntArray(Vec<i32>),
    LongArray(Vec<i64>),
}

pub open spec fn tag_id(t: Tag) -> u8 {
    match t {
        Tag::End => 0,
        Tag::Byte(_) => 1,
        Tag::Short(_) => 2,
        Tag::Int(_) => 3,
        Tag::Long(_) => 4,
        Tag::ByteArray(_) => 7,
        Tag::String(_) => 8,
        Tag::List(_) => 9,
        Tag::Compound(_) => 10,
        Tag::IntArray(_) => 11,
        Tag::LongArray(_) => 12,
    }
}

/// Two bytes, most significant first, of `u` modulo 2^16.
pub open spec fn be16(u: int) -> Seq<u8> {
    seq![(u / 0x100 % 0x100) as u8, (u % 0x100) as u8]
}

/// Four bytes, most significant first, of `u` modulo 2^32.
pub open spec fn be32(u: int) -> Seq<u8> {
    seq![
        (u / 0x100_0000 % 0x100) as u8,
        (u / 0x1_0000 % 0x100) as u8,
        (u / 0x100 % 0x100) as u8,
        (u % 0x100) as u8,
    ]
}

/// Eight bytes, most significant first, of `u` modulo 2^64.
pub open spec fn be64(u: int) -> Seq<u8> {
    be32(u / 0x1_0000_0000) + be32(u % 0x1_0000_0000)
}

/// The two's-complement bit pattern of `v`, for a width of `modulus` values,
/// as a natural number.
pub open spec fn unsigned(v: int, modulus: int) -> int {
    if v < 0 {
        v + modulus
    } else {
        v
    }
}

/// A string as stored: its UTF-8 length in two bytes, then its UTF-8 bytes.
pub open spec fn string_bytes(s: Seq<char>) -> Seq<u8> {
    be16(encode_utf8(s).len() as int) + encode_utf8(s)
}

/// A tag with its header: the type id, then the name as a string.
pub open spec fn named_bytes(id: u8, name: Seq<char>, payload: Seq<u8>) -> Seq<u8> {
    seq![id] + string_bytes(name) + payload
}

/// What a tag writes after its header.
pub open spec fn payload(t: Tag) -> Seq<u8>
    decreases t, 0int,
{
    match t {
        Tag::End => Seq::empty(),
        Tag::Byte(v) => seq![unsigned(v as int, 0x100) as u8],
        Tag::Short(v) => be16(unsigned(v as int, 0x1_0000)),
        Tag::Int(v) => be32(unsigned(v as int, 0x1_0000_0000)),
        Tag::Long(v) => be64(unsigned(v as int, 0x1_0000_0000_0000_0000)),
        Tag::ByteArray(v) => be32(v@.len() as int) + v@.map_values(
            |b: i8| unsigned(b as int, 0x100) as u8,
        ),
        Tag::String(s) => string_bytes(s@),
        Tag::List(v) => seq![
            if v@.len() == 0 {
                0u8
            } else {
                tag_id(v@[0])
            },
        ] + be32(v@.len() as int) + list_payload(v, v@.len() as int),
        Tag::Compound(v) => compound_payload(v, v@.len() as int) + seq![0u8],
        Tag::IntArray(v) => be32(v@.len() as int) + int_array_bytes(v@),
        Tag::LongArray(v) => be32(v@.len() as int) + long_array_bytes(v@),
    }
}

/// The payloads of the first `n` elements of a list, one after another.
pub open spec fn list_payload(v: Vec<Tag>, n: int) -> Seq<u8>
    decreases v, n,
{
    if n <= 0 || n > v@.len() {
        Seq::empty()
    } else {
        list_payload(v, n - 1) + payload(v@[n - 1])
    }
}

/// The first `n` entries of a compound, each written with its header.
pub open spec fn compound_payload(v: Vec<(String, Tag)>, n: int) -> Seq<u8>
    decreases v, n,
{
    if n <= 0 || n > v@.len() {
        Seq::empty()
    } else {
        compound_payload(v, n - 1) + named_bytes(
            tag_id(v@[n - 1].1),
            v@[n - 1].0@,
            payload(v@[n - 1].1),
        )
    }
}

pub open spec fn int_array_bytes(v: Seq<i32>) -> Seq<u8>
    decreases v.len(),
{
    if v.len() == 0 {
        Seq::empty()
    } else {
        int_array_bytes(v.drop_last()) + be32(unsigned(v.last() as int, 0x1_0000_0000))
    }
}

pub open spec fn long_array_bytes(v: Seq<i64>) -> Seq<u8>
    decreases v.len(),
{
    if v.len() == 0 {
        Seq::empty()
    } else {
        long_array_bytes(v.drop_last()) + be64(unsigned(v.last() as int, 0x1_0000_0000_0000_0000))
    }
}

fn push_be16(data: &mut Vec<u8>, u: u64)
    ensures
        final(data)@ == old(data)@ + be16(u as int),
{
    data.push(((u / 0x100) % 0x100) as u8);
    data.push((u % 0x100) as u8);
    proof {
        assert(final(data)@ =~= old(data)@ + be16(u as int));
    }
}

fn push_be32(data: &mut Vec<u8>, u: u64)
    ensures
        final(data)@ == old(data)@ + be32(u as int),
{
    data.push(((u / 0x100_0000) % 0x100) as u8);
    data.push(((u / 0x1_0000) % 0x100) as u8);
    data.push(((u / 0x100) % 0x100) as u8);
    data.push((u % 0x100) as u8);
    proof {
        assert(final(data)@ =~= old(data)@ + be32(u as int));
    }
}

fn push_be64(data: &mut Vec<u8>, u: u128)
    requires
        u < 0x1_0000_0000_0000_0000,
    ensures
        final(data)@ == old(data)@ + be64(u as int),
{
    push_be32(data, (u / 0x1_0000_0000) as u64);
    push_be32(data, (u % 0x1_0000_0000) as u64);
    proof {
        assert(final(data)@ =~= old(data)@ + be64(u as int));
    }
}

/// Appends a string as stored: its UTF-8 length, then its UTF-8 bytes.
fn push_string(data: &mut Vec<u8>, s: &str)
    ensures
        final(data)@ == old(data)@ + string_bytes(s@),
{
    let bytes = s.as_bytes();
    push_be16(data, bytes.len() as u64);
    let ghost start = data@;
    let mut i: usize = 0;
    while i < bytes.len()
        invariant
            i <= bytes@.len(),
            bytes@ == encode_utf8(s@),
            data@ == start + bytes@.take(i as int),
        decreases bytes@.len() - i,
    {
        data.push(bytes[i]);
        i = i + 1;
        proof {
            assert(bytes@.take(i as int) =~= bytes@.take(i - 1).push(bytes@[i - 1]));
        }
    }
    proof {
        assert(bytes@.take(i as int) =~= bytes@);
        assert(data@ =~= old(data)@ + string_bytes(s@));
    }
}

impl Tag {
    /// The type id written before the tag.
    pub fn id(&self) -> (r: u8)
        ensures
            r == tag_id(*self),
    {
        match self {
            Tag::End => 0,
            Tag::Byte(_) => 1,
            Tag::Short(_) => 2,
            Tag::Int(_) => 3,
            Tag::Long(_) => 4,
            Tag::ByteArray(_) => 7,
            Tag::String(_) => 8,
            Tag::List(_) => 9,
            Tag::Compound(_) => 10,
            Tag::IntArray(_) => 11,
            Tag::LongArray(_) => 12,
        }
    }

    /// Appends the tag with its header: the type id, the name, then the payload.
    pub fn serialize(&self, name: &str, data: &mut Vec<u8>)
        ensures
            final(data)@ == old(data)@ + named_bytes(tag_id(*self), name@, payload(*self)),
        decreases self, 1int,
    {
        data.push(self.id());
        push_string(data, name);
        self.raw_serialize(data);
        proof {
            assert(final(data)@ =~= old(data)@ + named_bytes(tag_id(*self), name@, payload(*self)));
        }
    }

    /// Appends the payload of the tag, without a header. A list writes the
    /// type id of its first element, or 0 when it is empty.
    pub fn raw_serialize(&self, data: &mut Vec<u8>)
        ensures
            final(data)@ == old(data)@ + payload(*self),
        decreases self, 0int,
    {
        let ghost start = data@;
        match self {
            Tag::End => {
                assert(data@ =~= start + payload(*self));
            },
            Tag::Byte(v) => {
                let u: u8 = if *v < 0 {
                    (*v as i16 + 0x100) as u8
                } else {
                    *v as u8
                };
                data.push(u);
                assert(data@ =~= start + payload(*self));
            },
            Tag::Short(v) => {
                let u: u64 = if *v < 0 {
                    (*v as i64 + 0x1_0000) as u64
                } else {
                    *v as u64
                };
                push_be16(data, u);
            },
            Tag::Int(v) => {
                let u: u64 = if *v < 0 {
                    (*v as i64 + 0x1_0000_0000) as u64
                } else {
                    *v as u64
                };
                push_be32(data, u);
            },
            Tag::Long(v) => {
                let u: u128 = if *v < 0 {
                    (*v as i128 + 0x1_0000_0000_0000_0000) as u128
                } else {
                    *v as u128
                };
                push_be64(data, u);
            },
            Tag::ByteArray(v) => {
                push_be32(data, v.len() as u64);
                let ghost mid = data@;
                let mut i: usize = 0;
                while i < v.len()
                    invariant
                        i <= v@.len(),
                        data@ == mid + v@.take(i as int).map_values(
                            |b: i8| unsigned(b as int, 0x100) as u8,
                        ),
                    decreases v@.len() - i,
                {
                    let b = v[i];
                    let u: u8 = if b < 0 {
                        (b as i16 + 0x100) as u8
                    } else {
                        b as u8
                    };
                    data.push(u);
                    i = i + 1;
                    proof {
                        assert(v@.take(i as int).map_values(|b: i8| unsigned(b as int, 0x100) as u8)
                            =~= v@.take(i - 1).map_values(
                            |b: i8| unsigned(b as int, 0x100) as u8,
                        ).push(u));
                    }
                }
                proof {
                    assert(v@.take(i as int) =~= v@);
                    assert(data@ =~= start + payload(*self));
                }
            },
            Tag::String(s) => {
                push_string(data, s.as_str());
            },
            Tag::List(v) => {
                let first: u8 = if v.len() == 0 {
                    0
                } else {
                    v[0].id()
                };
                data.push(first);
                push_be32(data, v.len() as u64);
                let ghost mid = data@;
                let mut i: usize = 0;
                while i < v.len()
                    invariant
                        i <= v@.len(),
                        data@ == mid + list_payload(*v, i as int),
                        *self == Tag::List(*v),
                    decreases v@.len() - i,
                {
                    proof {
                        vstd::std_specs::vec::axiom_vec_index_decreases(*v, i as int);
                        assert(decreases_to!(*self => (*self)->List_0));
                        assert(decreases_to!(*self => v[i as int]));
                    }
                    v[i].raw_serialize(data);
                    i = i + 1;
                }
                proof {
                    assert(data@ =~= start + payload(*self));
                }
            },
            Tag::Compound(v) => {
                let ghost mid = data@;
                let mut i: usize = 0;
                while i < v.len()
                    invariant
                        i <= v@.len(),
                        data@ == mid + compound_payload(*v, i as int),
                        *self == Tag::Compound(*v),
                    decreases v@.len() - i,
                {
                    proof {
                        vstd::std_specs::vec::axiom_vec_index_decreases(*v, i as int);
                        assert(decreases_to!(*self => (*self)->Compound_0));
                        assert(decreases_to!(v[i as int] => v[i as int].1));
                        assert(decreases_to!(*self => v[i as int].1));
                    }
                    let (name, tag) = &v[i];
                    tag.serialize(name.as_str(), data);
                    i = i + 1;
                }
                data.push(0);
                proof {
                    assert(data@ =~= start + payload(*self));
                }
            },
            Tag::IntArray(v) => {
                push_be32(data, v.len() as u64);
                let ghost mid = data@;
                let mut i: usize = 0;
                proof {
                    assert(v@.take(0) =~= Seq::<i32>::empty());
                }
                while i < v.len()
                    invariant
                        i <= v@.len(),
                        data@ == mid + int_array_bytes(v@.take(i as int)),
                    decreases v@.len() - i,
                {
                    let x = v[i];
                    let u: u64 = if x < 0 {
                        (x as i64 + 0x1_0000_0000) as u64
                    } else {
                        x as u64
                    };
                    proof {
                        assert(v@.take(i + 1).drop_last() =~= v@.take(i as int));
                    }
                    push_be32(data, u);
                    i = i + 1;
                }
                proof {
                    assert(v@.take(i as int) =~= v@);
                    assert(data@ =~= start + payload(*self));
                }
            },
            Tag::LongArray(v) => {
                push_be32(data, v.len() as u64);
                let ghost mid = data@;
                let mut i: usize = 0;
                proof {
                    assert(v@.take(0) =~= Seq::<i64>::empty());
                }
                while i < v.len()
                    invariant
                        i <= v@.len(),
                        data@ == mid + long_array_bytes(v@.take(i as int)),
                    decreases v@.len() - i,
                {
                    let x = v[i];
                    let u: u128 = if x < 0 {
                        (x as i128 + 0x1_0000_0000_0000_0000) as u128
                    } else {
                        x as u128
                    };
                    proof {
                        assert(v@.take(i + 1).drop_last() =~= v@.take(i as int));
                    }
                    push_be64(data, u);
                    i = i + 1;
                }
                proof {
                    assert(v@.take(i as int) =~= v@);
                    assert(data@ =~= start + payload(*self));
                }
            },
        }
    }
}

pub open spec fn is_string_tag(t: Tag, s: Seq<char>) -> bool {
    t matches Tag::String(x) && x@ == s
}

/// `t` is the three-integer list of `c`.
pub open spec fn coords_tag(c: Coords, t: Tag) -> bool {
    &&& t matches Tag::List(v)
    &&& v@.len() == 3
    &&& v@[0] == Tag::Int(c.x)
    &&& v@[1] == Tag::Int(c.y)
    &&& v@[2] == Tag::Int(c.z)
}

/// `t` maps each property name to its value: empty, or one entry.
pub open spec fn properties_tag(p: Option<Property>, t: Tag) -> bool {
    &&& t matches Tag::Compound(v)
    &&& match p {
        None => v@.len() == 0,
        Some(q) => v@.len() == 1 && v@[0].0@ == property_name(q) && is_string_tag(
            v@[0].1,
            property_value(q),
        ),
    }
}

/// `t` is the palette entry of `p`: its `Name` and its `Properties`.
pub open spec fn palette_tag(p: PaletteView, t: Tag) -> bool {
    &&& t matches Tag::Compound(v)
    &&& v@.len() == 2
    &&& v@[0].0@ == "Name"@
    &&& is_string_tag(v@[0].1, p.0)
    &&& v@[1].0@ == "Properties"@
    &&& properties_tag(p.1, v@[1].1)
}

/// `t` is the entry of block `b`: its `state` and its `pos`.
pub open spec fn block_tag(b: Block, t: Tag) -> bool {
    &&& t matches Tag::Compound(v)
    &&& v@.len() == 2
    &&& v@[0].0@ == "state"@
    &&& v@[0].1 == Tag::Int(b.state)
    &&& v@[1].0@ == "pos"@
    &&& coords_tag(b.pos, v@[1].1)
}

impl Coords {
    pub fn to_nbt(&self) -> (r: Tag)
        ensures
            coords_tag(*self, r),
    {
        let mut v: Vec<Tag> = Vec::new();
        v.push(Tag::Int(self.x));
        v.push(Tag::Int(self.y));
        v.push(Tag::Int(self.z));
        Tag::List(v)
    }
}

impl Palette {
    pub fn to_nbt(&self) -> (r: Tag)
        ensures
            palette_tag(self@, r),
    {
        let mut props: Vec<(String, Tag)> = Vec::new();
        match self.property {
            None => {},
            Some(q) => {
                props.push((String::from_str(q.name()), Tag::String(String::from_str(q.value()))));
            },
        }
        let mut v: Vec<(String, Tag)> = Vec::new();
        v.push((String::from_str("Name"), Tag::String(self.name.clone())));
        v.push((String::from_str("Properties"), Tag::Compound(props)));
        Tag::Compound(v)
    }
}

impl Block {
    pub fn to_nbt(&self) -> (r: Tag)
        ensures
            block_tag(*self, r),
    {
        let mut v: Vec<(String, Tag)> = Vec::new();
        v.push((String::from_str("state"), Tag::Int(self.state)));
        v.push((String::from_str("pos"), self.pos.to_nbt()));
        Tag::Compound(v)
    }
}


/// The first index of `p` in `pal`.
pub open spec fn palette_index(pal: Seq<PaletteView>, p: PaletteView) -> Option<int>
    decreases pal.len(),
{
    if pal.len() == 0 {
        None
    } else {
        match palette_index(pal.drop_last(), p) {
            Some(i) => Some(i),
            None => if pal.last() == p {
                Some(pal.len() - 1)
            } else {
                None
            },
        }
    }
}

/// The first index of a block at `pos`.
pub open spec fn block_index(blocks: Seq<Block>, pos: Coords) -> Option<int>
    decreases blocks.len(),
{
    if blocks.len() == 0 {
        None
    } else {
        match block_index(blocks.drop_last(), pos) {
            Some(i) => Some(i),
            None => if blocks.last().pos == pos {
                Some(blocks.len() - 1)
            } else {
                None
            },
        }
    }
}

/// What a structure holds: its palette and its placed blocks.
pub type StructureContents = (Seq<PaletteView>, Seq<Block>);

/// Placing material `p` at `pos`: the material joins the palette if it is new,
/// and the block at `pos` is replaced, or added after the others.
pub open spec fn set_spec(s: StructureContents, pos: Coords, p: PaletteView) -> StructureContents {
    let (pal, blocks) = s;
    let (new_pal, state) = match palette_index(pal, p) {
        Some(i) => (pal, i),
        None => (pal.push(p), pal.len() as int),
    };
    let b = Block { state: state as i32, pos };
    let new_blocks = match block_index(blocks, pos) {
        Some(j) => blocks.update(j, b),
        None => blocks.push(b),
    };
    (new_pal, new_blocks)
}

/// Placements made one after another.
pub open spec fn set_all_spec(s: StructureContents, writes: Seq<(Coords, PaletteView)>) -> StructureContents
    decreases writes.len(),
{
    if writes.len() == 0 {
        s
    } else {
        let prev = set_all_spec(s, writes.drop_last());
        set_spec(prev, writes.last().0, writes.last().1)
    }
}

/// Palette entries are distinct, positions are distinct, and every block
/// refers to a palette entry.
pub open spec fn structure_wf(s: StructureContents) -> bool {
    let (pal, blocks) = s;
    &&& forall|i: int, j: int|
        0 <= i < j < pal.len() ==> #[trigger] pal[i] != #[trigger] pal[j]
    &&& forall|i: int, j: int|
        0 <= i < j < blocks.len() ==> #[trigger] blocks[i].pos != #[trigger] blocks[j].pos
    &&& forall|i: int| 0 <= i < blocks.len() ==> 0 <= #[trigger] blocks[i].state < pal.len()
}

pub open spec fn min_coord(blocks: Seq<Block>, axis: int) -> int
    decreases blocks.len(),
{
    if blocks.len() == 0 {
        i32::MAX as int
    } else {
        let c = coord_of(blocks.last().pos, axis);
        let m = min_coord(blocks.drop_last(), axis);
        if c < m {
            c
        } else {
            m
        }
    }
}

pub open spec fn max_coord(blocks: Seq<Block>, axis: int) -> int
    decreases blocks.len(),
{
    if blocks.len() == 0 {
        i32::MIN as int
    } else {
        let c = coord_of(blocks.last().pos, axis);
        let m = max_coord(blocks.drop_last(), axis);
        if c > m {
            c
        } else {
            m
        }
    }
}

pub open spec fn coord_of(c: Coords, axis: int) -> int {
    if axis == 0 {
        c.x as int
    } else if axis == 1 {
        c.y as int
    } else {
        c.z as int
    }
}

/// The extent of the blocks along an axis.
pub open spec fn extent(blocks: Seq<Block>, axis: int) -> int {
    max_coord(blocks, axis) - min_coord(blocks, axis) + 1
}

/// Why a structure cannot be normalised.
#[derive(Clone, Copy, PartialEq, Eq, Structural, Debug)]
pub enum NormalizeError {
    /// No block was ever placed.
    Empty,
    /// The blocks span more positions along some axis than `i32` can count.
    TooLarge,
}

/// `t` is the tag tree of `s`: its data version, its size, one palette entry
/// per palette material and one entry per block, in order.
pub open spec fn structure_tag(s: Structure, t: Tag) -> bool {
    &&& t matches Tag::Compound(v)
    &&& v@.len() == 4
    &&& v@[0].0@ == "DataVersion"@
    &&& v@[0].1 == Tag::Int(data_version_number(s.data_version))
    &&& v@[1].0@ == "size"@
    &&& coords_tag(s.size, v@[1].1)
    &&& v@[2].0@ == "palette"@
    &&& v@[2].1 matches Tag::List(pal)
    &&& pal@.len() == s.palette@.len()
    &&& forall|k: int| 0 <= k < pal@.len() ==> palette_tag(s.palette@[k]@, #[trigger] pal@[k])
    &&& v@[3].0@ == "blocks"@
    &&& v@[3].1 matches Tag::List(bl)
    &&& bl@.len() == s.blocks@.len()
    &&& forall|k: int| 0 <= k < bl@.len() ==> block_tag(s.blocks@[k], #[trigger] bl@[k])
}

/// A sparse voxel structure: a palette of distinct materials in first-seen
/// order, and placed blocks with distinct positions.
pub struct Structure {
    pub data_version: DataVersion,
    pub size: Coords,
    pub palette: Vec<Palette>,
    pub blocks: Vec<Block>,
}

impl Structure {
    /// The structure as a tag tree: `DataVersion`, `size`, `palette`, `blocks`.
    pub fn to_nbt(&self) -> (r: Tag)
        ensures
            structure_tag(*self, r),
    {
        let mut palette: Vec<Tag> = Vec::new();
        let mut i: usize = 0;
        while i < self.palette.len()
            invariant
                i <= self.palette@.len(),
                palette@.len() == i,
                forall|k: int| 0 <= k < i ==> palette_tag(self.palette@[k]@, #[trigger] palette@[k]),
            decreases self.palette@.len() - i,
        {
            palette.push(self.palette[i].to_nbt());
            i = i + 1;
        }
        let mut blocks: Vec<Tag> = Vec::new();
        let mut j: usize = 0;
        while j < self.blocks.len()
            invariant
                j <= self.blocks@.len(),
                blocks@.len() == j,
                forall|k: int| 0 <= k < j ==> block_tag(self.blocks@[k], #[trigger] blocks@[k]),
            decreases self.blocks@.len() - j,
        {
            blocks.push(self.blocks[j].to_nbt());
            j = j + 1;
        }
        let mut v: Vec<(String, Tag)> = Vec::new();
        v.push((String::from_str("DataVersion"), Tag::Int(self.data_version.number())));
        v.push((String::from_str("size"), self.size.to_nbt()));
        v.push((String::from_str("palette"), Tag::List(palette)));
        v.push((String::from_str("blocks"), Tag::List(blocks)));
        Tag::Compound(v)
    }

    /// The bytes of the structure file: the tag tree under an empty name.
    pub fn encode(&self) -> (r: Vec<u8>)
        ensures
            exists|t: Tag| structure_tag(*self, t) && r@ == named_bytes(10, ""@, payload(t)),
    {
        let tag = self.to_nbt();
        let mut data: Vec<u8> = Vec::new();
        tag.serialize("", &mut data);
        proof {
            assert(data@ =~= named_bytes(10, ""@, payload(tag)));
        }
        data
    }

    pub open spec fn view_parts(&self) -> StructureContents {
        (self.palette@.map_values(|p: Palette| p@), self.blocks@)
    }

    pub fn new(data_version: DataVersion) -> (r: Self)
        ensures
            r.data_version == data_version,
            r.size == (Coords { x: 0, y: 0, z: 0 }),
            r.palette@.len() == 0,
            r.blocks@.len() == 0,
            structure_wf(r.view_parts()),
    {
        Structure {
            data_version,
            size: Coords { x: 0, y: 0, z: 0 },
            palette: Vec::new(),
            blocks: Vec::new(),
        }
    }

    /// Places `block_id` at `pos`, as `set_block` does.
    pub fn set(&mut self, pos: (i32, i32, i32), block_id: Palette)
        requires
            old(self).palette@.len() < i32::MAX,
        ensures
            final(self).view_parts() == set_spec(
                old(self).view_parts(),
                Coords { x: pos.0, y: pos.1, z: pos.2 },
                block_id@,
            ),
            final(self).data_version == old(self).data_version,
            final(self).size == old(self).size,
            structure_wf(old(self).view_parts()) ==> structure_wf(final(self).view_parts()),
    {
        self.set_block(Coords { x: pos.0, y: pos.1, z: pos.2 }, block_id);
    }

    /// Places `block_id` at `pos`: the material joins the palette if it is
    /// new, and whatever was at `pos` is replaced.
    pub fn set_block(&mut self, pos: Coords, block_id: Palette)
        requires
            old(self).palette@.len() < i32::MAX,
        ensures
            final(self).view_parts() == set_spec(old(self).view_parts(), pos, block_id@),
            final(self).data_version == old(self).data_version,
            final(self).size == old(self).size,
            structure_wf(old(self).view_parts()) ==> structure_wf(final(self).view_parts()),
    {
        let ghost pal0 = self.palette@.map_values(|p: Palette| p@);
        let ghost old_view = self.view_parts();
        let mut found = false;
        let mut i: usize = 0;
        while i < self.palette.len() && !found
            invariant
                i <= self.palette@.len(),
                pal0 == self.palette@.map_values(|p: Palette| p@),
                palette_index(pal0.take(i as int), block_id@) is None,
                found ==> i < pal0.len() && pal0[i as int] == block_id@,
            decreases self.palette@.len() - i + if found { 0int } else { 1int },
        {
            proof {
                assert(pal0.take(i + 1).drop_last() =~= pal0.take(i as int));
            }
            if self.palette[i].same_as(&block_id) {
                found = true;
            } else {
                i = i + 1;
            }
        }
        proof {
            if !found {
                assert(pal0.take(i as int) =~= pal0);
            } else {
                lemma_palette_index_extends(pal0, block_id@, i as int);
            }
        }
        let state: i32 = if found {
            i as i32
        } else {
            let n = self.palette.len();
            self.palette.push(block_id);
            proof {
                assert(self.palette@.map_values(|p: Palette| p@) =~= pal0.push(block_id@));
            }
            n as i32
        };
        let ghost blocks0 = self.blocks@;
        let mut at = false;
        let mut j: usize = 0;
        while j < self.blocks.len() && !at
            invariant
                j <= blocks0.len(),
                self.blocks@ == blocks0,
                block_index(blocks0.take(j as int), pos) is None,
                at ==> j < blocks0.len() && blocks0[j as int].pos == pos,
            decreases blocks0.len() - j + if at { 0int } else { 1int },
        {
            proof {
                assert(blocks0.take(j + 1).drop_last() =~= blocks0.take(j as int));
            }
            if self.blocks[j].pos == pos {
                at = true;
            } else {
                j = j + 1;
            }
        }
        if at {
            proof {
                lemma_block_index_extends(blocks0, pos, j as int);
            }
            self.blocks.set(j, Block { state, pos });
        } else {
            proof {
                assert(blocks0.take(j as int) =~= blocks0);
            }
            self.blocks.push(Block { state, pos });
        }
        proof {
            if structure_wf(old_view) {
                assert(old_view.0.len() == old(self).palette@.len());
                lemma_set_keeps_wf(old_view, pos, block_id@);
            }
        }
    }

    /// Moves the blocks so that the least coordinate along each axis is zero,
    /// and records the extent along each axis as the size.
    pub fn normalize(&mut self) -> (r: Result<(), NormalizeError>)
        ensures
            r == Err::<(), NormalizeError>(NormalizeError::Empty) <==> old(self).blocks@.len() == 0,
            r == Err::<(), NormalizeError>(NormalizeError::TooLarge) <==> (old(self).blocks@.len()
                > 0 && exists|a: int| 0 <= a < 3 && extent(old(self).blocks@, a) > i32::MAX),
            r is Err ==> *final(self) == *old(self),
            structure_wf(old(self).view_parts()) ==> structure_wf(final(self).view_parts()),
            r is Ok ==> {
                &&& final(self).size.x == extent(old(self).blocks@, 0)
                &&& final(self).size.y == extent(old(self).blocks@, 1)
                &&& final(self).size.z == extent(old(self).blocks@, 2)
                &&& final(self).palette@ == old(self).palette@
                &&& final(self).data_version == old(self).data_version
                &&& final(self).blocks@.len() == old(self).blocks@.len()
                &&& forall|i: int|
                    0 <= i < old(self).blocks@.len() ==> {
                        let b = #[trigger] final(self).blocks@[i];
                        let o = old(self).blocks@[i];
                        &&& b.state == o.state
                        &&& b.pos.x == o.pos.x - min_coord(old(self).blocks@, 0)
                        &&& b.pos.y == o.pos.y - min_coord(old(self).blocks@, 1)
                        &&& b.pos.z == o.pos.z - min_coord(old(self).blocks@, 2)
                    }
            },
    {
        if self.blocks.len() == 0 {
            return Err(NormalizeError::Empty);
        }
        let ghost blocks0 = self.blocks@;
        let (mut min_x, mut max_x) = (i32::MAX, i32::MIN);
        let (mut min_y, mut max_y) = (i32::MAX, i32::MIN);
        let (mut min_z, mut max_z) = (i32::MAX, i32::MIN);
        let mut i: usize = 0;
        proof {
            assert(blocks0.take(0) =~= Seq::<Block>::empty());
        }
        while i < self.blocks.len()
            invariant
                i <= blocks0.len(),
                self.blocks@ == blocks0,
                min_x == min_coord(blocks0.take(i as int), 0),
                max_x == max_coord(blocks0.take(i as int), 0),
                min_y == min_coord(blocks0.take(i as int), 1),
                max_y == max_coord(blocks0.take(i as int), 1),
                min_z == min_coord(blocks0.take(i as int), 2),
                max_z == max_coord(blocks0.take(i as int), 2),
            decreases blocks0.len() - i,
        {
            proof {
                assert(blocks0.take(i + 1).drop_last() =~= blocks0.take(i as int));
            }
            let p = self.blocks[i].pos;
            if p.x < min_x {
                min_x = p.x;
            }
            if p.x > max_x {
                max_x = p.x;
            }
            if p.y < min_y {
                min_y = p.y;
            }
            if p.y > max_y {
                max_y = p.y;
            }
            if p.z < min_z {
                min_z = p.z;
            }
            if p.z > max_z {
                max_z = p.z;
            }
            i = i + 1;
        }
        proof {
            assert(blocks0.take(i as int) =~= blocks0);
            lemma_min_le_max(blocks0, 0);
            lemma_min_le_max(blocks0, 1);
            lemma_min_le_max(blocks0, 2);
        }
        let ex = max_x as i64 - min_x as i64 + 1;
        let ey = max_y as i64 - min_y as i64 + 1;
        let ez = max_z as i64 - min_z as i64 + 1;
        if ex > i32::MAX as i64 || ey > i32::MAX as i64 || ez > i32::MAX as i64 {
            proof {
                if ex > i32::MAX as i64 {
                    assert(extent(blocks0, 0) > i32::MAX);
                } else if ey > i32::MAX as i64 {
                    assert(extent(blocks0, 1) > i32::MAX);
                } else {
                    assert(extent(blocks0, 2) > i32::MAX);
                }
            }
            return Err(NormalizeError::TooLarge);
        }
        self.size = Coords { x: ex as i32, y: ey as i32, z: ez as i32 };
        let mut k: usize = 0;
        while k < self.blocks.len()
            invariant
                k <= blocks0.len(),
                self.blocks@.len() == blocks0.len(),
                self.palette@ == old(self).palette@,
                self.data_version == old(self).data_version,
                self.size == (Coords { x: ex as i32, y: ey as i32, z: ez as i32 }),
                ex == max_x - min_x + 1,
                ey == max_y - min_y + 1,
                ez == max_z - min_z + 1,
                blocks0 == old(self).blocks@,
                forall|j: int|
                    k <= j < blocks0.len() ==> #[trigger] self.blocks@[j] == blocks0[j],
                forall|j: int|
                    0 <= j < k ==> {
                        let b = #[trigger] self.blocks@[j];
                        let o = blocks0[j];
                        &&& b.state == o.state
                        &&& b.pos.x == o.pos.x - min_x
                        &&& b.pos.y == o.pos.y - min_y
                        &&& b.pos.z == o.pos.z - min_z
                    },
                min_x == min_coord(blocks0, 0),
                max_x == max_coord(blocks0, 0),
                min_y == min_coord(blocks0, 1),
                max_y == max_coord(blocks0, 1),
                min_z == min_coord(blocks0, 2),
                max_z == max_coord(blocks0, 2),
                max_x - min_x < i32::MAX,
                max_y - min_y < i32::MAX,
                max_z - min_z < i32::MAX,
            decreases blocks0.len() - k,
        {
            proof {
                lemma_coord_bounds(blocks0, k as int);
                assert(min_x <= coord_of(blocks0[k as int].pos, 0) <= max_x);
                assert(min_y <= coord_of(blocks0[k as int].pos, 1) <= max_y);
                assert(min_z <= coord_of(blocks0[k as int].pos, 2) <= max_z);
            }
            let b = self.blocks[k];
            let moved = Block {
                state: b.state,
                pos: Coords { x: b.pos.x - min_x, y: b.pos.y - min_y, z: b.pos.z - min_z },
            };
            self.blocks.set(k, moved);
            k = k + 1;
        }
        proof {
            let o = old(self).view_parts();
            let n = self.view_parts();
            if structure_wf(o) {
                assert(n.0 =~= o.0);
                assert forall|i: int, j: int|
                    0 <= i < j < n.1.len() implies #[trigger] n.1[i].pos != #[trigger] n.1[j].pos by {
                    assert(o.1[i].pos != o.1[j].pos);
                }
                assert forall|i: int| 0 <= i < n.1.len() implies 0 <= #[trigger] n.1[i].state < n.0.len() by {
                    assert(o.1[i].state == n.1[i].state);
                }
            }
        }
        Ok(())
    }
}

proof fn lemma_palette_index_extends(pal: Seq<PaletteView>, p: PaletteView, i: int)
    requires
        0 <= i < pal.len(),
        palette_index(pal.take(i), p) is None,
        pal[i] == p,
    ensures
        palette_index(pal, p) == Some(i),
    decreases pal.len(),
{
    if i == pal.len() - 1 {
        assert(pal.drop_last() =~= pal.take(i));
    } else {
        assert(pal.drop_last().take(i) =~= pal.take(i));
        lemma_palette_index_extends(pal.drop_last(), p, i);
    }
}

proof fn lemma_block_index_extends(blocks: Seq<Block>, pos: Coords, i: int)
    requires
        0 <= i < blocks.len(),
        block_index(blocks.take(i), pos) is None,
        blocks[i].pos == pos,
    ensures
        block_index(blocks, pos) == Some(i),
    decreases blocks.len(),
{
    if i == blocks.len() - 1 {
        assert(blocks.drop_last() =~= blocks.take(i));
    } else {
        assert(blocks.drop_last().take(i) =~= blocks.take(i));
        lemma_block_index_extends(blocks.drop_last(), pos, i);
    }
}

proof fn lemma_palette_index_facts(pal: Seq<PaletteView>, p: PaletteView)
    ensures
        palette_index(pal, p) matches Some(i) ==> 0 <= i < pal.len() && pal[i] == p,
        palette_index(pal, p) is None ==> forall|i: int| 0 <= i < pal.len() ==> pal[i] != p,
    decreases pal.len(),
{
    if pal.len() > 0 {
        lemma_palette_index_facts(pal.drop_last(), p);
        assert forall|i: int| 0 <= i < pal.len() - 1 implies pal.drop_last()[i] == pal[i] by {}
    }
}

proof fn lemma_block_index_facts(blocks: Seq<Block>, pos: Coords)
    ensures
        block_index(blocks, pos) matches Some(i) ==> 0 <= i < blocks.len() && blocks[i].pos == pos,
        block_index(blocks, pos) is None ==> forall|i: int|
            0 <= i < blocks.len() ==> blocks[i].pos != pos,
    decreases blocks.len(),
{
    if blocks.len() > 0 {
        lemma_block_index_facts(blocks.drop_last(), pos);
        assert forall|i: int| 0 <= i < blocks.len() - 1 implies blocks.drop_last()[i] == blocks[i] by {}
    }
}

proof fn lemma_set_keeps_wf(s: StructureContents, pos: Coords, p: PaletteView)
    requires
        structure_wf(s),
        s.0.len() < i32::MAX,
    ensures
        structure_wf(set_spec(s, pos, p)),
{
    lemma_palette_index_facts(s.0, p);
    lemma_block_index_facts(s.1, pos);
    let r = set_spec(s, pos, p);
    let (pal, blocks) = s;
    let state = match palette_index(pal, p) {
        Some(i) => i,
        None => pal.len() as int,
    };
    assert(0 <= state < r.0.len());
    assert(state as i32 == state);
    assert(r.0.len() >= pal.len());
    assert forall|i: int, j: int| 0 <= i < j < r.0.len() implies #[trigger] r.0[i] != #[trigger] r.0[j] by {
        if j == pal.len() {
            assert(r.0[j] == p);
            assert(r.0[i] == pal[i]);
        } else {
            assert(r.0[i] == pal[i]);
            assert(r.0[j] == pal[j]);
        }
    }
    assert forall|i: int, j: int|
        0 <= i < j < r.1.len() implies #[trigger] r.1[i].pos != #[trigger] r.1[j].pos by {
        match block_index(blocks, pos) {
            Some(k) => {
                assert(r.1[i].pos == blocks[i].pos);
                assert(r.1[j].pos == blocks[j].pos);
            },
            None => {
                if j == blocks.len() {
                    assert(r.1[j].pos == pos);
                    assert(r.1[i] == blocks[i]);
                } else {
                    assert(r.1[i] == blocks[i]);
                    assert(r.1[j] == blocks[j]);
                }
            },
        }
    }
    assert forall|i: int| 0 <= i < r.1.len() implies 0 <= #[trigger] r.1[i].state < r.0.len() by {
        match block_index(blocks, pos) {
            Some(k) => {
                if i != k {
                    assert(r.1[i] == blocks[i]);
                }
            },
            None => {
                if i < blocks.len() {
                    assert(r.1[i] == blocks[i]);
                }
            },
        }
    }
}

/// Placements keep a structure well formed while the palette stays below
/// `i32::MAX` entries.
pub proof fn lemma_set_all_keeps_wf(s: StructureContents, ws: Seq<(Coords, PaletteView)>)
    requires
        structure_wf(s),
        s.0.len() + ws.len() < i32::MAX,
    ensures
        structure_wf(set_all_spec(s, ws)),
        set_all_spec(s, ws).0.len() <= s.0.len() + ws.len(),
    decreases ws.len(),
{
    if ws.len() > 0 {
        lemma_set_all_keeps_wf(s, ws.drop_last());
        lemma_set_keeps_wf(set_all_spec(s, ws.drop_last()), ws.last().0, ws.last().1);
    }
}

proof fn lemma_min_le_max(blocks: Seq<Block>, axis: int)
    requires
        blocks.len() > 0,
    ensures
        i32::MIN <= min_coord(blocks, axis) <= max_coord(blocks, axis) <= i32::MAX,
    decreases blocks.len(),
{
    if blocks.len() > 1 {
        lemma_min_le_max(blocks.drop_last(), axis);
    } else {
        assert(blocks.drop_last().len() == 0);
        assert(min_coord(blocks.drop_last(), axis) == i32::MAX);
        assert(max_coord(blocks.drop_last(), axis) == i32::MIN);
    }
}

proof fn lemma_coord_bounds(blocks: Seq<Block>, k: int)
    requires
        0 <= k < blocks.len(),
    ensures
        forall|a: int|
            0 <= a < 3 ==> min_coord(blocks, a) <= #[trigger] coord_of(blocks[k].pos, a)
                <= max_coord(blocks, a),
    decreases blocks.len(),
{
    if k < blocks.len() - 1 {
        lemma_coord_bounds(blocks.drop_last(), k);
        assert(blocks.drop_last()[k] == blocks[k]);
    }
}

} // verus!
