use vstd::prelude::*;

use crate::model::str_eq;
use crate::nbt::{Palette, PaletteView};

verus! {

/// How a block's appearance depends on the way it is placed.
#[derive(Clone, Copy, PartialEq, Eq, Structural, Debug)]
pub enum Texturing {
    Uniform,
    Axis,
    Facing4,
    Facing6,
    Upright,
}

/// Which texture swatch of a block a catalog entry measures.
#[derive(Clone, Copy, PartialEq, Eq, Structural, Debug)]
pub enum Aspect {
    /// A swatch with an empty name.
    Unnamed,
    Top,
    Bottom,
    Front,
    Back,
    Side,
    /// A swatch under any other name; no orientation table admits it.
    Other,
}

/// The aspect a swatch name stands for.
pub open spec fn aspect_named(name: Seq<char>) -> Aspect {
    if name == ""@ {
        Aspect::Unnamed
    } else if name == "top"@ {
        Aspect::Top
    } else if name == "bottom"@ {
        Aspect::Bottom
    } else if name == "front"@ {
        Aspect::Front
    } else if name == "back"@ {
        Aspect::Back
    } else if name == "side"@ {
        Aspect::Side
    } else {
        Aspect::Other
    }
}

impl Aspect {
    /// The aspect of a swatch name as the catalog writes it.
    pub fn from_name(name: &str) -> (r: Aspect)
        ensures
            r == aspect_named(name@),
    {
        if str_eq(name, "") {
            Aspect::Unnamed
        } else if str_eq(name, "top") {
            Aspect::Top
        } else if str_eq(name, "bottom") {
            Aspect::Bottom
        } else if str_eq(name, "front") {
            Aspect::Front
        } else if str_eq(name, "back") {
            Aspect::Back
        } else if str_eq(name, "side") {
            Aspect::Side
        } else {
            Aspect::Other
        }
    }
}

/// A world-space face normal.
#[derive(Clone, Copy, PartialEq, Eq, Structural, Debug)]
pub enum Direction {
    PosX,
    NegX,
    PosY,
    NegY,
    PosZ,
    NegZ,
}

/// A value of the `axis` property.
#[derive(Clone, Copy, PartialEq, Eq, Structural, Debug)]
pub enum Axis {
    X,
    Y,
    Z,
}

/// A value of the `facing` property.
#[derive(Clone, Copy, PartialEq, Eq, Structural, Debug)]
pub enum Facing {
    Up,
    Down,
    North,
    South,
    East,
    West,
}

/// An orientation property stored with a placed block.
#[derive(Clone, Copy, PartialEq, Eq, Structural, Debug)]
pub enum Property {
    Axis(Axis),
    Facing(Facing),
}

pub open spec fn property_name(p: Property) -> Seq<char> {
    match p {
        Property::Axis(_) => "axis"@,
        Property::Facing(_) => "facing"@,
    }
}

pub open spec fn property_value(p: Property) -> Seq<char> {
    match p {
        Property::Axis(Axis::X) => "x"@,
        Property::Axis(Axis::Y) => "y"@,
        Property::Axis(Axis::Z) => "z"@,
        Property::Facing(Facing::Up) => "up"@,
        Property::Facing(Facing::Down) => "down"@,
        Property::Facing(Facing::North) => "north"@,
        Property::Facing(Facing::South) => "south"@,
        Property::Facing(Facing::East) => "east"@,
        Property::Facing(Facing::West) => "west"@,
    }
}

impl Property {
    /// The property's name as stored.
    pub fn name(&self) -> (r: &'static str)
        ensures
            r@ == property_name(*self),
    {
        match self {
            Property::Axis(_) => "axis",
            Property::Facing(_) => "facing",
        }
    }

    /// The property's value as stored.
    pub fn value(&self) -> (r: &'static str)
        ensures
            r@ == property_value(*self),
    {
        match self {
            Property::Axis(Axis::X) => "x",
            Property::Axis(Axis::Y) => "y",
            Property::Axis(Axis::Z) => "z",
            Property::Facing(Facing::Up) => "up",
            Property::Facing(Facing::Down) => "down",
            Property::Facing(Facing::North) => "north",
            Property::Facing(Facing::South) => "south",
            Property::Facing(Facing::East) => "east",
            Property::Facing(Facing::West) => "west",
        }
    }
}

/// How a swatch must be placed to show towards a given normal.
#[derive(Clone, Copy, PartialEq, Eq, Structural, Debug)]
pub enum Orient {
    AsIs,
    With(Property),
}

impl Orient {
    pub fn with(property: Property) -> (r: Self)
        ensures
            r == Orient::With(property),
    {
        Orient::With(property)
    }
}

/// One entry of the material catalog: a block, the swatch that was measured,
/// and that swatch's average colour.
#[derive(Clone, Debug)]
pub struct Block {
    pub block_id: String,
    pub texturing: Texturing,
    pub part: Option<Aspect>,
    pub avg_color: [u8; 3],
}

pub open spec fn direction_of(unit: (int, int, int)) -> Option<Direction> {
    let (x, y, z) = unit;
    if y == 0 && z == 0 && x > 0 {
        Some(Direction::PosX)
    } else if x == 0 && z == 0 && y > 0 {
        Some(Direction::PosY)
    } else if x == 0 && y == 0 && z > 0 {
        Some(Direction::PosZ)
    } else if y == 0 && z == 0 && x < 0 {
        Some(Direction::NegX)
    } else if x == 0 && z == 0 && y < 0 {
        Some(Direction::NegY)
    } else if x == 0 && y == 0 && z < 0 {
        Some(Direction::NegZ)
    } else {
        None
    }
}

impl Direction {
    /// The direction a vector along one axis points to; `Err` for the zero
    /// vector and for one off the axes.
    pub fn from_unit(unit: (i32, i32, i32)) -> (r: Result<Self, ()>)
        ensures
            r matches Ok(d) ==> direction_of((unit.0 as int, unit.1 as int, unit.2 as int)) == Some(
                d,
            ),
            r is Err ==> direction_of((unit.0 as int, unit.1 as int, unit.2 as int)) is None,
    {
        let (x, y, z) = unit;
        if y == 0 && z == 0 && x > 0 {
            Ok(Direction::PosX)
        } else if x == 0 && z == 0 && y > 0 {
            Ok(Direction::PosY)
        } else if x == 0 && y == 0 && z > 0 {
            Ok(Direction::PosZ)
        } else if y == 0 && z == 0 && x < 0 {
            Ok(Direction::NegX)
        } else if x == 0 && z == 0 && y < 0 {
            Ok(Direction::NegY)
        } else if x == 0 && y == 0 && z < 0 {
            Ok(Direction::NegZ)
        } else {
            Err(())
        }
    }
}

/// The orientation table: whether a swatch of the given aspect, under the
/// given texturing, may show towards `normal`, and with which property.
pub open spec fn orient_table(texturing: Texturing, part: Option<Aspect>, normal: Direction) -> Option<
    Orient,
> {
    match texturing {
        Texturing::Uniform => Some(Orient::AsIs),
        _ => match part {
            None => None,
            Some(aspect) => match (texturing, aspect, normal) {
                (Texturing::Axis, Aspect::Top, Direction::PosX) => Some(Orient::With(Property::Axis(Axis::X))),
                (Texturing::Axis, Aspect::Top, Direction::NegX) => Some(Orient::With(Property::Axis(Axis::X))),
                (Texturing::Axis, Aspect::Top, Direction::PosY) => Some(Orient::With(Property::Axis(Axis::Y))),
                (Texturing::Axis, Aspect::Top, Direction::NegY) => Some(Orient::With(Property::Axis(Axis::Y))),
                (Texturing::Axis, Aspect::Top, Direction::PosZ) => Some(Orient::With(Property::Axis(Axis::Z))),
                (Texturing::Axis, Aspect::Top, Direction::NegZ) => Some(Orient::With(Property::Axis(Axis::Z))),
                (Texturing::Axis, Aspect::Unnamed, Direction::PosX)
                | (Texturing::Axis, Aspect::Side, Direction::PosX)
                | (Texturing::Axis, Aspect::Unnamed, Direction::NegX)
                | (Texturing::Axis, Aspect::Side, Direction::NegX) => Some(Orient::With(Property::Axis(Axis::Z))),
                (Texturing::Axis, Aspect::Unnamed, _) | (Texturing::Axis, Aspect::Side, _) => Some(
                    Orient::With(Property::Axis(Axis::X)),
                ),
                (Texturing::Facing4, Aspect::Top, Direction::PosY) => Some(Orient::AsIs),
                (Texturing::Facing4, Aspect::Bottom, Direction::NegY) => Some(Orient::AsIs),
                (Texturing::Facing4, Aspect::Front, Direction::NegZ) => Some(Orient::With(Property::Facing(Facing::North))),
                (Texturing::Facing4, Aspect::Front, Direction::PosZ) => Some(Orient::With(Property::Facing(Facing::South))),
                (Texturing::Facing4, Aspect::Front, Direction::PosX) => Some(Orient::With(Property::Facing(Facing::East))),
                (Texturing::Facing4, Aspect::Front, Direction::NegX) => Some(Orient::With(Property::Facing(Facing::West))),
                (Texturing::Facing4, Aspect::Side, Direction::PosZ) => Some(Orient::With(Property::Facing(Facing::North))),
                (Texturing::Facing4, Aspect::Side, Direction::NegZ) => Some(Orient::With(Property::Facing(Facing::South))),
                (Texturing::Facing4, Aspect::Side, Direction::NegX) => Some(Orient::With(Property::Facing(Facing::East))),
                (Texturing::Facing4, Aspect::Side, Direction::PosX) => Some(Orient::With(Property::Facing(Facing::West))),
                (Texturing::Facing6, Aspect::Front, Direction::PosY) => Some(Orient::With(Property::Facing(Facing::Up))),
                (Texturing::Facing6, Aspect::Front, Direction::NegY) => Some(Orient::With(Property::Facing(Facing::Down))),
                (Texturing::Facing6, Aspect::Front, Direction::NegZ) => Some(Orient::With(Property::Facing(Facing::North))),
                (Texturing::Facing6, Aspect::Front, Direction::PosZ) => Some(Orient::With(Property::Facing(Facing::South))),
                (Texturing::Facing6, Aspect::Front, Direction::PosX) => Some(Orient::With(Property::Facing(Facing::East))),
                (Texturing::Facing6, Aspect::Front, Direction::NegX) => Some(Orient::With(Property::Facing(Facing::West))),
                (Texturing::Facing6, Aspect::Back, Direction::NegY) => Some(Orient::With(Property::Facing(Facing::Up))),
                (Texturing::Facing6, Aspect::Back, Direction::PosY) => Some(Orient::With(Property::Facing(Facing::Down))),
                (Texturing::Facing6, Aspect::Back, Direction::PosZ) => Some(Orient::With(Property::Facing(Facing::North))),
                (Texturing::Facing6, Aspect::Back, Direction::NegZ) => Some(Orient::With(Property::Facing(Facing::South))),
                (Texturing::Facing6, Aspect::Back, Direction::NegX) => Some(Orient::With(Property::Facing(Facing::East))),
                (Texturing::Facing6, Aspect::Back, Direction::PosX) => Some(Orient::With(Property::Facing(Facing::West))),
                (Texturing::Upright, Aspect::Top, Direction::PosY)
                | (Texturing::Upright, Aspect::Top, Direction::NegY) => Some(Orient::AsIs),
                (Texturing::Upright, Aspect::Side, Direction::PosX)
                | (Texturing::Upright, Aspect::Side, Direction::NegX)
                | (Texturing::Upright, Aspect::Side, Direction::PosZ)
                | (Texturing::Upright, Aspect::Side, Direction::NegZ)
                | (Texturing::Upright, Aspect::Unnamed, Direction::PosX)
                | (Texturing::Upright, Aspect::Unnamed, Direction::NegX)
                | (Texturing::Upright, Aspect::Unnamed, Direction::PosZ)
                | (Texturing::Upright, Aspect::Unnamed, Direction::NegZ) => Some(Orient::AsIs),
                _ => None,
            },
        },
    }
}

/// Squared Euclidean distance between two colours, unweighted.
pub open spec fn color_distance(a: Seq<u8>, b: Seq<u8>) -> int {
    (a[0] - b[0]) * (a[0] - b[0]) + (a[1] - b[1]) * (a[1] - b[1]) + (a[2] - b[2]) * (a[2] - b[2])
}

pub open spec fn entry_orient(b: Block, normal: Direction) -> Option<Orient> {
    orient_table(b.texturing, b.part, normal)
}

pub open spec fn entry_distance(b: Block, color: Seq<u8>) -> int {
    color_distance(b.avg_color@, color)
}

/// The index of the catalog entry chosen for `color` and `normal`: among the
/// entries that may show towards `normal`, the closest in colour, the earlier
/// one on a tie.
pub open spec fn best_match(catalog: Seq<Block>, color: Seq<u8>, normal: Direction) -> Option<int>
    decreases catalog.len(),
{
    if catalog.len() == 0 {
        None
    } else {
        let prev = best_match(catalog.drop_last(), color, normal);
        let last = catalog.last();
        if entry_orient(last, normal) is None {
            prev
        } else {
            match prev {
                None => Some(catalog.len() - 1),
                Some(j) => if entry_distance(last, color) < entry_distance(catalog[j], color) {
                    Some(catalog.len() - 1)
                } else {
                    prev
                },
            }
        }
    }
}

pub open spec fn opt_index(o: Option<usize>) -> Option<int> {
    match o {
        Some(k) => Some(k as int),
        None => None,
    }
}

pub open spec fn property_of(o: Orient) -> Option<Property> {
    match o {
        Orient::AsIs => None,
        Orient::With(p) => Some(p),
    }
}

/// The material selected for `color` and `normal`; `air` when no entry may
/// show towards `normal`.
pub open spec fn selection(catalog: Seq<Block>, color: Seq<u8>, normal: Direction) -> PaletteView {
    match best_match(catalog, color, normal) {
        None => ("air"@, None),
        Some(j) => (
            catalog[j].block_id@,
            property_of(entry_orient(catalog[j], normal).unwrap()),
        ),
    }
}

impl Block {
    /// Whether this swatch may show towards `normal` under `texturing`, and
    /// with which property.
    pub fn try_orient(&self, texturing: Texturing, normal: Direction) -> (r: Option<Orient>)
        ensures
            r == orient_table(texturing, self.part, normal),
    {
        if let Texturing::Uniform = texturing {
            return Some(Orient::AsIs);
        }
        let aspect = match self.part {
            Some(a) => a,
            None => return None,
        };
        match (texturing, aspect, normal) {
            (Texturing::Axis, Aspect::Top, Direction::PosX) => Some(Orient::with(Property::Axis(Axis::X))),
            (Texturing::Axis, Aspect::Top, Direction::NegX) => Some(Orient::with(Property::Axis(Axis::X))),
            (Texturing::Axis, Aspect::Top, Direction::PosY) => Some(Orient::with(Property::Axis(Axis::Y))),
            (Texturing::Axis, Aspect::Top, Direction::NegY) => Some(Orient::with(Property::Axis(Axis::Y))),
            (Texturing::Axis, Aspect::Top, Direction::PosZ) => Some(Orient::with(Property::Axis(Axis::Z))),
            (Texturing::Axis, Aspect::Top, Direction::NegZ) => Some(Orient::with(Property::Axis(Axis::Z))),
            (Texturing::Axis, Aspect::Unnamed, Direction::PosX)
            | (Texturing::Axis, Aspect::Side, Direction::PosX)
            | (Texturing::Axis, Aspect::Unnamed, Direction::NegX)
            | (Texturing::Axis, Aspect::Side, Direction::NegX) => Some(Orient::with(Property::Axis(Axis::Z))),
            (Texturing::Axis, Aspect::Unnamed, _) | (Texturing::Axis, Aspect::Side, _) => Some(
                Orient::with(Property::Axis(Axis::X)),
            ),
            (Texturing::Facing4, Aspect::Top, Direction::PosY) => Some(Orient::AsIs),
            (Texturing::Facing4, Aspect::Bottom, Direction::NegY) => Some(Orient::AsIs),
            (Texturing::Facing4, Aspect::Front, Direction::NegZ) => Some(Orient::with(Property::Facing(Facing::North))),
            (Texturing::Facing4, Aspect::Front, Direction::PosZ) => Some(Orient::with(Property::Facing(Facing::South))),
            (Texturing::Facing4, Aspect::Front, Direction::PosX) => Some(Orient::with(Property::Facing(Facing::East))),
            (Texturing::Facing4, Aspect::Front, Direction::NegX) => Some(Orient::with(Property::Facing(Facing::West))),
            (Texturing::Facing4, Aspect::Side, Direction::PosZ) => Some(Orient::with(Property::Facing(Facing::North))),
            (Texturing::Facing4, Aspect::Side, Direction::NegZ) => Some(Orient::with(Property::Facing(Facing::South))),
            (Texturing::Facing4, Aspect::Side, Direction::NegX) => Some(Orient::with(Property::Facing(Facing::East))),
            (Texturing::Facing4, Aspect::Side, Direction::PosX) => Some(Orient::with(Property::Facing(Facing::West))),
            (Texturing::Facing6, Aspect::Front, Direction::PosY) => Some(Orient::with(Property::Facing(Facing::Up))),
            (Texturing::Facing6, Aspect::Front, Direction::NegY) => Some(Orient::with(Property::Facing(Facing::Down))),
            (Texturing::Facing6, Aspect::Front, Direction::NegZ) => Some(Orient::with(Property::Facing(Facing::North))),
            (Texturing::Facing6, Aspect::Front, Direction::PosZ) => Some(Orient::with(Property::Facing(Facing::South))),
            (Texturing::Facing6, Aspect::Front, Direction::PosX) => Some(Orient::with(Property::Facing(Facing::East))),
            (Texturing::Facing6, Aspect::Front, Direction::NegX) => Some(Orient::with(Property::Facing(Facing::West))),
            (Texturing::Facing6, Aspect::Back, Direction::NegY) => Some(Orient::with(Property::Facing(Facing::Up))),
            (Texturing::Facing6, Aspect::Back, Direction::PosY) => Some(Orient::with(Property::Facing(Facing::Down))),
            (Texturing::Facing6, Aspect::Back, Direction::PosZ) => Some(Orient::with(Property::Facing(Facing::North))),
            (Texturing::Facing6, Aspect::Back, Direction::NegZ) => Some(Orient::with(Property::Facing(Facing::South))),
            (Texturing::Facing6, Aspect::Back, Direction::NegX) => Some(Orient::with(Property::Facing(Facing::East))),
            (Texturing::Facing6, Aspect::Back, Direction::PosX) => Some(Orient::with(Property::Facing(Facing::West))),
            (Texturing::Upright, Aspect::Top, Direction::PosY)
            | (Texturing::Upright, Aspect::Top, Direction::NegY) => Some(Orient::AsIs),
            (Texturing::Upright, Aspect::Side, Direction::PosX)
            | (Texturing::Upright, Aspect::Side, Direction::NegX)
            | (Texturing::Upright, Aspect::Side, Direction::PosZ)
            | (Texturing::Upright, Aspect::Side, Direction::NegZ)
            | (Texturing::Upright, Aspect::Unnamed, Direction::PosX)
            | (Texturing::Upright, Aspect::Unnamed, Direction::NegX)
            | (Texturing::Upright, Aspect::Unnamed, Direction::PosZ)
            | (Texturing::Upright, Aspect::Unnamed, Direction::NegZ) => Some(Orient::AsIs),
            _ => None,
        }
    }

    /// Squared distance between this swatch's average colour and the first
    /// three channels of `color`.
    pub fn distance(&self, color: &[u8]) -> (r: i32)
        requires
            color@.len() >= 3,
        ensures
            r == color_distance(self.avg_color@, color@),
            0 <= r <= 3 * 255 * 255,
    {
        let d0 = self.avg_color[0] as i32 - color[0] as i32;
        let d1 = self.avg_color[1] as i32 - color[1] as i32;
        let d2 = self.avg_color[2] as i32 - color[2] as i32;
        proof {
            assert(0 <= d0 * d0 <= 255 * 255) by (nonlinear_arith)
                requires
                    -255 <= d0 <= 255,
            ;
            assert(0 <= d1 * d1 <= 255 * 255) by (nonlinear_arith)
                requires
                    -255 <= d1 <= 255,
            ;
            assert(0 <= d2 * d2 <= 255 * 255) by (nonlinear_arith)
                requires
                    -255 <= d2 <= 255,
            ;
        }
        d0 * d0 + d1 * d1 + d2 * d2
    }
}

/// The material that best shows `color` on a face with outward normal
/// `normal`: the closest legal swatch in the catalog, the earlier on a tie,
/// with the property its placement needs; `air` when none is legal.
pub fn find_closest(catalog: &Vec<Block>, color: &[u8], normal: Direction) -> (r: Palette)
    requires
        color@.len() >= 3,
    ensures
        r@ == selection(catalog@, color@, normal),
{
    let mut closest_dist: i32 = i32::MAX;
    let mut best: Option<usize> = None;
    let mut best_orient: Orient = Orient::AsIs;
    let mut i: usize = 0;
    proof {
        assert(catalog@.take(0) =~= Seq::<Block>::empty());
    }
    while i < catalog.len()
        invariant
            i <= catalog@.len(),
            color@.len() >= 3,
            best_match(catalog@.take(i as int), color@, normal) == opt_index(best),
            best matches Some(k) ==> {
                &&& k < i
                &&& closest_dist == entry_distance(catalog@[k as int], color@)
                &&& entry_orient(catalog@[k as int], normal) == Some(best_orient)
            },
            best is None ==> closest_dist == i32::MAX,
        decreases catalog@.len() - i,
    {
        proof {
            assert(catalog@.take(i + 1).drop_last() =~= catalog@.take(i as int));
            assert(catalog@.take(i + 1).last() == catalog@[i as int]);
            if let Some(k) = best {
                assert(catalog@.take(i + 1)[k as int] == catalog@[k as int]);
            }
        }
        let block = &catalog[i];
        match block.try_orient(block.texturing, normal) {
            None => {},
            Some(orient) => {
                let dist = block.distance(color);
                if dist < closest_dist {
                    closest_dist = dist;
                    best = Some(i);
                    best_orient = orient;
                }
            },
        }
        i = i + 1;
    }
    proof {
        assert(catalog@.take(i as int) =~= catalog@);
    }
    match best {
        None => Palette::new("air"),
        Some(k) => {
            let p = Palette::new(catalog[k].block_id.as_str());
            match best_orient {
                Orient::AsIs => p,
                Orient::With(property) => p.with_property(property),
            }
        },
    }
}

/// Among the entries that may show towards `normal`, the chosen one is at
/// least as close as every other and strictly closer than every earlier one;
/// when none may, none is chosen.
pub proof fn lemma_best_match_is_earliest_closest(
    catalog: Seq<Block>,
    color: Seq<u8>,
    normal: Direction,
)
    ensures
        best_match(catalog, color, normal) is None ==> forall|j: int|
            0 <= j < catalog.len() ==> #[trigger] entry_orient(catalog[j], normal) is None,
        best_match(catalog, color, normal) matches Some(k) ==> {
            &&& 0 <= k < catalog.len()
            &&& entry_orient(catalog[k], normal) is Some
            &&& forall|j: int|
                0 <= j < catalog.len() && entry_orient(catalog[j], normal) is Some ==> entry_distance(
                    catalog[k],
                    color,
                ) <= #[trigger] entry_distance(catalog[j], color)
            &&& forall|j: int|
                0 <= j < k && entry_orient(catalog[j], normal) is Some ==> entry_distance(
                    catalog[k],
                    color,
                ) < #[trigger] entry_distance(catalog[j], color)
        },
    decreases catalog.len(),
{
    if catalog.len() > 0 {
        let prefix = catalog.drop_last();
        lemma_best_match_is_earliest_closest(prefix, color, normal);
        assert forall|j: int| 0 <= j < prefix.len() implies prefix[j] == catalog[j] by {}
    }
}

/// Of two entries that may both show towards `normal` and are equally close
/// to `color`, the one earlier in the catalog is chosen.
pub proof fn lemma_tie_goes_to_earlier(catalog: Seq<Block>, color: Seq<u8>, normal: Direction, i: int, j: int)
    requires
        0 <= i < j < catalog.len(),
        entry_orient(catalog[i], normal) is Some,
        entry_orient(catalog[j], normal) is Some,
        entry_distance(catalog[i], color) == entry_distance(catalog[j], color),
    ensures
        best_match(catalog, color, normal) != Some(j),
{
    lemma_best_match_is_earliest_closest(catalog, color, normal);
}

} // verus!
