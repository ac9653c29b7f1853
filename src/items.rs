use vstd::prelude::*;

use crate::drawing::{face_draw_outcome, Brush, DrawError, Face, FaceView, Texture};
use crate::materials::Block as CatalogEntry;
use crate::model::str_eq;
use crate::nbt::{structure_wf, Structure};
use crate::transform::{Plane, Rotation, Transform, TransformStep};

verus! {

/// Where the game's textures live, relative to the working directory.
pub const TEXTURE_DIR: &'static str = "minecraft/1.20.1/assets/minecraft/textures/";

/// A flat item: one texture rectangle, painted through the whole voxel
/// thickness, and its placement.
#[derive(Debug)]
pub struct Item {
    pub texture: String,
    pub face: Face,
    pub position: Transform,
}

/// The names of the hand tools that can be drawn.
pub open spec fn is_tool_name(s: Seq<char>) -> bool {
    ||| s == "diamond_axe"@
    ||| s == "diamond_hoe"@
    ||| s == "diamond_pickaxe"@
    ||| s == "diamond_shovel"@
    ||| s == "diamond_sword"@
    ||| s == "golden_axe"@
    ||| s == "golden_hoe"@
    ||| s == "golden_pickaxe"@
    ||| s == "golden_shovel"@
    ||| s == "golden_sword"@
    ||| s == "iron_axe"@
    ||| s == "iron_hoe"@
    ||| s == "iron_pickaxe"@
    ||| s == "iron_shovel"@
    ||| s == "iron_sword"@
    ||| s == "netherite_axe"@
    ||| s == "netherite_hoe"@
    ||| s == "netherite_pickaxe"@
    ||| s == "netherite_shovel"@
    ||| s == "netherite_sword"@
    ||| s == "stone_axe"@
    ||| s == "stone_hoe"@
    ||| s == "stone_pickaxe"@
    ||| s == "stone_shovel"@
    ||| s == "stone_sword"@
    ||| s == "wooden_axe"@
    ||| s == "wooden_hoe"@
    ||| s == "wooden_pickaxe"@
    ||| s == "wooden_shovel"@
    ||| s == "wooden_sword"@
}

/// A tool: the whole 16 by 16 item texture, stood upright.
pub open spec fn is_tool(item: Item, name: Seq<char>) -> bool {
    &&& item.texture@ == TEXTURE_DIR@ + "item/"@ + name + ".png"@
    &&& item.face@ == (FaceView { x: 0, y: 0, width: 16, height: 16, steps: Seq::empty() })
    &&& item.position.step_seq() == seq![
        TransformStep::Rotate(Rotation::ZPos),
        TransformStep::Mirror(Plane::XY),
    ]
    &&& item.position.scaling == 1
}

/// The trident: its 5 by 31 rectangle of the entity texture, laid flat.
pub open spec fn is_trident(item: Item) -> bool {
    &&& item.texture@ == TEXTURE_DIR@ + "entity/trident.png"@
    &&& item.face@ == (FaceView { x: 19, y: 1, width: 5, height: 31, steps: Seq::empty() })
    &&& item.position.step_seq() == seq![TransformStep::Rotate(Rotation::XPos)]
    &&& item.position.scaling == 1
}

fn is_tool_named(name: &str) -> (r: bool)
    ensures
        r == is_tool_name(name@),
{
    str_eq(name, "diamond_axe") || str_eq(name, "diamond_hoe") || str_eq(name, "diamond_pickaxe")
        || str_eq(name, "diamond_shovel") || str_eq(name, "diamond_sword") || str_eq(
        name,
        "golden_axe",
    ) || str_eq(name, "golden_hoe") || str_eq(name, "golden_pickaxe") || str_eq(
        name,
        "golden_shovel",
    ) || str_eq(name, "golden_sword") || str_eq(name, "iron_axe") || str_eq(name, "iron_hoe")
        || str_eq(name, "iron_pickaxe") || str_eq(name, "iron_shovel") || str_eq(name, "iron_sword")
        || str_eq(name, "netherite_axe") || str_eq(name, "netherite_hoe") || str_eq(
        name,
        "netherite_pickaxe",
    ) || str_eq(name, "netherite_shovel") || str_eq(name, "netherite_sword") || str_eq(
        name,
        "stone_axe",
    ) || str_eq(name, "stone_hoe") || str_eq(name, "stone_pickaxe") || str_eq(
        name,
        "stone_shovel",
    ) || str_eq(name, "stone_sword") || str_eq(name, "wooden_axe") || str_eq(name, "wooden_hoe")
        || str_eq(name, "wooden_pickaxe") || str_eq(name, "wooden_shovel") || str_eq(
        name,
        "wooden_sword",
    )
}

/// The item of the given name: one of the tools or the trident.
pub fn get_item(name: &str) -> (r: Option<Item>)
    ensures
        is_tool_name(name@) ==> (r matches Some(item) && is_tool(item, name@)),
        !is_tool_name(name@) && name@ == "trident"@ ==> (r matches Some(item) && is_trident(item)),
        !is_tool_name(name@) && name@ != "trident"@ ==> r is None,
{
    if is_tool_named(name) {
        Some(tool(name))
    } else if str_eq(name, "trident") {
        Some(trident())
    } else {
        None
    }
}

fn tool(name: &str) -> (r: Item)
    ensures
        is_tool(r, name@),
{
    let mut texture = String::from_str(TEXTURE_DIR);
    texture.append("item/");
    texture.append(name);
    texture.append(".png");
    let position = Transform::new().rotate(Rotation::ZPos).mirror(Plane::XY);
    proof {
        assert(position.step_seq() =~= seq![
            TransformStep::Rotate(Rotation::ZPos),
            TransformStep::Mirror(Plane::XY),
        ]);
    }
    let face = Face { x: 0, y: 0, width: 16, height: 16, transform: Transform::new() };
    Item { texture, face, position }
}

fn trident() -> (r: Item)
    ensures
        is_trident(r),
{
    let mut texture = String::from_str(TEXTURE_DIR);
    texture.append("entity/trident.png");
    let position = Transform::new().rotate(Rotation::XPos);
    proof {
        assert(position.step_seq() =~= seq![TransformStep::Rotate(Rotation::XPos)]);
    }
    let face = Face { x: 19, y: 1, width: 5, height: 31, transform: Transform::new() };
    Item { texture, face, position }
}

impl Item {
    /// Draws the item's face at the given scale with the `Full` brush, then
    /// placed by the item's position. Fails with `Overflow`, drawing nothing,
    /// when the scale does not fit in `i32`.
    pub fn draw(
        &self,
        structure: &mut Structure,
        scaling: u32,
        texture: &Texture,
        catalog: &Vec<CatalogEntry>,
    ) -> (r: Result<(), DrawError>)
        requires
            texture.wf(),
        ensures
            scaling > i32::MAX ==> r == Err::<(), DrawError>(DrawError::Overflow)
                && final(structure).view_parts() == old(structure).view_parts(),
            scaling <= i32::MAX ==> (final(structure).view_parts(), r) == face_draw_outcome(
                old(structure).view_parts(),
                self.face@,
                *texture,
                catalog@,
                Seq::empty(),
                scaling as int,
                self.position.step_seq(),
                Brush::Full,
            ),
            final(structure).data_version == old(structure).data_version,
            final(structure).size == old(structure).size,
            structure_wf(old(structure).view_parts()) ==> structure_wf(final(structure).view_parts()),
    {
        if scaling > i32::MAX as u32 {
            return Err(DrawError::Overflow);
        }
        let pre_transform = Transform::with_scale(scaling);
        self.face.draw(structure, texture, catalog, &pre_transform, &self.position, Brush::Full)
    }
}

} // verus!
