use voxelize::drawing::Primitive;
use voxelize::items::get_item;
use voxelize::mob::{get_mob, Goat};
use voxelize::model::{str_eq, Alternate, CuboidPart, FlatPart, JsonModel, Model, Offsets, Part};
use voxelize::skin::Skin;
use voxelize::transform::{Plane, Rotation, TransformStep};

fn offsets() -> Offsets {
    Offsets {
        top: [1, 2],
        bottom: [3, 4],
        right: [5, 6],
        left: [7, 8],
        front: [9, 10],
        back: [11, 12],
    }
}

fn arm() -> Part {
    Part::Cuboid(CuboidPart {
        name: "arm".to_string(),
        dimensions: [4, 12, 4],
        offsets: offsets(),
        position: vec![TransformStep::Translate { dx: -4, dy: -8, dz: -2 }],
        alternates: vec![Alternate {
            name: "forward".to_string(),
            position: vec![TransformStep::Rotate(Rotation::XNeg)],
        }],
    })
}

fn cape() -> Part {
    Part::Flat(FlatPart {
        name: "cape".to_string(),
        dimensions: [10, 16],
        offset: [1, 1],
        position: vec![],
        alternates: vec![],
    })
}

fn figure() -> JsonModel {
    JsonModel::new("figure".to_string(), "figure.png".to_string(), vec![arm(), cape()])
}

fn steps(p: &Primitive) -> Vec<TransformStep> {
    match p {
        Primitive::Cuboid(c) => c.position.steps.clone(),
        Primitive::Plane(q) => q.position.steps.clone(),
    }
}

#[test]
fn parts_follow_the_description() {
    let model = figure();
    let parts = model.parts();
    assert_eq!(parts.len(), 2);
    match &parts[0] {
        Primitive::Cuboid(c) => {
            assert_eq!((c.dimensions.x, c.dimensions.y, c.dimensions.z), (4, 12, 4));
            assert_eq!(c.offsets.top, (1, 2));
            assert_eq!(c.offsets.back, (11, 12));
        }
        Primitive::Plane(_) => panic!("expected a cuboid"),
    }
    match &parts[1] {
        Primitive::Plane(p) => {
            assert_eq!((p.dimensions.x, p.dimensions.y), (10, 16));
            assert_eq!(p.offset, (1, 1));
        }
        Primitive::Cuboid(_) => panic!("expected a plane"),
    }
    assert_eq!(steps(&parts[0]), vec![TransformStep::Translate { dx: -4, dy: -8, dz: -2 }]);
}

#[test]
fn chosen_alternate_replaces_the_placement() {
    let mut model = figure();
    model.use_alternate("arm", "forward");
    assert_eq!(model.alternates, vec![("arm".to_string(), "forward".to_string())]);
    let parts = model.parts();
    assert_eq!(steps(&parts[0]), vec![TransformStep::Rotate(Rotation::XNeg)]);
}

#[test]
fn unknown_part_or_alternate_changes_nothing() {
    let mut model = figure();
    model.use_alternate("arm", "backward");
    model.use_alternate("leg", "forward");
    assert!(model.alternates.is_empty());
}

#[test]
fn choosing_again_replaces_the_choice() {
    let mut model = figure();
    model.alternates.push(("arm".to_string(), "sideways".to_string()));
    model.use_alternate("arm", "forward");
    assert_eq!(model.alternates, vec![("arm".to_string(), "forward".to_string())]);
}

#[test]
fn missing_alternate_skips_the_part() {
    let mut model = figure();
    model.alternates.push(("arm".to_string(), "sideways".to_string()));
    let parts = model.parts();
    assert_eq!(parts.len(), 1);
    assert!(matches!(parts[0], Primitive::Plane(_)));
}

#[test]
fn part_names() {
    assert_eq!(arm().name(), "arm");
    assert_eq!(cape().name(), "cape");
}

#[test]
fn tools_and_trident() {
    let axe = get_item("diamond_axe").unwrap();
    assert_eq!(axe.texture, "minecraft/1.20.1/assets/minecraft/textures/item/diamond_axe.png");
    assert_eq!((axe.face.x, axe.face.y, axe.face.width, axe.face.height), (0, 0, 16, 16));
    assert_eq!(
        axe.position.steps,
        vec![TransformStep::Rotate(Rotation::ZPos), TransformStep::Mirror(Plane::XY)]
    );
    let trident = get_item("trident").unwrap();
    assert_eq!(trident.texture, "minecraft/1.20.1/assets/minecraft/textures/entity/trident.png");
    assert_eq!((trident.face.x, trident.face.y, trident.face.width, trident.face.height), (19, 1, 5, 31));
    assert!(get_item("apple").is_none());
    assert!(get_item("wooden_sword").is_some());
}

#[test]
fn goat_has_seven_boxes() {
    assert!(get_mob("cow").is_none());
    let goat = get_mob("goat").unwrap();
    assert_eq!(goat.texture, "minecraft/1.20.1/assets/minecraft/textures/entity/goat/goat.png");
    let parts = goat.parts();
    assert_eq!(parts.len(), 7);
    assert_eq!(
        steps(&parts[0]),
        vec![TransformStep::Rotate(Rotation::XPos), TransformStep::Translate { dx: 2, dy: -10, dz: 7 }]
    );
    let built = Goat::new();
    assert_eq!(built.torso.dimensions.z, 16);
}

#[test]
fn player_skin() {
    let skin = Skin::player("steve");
    assert_eq!(skin.texture, "skins/steve.png");
    let parts = skin.parts();
    assert_eq!(parts.len(), 7);
    assert_eq!(steps(&parts[3]), vec![TransformStep::Translate { dx: -4, dy: -8, dz: -2 }]);
    assert_eq!(
        steps(&parts[4]),
        vec![TransformStep::Mirror(Plane::YZ), TransformStep::Translate { dx: 13, dy: -8, dz: -2 }]
    );
    let forward = skin.right_arm_forward();
    assert_eq!(
        forward.right_arm.position.steps,
        vec![TransformStep::Rotate(Rotation::XNeg), TransformStep::Translate { dx: -4, dy: -8, dz: -5 }]
    );
}

#[test]
fn string_equality() {
    assert!(str_eq("goat", "goat"));
    assert!(!str_eq("goat", "goats"));
}
