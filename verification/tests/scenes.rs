use ferron::library::{
    Asset, Library, LoadAction, MaterialKey, MeshKey, Shape, TextureKey, TextureSource, BlendMode,
    Layer, Color, SWEEP, STEPS, WALL, WALL_DEPTH, WALL_TILE,
};
use ferron::assets::{MaterialHandle, MeshHandle, TextureHandle};
use ferron::scene::{build_default_scene, Air, Body, Point, Scene, Spawn, Turn};
use ferron::scene_choice::SceneChoice;
use ferron::showcase::{build_showcase_scene, quarters};
use ferron::textures::hash_bits;
use std::collections::HashSet;

/// Load everything, numbering each table from where it starts.
fn loaded() -> (Library, Vec<LoadAction>) {
    let mut library = Library::new();
    let mut actions = Vec::new();
    let (mut meshes, mut textures, mut materials) = (0, 2, 1);
    while let Some(action) = library.load_library() {
        let next = match action {
            LoadAction::Mesh(_) => &mut meshes,
            LoadAction::Texture { .. } => &mut textures,
            LoadAction::Material { .. } => &mut materials,
        };
        library.loaded(*next, true);
        *next += 1;
        actions.push(action);
    }
    (library, actions)
}

#[test]
fn the_library_loads_each_thing_once() {
    let (library, actions) = loaded();
    assert_eq!(actions.len(), STEPS);
    let assets: HashSet<String> =
        library.assets.loaded.iter().map(|loaded| format!("{:?}", loaded.asset)).collect();
    assert_eq!(assets.len(), STEPS);
    assert_eq!(library.assets.bounded.len(), 6);
    assert_eq!(library.assets.blends.len(), 31);
    assert_eq!(library.mesh(MeshKey::Cube), MeshHandle(0));
    assert_eq!(library.mesh(MeshKey::SpherePlain), MeshHandle(5));
    assert_eq!(library.material(MaterialKey::Gold), MaterialHandle(1));
    assert_eq!(library.material(MaterialKey::Wax), MaterialHandle(31));
    assert_eq!(library.texture(TextureKey::ProcAlbedo), TextureHandle(2));
    assert_eq!(library.texture(TextureKey::BrickHeight), TextureHandle(15));
    assert_eq!(library.assets.handle(Asset::Material(MaterialKey::Metal(9))), None);
}

#[test]
fn a_mesh_without_bounds_is_not_culled() {
    let mut library = Library::new();
    library.loaded(7, false);
    library.loaded(8, true);
    assert_eq!(library.assets.bounded, vec![MeshHandle(8)]);
}

#[test]
fn materials_are_bound_to_their_maps() {
    let (_, actions) = loaded();
    for action in actions {
        if let LoadAction::Material { material, maps, blend, authored } = action {
            let bound = [maps.albedo, maps.normal, maps.metallic_roughness, maps.height];
            let expected = match material {
                MaterialKey::Textured => [Some(2), Some(3), Some(4), None],
                MaterialKey::Foliage => [Some(8), None, None, None],
                MaterialKey::Rock => [Some(9), Some(10), Some(11), Some(12)],
                MaterialKey::Stone => [Some(9), Some(10), Some(11), None],
                MaterialKey::Brick => [Some(13), Some(14), None, Some(15)],
                MaterialKey::BrickFlat => [Some(13), Some(14), None, None],
                _ => [None; 4],
            };
            assert_eq!(bound, expected.map(|handle| handle.map(TextureHandle)), "{material:?}");
            let wanted = match material {
                MaterialKey::Foliage => BlendMode::Masked,
                MaterialKey::Glass => BlendMode::Blend,
                MaterialKey::Crystal | MaterialKey::Frosted => BlendMode::Transmissive,
                _ => BlendMode::Opaque,
            };
            assert_eq!(blend, wanted);
            assert_eq!(authored.parallax_depth.is_some(), maps.height.is_some());
        }
    }
}

/// Every material that was loaded is listed with how it blends, in order.
#[test]
fn every_material_is_listed_with_its_blend() {
    let (library, actions) = loaded();
    let modes = actions.iter().filter_map(|action| match action {
        LoadAction::Material { blend, .. } => Some(*blend),
        _ => None,
    });
    let expected: Vec<_> =
        modes.enumerate().map(|(i, blend)| (MaterialHandle(i as u32 + 1), blend)).collect();
    assert_eq!(library.assets.blends, expected);
}

#[test]
fn names_are_what_scenes_look_up() {
    let names: Vec<String> = (0..SWEEP).map(|step| MaterialKey::Metal(step).name()).collect();
    assert_eq!(names, vec!["metal_000", "metal_025", "metal_050", "metal_075", "metal_100"]);
    assert_eq!(MaterialKey::Dielectric(1).name(), "dielectric_025");
    assert_eq!(MaterialKey::BrickFlat.name(), "brick_flat");
    assert_eq!(MeshKey::PlanePlain.name(), "plane_plain");
    assert_eq!(TextureKey::ProcMetalRough.name(), "proc_metal_rough");
    let (library, _) = loaded();
    let mut seen = HashSet::new();
    for loaded in &library.assets.loaded {
        let name = match loaded.asset {
            Asset::Mesh(key) => format!("mesh {}", key.name()),
            Asset::Texture(key) => format!("texture {}", key.name()),
            Asset::Material(key) => format!("material {}", key.name()),
        };
        assert!(seen.insert(name));
    }
}

/// Ten-thousandths are exact: divided back they are the number that was meant.
#[test]
fn materials_are_authored_in_ten_thousandths() {
    let gold = MaterialKey::Gold.authored();
    assert_eq!(gold.base_color, Color { r: 10_000, g: 8_400, b: 4_000 });
    assert_eq!(gold.base_color.g as f32 / 10_000.0, 0.84);
    assert_eq!(gold.roughness as f32 / 10_000.0, 0.18);
    let ember = MaterialKey::Ember.authored().emissive.unwrap();
    assert_eq!(ember.r as f32 / 10_000.0, 2600.0);
    assert_eq!(MaterialKey::Foliage.authored().thickness.unwrap() as f32 / 10_000.0, 0.0004);
    let roughness: Vec<u32> =
        (0..SWEEP).map(|step| MaterialKey::Dielectric(step).authored().roughness).collect();
    assert_eq!(roughness, vec![0, 2_500, 5_000, 7_500, 10_000]);
    let wax = MaterialKey::Wax.authored();
    assert_eq!((wax.thickness, wax.subsurface_forward_scatter), (Some(30), Some(80_000)));
    assert_eq!(MaterialKey::Glass.authored().alpha, Some(3_500));
    assert_eq!(MaterialKey::Ground.authored().alpha, None);
}

#[test]
fn textures_say_where_they_come_from() {
    assert_eq!(
        TextureKey::ProcAlbedo.source(),
        TextureSource::Checkerboard {
            size: 256,
            checks: 8,
            first: (220, 60, 50),
            second: (240, 240, 245)
        }
    );
    assert_eq!(TextureKey::RockHeight.source(), TextureSource::RockFile { layer: Layer::Height });
    assert_eq!(
        TextureKey::BrickNormal.source(),
        TextureSource::Masonry {
            size: WALL,
            columns: 8,
            rows: 4,
            tile: WALL_TILE,
            depth: WALL_DEPTH,
            layer: Layer::Normal
        }
    );
    assert!(TextureKey::LeafAlbedo.srgb() && !TextureKey::RockNormal.srgb());
    assert_eq!(MeshKey::Sphere.shape(), (Shape::Sphere { segments: 32, rings: 16 }, false));
    assert_eq!(MeshKey::CubePlain.shape(), (Shape::Cube, true));
}

fn find<'a>(scene: &'a Scene, name: &str) -> &'a Spawn {
    scene.spawns.iter().find(|spawn| spawn.name == name).unwrap()
}

fn at(x: i32, y: i32, z: i32) -> Point {
    Point { x, y, z }
}

fn mark(opacity: Option<u32>) -> Body {
    Body::Scorch {
        albedo: TextureKey::ScorchAlbedo,
        normal: TextureKey::ScorchNormal,
        metallic_roughness: TextureKey::ScorchRough,
        angle: 55,
        affects_surface: true,
        opacity,
    }
}

#[test]
fn the_rig_is_laid_out() {
    let scene = build_default_scene();
    assert_eq!(scene.spawns.len(), 139);
    let names: HashSet<&str> = scene.spawns.iter().map(|spawn| spawn.name.as_str()).collect();
    assert_eq!(names.len(), 139);
    let cube = find(&scene, "Cube 0");
    assert_eq!(cube.at, at(-9_000, 0, -9_000));
    assert_eq!(
        cube.body,
        Body::Spinning { mesh: MeshKey::Cube, material: MaterialKey::Rock, speed: 500 }
    );
    // Column three, row seven.
    let cube = &scene.spawns[37];
    assert_eq!(cube.name, "Cube 37");
    assert_eq!(cube.at, at(-3_000, 0, 5_000));
    assert_eq!(
        cube.body,
        Body::Spinning { mesh: MeshKey::Cube, material: MaterialKey::Textured, speed: 500 }
    );
    for (index, spawn) in scene.spawns[..100].iter().enumerate() {
        let (x, z) = (index / 10, index % 10);
        let palette = [
            MaterialKey::Gold,
            MaterialKey::Copper,
            MaterialKey::Glossy,
            MaterialKey::Clay,
            MaterialKey::Neon,
        ];
        let wanted = match (x + z) % 3 {
            0 => MaterialKey::Rock,
            1 => MaterialKey::Textured,
            _ => palette[(x + z) % 5],
        };
        let Body::Spinning { material, speed, .. } = spawn.body else {
            panic!("{spawn:?}");
        };
        assert_eq!(material, wanted);
        assert_eq!(speed, 500 + ((x + z) % 5) as u32 * 400);
    }
    assert_eq!(find(&scene, "Ground").size, at(30_000, 500, 30_000));
    assert_eq!(find(&scene, "Metal 75%").at, at(3_000, 2_500, 11_000));
    assert_eq!(find(&scene, "Dielectric 0%").at, at(-6_000, 2_500, 14_000));
    assert_eq!(find(&scene, "Glass 2").turn, Turn::Yaw(-20));
    assert_eq!(find(&scene, "wax").at, at(8_700, 6_000, 13_000));
    assert_eq!(find(&scene, "Wall (flat)").size, at(4_000, 1_000, 2_000));
    assert_eq!(find(&scene, "Foliage 1.1").turn, Turn::Stood(55));
    assert_eq!(find(&scene, "Scorch 1").size, at(3_500, 3_500, 1_400));
    assert_eq!(find(&scene, "Scorch 0").body, mark(None));
    assert_eq!(find(&scene, "Scorch (wall)").body, mark(Some(750)));
    assert_eq!(scene.sky, (1024, 512));
    assert_eq!(scene.spawns.last().unwrap().name, "Spot Light");
    assert_eq!(scene.eye.position, at(0, 12_000, 22_000));
    assert_eq!((scene.air, scene.exposure, scene.sky_luminance), (None, None, None));
}

#[test]
fn the_courtyard_is_laid_out() {
    let scene = build_showcase_scene();
    assert_eq!(scene.spawns.len(), 73 + 8 + 3 + 3 + 3 + 3 + 9 + 30 + 5 + 3);
    let names: HashSet<&str> = scene.spawns.iter().map(|spawn| spawn.name.as_str()).collect();
    assert_eq!(names.len(), scene.spawns.len());
    assert_eq!(find(&scene, "Flagstone 0").at, at(-7_000, 0, -9_000));
    assert_eq!(find(&scene, "Flagstone 71").at, at(7_000, 0, 7_000));
    assert_eq!(find(&scene, "Substrate").at, at(0, -350, -1_000));
    assert_eq!(find(&scene, "West Wall 0").at, at(-8_250, 2_000, -7_700));
    assert_eq!(find(&scene, "West Wall 0").size, at(500, 4_000, 2_600));
    assert_eq!(find(&scene, "North Wall 1").at, at(6_250, 1_600, -9_250));
    assert_eq!(find(&scene, "East Wall 1").at, at(8_250, 1_000, -3_000));
    assert_eq!(find(&scene, "Gate Lintel").at, at(-8_250, 3_600, -4_800));
    assert_eq!(find(&scene, "Gate Lintel").size, at(500, 800, 3_200));
    assert_eq!(find(&scene, "Threshold 1").at, at(-7_150, 60, -4_800));
    assert_eq!(find(&scene, "Crystal Plinth").size, at(1_200, 500, 1_200));
    assert_eq!(find(&scene, "Crystal").at, at(3_000, 1_025, 1_200));
    assert_eq!(find(&scene, "Glazing 1").turn, Turn::Lean { yaw: -22, lean: -11 });
    assert_eq!(find(&scene, "Overgrowth 11.1").at, at(-8_250, 3_400, 2_600));
    assert_eq!(find(&scene, "Overgrowth 11.1").turn, Turn::Stood(70));
    assert_eq!(find(&scene, "East Facing 1").at, at(7_980, 3_000, -7_000));
    assert_eq!(find(&scene, "Fire").at, at(-5_000, 520, 600));
    assert_eq!(find(&scene, "Scorch 1").size, at(2_800, 2_800, 1_120));
    assert_eq!(find(&scene, "Scorch 1").body, mark(Some(1_000)));
    assert_eq!(find(&scene, "Scorch (pier)").body, mark(Some(700)));
    assert_eq!(scene.sun, at(798, -379, 469));
    assert_eq!(scene.sky, (1024, 512));
    assert_eq!(
        scene.air,
        Some(Air { density: 14, height_falloff: 100, anisotropy: 750, volumetric: true })
    );
    assert_eq!(scene.eye.fov, Some(45));
    assert_eq!((scene.exposure, scene.sky_luminance), (Some(-1_000), Some(70)));
}

/// Each stone is settled and turned by chances drawn from its place.
#[test]
fn stones_are_laid_by_chance() {
    let scene = build_showcase_scene();
    let mut index = 0;
    for ix in -4..4i32 {
        for iz in -5..4i32 {
            let seed = (ix.wrapping_mul(73_856_093) ^ iz.wrapping_mul(19_349_663)) as u32;
            let stone = &scene.spawns[index];
            assert_eq!(stone.at, at(ix * 2_000 + 1_000, 0, iz * 2_000 + 1_000));
            let Body::Settled { settle, .. } = stone.body else {
                panic!("{stone:?}");
            };
            assert_eq!(settle, hash_bits(seed));
            let fraction = hash_bits(seed ^ 0x9e37_79b9) as f32 / u32::MAX as f32;
            assert_eq!(stone.turn, Turn::Quarters((fraction * 4.0).floor() as u32));
            index += 1;
        }
    }
}

/// Quarter turns are those of the fraction in single precision, up to the last
/// bit on either side of each quarter.
#[test]
fn quarters_round_as_the_fraction_does() {
    let floating = |bits: u32| (bits as f32 / u32::MAX as f32 * 4.0).floor() as u32;
    let mut bits = vec![0, 1, u32::MAX];
    for edge in [0x4000_0000u64, 0x8000_0000, 0xc000_0000, 0x1_0000_0000] {
        for near in edge - 400..edge + 400 {
            bits.extend(u32::try_from(near));
        }
    }
    for bits in bits {
        assert_eq!(quarters(bits), floating(bits), "{bits:#x}");
    }
}

/// What a scene draws, the library has.
#[test]
fn scenes_draw_what_is_loaded() {
    let (library, _) = loaded();
    for scene in [build_default_scene(), build_showcase_scene()] {
        for spawn in &scene.spawns {
            let (mesh, material) = match spawn.body {
                Body::Mesh { mesh, material }
                | Body::Spinning { mesh, material, .. }
                | Body::Settled { mesh, material, .. } => (mesh, material),
                Body::Scorch { albedo, normal, metallic_roughness, .. } => {
                    for map in [albedo, normal, metallic_roughness] {
                        assert!(library.assets.handle(Asset::Texture(map)).is_some());
                    }
                    continue;
                }
                _ => continue,
            };
            assert!(library.assets.handle(Asset::Mesh(mesh)).is_some());
            assert!(library.assets.handle(Asset::Material(material)).is_some());
        }
    }
}

/// A model that cannot be loaded opens the rig, never an empty world.
#[test]
fn a_missing_model_opens_the_rig() {
    let count = |choice: SceneChoice, loaded| choice.build(loaded).map(|scene| scene.spawns.len());
    assert_eq!(count(SceneChoice::Demo, true), Some(139));
    assert_eq!(count(SceneChoice::Showcase, false), Some(140));
    assert_eq!(count(SceneChoice::Sponza, true), None);
    assert_eq!(count(SceneChoice::Sponza, false), Some(139));
}
