use ferron::culling::Culling;
use ferron::occlusion::{OcclusionPass, OcclusionTest};
use ferron::scene_choice::SceneChoice;
use ferron::settings::{DecalSettings, Diagnostics};
use ferron::assets::{texture_slots, MaterialHandle, MeshHandle, Tables, TextureFormat, TextureHandle};

#[test]
fn counts_live_with_the_switch() {
    let mut culling = Culling::default();
    assert!(culling.enabled);
    assert_eq!((culling.visible(), culling.total(), culling.culled()), (None, 0, None));
    culling.record(Some(412), 1000);
    assert_eq!((culling.visible(), culling.total(), culling.culled()), (Some(412), 1000, Some(588)));
    // More visible than there are never counts backwards.
    culling.record(Some(5), 3);
    assert_eq!(culling.culled(), Some(0));
    // The dispatch keeps its answer on the device.
    culling.record(None, 1000);
    assert_eq!((culling.visible(), culling.total(), culling.culled()), (None, 1000, None));
    assert!(culling.enabled);
}

#[test]
fn switches_start_where_they_should() {
    assert!(DecalSettings::default().enabled);
    let _ = Diagnostics::default();
}

#[test]
fn scenes_are_chosen_by_name() {
    for name in ["", "  ", "demo", "rig", "Default", " DEMO\n"] {
        assert_eq!(SceneChoice::from_name(name), Some(SceneChoice::Demo), "{name:?}");
    }
    for name in ["showcase", "Courtyard"] {
        assert_eq!(SceneChoice::from_name(name), Some(SceneChoice::Showcase));
    }
    for name in ["sponza", "CRYTEK"] {
        assert_eq!(SceneChoice::from_name(name), Some(SceneChoice::Sponza));
    }
    assert_eq!(SceneChoice::from_name("sponza2"), None);
    assert_eq!(SceneChoice::from_env(Some("nowhere")), SceneChoice::Demo);
    assert_eq!(SceneChoice::from_env(Some("showcase")), SceneChoice::Showcase);
    assert_eq!(SceneChoice::from_env(None), SceneChoice::default());
    for choice in [SceneChoice::Demo, SceneChoice::Showcase, SceneChoice::Sponza] {
        assert_eq!(SceneChoice::from_name(choice.label()), Some(choice));
    }
}

#[test]
fn pyramids_start_empty_and_take_turns() {
    let mut pass = OcclusionPass::new();
    assert_eq!(pass.test(true), OcclusionTest { pyramid: None, live: false });
    let begin = pass.begin_frame(true, [1920, 1080]);
    let shape = begin.allocate.unwrap();
    assert_eq!((shape.base, shape.levels, begin.live), ([960, 540], 6, false));
    assert_eq!((pass.hiz_view(), pass.history_view()), (1, 0));
    let written = pass.hiz_view();
    let begin = pass.begin_frame(true, [1920, 1080]);
    assert!(begin.allocate.is_none() && begin.live);
    assert_eq!(pass.history_view(), written);
    assert_eq!(pass.test(begin.live), OcclusionTest { pyramid: Some(written), live: true });
    // Another extent starts over.
    let begin = pass.begin_frame(true, [20, 10]);
    assert_eq!(begin.allocate.unwrap().levels, 4);
    assert!(!begin.live);
    let begin = pass.begin_frame(false, [20, 10]);
    assert!(begin.allocate.is_none() && !begin.live);
    assert_eq!(pass.test(true), OcclusionTest { pyramid: None, live: false });
    assert!(pass.begin_frame(true, [20, 10]).allocate.is_some());
}

#[test]
fn a_full_sampler_array_hands_out_the_default() {
    let mut tables = Tables::new(4);
    assert_eq!(tables.load_mesh(), MeshHandle(0));
    assert_eq!(tables.load_mesh(), MeshHandle(1));
    assert_eq!(tables.load_material(), MaterialHandle(1));
    let color = tables.load_texture(true);
    assert_eq!((color.handle, color.upload), (TextureHandle(2), Some(TextureFormat::Rgba8Srgb)));
    let data = tables.load_texture(false);
    assert_eq!((data.handle, data.upload), (TextureHandle(3), Some(TextureFormat::Rgba8Unorm)));
    let full = tables.load_texture(true);
    assert_eq!((full.handle, full.upload), (TextureHandle(0), None));
    assert_eq!(tables.textures, 4);
}

#[test]
fn a_new_entry_makes_only_its_own_tables_stale() {
    let mut tables = Tables::new(16);
    let stale = tables.refresh();
    assert!(stale.material_buffer && stale.texture_set && stale.shadow_texture_set);
    let stale = tables.refresh();
    assert!(!stale.material_buffer && !stale.texture_set && !stale.prepass_material_set);
    tables.load_texture(true);
    let stale = tables.refresh();
    assert!(stale.texture_set && stale.prepass_texture_set && stale.shadow_texture_set);
    assert!(!stale.material_buffer && !stale.material_set && !stale.shadow_material_set);
    tables.load_material();
    let stale = tables.refresh();
    assert!(stale.material_buffer && stale.material_set);
    assert!(stale.prepass_material_set && stale.shadow_material_set);
    assert!(!stale.texture_set && !stale.prepass_texture_set);
    tables.load_mesh();
    let stale = tables.refresh();
    assert!(!stale.material_buffer && !stale.texture_set);
}

#[test]
fn no_sampler_slot_is_left_unwritten() {
    assert_eq!(texture_slots(5, 3), vec![0, 1, 2, 0, 0]);
    assert_eq!(texture_slots(2, 3), vec![0, 1]);
    assert!(texture_slots(0, 3).is_empty());
}
