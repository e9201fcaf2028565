use ferron::stress::{
    occlusion_rig, spawn_stress_scene, Rng, SpecError, StressSpec, LAYERS, PANEL_COLS, PANEL_ROWS,
    SEED,
};

#[test]
fn a_bare_count_means_meshes() {
    let spec = StressSpec { meshes: 2000, ..Default::default() };
    assert_eq!(spec.meshes, 2000);
    assert!(!spec.is_empty());
    assert!(StressSpec::default().is_empty());
    assert_eq!(StressSpec::from_env(Some(" 2000 ")), Some(spec));
}

#[test]
fn the_generator_is_stable_across_runs() {
    let first: Vec<u64> = (0..4)
        .scan(Rng::new(SEED), |rng, _| Some(rng.next_u64()))
        .collect();
    let second: Vec<u64> = (0..4)
        .scan(Rng::new(SEED), |rng, _| Some(rng.next_u64()))
        .collect();
    assert_eq!(first, second);
    // And it actually varies, rather than repeating one value.
    assert!(first.windows(2).any(|w| w[0] != w[1]));
}

/// Every prop asked for is placed, spread evenly over the layers, and the walls
/// are a bounded overhead.
#[test]
fn the_rig_places_every_prop_and_a_bounded_number_of_panels() {
    let rig = occlusion_rig(4000, &mut Rng::new(SEED));

    assert_eq!(rig.props.len(), 4000);
    assert!(
        rig.panels.len() <= LAYERS * PANEL_COLS * PANEL_ROWS,
        "{} panels",
        rig.panels.len(),
    );
    // And some panels are missing, or the rig is a sealed box in which nothing
    // behind layer zero is ever drawn whatever the test does.
    assert!(rig.panels.len() < LAYERS * PANEL_COLS * PANEL_ROWS);
}

#[test]
fn unit_stays_in_range() {
    let mut rng = Rng::new(SEED);
    for _ in 0..10_000 {
        let value = rng.bits() as f32 / (1u32 << 24) as f32;
        assert!((0.0..1.0).contains(&value), "{value} out of range");
    }
}

/// The published first outputs of the generator from a zero seed.
#[test]
fn the_generator_is_splitmix() {
    let mut rng = Rng::new(0);
    assert_eq!(rng.next_u64(), 0xE220_A839_7B1D_CDAF);
    assert_eq!(rng.next_u64(), 0x6E78_9E6A_A1B9_65F4);
    assert_eq!(rng.next_u64(), 0x06C4_5D18_8009_454F);
    let mut rng = Rng::new(0);
    assert_eq!(rng.bits(), 0xE220_A8);
}

fn error(raw: &str) -> (&'static str, String) {
    match StressSpec::parse(raw) {
        Ok(spec) => panic!("{raw} was read as {spec:?}"),
        Err(SpecError::NotAPair(field)) => ("pair", field),
        Err(SpecError::NotACount(value)) => ("count", value),
        Err(SpecError::UnknownKey(key)) => ("key", key),
    }
}

#[test]
fn a_request_is_read_field_by_field() {
    let spec = StressSpec::parse("meshes=10, colliders = 20,scripts=30,occluded=+40 ");
    assert_eq!(
        spec.unwrap(),
        Some(StressSpec { meshes: 10, colliders: 20, scripts: 30, occluded: 40 })
    );
    // The last word wins, and a zero is a request for none.
    assert_eq!(
        StressSpec::parse("meshes=1,meshes=0").unwrap(),
        Some(StressSpec::default())
    );
    assert_eq!(StressSpec::parse("  ").unwrap(), None);
    assert_eq!(StressSpec::parse("0").unwrap(), Some(StressSpec::default()));
}

#[test]
fn a_wrong_request_is_no_load() {
    assert_eq!(error("meshes"), ("pair", "meshes".to_string()));
    assert_eq!(error("meshes=1,"), ("pair", String::new()));
    assert_eq!(error("meshes= ten"), ("count", " ten".to_string()));
    assert_eq!(error("meshes=-1"), ("count", "-1".to_string()));
    assert_eq!(error("meshes=1=2"), ("count", "1=2".to_string()));
    assert_eq!(error("meshes=99999999999999999999999"), ("count", "99999999999999999999999".to_string()));
    assert_eq!(error(" lamps =3"), ("key", "lamps".to_string()));
    // The first field that is wrong is the one reported.
    assert_eq!(error("lamps=3,meshes"), ("key", "lamps".to_string()));
    assert_eq!(StressSpec::from_env(Some("lamps=3")), None);
    assert_eq!(StressSpec::from_env(None), None);
}

/// The props behind each wall are an even share, with the remainder on the last.
#[test]
fn props_are_shared_over_the_layers() {
    let rig = occlusion_rig(20, &mut Rng::new(SEED));
    let counts: Vec<usize> = (0..LAYERS)
        .map(|layer| rig.props.iter().filter(|prop| prop.layer == layer).count())
        .collect();
    assert_eq!(counts, vec![3, 3, 3, 3, 3, 5]);
    assert_eq!(occlusion_rig(0, &mut Rng::new(SEED)).props.len(), 0);
    for panel in &rig.panels {
        assert!(panel.layer < LAYERS && panel.row < PANEL_ROWS && panel.column < PANEL_COLS);
    }
}

/// The rig draws a number for each place in a wall and four for each prop, and a
/// panel is left out below a quarter.
#[test]
fn the_rig_is_drawn_in_order() {
    let rig = occlusion_rig(7, &mut Rng::new(5));
    let mut rng = Rng::new(5);
    let mut panels = Vec::new();
    let mut props = Vec::new();
    for layer in 0..LAYERS {
        for row in 0..PANEL_ROWS {
            for column in 0..PANEL_COLS {
                if rng.bits() as f32 / (1u32 << 24) as f32 >= 0.25 {
                    panels.push((layer, row, column));
                }
            }
        }
        let share = 7 / LAYERS + if layer == LAYERS - 1 { 7 % LAYERS } else { 0 };
        for _ in 0..share {
            props.push((layer, rng.bits(), rng.bits(), rng.bits(), rng.bits()));
        }
    }
    let laid: Vec<_> = rig.panels.iter().map(|p| (p.layer, p.row, p.column)).collect();
    assert_eq!(laid, panels);
    let placed: Vec<_> =
        rig.props.iter().map(|p| (p.layer, p.depth, p.scale, p.across, p.along)).collect();
    assert_eq!(placed, props);
}

#[test]
fn a_load_needs_something_to_draw() {
    let spec = StressSpec { meshes: 3, colliders: 7, scripts: 0, occluded: 6 };
    assert!(spawn_stress_scene(&spec, false, true).is_none());
    assert!(spawn_stress_scene(&spec, true, false).is_none());
    let scene = spawn_stress_scene(&spec, true, true).unwrap();
    let again = spawn_stress_scene(&spec, true, true).unwrap();
    assert_eq!(scene.cubes, again.cubes);
    assert_eq!(scene.cubes.len(), 3);
    assert_eq!(scene.colliders.len(), 7);
    assert_eq!(scene.rig.props.len(), 6);
    let boxes: Vec<bool> = scene.colliders.iter().map(|c| c.is_box).collect();
    assert_eq!(boxes, vec![true, false, true, false, true, false, true]);
    let triggers: Vec<bool> = scene.colliders.iter().map(|c| c.is_trigger).collect();
    assert_eq!(triggers, vec![true, false, false, true, false, false, true]);
    let mut rng = Rng::new(SEED);
    assert_eq!(scene.cubes[0].x, rng.bits());
    assert_eq!(scene.cubes[0].y, rng.bits());
    assert_eq!(scene.cubes[0].z, rng.bits());
    assert_eq!(scene.cubes[0].scale, rng.bits());
}

/// A kind of which none is asked for is skipped entirely: no walls without props.
#[test]
fn a_zero_skips_its_kind() {
    let spec = StressSpec::parse("meshes=3").unwrap().unwrap();
    let scene = spawn_stress_scene(&spec, true, true).unwrap();
    assert_eq!(scene.cubes.len(), 3);
    assert!(scene.colliders.is_empty());
    assert!(scene.rig.panels.is_empty() && scene.rig.props.is_empty());
    // One prop brings the walls, drawn where the cubes left off.
    let spec = StressSpec { occluded: 1, ..spec };
    let scene = spawn_stress_scene(&spec, true, true).unwrap();
    let mut rng = Rng::new(SEED);
    for _ in 0..12 {
        rng.next_u64();
    }
    let rig = occlusion_rig(1, &mut rng);
    assert!(!rig.panels.is_empty());
    assert_eq!(scene.rig.panels, rig.panels);
    assert_eq!(scene.rig.props, rig.props);
    let nothing = spawn_stress_scene(&StressSpec::default(), true, true).unwrap();
    assert!(nothing.cubes.is_empty() && nothing.rig.panels.is_empty());
}
