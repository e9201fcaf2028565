use ferron::draws::{
    blended_draws, draw_runs, pushed_material, record_atlas, AtlasCaster, BlendedDraw, CasterSets,
    Draw, FaceDraw, Run,
};

fn run(start: usize, len: usize, mesh: u32, material: u32) -> Run {
    Run { start, len, mesh, material }
}

#[test]
fn pipelines_switch_only_where_they_have_to() {
    let masked = [false, true, false];
    let runs = [
        run(0, 2, 0, 0),
        run(2, 1, 1, 2),
        // No such mesh: skipped, and nothing is bound for it.
        run(3, 4, 9, 1),
        run(7, 3, 1, 1),
        run(10, 1, 0, 1),
        // A material that was never loaded is solid.
        run(11, 1, 0, 7),
    ];
    let draws = draw_runs(&runs, 2, &masked, 100);
    let draw = |bind, masked, mesh, material, object_base, instances| Draw {
        bind,
        masked,
        mesh,
        material,
        object_base,
        instances,
    };
    assert_eq!(
        draws,
        vec![
            draw(Some(false), false, 0, 0, 100, 2),
            draw(None, false, 1, 2, 102, 1),
            draw(Some(true), true, 1, 1, 107, 3),
            draw(None, true, 0, 1, 110, 1),
            draw(Some(false), false, 0, 7, 111, 1),
        ]
    );
    assert!(draw_runs(&[], 2, &masked, 0).is_empty());
}

#[test]
fn the_atlas_clears_before_it_draws() {
    let casters = [
        AtlasCaster { first_face: 0, face_count: 1 },
        AtlasCaster { first_face: 1, face_count: 2 },
        AtlasCaster { first_face: 3, face_count: 1 },
        AtlasCaster { first_face: 4, face_count: 1 },
    ];
    // The second light has an empty list, the fourth has none at all.
    let plan = record_atlas(&casters, 5, &[4, 0, 9], &[10, 14, 14, 23]).unwrap();
    assert_eq!(plan.clears, vec![0, 1, 2, 3, 4]);
    assert_eq!(
        plan.draws,
        vec![
            FaceDraw { caster: 0, face: 0, base: 10 },
            FaceDraw { caster: 2, face: 3, base: 14 },
        ]
    );
    let plan = record_atlas(&casters[1..2], 5, &[3], &[7]).unwrap();
    assert_eq!(
        plan.draws,
        vec![
            FaceDraw { caster: 0, face: 1, base: 7 },
            FaceDraw { caster: 0, face: 2, base: 7 },
        ]
    );
}

#[test]
fn no_tiles_is_no_pass() {
    assert!(record_atlas(&[], 0, &[], &[]).is_none());
    let empty = [AtlasCaster { first_face: 0, face_count: 0 }];
    assert!(record_atlas(&empty, 0, &[1], &[0]).is_none());
}

#[test]
fn a_blended_queue_keeps_its_order() {
    let runs = [run(0, 2, 1, 5), run(2, 3, 8, 1), run(5, 1, 0, 5)];
    let draw = |mesh, material, object_base, instances| BlendedDraw {
        mesh,
        material,
        object_base,
        instances,
    };
    assert_eq!(blended_draws(&runs, 2, 300), vec![draw(1, 5, 300, 2), draw(0, 5, 305, 1)]);
    let walked: Vec<_> = draw_runs(&runs, 2, &[], 300)
        .iter()
        .map(|d| draw(d.mesh, d.material, d.object_base, d.instances))
        .collect();
    assert_eq!(walked, blended_draws(&runs, 2, 300));
}

/// A pipeline that tests alpha takes the tables it tests with, and a material to
/// look up in them.
#[test]
fn cutouts_bind_what_they_test_with() {
    let sets = CasterSets { objects: 1, materials: 2, textures: 3 };
    assert_eq!(sets.for_pipeline(true), vec![1, 2, 3]);
    assert_eq!(sets.for_pipeline(false), vec![1]);
    let draws = draw_runs(&[run(0, 1, 0, 0), run(1, 1, 0, 1)], 1, &[false, true], 0);
    assert_eq!(pushed_material(&draws[0]), None);
    assert_eq!(pushed_material(&draws[1]), Some(1));
}
