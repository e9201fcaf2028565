use ferron::extents::{HIZ_TILE, OCCLUSION_LEVELS};
use ferron::frame::{PassBody, ResourceId};
use ferron::occlusion::OcclusionPass;
use ferron::passes::{
    comparison_sampler, Binding, Edge, Passes, Push, RefractionPass, Shader, SsrPass,
    SubsurfacePass, SAMPLE_FRAMES,
};
use ferron::recording::ViewRef;

fn image(index: usize) -> ViewRef {
    ViewRef::Image(ResourceId { index })
}

fn mips(index: usize, levels: u32) -> Vec<ViewRef> {
    (0..levels).map(|level| ViewRef::Mip(ResourceId { index }, level)).collect()
}

fn begun() -> Passes {
    let mut passes = Passes::new();
    passes.ssr.begin_frame(64, [640, 480], 7, 5);
    passes.subsurface.begin_frame();
    passes
}

/// A short pyramid repeats its last level into the slots it does not have.
#[test]
fn every_slot_of_a_pyramid_is_written() {
    let dispatch = SsrPass::new().record_hiz(image(1), &mips(2, 3), [130, 64]);
    assert_eq!(dispatch.shader, Shader::HizBuild);
    assert_eq!(dispatch.levels.len(), 7);
    assert_eq!(dispatch.levels[..3], mips(2, 3)[..]);
    assert!(dispatch.levels[3..].iter().all(|view| *view == mips(2, 3)[2]));
    assert_eq!(dispatch.push, Some(Push::Pyramid { width: 130, height: 64, levels: 3 }));
    assert_eq!(dispatch.groups, [3, 1, 1]);
    assert_eq!(dispatch.bindings[1], Binding::StoredLevels);
    let source = SsrPass::new().record_source(image(1), &mips(2, 7), [65, 1]);
    assert_eq!(source.shader, Shader::ColorPyramid);
    assert_eq!(source.groups, [2, 1, 1]);
    let scene = RefractionPass::new().record_pyramid(image(1), &mips(2, 7), [64, 64]);
    assert_eq!((scene.shader, scene.groups), (Shader::ColorPyramid, [1, 1, 1]));
}

/// The march reads exact texels, and the lit frame it lands in is blended.
#[test]
fn only_the_lit_frame_is_filtered() {
    let passes = begun();
    let inputs: Vec<_> = (0..5).map(image).collect();
    let trace =
        passes.record(PassBody::SsrTrace, &inputs, &[image(9)], [64, 64], [33, 16]).unwrap();
    assert_eq!(trace.shader, Shader::SsrTrace);
    assert_eq!(trace.groups, [5, 2, 1]);
    assert_eq!(trace.bindings.len(), 7);
    for (number, binding) in trace.bindings[..5].iter().enumerate() {
        match binding {
            Binding::Sampled { view, sampler } => {
                assert_eq!(*view, image(number));
                assert_eq!(sampler.linear, number == 4);
                assert_eq!(sampler.deepest, None);
            }
            other => panic!("{other:?} is not sampled"),
        }
    }
    assert_eq!(trace.bindings[5..], [Binding::Stored(image(9)), Binding::Uniforms]);
}

#[test]
fn the_environment_has_a_sampler_of_its_own() {
    let passes = begun();
    let mut inputs: Vec<_> = (0..5).map(image).collect();
    inputs.push(ViewRef::EnvironmentSpecular);
    let resolve =
        passes.record(PassBody::SsrResolve, &inputs, &[image(9)], [64, 64], [64, 64]).unwrap();
    assert_eq!(resolve.bindings[6], Binding::Texture(ViewRef::EnvironmentSpecular));
    assert_eq!(resolve.bindings[7], Binding::EnvironmentSampler);
    assert_eq!(resolve.bindings[8], Binding::Uniforms);
    assert_eq!(resolve.bindings.len(), 9);
}

/// The two blurs share a program and differ in the axis they walk.
#[test]
fn blurs_walk_at_right_angles() {
    let passes = begun();
    let inputs = [image(0), image(1)];
    let across = passes
        .record(PassBody::SubsurfaceBlurHorizontal, &inputs, &[image(2)], [8, 8], [8, 8])
        .unwrap();
    let down = passes
        .record(PassBody::SubsurfaceBlurVertical, &inputs, &[image(2)], [8, 8], [8, 8])
        .unwrap();
    assert_eq!((across.shader, down.shader), (Shader::SssBlur, Shader::SssBlur));
    assert_eq!(across.push, Some(Push::Axis { x: 1, y: 0 }));
    assert_eq!(down.push, Some(Push::Axis { x: 0, y: 1 }));
    assert_eq!(across.bindings, down.bindings);
    let mut pass = SubsurfacePass::new();
    pass.begin_frame();
    assert_eq!(pass.push_for(true), Push::Axis { x: 0, y: 1 });
    let composite = pass.record_composite(image(0), image(1), image(2), [9, 8]);
    assert_eq!((composite.push, composite.groups), (None, [2, 1, 1]));
}

/// What a frame does not have has not begun, and nothing else waits for it: the
/// first frame has neither reflections nor diffusion.
#[test]
fn passes_wait_for_nothing_but_their_own() {
    let mut passes = Passes::new();
    let inputs: Vec<_> = (0..4).map(image).collect();
    for (body, reads) in [
        (PassBody::MotionBlurGather, 4),
        (PassBody::OitComposite, 3),
        (PassBody::RefractionComposite, 2),
        (PassBody::SubsurfaceComposite, 2),
    ] {
        let dispatch = passes.record(body, &inputs[..reads], &[image(9)], [16, 16], [17, 16]);
        assert_eq!(dispatch.unwrap().groups, [3, 2, 1]);
    }
    passes.subsurface.begin_frame();
    let blur = PassBody::SubsurfaceBlurHorizontal;
    let dispatch = passes.record(blur, &inputs[..2], &[image(9)], [16, 16], [17, 16]);
    assert_eq!(dispatch.unwrap().shader, Shader::SssBlur);
    assert!(!passes.ssr.begun);
}

#[test]
fn every_slot_gets_its_dispatch() {
    let passes = begun();
    let expected = [
        (PassBody::SubsurfaceComposite, 2, Shader::SssComposite, 3),
        (PassBody::OitComposite, 3, Shader::OitComposite, 4),
        (PassBody::RefractionComposite, 2, Shader::RefractionComposite, 3),
        (PassBody::MotionBlurTileMax, 2, Shader::MotionBlurTileMax, 4),
        (PassBody::MotionBlurNeighbourMax, 1, Shader::MotionBlurNeighbourMax, 2),
        (PassBody::MotionBlurGather, 4, Shader::MotionBlurGather, 6),
    ];
    for (body, reads, shader, bindings) in expected {
        let inputs: Vec<_> = (0..reads).map(image).collect();
        let dispatch = passes.record(body, &inputs, &[image(9)], [16, 16], [17, 16]).unwrap();
        assert_eq!((dispatch.shader, dispatch.bindings.len()), (shader, bindings));
        assert_eq!(dispatch.groups, [3, 2, 1]);
        assert!(dispatch.bindings.contains(&Binding::Stored(image(9))));
    }
    assert!(passes.record(PassBody::Cull, &[], &[], [16, 16], [16, 16]).is_none());
}

/// Rays repeat once the sequence is over and not before, also where the counter
/// wraps.
#[test]
fn rays_take_turns() {
    let mut pass = SsrPass::new();
    pass.frame = u64::MAX - 3;
    let samples: Vec<_> =
        (0..SAMPLE_FRAMES).map(|_| pass.begin_frame(0, [0, 7], 3, 6).sample).collect();
    for (i, sample) in samples.iter().enumerate() {
        assert!(!samples[..i].contains(sample));
    }
    let frame = pass.begin_frame(0, [0, 7], 3, 6);
    assert_eq!(frame.sample, samples[0]);
    assert_eq!((frame.steps, frame.levels, frame.specular_mips), (1, 3, 6));
    assert_eq!((frame.width, frame.height, frame.across, frame.down), (0, 7, 1, 7));
}

#[test]
fn shadows_are_lit_past_the_edge() {
    let sampler = comparison_sampler();
    assert!(sampler.compares && sampler.linear && sampler.edge == Edge::White);
}

#[test]
fn refraction_sees_the_frame_twice() {
    let set = RefractionPass::new().scene_set(image(1), image(2));
    assert!(matches!(set[0], Binding::Sampled { view, sampler }
        if view == image(1) && sampler.linear_levels && sampler.deepest.is_none()));
    assert!(matches!(set[1], Binding::Sampled { view, sampler }
        if view == image(2) && sampler.linear && !sampler.linear_levels));
    assert_eq!(set.len(), 2);
}

#[test]
fn the_occlusion_pyramid_is_built_in_one_dispatch() {
    let mut pass = OcclusionPass::new();
    pass.begin_frame(true, [16, 8]);
    let build = pass.record([16, 8]);
    assert_eq!(build.pyramid, pass.hiz_view());
    // Half of it is eight texels wide, so there are four levels.
    assert_eq!(build.bound, vec![0, 1, 2, 3, 3, 3]);
    assert_eq!((build.width, build.height, build.levels), (16, 8, 4));
    assert_eq!(build.groups, [1, 1, 1]);
    pass.begin_frame(true, [1920, 1080]);
    let build = pass.record([1920, 1080]);
    assert_eq!(build.levels, OCCLUSION_LEVELS as i32);
    assert_eq!(build.groups, [1920 / HIZ_TILE, 17, 1]);
}
