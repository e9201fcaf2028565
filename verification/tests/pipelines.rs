use ferron::pipelines::{
    build_pipeline, Blend, BlendFactor, ColorTarget, CullMode, Pipeline, TargetFormat,
};

#[test]
fn cut_outs_are_drawn_from_both_sides() {
    for (masked, cull) in [(false, CullMode::Back), (true, CullMode::Neither)] {
        let prepass = build_pipeline(Pipeline::Prepass { masked });
        let caster = build_pipeline(Pipeline::Caster { masked });
        assert_eq!((prepass.cull, caster.cull), (cull, cull));
        assert!(prepass.depth_write && caster.depth_write);
        assert!(caster.depth_bias && caster.scissor && !prepass.scissor);
        assert!(caster.targets.is_empty());
        let formats: Vec<_> = prepass.targets.iter().map(|target| target.format).collect();
        assert_eq!(
            formats,
            vec![TargetFormat::Rgba8, TargetFormat::Rg16Float, TargetFormat::Rgba8]
        );
    }
}

fn factor(factor: BlendFactor, color: f64, alpha: f64) -> f64 {
    match factor {
        BlendFactor::Zero => 0.0,
        BlendFactor::One => 1.0,
        BlendFactor::OneMinusSrcColor => 1.0 - color,
        BlendFactor::OneMinusSrcAlpha => 1.0 - alpha,
    }
}

fn draw(blend: Blend, start: f64, fragments: &[(f64, f64)]) -> f64 {
    fragments.iter().fold(start, |held, (color, alpha)| {
        color * factor(blend.src_color, *color, *alpha) + held * factor(blend.dst_color, *color, *alpha)
    })
}

/// Crossing panes look the same whichever is drawn first. Refractive ones do not,
/// which is why they are sorted.
#[test]
fn blended_surfaces_need_no_order() {
    let state = build_pipeline(Pipeline::Transparency);
    assert_eq!(state.cull, CullMode::Neither);
    assert!(!state.depth_write);
    let forward = [(0.25, 0.5), (0.5, 0.25), (0.75, 1.0)];
    let backward = [(0.75, 1.0), (0.5, 0.25), (0.25, 0.5)];
    for (target, start) in state.targets.iter().zip([0.0, 1.0]) {
        let blend = target.blend.unwrap();
        assert_eq!(draw(blend, start, &forward), draw(blend, start, &backward));
    }
    assert_eq!(draw(state.targets[0].blend.unwrap(), 0.0, &forward), 1.5);
    assert_eq!(draw(state.targets[1].blend.unwrap(), 1.0, &forward), 0.75 * 0.5 * 0.25);

    let refraction = build_pipeline(Pipeline::Refraction);
    assert_eq!((refraction.cull, refraction.depth_write), (CullMode::Back, false));
    let ColorTarget { format, blend } = refraction.targets[0];
    assert_eq!(format, TargetFormat::HdrWide);
    let blend = blend.unwrap();
    assert_eq!(draw(blend, 1.0, &[(0.25, 0.5)]), 0.75);
    assert_ne!(draw(blend, 0.0, &forward), draw(blend, 0.0, &backward));
}
