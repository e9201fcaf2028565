use ferron::frame::{
    BloomIds, DofIds, FogIds, FrameIds, MotionBlurIds, MsaaIds, PassBody, PassKind, PrepassIds,
    RefractionIds, ResourceId, SsaoIds, SsrIds, SubsurfaceIds, TaaIds, TransparencyIds,
};
use ferron::recording::{
    recorded_extent, BarrierTarget, DrawCall, Draws, FrameRecord, ListRef, ShadowFrame, SlotWork,
    ViewRef,
};
use ferron::renderer::{shading_inputs, ShadingInputs};
use ferron::rendering::{rendering_info, Attachment, Clear, LoadOp, StoreOp, Target};
use ferron::timestamps::PassToken;

fn id(index: usize) -> ResourceId {
    ResourceId { index }
}

/// A frame with every feature, multisampled.
fn ids() -> FrameIds {
    FrameIds {
        swapchain_color: id(0),
        hdr_color: id(1),
        object_transforms: id(2),
        instance_index: id(3),
        exposure: id(4),
        histogram: Some(id(5)),
        contact_shadows: Some(id(6)),
        shadows: Some(id(7)),
        shadow_atlas: Some(id(8)),
        prepass: Some(PrepassIds { depth: id(10), normal: id(11), velocity: id(12), material: id(13) }),
        msaa: Some(MsaaIds { hdr: id(14), depth: id(15) }),
        ssao: Some(SsaoIds { raw_ao: id(16), ao: id(17) }),
        ssr: Some(SsrIds {
            source: id(1),
            hiz: id(18),
            source_pyramid: id(19),
            rays: id(20),
            output: id(21),
        }),
        fog: Some(FogIds { scatter: id(22), volume: id(23) }),
        subsurface: Some(SubsurfaceIds {
            source: id(21),
            diffusible: id(24),
            msaa_diffusible: Some(id(25)),
            blurred_x: id(26),
            blurred_y: id(27),
            output: id(28),
        }),
        transparency: Some(TransparencyIds {
            source: id(28),
            accum: id(29),
            reveal: id(30),
            output: id(31),
        }),
        refraction: Some(RefractionIds {
            source: id(31),
            scene: id(32),
            accum: id(33),
            output: id(34),
        }),
        taa: Some(TaaIds { source: id(34), output: id(35), history: id(36) }),
        dof: Some(DofIds {
            source: id(35),
            prefiltered: id(37),
            tile: id(38),
            near: id(39),
            far: id(40),
            output: id(41),
        }),
        motion_blur: Some(MotionBlurIds {
            source: id(41),
            tile: id(42),
            neighbour: id(43),
            output: id(44),
        }),
        bloom: Some(BloomIds {
            mips: 3,
            down: vec![id(45), id(46), id(47)],
            up: vec![id(48), id(49)],
            result: id(48),
        }),
    }
}

const RESOURCES: usize = 50;

fn record(bodies: Vec<(PassBody, PassKind)>) -> FrameRecord {
    let slots = bodies.len();
    let mut mip_levels = vec![1; RESOURCES];
    mip_levels[18] = 3;
    FrameRecord {
        order: (0..slots).collect(),
        bodies: bodies.iter().map(|(body, _)| *body).collect(),
        kinds: bodies.iter().map(|(_, kind)| *kind).collect(),
        barriers: (0..slots).map(|_| Vec::new()).collect(),
        ids: ids(),
        owned: (0..RESOURCES).map(|index| index >= 10 && index != 22 && index != 35).collect(),
        mip_levels,
        extents: (0..RESOURCES as u32).map(|index| (100 + index, 50)).collect(),
        extent: (640, 480),
        shadow_resolution: 2048,
        timestamps: true,
        tokens: (0..slots).map(|slot| Some(PassToken { base: 2 + 2 * slot as u32 })).collect(),
        draws: 100,
        transparent: 7,
        refractive: 3,
        shadows: Some(ShadowFrame {
            cascades: 2,
            casters: vec![40, 60],
            faces: vec![1, 6],
            punctual: vec![10, 5, 9],
        }),
        cascade_bases: vec![200, 240],
        transparent_base: 300,
        refractive_base: 307,
        culled: false,
    }
}

fn compute(body: PassBody) -> (Vec<ViewRef>, Vec<ViewRef>) {
    let frame = record(vec![(body, PassKind::Compute)]);
    match frame.record_slot(0).work {
        SlotWork::Compute { timed, inputs, outputs } => {
            assert_eq!(timed, Some(PassToken { base: 2 }));
            (inputs, outputs)
        }
        other => panic!("{other:?}"),
    }
}

fn images(indices: &[usize]) -> Vec<ViewRef> {
    indices.iter().map(|index| ViewRef::Image(id(*index))).collect()
}

fn calls(frame: &FrameRecord, slot: usize) -> Vec<DrawCall> {
    match frame.record_slot(slot).work {
        SlotWork::Graphics { calls, .. } => calls,
        other => panic!("{other:?}"),
    }
}

#[test]
fn a_pyramid_is_bound_level_by_level() {
    let (inputs, outputs) = compute(PassBody::SsrHiz);
    assert_eq!(inputs, images(&[10]));
    assert_eq!(outputs, (0..3).map(|level| ViewRef::Mip(id(18), level)).collect::<Vec<_>>());
}

#[test]
fn reflections_are_wired() {
    assert_eq!(compute(PassBody::SsrSource).0, images(&[1]));
    assert_eq!(compute(PassBody::SsrTrace), (images(&[18, 10, 11, 13, 19]), images(&[20])));
    let (inputs, outputs) = compute(PassBody::SsrResolve);
    let mut expected = images(&[1, 20, 10, 11, 13]);
    expected.push(ViewRef::EnvironmentSpecular);
    assert_eq!((inputs, outputs), (expected, images(&[21])));
}

#[test]
fn diffusion_reads_what_it_wrote() {
    assert_eq!(compute(PassBody::SubsurfaceBlurHorizontal), (images(&[24, 10]), images(&[26])));
    assert_eq!(compute(PassBody::SubsurfaceBlurVertical), (images(&[26, 10]), images(&[27])));
    assert_eq!(compute(PassBody::SubsurfaceComposite), (images(&[21, 27]), images(&[28])));
}

#[test]
fn composites_are_wired() {
    assert_eq!(compute(PassBody::OitComposite), (images(&[28, 29, 30]), images(&[31])));
    assert_eq!(compute(PassBody::RefractionScene).0, images(&[31]));
    assert_eq!(compute(PassBody::RefractionComposite), (images(&[31, 33]), images(&[34])));
    assert_eq!(compute(PassBody::TaaResolve), (images(&[34, 12, 10]), vec![]));
    assert_eq!(compute(PassBody::FogScatter), (vec![ViewRef::ShadowMaps], vec![]));
    assert_eq!(compute(PassBody::FogIntegrate), (vec![], images(&[23])));
    assert_eq!(compute(PassBody::LuminanceHistogram), (vec![ViewRef::SceneColor], vec![]));
    assert_eq!(compute(PassBody::LuminanceAverage), (vec![], vec![]));
}

/// The temporal resolve's output outlives the frame, so whoever reads it asks the
/// pass that owns it.
#[test]
fn defocus_and_motion_blur_are_wired() {
    let (inputs, outputs) = compute(PassBody::DofPrefilter);
    assert_eq!(inputs, vec![ViewRef::TaaOutput, ViewRef::Image(id(10))]);
    assert_eq!(outputs, images(&[37]));
    assert_eq!(compute(PassBody::DofTileMax), (images(&[37]), images(&[38])));
    assert_eq!(compute(PassBody::DofGather), (images(&[37, 38]), images(&[39, 40])));
    assert_eq!(compute(PassBody::DofComposite).1, images(&[41]));
    assert_eq!(compute(PassBody::MotionBlurTileMax), (images(&[12, 10]), images(&[42])));
    assert_eq!(compute(PassBody::MotionBlurNeighbourMax), (images(&[42]), images(&[43])));
    assert_eq!(compute(PassBody::MotionBlurGather), (images(&[41, 12, 10, 43]), images(&[44])));
}

#[test]
fn bloom_goes_down_and_comes_back_up() {
    assert_eq!(compute(PassBody::BloomPrefilter), (vec![ViewRef::SceneColor], images(&[45])));
    assert_eq!(compute(PassBody::BloomDownsample(1)), (images(&[45]), images(&[46])));
    assert_eq!(compute(PassBody::BloomDownsample(2)), (images(&[46]), images(&[47])));
    assert_eq!(compute(PassBody::BloomUpsample(1)), (images(&[47, 46]), images(&[49])));
    assert_eq!(compute(PassBody::BloomUpsample(0)), (images(&[49, 45]), images(&[48])));
}

#[test]
fn opaque_passes_draw_lists_or_batches() {
    let mut frame = record(vec![
        (PassBody::ShadowCascade(1), PassKind::Graphics),
        (PassBody::PunctualShadows, PassKind::Graphics),
        (PassBody::GeometryPrepass, PassKind::Graphics),
    ]);
    let cascade = Draws::Cpu { list: ListRef::Cascade(1), base: 240 };
    assert_eq!(calls(&frame, 0), vec![DrawCall::Cascade { cascade: 1, draws: cascade }]);
    assert_eq!(calls(&frame, 1), vec![DrawCall::Atlas { gpu: None }]);
    let camera = Draws::Cpu { list: ListRef::Camera, base: 0 };
    assert_eq!(calls(&frame, 2), vec![DrawCall::Prepass { draws: camera }]);
    frame.culled = true;
    assert_eq!(
        calls(&frame, 0),
        vec![DrawCall::Cascade { cascade: 1, draws: Draws::Gpu { view: 2 } }]
    );
    // The faces follow the camera and the two cascades.
    assert_eq!(frame.first_face_view(), 3);
    assert_eq!(calls(&frame, 1), vec![DrawCall::Atlas { gpu: Some(3) }]);
    assert_eq!(calls(&frame, 2), vec![DrawCall::Prepass { draws: Draws::Gpu { view: 0 } }]);
    frame.shadows = None;
    assert_eq!(frame.first_face_view(), 1);
}

/// The sky stands between the geometry and the lines.
#[test]
fn the_forward_pass_draws_in_order() {
    let frame = record(vec![(PassBody::Forward, PassKind::Graphics)]);
    let draws = Draws::Cpu { list: ListRef::Camera, base: 0 };
    assert_eq!(
        calls(&frame, 0),
        vec![
            DrawCall::Opaque { draws, subsurface: true, msaa: true },
            DrawCall::Skybox { volume: Some(id(23)), subsurface: true, msaa: true },
            DrawCall::Lines { subsurface: true, msaa: true },
        ]
    );
}

#[test]
fn the_other_graphics_passes_are_wired() {
    let mut frame = record(vec![
        (PassBody::SsaoResolve, PassKind::Graphics),
        (PassBody::SsaoBlur, PassKind::Graphics),
        (PassBody::ContactShadows, PassKind::Graphics),
        (PassBody::OitAccumulate, PassKind::Graphics),
        (PassBody::RefractionDraw, PassKind::Graphics),
        (PassBody::Tonemap, PassKind::Graphics),
    ]);
    assert_eq!(
        calls(&frame, 0),
        vec![DrawCall::Ssao { target: id(16), depth: id(10), normal: id(11) }]
    );
    assert_eq!(
        calls(&frame, 1),
        vec![DrawCall::SsaoBlur { target: id(17), raw: id(16), depth: id(10) }]
    );
    assert_eq!(calls(&frame, 2), vec![DrawCall::ContactShadows { depth: id(10), normal: id(11) }]);
    assert_eq!(calls(&frame, 3), vec![DrawCall::Transparent { base: 300 }]);
    assert_eq!(
        calls(&frame, 4),
        vec![DrawCall::Refractive { scene: id(32), source: ViewRef::Image(id(31)), base: 307 }]
    );
    assert_eq!(calls(&frame, 5), vec![DrawCall::Tonemap { bloom: ViewRef::Image(id(48)) }]);
    frame.ids.bloom = None;
    assert_eq!(calls(&frame, 5), vec![DrawCall::Tonemap { bloom: ViewRef::Black }]);
}

#[test]
fn a_raw_pass_records_only_its_barriers() {
    let mut frame = record(vec![(PassBody::Overlay, PassKind::Raw)]);
    frame.barriers[0] =
        vec![id(0), id(2), id(5), id(22), id(35), id(36), id(10), id(9)];
    let plan = frame.record_slot(0);
    assert!(matches!(plan.work, SlotWork::Raw));
    assert_eq!(
        plan.barriers,
        vec![
            Some(BarrierTarget::Swapchain),
            Some(BarrierTarget::Memory),
            Some(BarrierTarget::Memory),
            Some(BarrierTarget::FogScatter),
            Some(BarrierTarget::TaaOutput),
            Some(BarrierTarget::TaaHistory),
            Some(BarrierTarget::Image(id(10))),
            None,
        ]
    );
    assert_eq!(frame.view_of(id(22)), ViewRef::FogScatter);
    assert_eq!(frame.view_of(id(36)), ViewRef::Image(id(36)));
}

/// A cascade is as large as its map, ambient occlusion as what it draws into, and
/// the rest as the frame.
#[test]
fn passes_are_recorded_at_their_extent() {
    let expected = [
        (PassBody::ShadowCascade(1), PassKind::Graphics, Some((2048, 2048))),
        (PassBody::PunctualShadows, PassKind::Graphics, None),
        (PassBody::GeometryPrepass, PassKind::Graphics, Some((640, 480))),
        (PassBody::SsaoResolve, PassKind::Graphics, Some((116, 50))),
        (PassBody::SsaoBlur, PassKind::Graphics, Some((117, 50))),
        (PassBody::ContactShadows, PassKind::Graphics, Some((640, 480))),
        (PassBody::Forward, PassKind::Graphics, Some((640, 480))),
        (PassBody::OitAccumulate, PassKind::Graphics, Some((640, 480))),
        (PassBody::RefractionDraw, PassKind::Graphics, Some((640, 480))),
        (PassBody::Tonemap, PassKind::Graphics, Some((640, 480))),
        (PassBody::SsrHiz, PassKind::Compute, Some((640, 480))),
        (PassBody::LuminanceHistogram, PassKind::Compute, Some((640, 480))),
        (PassBody::LuminanceAverage, PassKind::Compute, Some((640, 480))),
        (PassBody::SsrTrace, PassKind::Compute, None),
        (PassBody::Overlay, PassKind::Raw, None),
    ];
    let frame = record(expected.iter().map(|(body, kind, _)| (*body, *kind)).collect());
    for (slot, (body, _, extent)) in expected.into_iter().enumerate() {
        let plan = frame.record_slot(slot);
        assert_eq!((plan.body, plan.extent), (body, extent));
        assert_eq!(frame.slot_body(slot), body);
    }
    let blur = recorded_extent(PassBody::SsaoBlur, (640, 480), 2048, (320, 240));
    assert_eq!(blur, Some((320, 240)));
}

/// Passes that bind nothing by name are told apart by what they are.
#[test]
fn a_plan_names_its_pass() {
    let bodies = [PassBody::CullReset, PassBody::Cull, PassBody::LuminanceAverage];
    let mut frame = record(bodies.iter().map(|body| (*body, PassKind::Compute)).collect());
    frame.culled = true;
    frame.order = vec![2, 0, 1];
    let named: Vec<_> = (0..3).map(|slot| frame.record_slot(slot).body).collect();
    assert_eq!(named, vec![PassBody::LuminanceAverage, PassBody::CullReset, PassBody::Cull]);
}

#[test]
fn untimed_devices_stamp_nothing() {
    let mut frame = record(vec![(PassBody::Tonemap, PassKind::Graphics)]);
    frame.timestamps = false;
    match frame.record_slot(0).work {
        SlotWork::Graphics { timed, .. } => assert_eq!(timed, None),
        other => panic!("{other:?}"),
    }
}

#[test]
fn a_slot_costs_what_it_draws() {
    let frame = record(vec![
        (PassBody::ShadowCascade(0), PassKind::Graphics),
        (PassBody::PunctualShadows, PassKind::Graphics),
        (PassBody::GeometryPrepass, PassKind::Graphics),
        (PassBody::SsrHiz, PassKind::Compute),
        (PassBody::Forward, PassKind::Graphics),
        (PassBody::OitAccumulate, PassKind::Graphics),
        (PassBody::RefractionDraw, PassKind::Graphics),
        (PassBody::Tonemap, PassKind::Graphics),
    ]);
    let costs: Vec<u32> = (0..8).map(|slot| frame.cost(slot)).collect();
    // The third punctual list has no faces to be drawn into.
    assert_eq!(costs, vec![40, 10 + 5 * 6, 100, 0, 100, 7, 3, 0]);
}

#[test]
fn a_segment_is_shared_between_the_workers() {
    let frame = record(vec![
        (PassBody::ShadowCascade(0), PassKind::Graphics),
        (PassBody::PunctualShadows, PassKind::Graphics),
        (PassBody::GeometryPrepass, PassKind::Graphics),
        (PassBody::SsrHiz, PassKind::Compute),
        (PassBody::Forward, PassKind::Graphics),
        (PassBody::OitAccumulate, PassKind::Graphics),
    ]);
    assert_eq!(frame.record_segment(0..6, 8, true), vec![0..2, 2..4, 4..6]);
    assert_eq!(frame.record_segment(1..6, 2, true), vec![1..3, 3..6]);
    // Nothing to share, or nobody to share it with.
    assert_eq!(frame.record_segment(0..6, 8, false), vec![0..6]);
    assert_eq!(frame.record_segment(0..6, 1, true), vec![0..6]);
    assert_eq!(frame.record_segment(2..3, 8, true), vec![2..3]);
    assert_eq!(frame.record_segment(2..2, 8, true), vec![2..2]);
}

/// What a segment costs does not matter where it is not shared.
#[test]
fn a_segment_that_is_not_shared_is_not_priced() {
    let mut frame = record(vec![
        (PassBody::GeometryPrepass, PassKind::Graphics),
        (PassBody::Forward, PassKind::Graphics),
    ]);
    frame.draws = u32::MAX as usize;
    assert_eq!(frame.record_segment(0..2, 8, false), vec![0..2]);
    assert_eq!(frame.record_segment(0..2, 1, true), vec![0..2]);
    assert_eq!(frame.record_segment(1..2, 8, true), vec![1..2]);
}

fn shared<T: Sync>() {}

/// The workers hold the record and record from it at the same time.
#[test]
fn records_are_shared_between_workers() {
    shared::<FrameRecord>();
}

fn clears(attachments: &[Attachment]) -> Vec<Option<Clear>> {
    attachments.iter().map(|attachment| attachment.clear).collect()
}

#[test]
fn the_prepass_clears_what_it_writes() {
    let info = rendering_info(&ids(), PassBody::GeometryPrepass).unwrap();
    assert_eq!(
        clears(&info.color),
        vec![Some(Clear::FlatNormal), Some(Clear::Zero), Some(Clear::Zero)]
    );
    let depth = info.depth.unwrap();
    assert_eq!(depth.target, Target::Image(id(10)));
    assert_eq!((depth.load, depth.store, depth.clear), (LoadOp::Clear, StoreOp::Store, Some(Clear::Far)));
}

#[test]
fn a_multisampled_frame_resolves_and_discards() {
    let info = rendering_info(&ids(), PassBody::Forward).unwrap();
    assert_eq!(clears(&info.color), vec![Some(Clear::Background), Some(Clear::Zero)]);
    assert_eq!(info.color[0].target, Target::Image(id(14)));
    assert_eq!(info.color[0].resolve, Some(id(1)));
    assert_eq!(info.color[0].store, StoreOp::DontCare);
    assert_eq!(info.color[1].resolve, Some(id(24)));
    let depth = info.depth.unwrap();
    assert_eq!((depth.target, depth.store), (Target::Image(id(15)), StoreOp::DontCare));
}

#[test]
fn a_single_sampled_frame_borrows_the_prepass_depth() {
    let mut ids = ids();
    ids.msaa = None;
    ids.subsurface = None;
    let info = rendering_info(&ids, PassBody::Forward).unwrap();
    assert_eq!(info.color.len(), 1);
    assert_eq!((info.color[0].target, info.color[0].store), (Target::Image(id(1)), StoreOp::Store));
    for body in [PassBody::Forward, PassBody::OitAccumulate, PassBody::RefractionDraw] {
        let depth = rendering_info(&ids, body).unwrap().depth.unwrap();
        assert_eq!(depth.target, Target::Image(id(10)));
        assert_eq!((depth.load, depth.store), (LoadOp::Load, StoreOp::Store));
        assert!(depth.read_only && depth.clear.is_none());
    }
}

#[test]
fn the_remaining_attachments() {
    let ids = ids();
    let tonemap = rendering_info(&ids, PassBody::Tonemap).unwrap();
    assert_eq!(tonemap.color[0].target, Target::Swapchain);
    assert_eq!(tonemap.color[0].load, LoadOp::DontCare);
    assert!(tonemap.depth.is_none());
    let cascade = rendering_info(&ids, PassBody::ShadowCascade(2)).unwrap();
    assert!(cascade.color.is_empty());
    assert_eq!(cascade.depth.unwrap().target, Target::Layer(id(7), 2));
    let atlas = rendering_info(&ids, PassBody::PunctualShadows).unwrap();
    assert_eq!(atlas.depth.unwrap().load, LoadOp::DontCare);
    let oit = rendering_info(&ids, PassBody::OitAccumulate).unwrap();
    assert_eq!(clears(&oit.color), vec![Some(Clear::Zero), Some(Clear::One)]);
    for (body, target) in [
        (PassBody::SsaoResolve, 16),
        (PassBody::SsaoBlur, 17),
        (PassBody::ContactShadows, 6),
    ] {
        let info = rendering_info(&ids, body).unwrap();
        assert_eq!(info.color[0].target, Target::Image(id(target)));
        assert_eq!(clears(&info.color), vec![Some(Clear::One)]);
    }
    let refraction = rendering_info(&ids, PassBody::RefractionDraw).unwrap();
    assert_eq!(refraction.color[0].target, Target::Image(id(33)));
    // What dispatches has no attachments.
    assert!(rendering_info(&ids, PassBody::SsrHiz).is_none());
    assert!(rendering_info(&ids, PassBody::Overlay).is_none());
}

#[test]
fn a_feature_that_is_off_is_stood_in_for() {
    let mut ids = ids();
    assert_eq!(
        shading_inputs(&ids),
        ShadingInputs {
            ambient_occlusion: Some(id(17)),
            contact_shadows: Some(id(6)),
            cascades: Some(id(7)),
            atlas: Some(id(8)),
            volume: Some(id(23)),
            bloom: true,
        }
    );
    ids.ssao = None;
    ids.fog = None;
    ids.bloom = None;
    ids.shadow_atlas = None;
    let inputs = shading_inputs(&ids);
    assert_eq!((inputs.ambient_occlusion, inputs.volume, inputs.bloom), (None, None, false));
    assert_eq!((inputs.cascades, inputs.atlas), (Some(id(7)), None));
}
