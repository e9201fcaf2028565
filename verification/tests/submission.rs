use ferron::renderer::{
    command_buffers, cull_views, finish_frame, frame_config, has_overlay, index_list,
    longest_list, raw_passes, read_gpu_culling, spread, Acquired, CullView, FinishPlan,
    FrameSettings, FrameStart, GraphChange, IndexList, Presented, Renderer, ShadowShape,
    SubmitPlan,
};
use ferron::frame::{PassBody, PassKind};
use ferron::submission::{image_slots, Chain, Finish, Queue, Stage, Submission, Wait};
use ferron::swapchain::{ColorFormat, PresentSettings, VsyncMode};
use std::collections::HashSet;

/// What is signalled and not waited for.
struct Live(HashSet<u64>);

impl Live {
    fn submit(&mut self, submission: &Submission) {
        for wait in &submission.waits {
            assert!(self.0.remove(&wait.semaphore), "waits for {wait:?}");
        }
        for signal in &submission.signals {
            assert!(self.0.insert(*signal), "signals {signal} twice");
        }
    }

    fn finish(&mut self, finish: Finish) {
        match finish {
            Finish::Overlay { ready } => assert!(self.0.remove(&ready)),
            Finish::Present { wait } => assert!(self.0.remove(&wait)),
            Finish::Keep => {}
        }
    }
}

#[test]
fn an_unsplit_frame_waits_for_its_image_and_its_predecessor() {
    let mut chain = Chain::new(true);
    let acquire = chain.fresh();
    let plan = chain.submit_unsplit(Some(acquire), 2, false);
    assert_eq!(plan.image_index, 2);
    assert_eq!(plan.submission.queue, Queue::Graphics);
    assert_eq!(
        plan.submission.waits,
        vec![Wait { semaphore: acquire, stage: Stage::ColorAttachmentOutput }]
    );
    assert_eq!(plan.submission.signals, vec![1, 2]);
    assert_eq!(plan.finish, Finish::Present { wait: 1 });
    let acquire = chain.fresh();
    let plan = chain.submit_unsplit(Some(acquire), 0, true);
    assert_eq!(
        plan.submission.waits,
        vec![
            Wait { semaphore: acquire, stage: Stage::ColorAttachmentOutput },
            Wait { semaphore: 2, stage: Stage::AllCommands },
        ]
    );
    assert_eq!(plan.finish, Finish::Overlay { ready: 4 });
}

#[test]
fn an_offscreen_frame_hands_its_image_to_nobody() {
    let mut chain = Chain::new(false);
    let plan = chain.submit_unsplit(None, 0, false);
    assert_eq!(plan.finish, Finish::Keep);
    assert!(plan.submission.waits.is_empty());
    assert_eq!(plan.submission.signals, vec![0]);
}

/// Over many frames, split or not, every signal is waited for exactly once.
#[test]
fn signals_and_waits_balance() {
    for windowed in [false, true] {
        for pattern in 0..64u32 {
            let mut chain = Chain::new(windowed);
            let mut live = Live(HashSet::new());
            for frame in 0..12u32 {
                let acquire = if windowed { Some(chain.fresh()) } else { None };
                live.0.extend(acquire);
                let overlay = (pattern >> (frame % 6)) & 1 == 1;
                if pattern % 2 == 0 {
                    let plan = chain.submit_split(acquire, frame, overlay);
                    assert_eq!(plan.tail.is_some(), frame > 0);
                    live.submit(&plan.head);
                    if let Some(tail) = plan.tail {
                        assert_eq!(tail.image_index, frame - 1);
                        live.submit(&tail.submission);
                        live.finish(tail.finish);
                    }
                    assert_eq!(plan.compute.queue, Queue::AsyncCompute);
                    live.submit(&plan.compute);
                } else {
                    let plan = chain.submit_unsplit(acquire, frame, overlay);
                    live.submit(&plan.submission);
                    live.finish(plan.finish);
                }
            }
            if let Some(flush) = chain.flush_pending_tail() {
                assert!(flush.signals.is_empty());
                live.submit(&flush);
            }
            assert!(chain.pending.is_none());
            assert!(chain.flush_pending_tail().is_none());
            let left: HashSet<u64> =
                chain.frame_chain.into_iter().chain(chain.head_gate).collect();
            assert_eq!(live.0, left);
        }
    }
}

#[test]
fn a_split_frame_needs_two_sets_of_images() {
    assert_eq!(image_slots(1), 1);
    assert_eq!(image_slots(3), 2);
    assert_eq!(image_slots(0), 1);
}

fn settings() -> FrameSettings {
    FrameSettings {
        color_format: ColorFormat::Bgra8Srgb,
        msaa: false,
        ssao: true,
        ssao_half_resolution: true,
        contact_shadows: false,
        ssr: true,
        subsurface: false,
        transparency: true,
        refraction: true,
        taa: true,
        auto_exposure: true,
        volumetric_fog: false,
        motion_blur: true,
        dof: false,
        bloom: true,
        bloom_levels: 6,
        overlay: true,
        transparent_draws: 1,
        refractive_draws: 0,
        shadows: Some(ShadowShape {
            cascades: 3,
            resolution: 2048,
            atlas_faces: 0,
            atlas_resolution: 4096,
        }),
        compute_queue: true,
        gpu_culling: false,
    }
}

/// Emptiness is part of a frame's structure.
#[test]
fn a_frame_declares_what_it_will_use() {
    let config = frame_config(settings());
    assert!(config.transparency && !config.refraction);
    assert_eq!(config.bloom_mips, 6);
    assert_eq!((config.shadow_cascades, config.shadow_resolution, config.shadow_atlas), (3, 2048, 0));
    assert!(config.async_compute && config.ssr && config.motion_blur && !config.dof);
    let lit = ShadowShape { cascades: 0, resolution: 512, atlas_faces: 6, atlas_resolution: 4096 };
    let config = frame_config(FrameSettings {
        bloom: false,
        transparency: false,
        shadows: Some(lit),
        ..settings()
    });
    assert_eq!((config.bloom_mips, config.shadow_atlas, config.transparency), (0, 4096, false));
    let config = frame_config(FrameSettings { shadows: None, ..settings() });
    assert_eq!((config.shadow_cascades, config.shadow_resolution, config.shadow_atlas), (0, 1, 0));
}

fn renderer(windowed: bool) -> Renderer {
    let present = PresentSettings { vsync: VsyncMode::Fifo, images: 2 };
    Renderer::build(ColorFormat::Bgra8Srgb, [800, 600], present, windowed, 6, false, false)
}

#[test]
fn the_first_graph_is_the_editors() {
    let renderer = renderer(true);
    let config = renderer.config;
    assert!(config.ssao && config.taa && config.overlay && config.contact_shadows);
    assert!(!config.msaa && !config.ssr && !config.dof && !config.gpu_culling);
    assert_eq!((config.bloom_mips, config.shadow_resolution), (6, 1));
    assert_eq!(renderer.start(), FrameStart::Proceed);
}

#[test]
fn a_graph_is_recompiled_only_for_another_structure() {
    let mut renderer = renderer(true);
    let config = frame_config(settings());
    assert_eq!(renderer.ensure_graph(config, true), GraphChange::Recompile);
    assert_eq!(renderer.ensure_graph(config, false), GraphChange::Keep);
    assert_eq!(renderer.ensure_graph(config, true), GraphChange::Reallocate);
}

#[test]
fn a_stale_target_is_rebuilt() {
    let mut renderer = renderer(true);
    renderer.resize([0, 600]);
    assert_eq!(renderer.start(), FrameStart::Skip);
    renderer.resize([640, 480]);
    assert_eq!(renderer.start(), FrameStart::Recreate);
    assert!(renderer.before_recreation().is_none());
    assert!(!renderer.recreated(false));
    assert_eq!(renderer.start(), FrameStart::Recreate);
    assert!(renderer.recreated(true));
    assert_eq!(renderer.start(), FrameStart::Proceed);

    assert_eq!(renderer.acquired(Acquired::Offscreen), Some(0));
    assert_eq!(renderer.acquired(Acquired::Image { index: 2, suboptimal: false }), Some(2));
    assert_eq!(renderer.start(), FrameStart::Proceed);
    assert_eq!(renderer.acquired(Acquired::Image { index: 1, suboptimal: true }), Some(1));
    assert_eq!(renderer.start(), FrameStart::Recreate);
    renderer.recreated(true);
    assert_eq!(renderer.acquired(Acquired::OutOfDate), None);
    assert_eq!(renderer.start(), FrameStart::Recreate);
    renderer.recreated(true);

    renderer.presented(Presented::Shown { suboptimal: false });
    renderer.presented(Presented::Failed);
    assert_eq!(renderer.start(), FrameStart::Proceed);
    renderer.presented(Presented::Shown { suboptimal: true });
    assert_eq!(renderer.start(), FrameStart::Recreate);
    renderer.recreated(true);
    renderer.presented(Presented::OutOfDate);
    assert_eq!(renderer.start(), FrameStart::Recreate);
    renderer.recreated(true);

    renderer.set_present(PresentSettings { vsync: VsyncMode::Fifo, images: 2 });
    assert_eq!(renderer.start(), FrameStart::Proceed);
    renderer.set_present(PresentSettings { vsync: VsyncMode::Mailbox, images: 2 });
    assert_eq!(renderer.start(), FrameStart::Recreate);
}

/// Presentation settings and window sizes are inert offscreen: the next frame is
/// drawn as if nobody had asked.
#[test]
fn an_offscreen_frame_ignores_presentation() {
    let mut offscreen = renderer(false);
    offscreen.set_present(PresentSettings { vsync: VsyncMode::Mailbox, images: 5 });
    assert_eq!(offscreen.start(), FrameStart::Proceed);
    offscreen.resize([640, 480]);
    offscreen.resize([0, 0]);
    assert_eq!(offscreen.start(), FrameStart::Proceed);
    assert_eq!((offscreen.pending_extent, offscreen.recreate_swapchain), ([800, 600], false));
    assert_eq!(offscreen.acquired(Acquired::Offscreen), Some(0));
    assert!(matches!(offscreen.submit(1, None, 0, false), SubmitPlan::Unsplit(_)));
    assert_eq!(offscreen.start(), FrameStart::Proceed);
}

#[test]
fn frames_are_counted_and_submitted() {
    let mut offscreen = renderer(false);
    assert_eq!(offscreen.acquire_semaphore(), None);
    let mut renderer = renderer(true);
    assert_eq!((renderer.next_frame(), renderer.next_frame()), (0, 1));
    renderer.frame_index = u64::MAX;
    assert_eq!((renderer.next_frame(), renderer.next_frame()), (u64::MAX, 0));
    let acquire = renderer.acquire_semaphore();
    assert!(acquire.is_some());
    assert!(matches!(renderer.submit(1, acquire, 0, false), SubmitPlan::Unsplit(_)));
    let acquire = renderer.acquire_semaphore();
    assert!(matches!(renderer.submit(3, acquire, 1, true), SubmitPlan::Split(_)));
    // The held-back segment is finished before its target goes.
    let flush = renderer.before_recreation().unwrap();
    assert_eq!(flush.queue, Queue::Graphics);
    assert_eq!(flush.waits.len(), 2);
    assert!(renderer.before_recreation().is_none());
}

#[test]
fn gpu_culling_is_asked_for() {
    assert!(read_gpu_culling(Some(" 1 "), true));
    assert!(!read_gpu_culling(Some("1"), false));
    assert!(!read_gpu_culling(Some("yes"), true));
    assert!(!read_gpu_culling(None, true));
}

#[test]
fn views_are_numbered_camera_first() {
    assert_eq!(
        cull_views(true, Some((2, 1))),
        vec![CullView::Camera, CullView::Cascade(0), CullView::Cascade(1), CullView::Face(0)]
    );
    assert_eq!(cull_views(true, None), vec![CullView::Camera]);
    assert!(cull_views(false, Some((2, 1))).is_empty());
}

#[test]
fn the_last_of_the_longest_lists_is_taken() {
    assert_eq!(longest_list(&[]), None);
    assert_eq!(longest_list(&[0]), Some(0));
    assert_eq!(longest_list(&[3, 7, 7, 2]), Some(2));
}

#[test]
fn raw_passes_run_after_the_frame() {
    let order = [2, 0, 1];
    let kinds = [PassKind::Raw, PassKind::Compute, PassKind::Raw];
    let bodies = [PassBody::Overlay, PassBody::SsrHiz, PassBody::OcclusionHiz];
    let raw = raw_passes(&order, &kinds, &bodies);
    assert_eq!(raw, vec![PassBody::OcclusionHiz, PassBody::Overlay]);
    assert!(has_overlay(&raw));
    assert!(!has_overlay(&raw[..1]));
    assert!(spread(Queue::Graphics) && !spread(Queue::AsyncCompute));
}

#[test]
fn a_kept_image_is_presented_through_its_overlay() {
    let ready = Finish::Overlay { ready: 4 };
    let overlay = [PassBody::Overlay];
    assert_eq!(
        finish_frame(ready, &overlay, true, true),
        FinishPlan { wait: Some(4), overlay: true, present: true }
    );
    // The frame after it drew none: the image is still waited for.
    assert_eq!(
        finish_frame(ready, &[], false, true),
        FinishPlan { wait: Some(4), overlay: false, present: true }
    );
    assert_eq!(
        finish_frame(ready, &overlay, true, false),
        FinishPlan { wait: Some(4), overlay: true, present: false }
    );
    assert_eq!(
        finish_frame(Finish::Present { wait: 9 }, &[], true, true),
        FinishPlan { wait: Some(9), overlay: false, present: true }
    );
    assert_eq!(
        finish_frame(Finish::Keep, &[], false, false),
        FinishPlan { wait: None, overlay: false, present: false }
    );
}

#[test]
fn only_an_offscreen_frame_is_copied_back() {
    assert!(renderer(true).capture([800, 600]).is_none());
    let mut renderer = renderer(false);
    let plan = renderer.capture([800, 600]).unwrap();
    assert_eq!(plan.bytes, 800 * 600 * 4);
    assert!(plan.flush.is_none());
    renderer.submit(3, None, 0, false);
    let plan = renderer.capture([1, 1]).unwrap();
    assert_eq!(plan.bytes, 4);
    assert_eq!(plan.flush.unwrap().waits.len(), 1);
    assert!(renderer.capture([1, 1]).unwrap().flush.is_none());
}

#[test]
fn every_segment_has_its_command_buffer() {
    let whole = command_buffers(&[(Queue::Graphics, 0, 9)]);
    assert_eq!(whole.len(), 1);
    assert!(whole[0].opens && whole[0].closes && whole[0].parallel);
    let split = command_buffers(&[
        (Queue::Graphics, 0, 5),
        (Queue::AsyncCompute, 5, 8),
        (Queue::Graphics, 8, 9),
    ]);
    let shape: Vec<_> =
        split.iter().map(|plan| (plan.first, plan.end, plan.opens, plan.closes)).collect();
    assert_eq!(shape, [(0, 5, true, false), (5, 8, false, false), (8, 9, false, true)]);
    assert!(split[0].parallel && !split[1].parallel && split[2].parallel);
    // Slot six is in the second, and in no other.
    let holding: Vec<_> =
        (0..3).filter(|i| (split[*i].first..split[*i].end).contains(&6)).collect();
    assert_eq!(holding, [1]);
}

#[test]
fn blended_queues_are_the_cpus() {
    assert_eq!(index_list(true, true), IndexList::Dispatched);
    assert_eq!(index_list(true, false), IndexList::Uploaded);
    assert_eq!(index_list(false, true), IndexList::Uploaded);
    assert_eq!(index_list(false, false), IndexList::Uploaded);
}
