use ferron::frame::PassBody;
use ferron::renderer::{Acquired, FinishPlan, FrameConfig, GraphChange, Presented, Renderer};
use ferron::steps::{FrameStep, Shown, StepAnswer};
use ferron::submission::{Queue, Stage, Wait};
use ferron::swapchain::{ColorFormat, PresentSettings, VsyncMode};

const FIFO: PresentSettings = PresentSettings { vsync: VsyncMode::Fifo, images: 2 };

fn renderer(windowed: bool) -> Renderer {
    Renderer::build(ColorFormat::Bgra8Srgb, [800, 600], FIFO, windowed, 6, true, false)
}

fn image(index: u32) -> StepAnswer {
    StepAnswer::Acquired(Acquired::Image { index, suboptimal: false })
}

fn recorded(segments: usize, overlay: bool) -> StepAnswer {
    let raw = if overlay { vec![PassBody::Overlay] } else { Vec::new() };
    StepAnswer::Recorded { segments, raw, supplied: overlay }
}

/// From the structure to the recording.
fn prepare(renderer: &mut Renderer, config: FrameConfig, acquired: StepAnswer) -> FrameStep {
    let step = renderer.begin();
    assert!(matches!(step, FrameStep::Structure));
    let step = renderer.advance(step, StepAnswer::Structure { config, stale: false });
    assert!(matches!(step, FrameStep::Allocate { .. }));
    let step = renderer.advance(step, StepAnswer::Carried);
    assert!(matches!(step, FrameStep::MakeRoom));
    let step = renderer.advance(step, StepAnswer::Carried);
    assert!(matches!(step, FrameStep::Acquire { .. }));
    renderer.advance(step, acquired)
}

#[test]
fn a_frame_on_one_queue_is_shown_at_once() {
    let mut renderer = renderer(true);
    let config = renderer.config;
    let step = prepare(&mut renderer, config, image(2));
    let FrameStep::Record { image: 2, frame: 0, acquire: Some(0) } = step else {
        panic!("{step:?}");
    };
    assert_eq!(renderer.frame_index, 1);
    let step = renderer.advance(step, recorded(1, false));
    let FrameStep::Submit { submissions, finished, compute: None } = &step else {
        panic!("{step:?}");
    };
    assert_eq!(submissions.len(), 1);
    assert_eq!(submissions[0].queue, Queue::Graphics);
    assert_eq!(
        submissions[0].waits,
        vec![Wait { semaphore: 0, stage: Stage::ColorAttachmentOutput }]
    );
    assert_eq!(submissions[0].signals, vec![1, 2]);
    let finish = FinishPlan { wait: Some(1), overlay: false, present: true };
    assert_eq!(*finished, Some(Shown { image_index: 2, finish }));
    let step = renderer.advance(step, StepAnswer::Carried);
    assert!(matches!(step, FrameStep::Finish { shown: Shown { image_index: 2, .. }, .. }));
    let stale = Presented::Shown { suboptimal: true };
    let step = renderer.advance(step, StepAnswer::Presented(stale));
    assert!(matches!(step, FrameStep::Done));
    // The next frame rebuilds the target first; nothing was held back.
    assert!(matches!(renderer.begin(), FrameStep::Drain { flush: None }));
}

#[test]
fn a_split_frame_shows_the_one_before_it() {
    let mut renderer = renderer(true);
    let config = renderer.config;
    let step = prepare(&mut renderer, config, image(0));
    let step = renderer.advance(step, recorded(3, true));
    assert!(matches!(&step, FrameStep::Submit { submissions, finished: None, compute: Some(_) }
        if submissions.len() == 1));
    let step = renderer.advance(step, StepAnswer::Carried);
    assert!(matches!(&step, FrameStep::Compute { submission }
        if submission.queue == Queue::AsyncCompute));
    assert!(matches!(renderer.advance(step, StepAnswer::Carried), FrameStep::Done));

    let step = prepare(&mut renderer, config, image(1));
    let step = renderer.advance(step, recorded(3, true));
    let FrameStep::Submit { submissions, finished: Some(shown), .. } = &step else {
        panic!("{step:?}");
    };
    assert_eq!(submissions.len(), 2);
    assert_eq!(shown.image_index, 0);
    assert!(shown.finish.overlay && shown.finish.present);
    // Shown between its own submission and this frame's compute tail.
    let step = renderer.advance(step, StepAnswer::Carried);
    assert!(matches!(step, FrameStep::Finish { .. }));
    let shown = StepAnswer::Presented(Presented::Shown { suboptimal: false });
    let step = renderer.advance(step, shown);
    assert!(matches!(step, FrameStep::Compute { .. }));
    assert!(matches!(renderer.advance(step, StepAnswer::Carried), FrameStep::Done));
}

/// What is held back against a target is submitted before the target is rebuilt.
#[test]
fn a_rebuild_follows_its_flush() {
    let mut renderer = renderer(true);
    let config = renderer.config;
    let step = prepare(&mut renderer, config, image(0));
    let step = renderer.advance(step, recorded(3, false));
    let step = renderer.advance(step, StepAnswer::Carried);
    assert!(matches!(renderer.advance(step, StepAnswer::Carried), FrameStep::Done));
    assert!(renderer.chain.pending.is_some());
    renderer.resize([640, 480]);
    let step = renderer.begin();
    let FrameStep::Drain { flush: Some(flush) } = &step else {
        panic!("{step:?}");
    };
    assert_eq!((flush.waits.len(), flush.signals.len()), (2, 0));
    assert!(renderer.chain.pending.is_none());
    let step = renderer.advance(step, StepAnswer::Carried);
    assert!(matches!(step, FrameStep::Rebuild { extent: [640, 480], present: FIFO }));
    // One that could not be rebuilt drops the frame, and the next tries again.
    let step = renderer.advance(step, StepAnswer::Rebuilt(false));
    assert!(matches!(step, FrameStep::Done));
    let step = renderer.begin();
    assert!(matches!(step, FrameStep::Drain { flush: None }));
    let step = renderer.advance(step, StepAnswer::Carried);
    let step = renderer.advance(step, StepAnswer::Rebuilt(true));
    assert!(matches!(step, FrameStep::Structure));
    assert!(!renderer.recreate_swapchain);
    let step = renderer.advance(step, StepAnswer::Structure { config, stale: true });
    assert!(matches!(step, FrameStep::Allocate { change: GraphChange::Reallocate }));
}

#[test]
fn a_frame_without_an_image_is_dropped() {
    let mut renderer = renderer(true);
    let config = renderer.config;
    let outdated = StepAnswer::Acquired(Acquired::OutOfDate);
    assert!(matches!(prepare(&mut renderer, config, outdated), FrameStep::Done));
    assert_eq!((renderer.frame_index, renderer.recreate_swapchain), (0, true));
    renderer.resize([0, 480]);
    assert!(matches!(renderer.begin(), FrameStep::Done));
}

#[test]
fn an_offscreen_frame_waits_for_nobody() {
    let mut renderer = renderer(false);
    let config = FrameConfig { msaa: true, ..renderer.config };
    let step = renderer.begin();
    let step = renderer.advance(step, StepAnswer::Structure { config, stale: false });
    assert!(matches!(step, FrameStep::Allocate { change: GraphChange::Recompile }));
    let step = renderer.advance(step, StepAnswer::Carried);
    let step = renderer.advance(step, StepAnswer::Carried);
    assert!(matches!(step, FrameStep::Acquire { semaphore: None }));
    let step = renderer.advance(step, StepAnswer::Acquired(Acquired::Offscreen));
    assert!(matches!(step, FrameStep::Record { image: 0, frame: 0, acquire: None }));
    let step = renderer.advance(step, recorded(1, false));
    let step = renderer.advance(step, StepAnswer::Carried);
    let kept = FinishPlan { wait: None, overlay: false, present: false };
    assert!(matches!(&step, FrameStep::Finish { shown, compute: None } if shown.finish == kept));
    assert!(matches!(renderer.advance(step, StepAnswer::Carried), FrameStep::Done));
}
