//! One frame from the outside: when there is one at all, what it is made of, and
//! what the presentation engine's answers lead to.
//!
//! Whoever owns the device asks for the next decision, does the work, and hands
//! back what happened.

use crate::frame::{FrameIds, PassBody, PassKind, ResourceId};
use crate::submission::{
    finish_waits, flush_step, split_step, unsplit_step, Chain, Finish, Queue, SplitPlan, Submission,
    UnsplitPlan,
};
use crate::swapchain::{ColorFormat, PresentSettings};
use crate::text::{same, trim, trimmed};
use crate::timestamps::{GpuTimestamps, PassToken, SlotView, MAX_PASSES};
use vstd::prelude::*;

verus! {

/// The structure a frame's graph is compiled for. A frame whose structure still
/// matches reuses the compiled graph: recompiling is for a change of shape, never
/// for a change of contents.
#[derive(Clone, Copy, Debug, PartialEq, Eq, Structural)]
pub struct FrameConfig {
    pub color_format: ColorFormat,
    pub msaa: bool,
    pub ssao: bool,
    pub ssao_half_res: bool,
    pub contact_shadows: bool,
    pub ssr: bool,
    pub subsurface: bool,
    pub transparency: bool,
    pub refraction: bool,
    pub taa: bool,
    pub auto_exposure: bool,
    pub volumetric_fog: bool,
    pub motion_blur: bool,
    pub dof: bool,
    pub bloom_mips: u8,
    pub overlay: bool,
    pub shadow_cascades: u8,
    pub shadow_resolution: u32,
    pub shadow_atlas: u32,
    pub async_compute: bool,
    pub gpu_culling: bool,
}

/// The shadows a frame was given: how many cascades there are matrices for, how
/// large their maps are, and the atlas with its faces.
#[derive(Clone, Copy, Debug, PartialEq, Eq, Structural)]
pub struct ShadowShape {
    pub cascades: usize,
    pub resolution: u32,
    pub atlas_faces: usize,
    pub atlas_resolution: u32,
}

/// Everything a frame's structure is derived from.
#[derive(Clone, Copy, Debug, PartialEq, Eq, Structural)]
pub struct FrameSettings {
    pub color_format: ColorFormat,
    pub msaa: bool,
    pub ssao: bool,
    pub ssao_half_resolution: bool,
    pub contact_shadows: bool,
    pub ssr: bool,
    pub subsurface: bool,
    pub transparency: bool,
    pub refraction: bool,
    pub taa: bool,
    pub auto_exposure: bool,
    pub volumetric_fog: bool,
    pub motion_blur: bool,
    pub dof: bool,
    pub bloom: bool,
    /// Levels a bloom chain of the frame's extent has.
    pub bloom_levels: u8,
    pub overlay: bool,
    /// Draws in the blended and refractive queues.
    pub transparent_draws: usize,
    pub refractive_draws: usize,
    pub shadows: Option<ShadowShape>,
    /// Whether the device has a second queue.
    pub compute_queue: bool,
    pub gpu_culling: bool,
}

/// Whether there is a frame to render.
#[derive(Clone, Copy, Debug, PartialEq, Eq, Structural)]
pub enum FrameStart {
    /// No: the window has no area.
    Skip,
    /// Once the target is rebuilt. Whatever is in flight is finished first: it
    /// names images of the old one.
    Recreate,
    Proceed,
}

/// What a frame's structure asks of the compiled graph.
#[derive(Clone, Copy, Debug, PartialEq, Eq, Structural)]
pub enum GraphChange {
    Keep,
    /// The same graph over images of another size.
    Reallocate,
    /// Another graph, and images for it.
    Recompile,
}

/// What a frame submits: one command buffer, or three on two queues.
#[derive(Debug)]
pub enum SubmitPlan {
    Unsplit(UnsplitPlan),
    Split(SplitPlan),
}

/// What the presentation engine answered to an acquire.
#[derive(Clone, Copy, Debug, PartialEq, Eq, Structural)]
pub enum Acquired {
    /// There is none: one image, always available.
    Offscreen,
    Image { index: u32, suboptimal: bool },
    OutOfDate,
}

/// What the presentation engine answered to a present.
#[derive(Clone, Copy, Debug, PartialEq, Eq, Structural)]
pub enum Presented {
    Shown { suboptimal: bool },
    OutOfDate,
    Failed,
}

/// What the shading passes sample, each `None` where the frame was compiled
/// without it and a stand-in of one texel takes its place: unoccluded, lit, clear
/// air. A feature that is off costs no second shader.
#[derive(Clone, Copy, Debug, PartialEq, Eq, Structural)]
pub struct ShadingInputs {
    pub ambient_occlusion: Option<ResourceId>,
    pub contact_shadows: Option<ResourceId>,
    pub cascades: Option<ResourceId>,
    pub atlas: Option<ResourceId>,
    pub volume: Option<ResourceId>,
    /// Whether bloom is added at all: a window too small for a chain leaves it
    /// asked for but unbuilt, and blending the stand-in would darken the image.
    pub bloom: bool,
}

/// What becomes of a finished frame's image.
#[derive(Clone, Copy, Debug, PartialEq, Eq, Structural)]
pub struct FinishPlan {
    /// The semaphore to wait for first.
    pub wait: Option<u64>,
    /// Whether the overlay is drawn over it.
    pub overlay: bool,
    pub present: bool,
}

/// How a rendered frame is copied back.
#[derive(Debug)]
pub struct CapturePlan {
    /// The segment to submit first, where one is held back: without it the copy
    /// would be of the frame before the one just rendered.
    pub flush: Option<Submission>,
    pub bytes: u64,
}

/// A view that the dispatch culls against.
#[derive(Clone, Copy, Debug, PartialEq, Eq, Structural)]
pub enum CullView {
    Camera,
    Cascade(usize),
    Face(usize),
}

/// What the renderer remembers between frames.
#[derive(Debug)]
pub struct Renderer {
    pub config: FrameConfig,
    pub recreate_swapchain: bool,
    pub pending_extent: [u32; 2],
    pub present: PresentSettings,
    /// Which frame this is, counted from the first.
    pub frame_index: u64,
    pub chain: Chain,
}

/// The structure of a frame with these settings.
pub open spec fn config_of(settings: FrameSettings) -> FrameConfig {
    FrameConfig {
        color_format: settings.color_format,
        msaa: settings.msaa,
        ssao: settings.ssao,
        ssao_half_res: settings.ssao_half_resolution,
        contact_shadows: settings.contact_shadows,
        ssr: settings.ssr,
        subsurface: settings.subsurface,
        transparency: settings.transparency && settings.transparent_draws > 0,
        refraction: settings.refraction && settings.refractive_draws > 0,
        taa: settings.taa,
        auto_exposure: settings.auto_exposure,
        volumetric_fog: settings.volumetric_fog,
        motion_blur: settings.motion_blur,
        dof: settings.dof,
        bloom_mips: if settings.bloom {
            settings.bloom_levels
        } else {
            0
        },
        overlay: settings.overlay,
        shadow_cascades: match settings.shadows {
            Some(shadows) => shadows.cascades as u8,
            None => 0,
        },
        shadow_resolution: match settings.shadows {
            Some(shadows) => shadows.resolution,
            None => 1,
        },
        shadow_atlas: match settings.shadows {
            Some(shadows) => if shadows.atlas_faces == 0 {
                0
            } else {
                shadows.atlas_resolution
            },
            None => 0,
        },
        async_compute: settings.compute_queue,
        gpu_culling: settings.gpu_culling,
    }
}

/// The structure of a frame with these settings.
///
/// Emptiness is part of it, not a flag read at record time: with nothing blended
/// or refractive on screen those chains are identity operations that still cost
/// their attachments. The shadows come from what was fitted rather than from the
/// settings, so that the passes declared cannot disagree with the matrices there
/// are to draw them with.
pub fn frame_config(settings: FrameSettings) -> (config: FrameConfig)
    ensures
        config == config_of(settings),
{
    let (shadow_cascades, shadow_resolution, shadow_atlas): (u8, u32, u32) =
        match settings.shadows {
        Some(shadows) => (
            #[verifier::truncate] (shadows.cascades as u8),
            shadows.resolution,
            if shadows.atlas_faces == 0 {
                0
            } else {
                shadows.atlas_resolution
            },
        ),
        None => (0, 1, 0),
    };
    FrameConfig {
        color_format: settings.color_format,
        msaa: settings.msaa,
        ssao: settings.ssao,
        ssao_half_res: settings.ssao_half_resolution,
        contact_shadows: settings.contact_shadows,
        ssr: settings.ssr,
        subsurface: settings.subsurface,
        transparency: settings.transparency && settings.transparent_draws > 0,
        refraction: settings.refraction && settings.refractive_draws > 0,
        taa: settings.taa,
        auto_exposure: settings.auto_exposure,
        volumetric_fog: settings.volumetric_fog,
        motion_blur: settings.motion_blur,
        dof: settings.dof,
        bloom_mips: if settings.bloom {
            settings.bloom_levels
        } else {
            0
        },
        overlay: settings.overlay,
        shadow_cascades,
        shadow_resolution,
        shadow_atlas,
        async_compute: settings.compute_queue,
        gpu_culling: settings.gpu_culling,
    }
}

/// The editor's frame, which the graph is first compiled for.
pub open spec fn initial_config_spec(
    color_format: ColorFormat,
    bloom_mips: u8,
    compute_queue: bool,
    gpu_culling: bool,
) -> FrameConfig {
    FrameConfig {
        color_format,
        msaa: false,
        ssao: true,
        ssao_half_res: true,
        contact_shadows: true,
        ssr: false,
        subsurface: false,
        transparency: true,
        refraction: true,
        taa: true,
        auto_exposure: true,
        volumetric_fog: false,
        motion_blur: false,
        dof: false,
        bloom_mips,
        overlay: true,
        shadow_cascades: 0,
        shadow_resolution: 1,
        shadow_atlas: 0,
        async_compute: compute_queue,
        gpu_culling,
    }
}

/// Whether the frame decides its visible set on the GPU: off unless `asked`
/// reads `1`, and off on a device that cannot multi-draw.
pub fn read_gpu_culling(asked: Option<&str>, multi_draw: bool) -> (gpu: bool)
    ensures
        gpu == (asked is Some && trimmed(asked->0@) == "1"@ && multi_draw),
{
    match asked {
        Some(value) => same(trim(value), "1") && multi_draw,
        None => false,
    }
}

/// The views the dispatch culls against: the camera, then each cascade, then each
/// face of the atlas.
pub open spec fn views_of(shadows: Option<(usize, usize)>) -> Seq<CullView> {
    match shadows {
        Some((cascades, faces)) => seq![CullView::Camera] + Seq::new(
            cascades as nat,
            |i: int| CullView::Cascade(i as usize),
        ) + Seq::new(faces as nat, |i: int| CullView::Face(i as usize)),
        None => seq![CullView::Camera],
    }
}

/// Number the views the dispatch culls against. `shadows` is how many cascades
/// and how many faces there are; none are numbered where the CPU sweeps.
pub fn cull_views(gpu_culling: bool, shadows: Option<(usize, usize)>) -> (views: Vec<CullView>)
    ensures
        gpu_culling ==> views@ == views_of(shadows),
        !gpu_culling ==> views@.len() == 0,
{
    let mut views: Vec<CullView> = Vec::new();
    if !gpu_culling {
        return views;
    }
    views.push(CullView::Camera);
    if let Some((cascades, faces)) = shadows {
        let mut i: usize = 0;
        assert(views@ =~= seq![CullView::Camera] + Seq::new(
            0,
            |k: int| CullView::Cascade(k as usize),
        ));
        while i < cascades
            invariant
                i <= cascades,
                views@ == seq![CullView::Camera] + Seq::new(
                    i as nat,
                    |k: int| CullView::Cascade(k as usize),
                ),
            decreases cascades - i,
        {
            views.push(CullView::Cascade(i));
            i = i + 1;
            assert(views@ =~= seq![CullView::Camera] + Seq::new(
                i as nat,
                |k: int| CullView::Cascade(k as usize),
            ));
        }
        let ghost before = views@;
        let mut j: usize = 0;
        assert(views@ =~= before + Seq::new(0, |k: int| CullView::Face(k as usize)));
        while j < faces
            invariant
                j <= faces,
                views@ == before + Seq::new(j as nat, |k: int| CullView::Face(k as usize)),
            decreases faces - j,
        {
            views.push(CullView::Face(j));
            j = j + 1;
            assert(views@ =~= before + Seq::new(j as nat, |k: int| CullView::Face(k as usize)));
        }
    } else {
        assert(views@ =~= seq![CullView::Camera]);
    }
    views
}

/// Which of a frame's lists carries the most items: the last of the longest.
///
/// Every list orders one shared array, so any non-empty list carries the whole
/// of it. The longest rather than the camera's keeps a frame that culled
/// everything on screen, and still casts shadows, from syncing nothing.
pub fn longest_list(lens: &[usize]) -> (longest: Option<usize>)
    ensures
        longest is None <==> lens@.len() == 0,
        longest is Some ==> {
            &&& longest->0 < lens@.len()
            &&& forall|i: int|
                0 <= i < lens@.len() ==> #[trigger] lens@[i] <= lens@[longest->0 as int]
            &&& forall|i: int|
                longest->0 < i < lens@.len() ==> #[trigger] lens@[i] < lens@[longest->0 as int]
        },
{
    if lens.len() == 0 {
        return None;
    }
    let mut best: usize = 0;
    let mut i: usize = 1;
    while i < lens.len()
        invariant
            1 <= i <= lens@.len(),
            best < i,
            forall|j: int| 0 <= j < i ==> #[trigger] lens@[j] <= lens@[best as int],
            forall|j: int| best < j < i ==> #[trigger] lens@[j] < lens@[best as int],
        decreases lens@.len() - i,
    {
        if lens[i] >= lens[best] {
            best = i;
        }
        i = i + 1;
    }
    Some(best)
}

/// The bodies of the raw passes of the first `count` slots, in order.
pub open spec fn raw_of(
    order: Seq<usize>,
    kinds: Seq<PassKind>,
    bodies: Seq<PassBody>,
    count: int,
) -> Seq<PassBody>
    decreases count,
{
    if count <= 0 {
        Seq::empty()
    } else {
        let rest = raw_of(order, kinds, bodies, count - 1);
        let pass = order[count - 1] as int;
        if kinds[pass] is Raw {
            rest.push(bodies[pass])
        } else {
            rest
        }
    }
}

/// The passes that own their submission: they run after the frame's command
/// buffer rather than inside it.
pub fn raw_passes(order: &[usize], kinds: &[PassKind], bodies: &[PassBody]) -> (raw: Vec<PassBody>)
    requires
        kinds@.len() == bodies@.len(),
        forall|i: int| 0 <= i < order@.len() ==> #[trigger] order@[i] < kinds@.len(),
    ensures
        raw@ == raw_of(order@, kinds@, bodies@, order@.len() as int),
{
    let mut raw: Vec<PassBody> = Vec::new();
    let mut i: usize = 0;
    while i < order.len()
        invariant
            i <= order@.len(),
            kinds@.len() == bodies@.len(),
            forall|k: int| 0 <= k < order@.len() ==> #[trigger] order@[k] < kinds@.len(),
            raw@ == raw_of(order@, kinds@, bodies@, i as int),
        decreases order@.len() - i,
    {
        let pass: usize = order[i];
        if kinds[pass] == PassKind::Raw {
            raw.push(bodies[pass]);
        }
        i = i + 1;
    }
    raw
}

/// The timed passes among the first `count` slots, by name: raw passes are never
/// timed.
pub open spec fn timed_of(
    order: Seq<usize>,
    kinds: Seq<PassKind>,
    names: Seq<Seq<char>>,
    count: int,
) -> Seq<Seq<char>>
    decreases count,
{
    if count <= 0 {
        Seq::empty()
    } else {
        let rest = timed_of(order, kinds, names, count - 1);
        let pass = order[count - 1] as int;
        if kinds[pass] is Raw {
            rest
        } else {
            rest.push(names[pass])
        }
    }
}

/// As many of some names as there are query pairs for.
pub open spec fn fitting(names: Seq<Seq<char>>) -> Seq<Seq<char>> {
    if names.len() <= MAX_PASSES {
        names
    } else {
        names.subrange(0, MAX_PASSES as int)
    }
}

/// Reserve one query pair per timed pass, before any pass records: taking a pair
/// changes the frame's slot, and a pass may be recording on a worker.
///
/// A slot gets its pair in the order of the schedule, from the pairs the frame
/// has left; none where it is raw, where timing is off, or where they ran out.
pub fn reserve_tokens(
    timestamps: &mut GpuTimestamps,
    order: &[usize],
    kinds: &[PassKind],
    names: &Vec<String>,
    enabled: bool,
    gpu_passes: bool,
) -> (tokens: Vec<Option<PassToken>>)
    requires
        old(timestamps).wf(),
        kinds@.len() == names@.len(),
        forall|i: int| 0 <= i < order@.len() ==> #[trigger] order@[i] < kinds@.len(),
    ensures
        final(timestamps).wf(),
        final(timestamps).write == old(timestamps).write,
        final(timestamps).others_kept(old(timestamps), old(timestamps).write as int),
        tokens@.len() == order@.len(),
        ({
            let views = names@.map_values(|name: String| name@);
            let used = old(timestamps).current().names.len();
            &&& final(timestamps).current() == (SlotView {
                names: if enabled && gpu_passes {
                    fitting(
                        old(timestamps).current().names + timed_of(
                            order@,
                            kinds@,
                            views,
                            order@.len() as int,
                        ),
                    )
                } else {
                    old(timestamps).current().names
                },
                ..old(timestamps).current()
            })
            &&& forall|i: int|
                0 <= i < order@.len() ==> #[trigger] tokens@[i] == (if enabled && gpu_passes
                    && !(kinds@[order@[i] as int] is Raw) && used + timed_of(
                    order@,
                    kinds@,
                    views,
                    i,
                ).len() < MAX_PASSES {
                    Some(
                        PassToken {
                            base: (2 * (used + timed_of(order@, kinds@, views, i).len())) as u32,
                        },
                    )
                } else {
                    None
                })
        }),
{
    let mut tokens: Vec<Option<PassToken>> = Vec::new();
    let ghost views = names@.map_values(|name: String| name@);
    let ghost first = *timestamps;
    let ghost used = timestamps.current().names.len();
    let mut i: usize = 0;
    proof {
        assert(first.slots@[first.write as int].wf());
        assert(first.current().names + timed_of(order@, kinds@, views, 0)
            =~= first.current().names);
    }
    while i < order.len()
        invariant
            i <= order@.len(),
            timestamps.wf(),
            timestamps.write == first.write,
            timestamps.others_kept(&first, first.write as int),
            views == names@.map_values(|name: String| name@),
            kinds@.len() == names@.len(),
            forall|k: int| 0 <= k < order@.len() ==> #[trigger] order@[k] < kinds@.len(),
            tokens@.len() == i,
            used <= MAX_PASSES,
            used == first.current().names.len(),
            timestamps.current() == (SlotView {
                names: if enabled && gpu_passes {
                    fitting(
                        first.current().names + timed_of(order@, kinds@, views, i as int),
                    )
                } else {
                    first.current().names
                },
                ..first.current()
            }),
            forall|k: int|
                0 <= k < i ==> #[trigger] tokens@[k] == (if enabled && gpu_passes
                    && !(kinds@[order@[k] as int] is Raw) && used + timed_of(
                    order@,
                    kinds@,
                    views,
                    k,
                ).len() < MAX_PASSES {
                    Some(
                        PassToken {
                            base: (2 * (used + timed_of(order@, kinds@, views, k).len())) as u32,
                        },
                    )
                } else {
                    None
                }),
        decreases order@.len() - i,
    {
        let pass: usize = order[i];
        let ghost earlier = first.current().names + timed_of(order@, kinds@, views, i as int);
        let ghost now = first.current().names + timed_of(order@, kinds@, views, i as int + 1);
        proof {
            assert(views[pass as int] == names@[pass as int]@);
            if !(kinds@[pass as int] is Raw) {
                assert(now =~= earlier.push(names@[pass as int]@));
                if earlier.len() < MAX_PASSES {
                    assert(fitting(now) =~= fitting(earlier).push(names@[pass as int]@));
                } else {
                    assert(fitting(now) =~= fitting(earlier));
                }
            }
        }
        let token = if kinds[pass] == PassKind::Raw {
            None
        } else {
            timestamps.reserve(names[pass].as_str(), enabled, gpu_passes)
        };
        tokens.push(token);
        i = i + 1;
    }
    tokens
}

/// Whether the overlay is among the raw passes.
pub fn has_overlay(raw: &[PassBody]) -> (overlay: bool)
    ensures
        overlay == raw@.contains(PassBody::Overlay),
{
    let mut i: usize = 0;
    while i < raw.len()
        invariant
            i <= raw@.len(),
            forall|j: int| 0 <= j < i ==> #[trigger] raw@[j] != PassBody::Overlay,
        decreases raw@.len() - i,
    {
        if raw[i] == PassBody::Overlay {
            assert(raw@[i as int] == PassBody::Overlay);
            return true;
        }
        i = i + 1;
    }
    false
}

/// What the shading passes sample in a frame.
pub open spec fn shading_inputs_spec(ids: &FrameIds) -> ShadingInputs {
    ShadingInputs {
        ambient_occlusion: match ids.ssao {
            Some(ssao) => Some(ssao.ao),
            None => None,
        },
        contact_shadows: ids.contact_shadows,
        cascades: ids.shadows,
        atlas: ids.shadow_atlas,
        volume: match ids.fog {
            Some(fog) => Some(fog.volume),
            None => None,
        },
        bloom: ids.bloom is Some,
    }
}

/// What the shading passes sample in a frame: from the compiled frame rather than
/// from the settings, which it may not have been able to follow.
pub fn shading_inputs(ids: &FrameIds) -> (inputs: ShadingInputs)
    ensures
        inputs == shading_inputs_spec(ids),
{
    ShadingInputs {
        ambient_occlusion: match ids.ssao {
            Some(ssao) => Some(ssao.ao),
            None => None,
        },
        contact_shadows: ids.contact_shadows,
        cascades: ids.shadows,
        atlas: ids.shadow_atlas,
        volume: match ids.fog {
            Some(fog) => Some(fog.volume),
            None => None,
        },
        bloom: ids.bloom.is_some(),
    }
}

/// The passes after the frame can be run with what was supplied: nothing but the
/// overlay owns its submission, it is scheduled only where one was supplied, and
/// never over an image that was not kept for it.
pub open spec fn can_finish(finish: Finish, raw: Seq<PassBody>, supplied: bool) -> bool {
    &&& forall|i: int| 0 <= i < raw.len() ==> #[trigger] raw[i] == PassBody::Overlay
    &&& raw.len() <= (if supplied && finish is Overlay {
        1int
    } else {
        0
    })
}

/// What going from one structure to another asks of the graph.
pub open spec fn change_of(before: FrameConfig, config: FrameConfig, stale: bool) -> GraphChange {
    if before != config {
        GraphChange::Recompile
    } else if stale {
        GraphChange::Reallocate
    } else {
        GraphChange::Keep
    }
}

/// What becomes of a finished image: it is waited for by whoever takes it, drawn
/// over where it was kept for that, and presented where there is a presentation
/// engine.
pub open spec fn finish_of(finish: Finish, raw: Seq<PassBody>, windowed: bool) -> FinishPlan {
    FinishPlan {
        wait: finish_waits(finish),
        overlay: finish is Overlay && raw.contains(PassBody::Overlay),
        present: windowed,
    }
}

/// Draw the overlay over a finished frame and present it.
///
/// Shared by both ways of submitting, which differ only in when they reach it. An
/// image that was kept for an overlay is waited for and presented by it, whether
/// or not this frame draws one.
pub fn finish_frame(finish: Finish, raw: &[PassBody], supplied: bool, windowed: bool) -> (plan:
    FinishPlan)
    requires
        can_finish(finish, raw@, supplied),
    ensures
        plan == finish_of(finish, raw@, windowed),
{
    match finish {
        Finish::Overlay { ready } => FinishPlan {
            wait: Some(ready),
            overlay: has_overlay(raw),
            present: windowed,
        },
        Finish::Present { wait } => FinishPlan { wait: Some(wait), overlay: false, present: windowed },
        Finish::Keep => FinishPlan { wait: None, overlay: false, present: windowed },
    }
}

/// Whether recording a segment is worth spreading over the pool: only the
/// graphics work is, a compute tail being a handful of commands.
pub fn spread(queue: Queue) -> (parallel: bool)
    ensures
        parallel == (queue is Graphics),
{
    queue == Queue::Graphics
}

/// The command buffer of one segment of the schedule.
#[derive(Clone, Copy, Debug)]
pub struct SegmentPlan {
    pub queue: Queue,
    /// The slots it records.
    pub first: usize,
    pub end: usize,
    /// Whether recording it is spread over the pool.
    pub parallel: bool,
    /// Whether it begins with what a frame begins with: the queries' reset, and
    /// the copies that bring the object rows up to date.
    pub opens: bool,
    /// Whether it ends with what a frame ends with: the barriers that leave every
    /// import as its owner expects, and the closing stamp.
    pub closes: bool,
}

/// One command buffer for each segment of the schedule, each for the queue that
/// the schedule put it on.
pub fn command_buffers(segments: &[(Queue, usize, usize)]) -> (plans: Vec<SegmentPlan>)
    requires
        segments@.len() >= 1,
    ensures
        plans@.len() == segments@.len(),
        forall|i: int|
            0 <= i < plans@.len() ==> #[trigger] plans@[i] == (SegmentPlan {
                queue: segments@[i].0,
                first: segments@[i].1,
                end: segments@[i].2,
                parallel: segments@[i].0 is Graphics,
                opens: i == 0,
                closes: i == plans@.len() - 1,
            }),
{
    let mut plans: Vec<SegmentPlan> = Vec::new();
    let mut i: usize = 0;
    while i < segments.len()
        invariant
            i <= segments@.len(),
            plans@.len() == i,
            forall|k: int|
                0 <= k < i ==> #[trigger] plans@[k] == (SegmentPlan {
                    queue: segments@[k].0,
                    first: segments@[k].1,
                    end: segments@[k].2,
                    parallel: segments@[k].0 is Graphics,
                    opens: k == 0,
                    closes: k == segments@.len() - 1,
                }),
        decreases segments@.len() - i,
    {
        let (queue, first, end): (Queue, usize, usize) = segments[i];
        plans.push(
            SegmentPlan {
                queue,
                first,
                end,
                parallel: spread(queue),
                opens: i == 0,
                closes: i == segments.len() - 1,
            },
        );
        i = i + 1;
    }
    plans
}

/// A list of the rows a pass draws.
#[derive(Clone, Copy, Debug, PartialEq, Eq, Structural)]
pub enum IndexList {
    /// Written by the dispatch that culled.
    Dispatched,
    /// Written by the CPU.
    Uploaded,
}

/// The list a pass indexes its objects through: what the dispatch wrote, for the
/// opaque passes of a frame it culled. The blended and the refractive queues are
/// always the CPU's.
pub fn index_list(culled: bool, opaque: bool) -> (list: IndexList)
    ensures
        list is Dispatched <==> culled && opaque,
{
    if culled && opaque {
        IndexList::Dispatched
    } else {
        IndexList::Uploaded
    }
}

impl Renderer {
    pub open spec fn wf(&self) -> bool {
        self.chain.wf()
    }

    /// Whether there is a frame to render.
    pub open spec fn start_spec(&self) -> FrameStart {
        if self.pending_extent[0] == 0 || self.pending_extent[1] == 0 {
            FrameStart::Skip
        } else if self.recreate_swapchain {
            FrameStart::Recreate
        } else {
            FrameStart::Proceed
        }
    }

    /// The renderer once another extent is asked for.
    pub open spec fn resized(self, extent: [u32; 2]) -> Renderer {
        if self.chain.windowed {
            Renderer { pending_extent: extent, recreate_swapchain: true, ..self }
        } else {
            self
        }
    }

    /// The renderer once other presentation settings are asked for.
    pub open spec fn presenting(self, present: PresentSettings) -> Renderer {
        Renderer {
            present,
            recreate_swapchain: self.recreate_swapchain || (self.chain.windowed && self.present
                != present),
            ..self
        }
    }

    /// The renderer once the presentation engine answered to an acquire: a target
    /// that no longer fits is rebuilt before the next frame.
    pub open spec fn acquiring(self, answer: Acquired) -> Renderer {
        Renderer {
            recreate_swapchain: self.recreate_swapchain || answer is OutOfDate || (
            answer matches Acquired::Image { suboptimal, .. } && suboptimal),
            ..self
        }
    }

    /// The renderer once the presentation engine answered to a present.
    pub open spec fn showing(self, answer: Presented) -> Renderer {
        Renderer {
            recreate_swapchain: self.recreate_swapchain || answer is OutOfDate || (
            answer matches Presented::Shown { suboptimal } && suboptimal),
            ..self
        }
    }

    /// The renderer once another frame was numbered.
    pub open spec fn counted(self) -> Renderer {
        Renderer {
            frame_index: if self.frame_index == u64::MAX {
                0
            } else {
                (self.frame_index + 1) as u64
            },
            ..self
        }
    }

    /// A renderer that has drawn nothing yet.
    pub fn build(
        color_format: ColorFormat,
        extent: [u32; 2],
        present: PresentSettings,
        windowed: bool,
        bloom_mips: u8,
        compute_queue: bool,
        gpu_culling: bool,
    ) -> (renderer: Self)
        ensures
            renderer.wf(),
            renderer.config == initial_config_spec(
                color_format,
                bloom_mips,
                compute_queue,
                gpu_culling,
            ),
            !renderer.recreate_swapchain,
            renderer.pending_extent == extent,
            renderer.present == present,
            renderer.frame_index == 0,
            renderer.chain.windowed == windowed,
            renderer.chain.live() == Set::<u64>::empty(),
            renderer.chain.next_semaphore == 0,
    {
        Renderer {
            config: FrameConfig {
                color_format,
                msaa: false,
                ssao: true,
                ssao_half_res: true,
                contact_shadows: true,
                ssr: false,
                subsurface: false,
                transparency: true,
                refraction: true,
                taa: true,
                auto_exposure: true,
                volumetric_fog: false,
                motion_blur: false,
                dof: false,
                bloom_mips,
                overlay: true,
                shadow_cascades: 0,
                shadow_resolution: 1,
                shadow_atlas: 0,
                async_compute: compute_queue,
                gpu_culling,
            },
            recreate_swapchain: false,
            pending_extent: extent,
            present,
            frame_index: 0,
            chain: Chain::new(windowed),
        }
    }

    /// Whether there is a frame to render now.
    pub fn start(&self) -> (start: FrameStart)
        ensures
            start == self.start_spec(),
    {
        if self.pending_extent[0] == 0 || self.pending_extent[1] == 0 {
            FrameStart::Skip
        } else if self.recreate_swapchain {
            FrameStart::Recreate
        } else {
            FrameStart::Proceed
        }
    }

    /// The work to finish before the target is rebuilt: the segment held back
    /// against the old one, which writes an image acquired from it and is then
    /// dropped unpresented.
    pub fn before_recreation(&mut self) -> (flush: Option<Submission>)
        requires
            old(self).wf(),
        ensures
            final(self).wf(),
            *final(self) == (Renderer { chain: final(self).chain, ..*old(self) }),
            flush is Some <==> old(self).chain.pending is Some,
            flush_step(old(self).chain, final(self).chain, flush),
    {
        self.chain.flush_pending_tail()
    }

    /// How to copy the last frame back, four bytes a texel, or `None` in a window,
    /// whose images belong to the presentation engine.
    pub fn capture(&mut self, extent: [u32; 2]) -> (plan: Option<CapturePlan>)
        requires
            old(self).wf(),
            extent[0] * extent[1] * 4 <= u64::MAX,
        ensures
            final(self).wf(),
            *final(self) == (Renderer { chain: final(self).chain, ..*old(self) }),
            plan is None <==> old(self).chain.windowed,
            plan is None ==> final(self).chain == old(self).chain,
            plan matches Some(plan) ==> {
                &&& plan.flush is Some <==> old(self).chain.pending is Some
                &&& flush_step(old(self).chain, final(self).chain, plan.flush)
                &&& plan.bytes == extent[0] * extent[1] * 4
            },
    {
        if self.chain.windowed {
            return None;
        }
        let width: u64 = extent[0] as u64;
        let height: u64 = extent[1] as u64;
        assert(width * height <= u64::MAX) by (nonlinear_arith)
            requires
                width <= u32::MAX,
                height <= u32::MAX,
        ;
        let flush = self.chain.flush_pending_tail();
        Some(CapturePlan { flush, bytes: width * height * 4 })
    }

    /// The semaphore to acquire the frame's image with, or `None` offscreen,
    /// where nothing has to be waited for.
    pub fn acquire_semaphore(&mut self) -> (semaphore: Option<u64>)
        requires
            old(self).wf(),
            old(self).chain.windowed ==> old(self).chain.next_semaphore < u64::MAX,
        ensures
            final(self).wf(),
            *final(self) == (Renderer { chain: final(self).chain, ..*old(self) }),
            semaphore == (if old(self).chain.windowed {
                Some(old(self).chain.next_semaphore)
            } else {
                None::<u64>
            }),
            final(self).chain == (Chain {
                next_semaphore: (old(self).chain.next_semaphore + (if old(self).chain.windowed {
                    1int
                } else {
                    0
                })) as u64,
                ..old(self).chain
            }),
            final(self).chain.unused(semaphore),
    {
        if self.chain.windowed {
            Some(self.chain.fresh())
        } else {
            None
        }
    }

    /// Submit what was recorded: on one queue where the schedule has one segment,
    /// and over two where it has a head, a compute tail and a trailing segment.
    pub fn submit(&mut self, segments: usize, acquire: Option<u64>, image: u32, overlay: bool) -> (plan:
        SubmitPlan)
        requires
            old(self).wf(),
            segments == 1 || segments == 3,
            old(self).chain.unused(acquire),
            old(self).chain.next_semaphore <= u64::MAX - 5,
        ensures
            final(self).wf(),
            *final(self) == (Renderer { chain: final(self).chain, ..*old(self) }),
            plan is Unsplit <==> segments == 1,
            match plan {
                SubmitPlan::Unsplit(plan) => unsplit_step(
                    old(self).chain,
                    final(self).chain,
                    plan,
                    acquire,
                    image,
                    overlay,
                ),
                SubmitPlan::Split(plan) => split_step(
                    old(self).chain,
                    final(self).chain,
                    plan,
                    acquire,
                    image,
                    overlay,
                ),
            },
    {
        if segments == 1 {
            SubmitPlan::Unsplit(self.chain.submit_unsplit(acquire, image, overlay))
        } else {
            SubmitPlan::Split(self.chain.submit_split(acquire, image, overlay))
        }
    }

    /// Take note of whether the target could be rebuilt. The frame goes on where
    /// it could; where it could not, the next frame tries again. By now nothing is
    /// held back against the old one: see
    /// [`before_recreation`](Self::before_recreation).
    pub fn recreated(&mut self, rebuilt: bool) -> (proceed: bool)
        requires
            old(self).wf(),
            old(self).chain.pending is None,
        ensures
            *final(self) == (Renderer {
                recreate_swapchain: old(self).recreate_swapchain && !rebuilt,
                ..*old(self)
            }),
            proceed == rebuilt,
    {
        if rebuilt {
            self.recreate_swapchain = false;
        }
        rebuilt
    }

    /// Take on the frame's structure, and say what it asks of the graph. `stale`
    /// is whether the images were allocated at another extent.
    pub fn ensure_graph(&mut self, config: FrameConfig, stale: bool) -> (change: GraphChange)
        requires
            old(self).wf(),
        ensures
            *final(self) == (Renderer { config, ..*old(self) }),
            change == change_of(old(self).config, config, stale),
    {
        if self.config != config {
            self.config = config;
            GraphChange::Recompile
        } else if stale {
            GraphChange::Reallocate
        } else {
            GraphChange::Keep
        }
    }

    /// The image the frame draws into, or `None` where there is none until the
    /// target is rebuilt.
    pub fn acquired(&mut self, answer: Acquired) -> (image: Option<u32>)
        requires
            old(self).wf(),
        ensures
            image == (match answer {
                Acquired::Offscreen => Some(0u32),
                Acquired::Image { index, .. } => Some(index),
                Acquired::OutOfDate => None,
            }),
            *final(self) == old(self).acquiring(answer),
    {
        match answer {
            Acquired::Offscreen => Some(0),
            Acquired::Image { index, suboptimal } => {
                if suboptimal {
                    self.recreate_swapchain = true;
                }
                Some(index)
            },
            Acquired::OutOfDate => {
                self.recreate_swapchain = true;
                None
            },
        }
    }

    /// The number of the frame about to record, which picks its set of images.
    pub fn next_frame(&mut self) -> (frame: u64)
        requires
            old(self).wf(),
        ensures
            frame == old(self).frame_index,
            *final(self) == old(self).counted(),
    {
        let frame: u64 = self.frame_index;
        self.frame_index = frame.wrapping_add(1);
        frame
    }

    /// Take note of what became of a presented image. A failure that is neither
    /// a stale nor an out-of-date surface is only reported.
    pub fn presented(&mut self, answer: Presented)
        requires
            old(self).wf(),
        ensures
            *final(self) == old(self).showing(answer),
    {
        match answer {
            Presented::Shown { suboptimal } => {
                if suboptimal {
                    self.recreate_swapchain = true;
                }
            },
            Presented::OutOfDate => {
                self.recreate_swapchain = true;
            },
            Presented::Failed => {},
        }
    }

    /// Ask for another extent, from the next frame on. An offscreen target has a
    /// fixed one, and nothing resizes it out from under the frame.
    pub fn resize(&mut self, extent: [u32; 2])
        requires
            old(self).wf(),
        ensures
            *final(self) == old(self).resized(extent),
    {
        if self.chain.windowed {
            self.pending_extent = extent;
            self.recreate_swapchain = true;
        }
    }

    /// Ask for a different present mode or image count, from the next frame on.
    /// A call that changes nothing does nothing, and offscreen the settings are
    /// inert: there is no presentation engine to read them.
    pub fn set_present(&mut self, present: PresentSettings)
        requires
            old(self).wf(),
        ensures
            *final(self) == old(self).presenting(present),
    {
        if self.present != present {
            self.present = present;
            if self.chain.windowed {
                self.recreate_swapchain = true;
            }
        }
    }
}

/// **Offscreen, presentation is inert.** Whatever extent and whatever presentation
/// settings an offscreen renderer is asked for, its next frame starts as it would
/// have without.
pub proof fn offscreen_ignores_presentation(
    renderer: Renderer,
    extent: [u32; 2],
    present: PresentSettings,
)
    requires
        !renderer.chain.windowed,
    ensures
        renderer.resized(extent).start_spec() == renderer.start_spec(),
        renderer.presenting(present).start_spec() == renderer.start_spec(),
{
}

/// **The views are numbered the way the passes read them.** The camera is view
/// zero, cascade `c` is view `1 + c`, and the first face follows the last cascade.
pub proof fn views_match_the_passes(cascades: usize, faces: usize, index: int)
    ensures
        views_of(Some((cascades, faces)))[0] == CullView::Camera,
        0 <= index < cascades ==> views_of(Some((cascades, faces)))[1 + index]
            == CullView::Cascade(index as usize),
        0 <= index < faces ==> views_of(Some((cascades, faces)))[1 + cascades + index]
            == CullView::Face(index as usize),
        views_of(Some((cascades, faces))).len() == 1 + cascades + faces,
{
}

/// **Every slot is recorded once.** Where the segments of a schedule follow on from
/// one another, each slot lies in one command buffer, and in no other.
pub proof fn slots_are_recorded_once(segments: Seq<(Queue, usize, usize)>, slot: int) -> (at: int)
    requires
        segments.len() >= 1,
        segments[0].1 == 0,
        forall|i: int| 0 <= i < segments.len() ==> (#[trigger] segments[i]).1 <= segments[i].2,
        forall|i: int|
            0 < i < segments.len() ==> (#[trigger] segments[i]).1 == segments[i - 1].2,
        0 <= slot < segments.last().2,
    ensures
        0 <= at < segments.len(),
        segments[at].1 <= slot < segments[at].2,
        forall|i: int|
            0 <= i < segments.len() && (#[trigger] segments[i]).1 <= slot < segments[i].2 ==> i
                == at,
    decreases segments.len(),
{
    let last = segments.len() - 1;
    if slot >= segments[last].1 {
        assert forall|i: int|
            0 <= i < segments.len() && (#[trigger] segments[i]).1 <= slot < segments[i].2 implies i
            == last by {
            if i < last {
                segments_ascend(segments, i, last);
            }
        }
        last
    } else {
        let rest = segments.drop_last();
        assert(segments[last].1 == segments[last - 1].2);
        assert(rest.last() == segments[last - 1]);
        let at = slots_are_recorded_once(rest, slot);
        assert forall|i: int|
            0 <= i < segments.len() && (#[trigger] segments[i]).1 <= slot < segments[i].2 implies i
            == at by {
            assert(rest[i] == segments[i]);
        }
        at
    }
}

proof fn segments_ascend(segments: Seq<(Queue, usize, usize)>, i: int, j: int)
    requires
        0 <= i < j < segments.len(),
        forall|k: int| 0 <= k < segments.len() ==> (#[trigger] segments[k]).1 <= segments[k].2,
        forall|k: int|
            0 < k < segments.len() ==> (#[trigger] segments[k]).1 == segments[k - 1].2,
    ensures
        segments[i].2 <= segments[j].1,
    decreases j - i,
{
    assert(segments[j].1 == segments[j - 1].2);
    if i + 1 < j {
        segments_ascend(segments, i, j - 1);
    }
}

/// **An empty queue has no passes.** Whatever the settings say, a frame with
/// nothing blended declares no transparency, and one with nothing refractive no
/// refraction.
pub proof fn empty_queues_cost_nothing(settings: FrameSettings)
    ensures
        settings.transparent_draws == 0 ==> !config_of(settings).transparency,
        settings.refractive_draws == 0 ==> !config_of(settings).refraction,
        !settings.bloom ==> config_of(settings).bloom_mips == 0,
        settings.shadows is None ==> config_of(settings).shadow_cascades == 0 && config_of(
            settings,
        ).shadow_atlas == 0,
{
}

/// **Every switch reaches its own feature.** Each switch of a frame's structure is
/// the setting of the same name, whatever the others are; the two queues are on where
/// they are asked for and there is something in them; and bloom has the levels of the
/// frame's chain where it is asked for.
pub proof fn switches_reach_their_features(settings: FrameSettings)
    ensures
        ({
            let config = config_of(settings);
            &&& config.color_format == settings.color_format
            &&& config.msaa == settings.msaa
            &&& config.ssao == settings.ssao
            &&& config.ssao_half_res == settings.ssao_half_resolution
            &&& config.contact_shadows == settings.contact_shadows
            &&& config.ssr == settings.ssr
            &&& config.subsurface == settings.subsurface
            &&& config.taa == settings.taa
            &&& config.auto_exposure == settings.auto_exposure
            &&& config.volumetric_fog == settings.volumetric_fog
            &&& config.motion_blur == settings.motion_blur
            &&& config.dof == settings.dof
            &&& config.overlay == settings.overlay
            &&& config.async_compute == settings.compute_queue
            &&& config.gpu_culling == settings.gpu_culling
            &&& config.transparency <==> settings.transparency && settings.transparent_draws > 0
            &&& config.refraction <==> settings.refraction && settings.refractive_draws > 0
            &&& settings.bloom ==> config.bloom_mips == settings.bloom_levels
            &&& !settings.bloom ==> config.bloom_mips == 0
        }),
{
}

/// **The shadows declared are the ones that were fitted**: as many cascades as there
/// are matrices for, at their resolution, and the atlas at its own where it has faces.
pub proof fn shadows_are_what_was_fitted(settings: FrameSettings)
    ensures
        ({
            let config = config_of(settings);
            match settings.shadows {
                Some(shadows) => {
                    &&& shadows.cascades <= u8::MAX ==> config.shadow_cascades == shadows.cascades
                    &&& config.shadow_resolution == shadows.resolution
                    &&& shadows.atlas_faces > 0 ==> config.shadow_atlas == shadows.atlas_resolution
                    &&& shadows.atlas_faces == 0 ==> config.shadow_atlas == 0
                },
                None => {
                    &&& config.shadow_cascades == 0
                    &&& config.shadow_resolution == 1
                    &&& config.shadow_atlas == 0
                },
            }
        }),
{
}

/// **The first graph is a frame's without shadows.** It is the structure of some
/// settings: what the editor opens with, over a chain of the given levels.
pub proof fn the_first_graph_is_a_frames(
    color_format: ColorFormat,
    bloom_mips: u8,
    compute_queue: bool,
    gpu_culling: bool,
    settings: FrameSettings,
)
    requires
        settings.color_format == color_format,
        settings.bloom && settings.bloom_levels == bloom_mips,
        settings.compute_queue == compute_queue,
        settings.gpu_culling == gpu_culling,
        settings.shadows is None,
        settings.ssao && settings.ssao_half_resolution && settings.contact_shadows,
        settings.transparency && settings.transparent_draws > 0,
        settings.refraction && settings.refractive_draws > 0,
        settings.taa && settings.auto_exposure && settings.overlay,
        !settings.msaa && !settings.ssr && !settings.subsurface && !settings.volumetric_fog,
        !settings.motion_blur && !settings.dof,
    ensures
        initial_config_spec(color_format, bloom_mips, compute_queue, gpu_culling) == config_of(
            settings,
        ),
{
}

/// **Every slot is either recorded and timed, or runs after the frame.** A raw slot's
/// pass stands in the list of raw passes behind those of the raw slots before it, and
/// any other slot's name in the list of timed passes likewise; the two lists have
/// nothing else in them.
pub proof fn slots_are_timed_or_raw(
    order: Seq<usize>,
    kinds: Seq<PassKind>,
    bodies: Seq<PassBody>,
    names: Seq<Seq<char>>,
    slot: int,
    count: int,
)
    requires
        0 <= slot < count,
    ensures
        raw_of(order, kinds, bodies, count).len() + timed_of(order, kinds, names, count).len()
            == count,
        kinds[order[slot] as int] is Raw ==> {
            let before = raw_of(order, kinds, bodies, slot).len() as int;
            &&& before < raw_of(order, kinds, bodies, count).len()
            &&& raw_of(order, kinds, bodies, count)[before] == bodies[order[slot] as int]
        },
        !(kinds[order[slot] as int] is Raw) ==> {
            let before = timed_of(order, kinds, names, slot).len() as int;
            &&& before < timed_of(order, kinds, names, count).len()
            &&& timed_of(order, kinds, names, count)[before] == names[order[slot] as int]
        },
    decreases count,
{
    slots_are_counted(order, kinds, bodies, names, count);
    slots_are_counted(order, kinds, bodies, names, slot);
    if slot < count - 1 {
        slots_are_timed_or_raw(order, kinds, bodies, names, slot, count - 1);
    }
}

proof fn slots_are_counted(
    order: Seq<usize>,
    kinds: Seq<PassKind>,
    bodies: Seq<PassBody>,
    names: Seq<Seq<char>>,
    count: int,
)
    requires
        0 <= count,
    ensures
        raw_of(order, kinds, bodies, count).len() + timed_of(order, kinds, names, count).len()
            == count,
    decreases count,
{
    if count > 0 {
        slots_are_counted(order, kinds, bodies, names, count - 1);
    }
}

/// **Pairs are handed out until there are none**: names keep their place, and those
/// past the last pair are left out.
pub proof fn names_keep_their_pairs(names: Seq<Seq<char>>, i: int)
    ensures
        fitting(names).len() <= names.len(),
        fitting(names).len() <= MAX_PASSES,
        fitting(names).len() < names.len() ==> fitting(names).len() == MAX_PASSES,
        0 <= i < fitting(names).len() ==> fitting(names)[i] == names[i],
{
}

/// **Shading samples what the frame was compiled with.** Each input is the image of
/// its feature, and missing exactly where the feature is.
pub proof fn shading_samples_its_features(ids: &FrameIds)
    ensures
        ({
            let inputs = shading_inputs_spec(ids);
            &&& inputs.ambient_occlusion is Some <==> ids.ssao is Some
            &&& inputs.ambient_occlusion matches Some(id) ==> id == ids.ssao->0.ao
            &&& inputs.contact_shadows == ids.contact_shadows
            &&& inputs.cascades == ids.shadows
            &&& inputs.atlas == ids.shadow_atlas
            &&& inputs.volume is Some <==> ids.fog is Some
            &&& inputs.volume matches Some(id) ==> id == ids.fog->0.volume
            &&& inputs.bloom <==> ids.bloom is Some
        }),
{
}

/// **A finished image is waited for by whoever takes it.** It is presented exactly
/// where there is a presentation engine, and drawn over exactly where it was kept for
/// an overlay and this frame has one.
pub proof fn finished_images_are_waited_for(finish: Finish, raw: Seq<PassBody>, windowed: bool)
    ensures
        ({
            let plan = finish_of(finish, raw, windowed);
            &&& plan.present == windowed
            &&& match finish {
                Finish::Overlay { ready } => plan.wait == Some(ready) && (plan.overlay
                    <==> raw.contains(PassBody::Overlay)),
                Finish::Present { wait } => plan.wait == Some(wait) && !plan.overlay,
                Finish::Keep => plan.wait is None && !plan.overlay,
            }
        }),
{
}

/// **A graph is compiled for a change of shape and never for a change of size.**
pub proof fn graphs_are_kept_while_they_fit(before: FrameConfig, config: FrameConfig, stale: bool)
    ensures
        change_of(before, config, stale) is Recompile <==> before != config,
        change_of(before, config, stale) is Reallocate <==> before == config && stale,
        change_of(before, config, stale) is Keep <==> before == config && !stale,
{
}

/// **A frame starts where there is something to draw into.** A target of no area is
/// never drawn into; one that has to be rebuilt is rebuilt first.
pub proof fn frames_start_over_a_target(renderer: Renderer)
    ensures
        renderer.start_spec() is Skip <==> renderer.pending_extent[0] == 0
            || renderer.pending_extent[1] == 0,
        renderer.start_spec() is Recreate <==> renderer.pending_extent[0] > 0
            && renderer.pending_extent[1] > 0 && renderer.recreate_swapchain,
{
}

/// **Each event changes what it is about.** In a window another extent is remembered
/// and asks for a rebuild, and other presentation settings do so where they differ;
/// what the engine answers asks for one where the target no longer fits it; and
/// nothing takes such a request back but a rebuild.
pub proof fn events_change_what_they_are_about(
    renderer: Renderer,
    extent: [u32; 2],
    present: PresentSettings,
    acquired: Acquired,
    presented: Presented,
)
    ensures
        renderer.chain.windowed ==> renderer.resized(extent).pending_extent == extent
            && renderer.resized(extent).recreate_swapchain,
        renderer.presenting(present).present == present,
        renderer.chain.windowed && renderer.present != present ==> renderer.presenting(
            present,
        ).recreate_swapchain,
        renderer.present == present ==> renderer.presenting(present) == renderer,
        renderer.recreate_swapchain ==> {
            &&& renderer.resized(extent).recreate_swapchain
            &&& renderer.presenting(present).recreate_swapchain
            &&& renderer.acquiring(acquired).recreate_swapchain
            &&& renderer.showing(presented).recreate_swapchain
        },
        !renderer.recreate_swapchain ==> {
            &&& renderer.acquiring(acquired).recreate_swapchain <==> match acquired {
                Acquired::Offscreen => false,
                Acquired::Image { suboptimal, .. } => suboptimal,
                Acquired::OutOfDate => true,
            }
            &&& renderer.showing(presented).recreate_swapchain <==> match presented {
                Presented::Shown { suboptimal } => suboptimal,
                Presented::OutOfDate => true,
                Presented::Failed => false,
            }
        },
        ({
            let changed = renderer.acquiring(acquired);
            &&& changed.config == renderer.config
            &&& changed.pending_extent == renderer.pending_extent
            &&& changed.present == renderer.present
            &&& changed.frame_index == renderer.frame_index
            &&& changed.chain == renderer.chain
        }),
        ({
            let changed = renderer.showing(presented);
            &&& changed.config == renderer.config
            &&& changed.pending_extent == renderer.pending_extent
            &&& changed.present == renderer.present
            &&& changed.frame_index == renderer.frame_index
            &&& changed.chain == renderer.chain
        }),
        ({
            let changed = renderer.counted();
            &&& changed.frame_index == if renderer.frame_index < u64::MAX {
                renderer.frame_index + 1
            } else {
                0
            }
            &&& changed.config == renderer.config
            &&& changed.pending_extent == renderer.pending_extent
            &&& changed.present == renderer.present
            &&& changed.recreate_swapchain == renderer.recreate_swapchain
            &&& changed.chain == renderer.chain
        }),
{
}

/// **A frame without shadows culls against the camera alone.**
pub proof fn the_camera_is_always_culled_against(shadows: Option<(usize, usize)>)
    ensures
        views_of(shadows).len() >= 1,
        views_of(shadows)[0] is Camera,
        shadows is None ==> views_of(shadows).len() == 1,
        forall|i: int| 0 < i < views_of(shadows).len() ==> !(#[trigger] views_of(shadows)[i] is Camera),
{
}

} // verus!
