//! Recording a compiled frame: what each slot of the schedule records, what it
//! costs to record, and how a segment of slots is shared between workers.
//!
//! The plan names images and draw lists; whoever carries it out holds the device
//! objects behind those names.

use crate::frame::{FrameIds, PassBody, PassKind, ResourceId};
use crate::parallel::{first_fit, heaviest, load, partition, tiles};
use crate::renderer::{views_match_the_passes, views_of, CullView};
use crate::rendering::{
    attachments_of, drawn, has_targets, locations_have_their_images, rasterises, rendering_info,
    RenderingInfo, Target,
};
use crate::timestamps::PassToken;
use std::ops::Range;
use vstd::prelude::*;

verus! {

/// How many command buffers one frame's recording is worth splitting into.
///
/// The partition has little left to give beyond this: the punctual shadow atlas
/// alone is the floor on the critical path however many workers there are.
pub const RECORD_GROUPS: usize = 3;

/// An image a pass is handed, by who owns it.
#[derive(Clone, Copy, Debug, PartialEq, Eq, Structural)]
pub enum ViewRef {
    /// A graph-owned image, whole.
    Image(ResourceId),
    /// One level of a graph-owned pyramid, which is all a storage image
    /// descriptor takes.
    Mip(ResourceId, u32),
    /// The fog's scattering volume, whose history survives the frame.
    FogScatter,
    /// The temporal resolve's output, for the same reason.
    TaaOutput,
    /// The cascade array, or its stand-in where the frame has none.
    ShadowMaps,
    /// The colour the frame's optical stages ended on.
    SceneColor,
    /// The environment's prefiltered reflection.
    EnvironmentSpecular,
    /// A black texel, for a tonemap with no bloom to add.
    Black,
}

/// What a barrier of the compiled plan acts on.
#[derive(Clone, Copy, Debug, PartialEq, Eq, Structural)]
pub enum BarrierTarget {
    Swapchain,
    /// A buffer, which a memory barrier covers without naming it.
    Memory,
    FogScatter,
    TaaOutput,
    TaaHistory,
    Image(ResourceId),
}

/// A draw list of the frame.
#[derive(Clone, Copy, Debug, PartialEq, Eq, Structural)]
pub enum ListRef {
    Camera,
    Cascade(u32),
}

/// Where an opaque pass gets its draws from.
#[derive(Clone, Copy, Debug, PartialEq, Eq, Structural)]
pub enum Draws {
    /// The batches the dispatch left visible for one view.
    Gpu { view: u32 },
    /// An ordered list, and where its objects begin.
    Cpu { list: ListRef, base: u32 },
}

/// One thing a graphics pass draws.
#[derive(Clone, Copy, Debug, PartialEq, Eq, Structural)]
pub enum DrawCall {
    Cascade { cascade: u32, draws: Draws },
    /// The atlas, with the first punctual view where the dispatch culled.
    Atlas { gpu: Option<u32> },
    Prepass { draws: Draws },
    Ssao { target: ResourceId, depth: ResourceId, normal: ResourceId },
    SsaoBlur { target: ResourceId, raw: ResourceId, depth: ResourceId },
    ContactShadows { depth: ResourceId, normal: ResourceId },
    Opaque { draws: Draws, subsurface: bool, msaa: bool },
    Skybox { volume: Option<ResourceId>, subsurface: bool, msaa: bool },
    Lines { subsurface: bool, msaa: bool },
    Transparent { base: u32 },
    Refractive { scene: ResourceId, source: ViewRef, base: u32 },
    Tonemap { bloom: ViewRef },
}

/// What one slot of the schedule records after its barriers.
#[derive(Debug)]
pub enum SlotWork {
    /// Nothing: the pass owns its submission and runs after the frame.
    Raw,
    /// Dispatches, between the two stamps where the pass is timed.
    Compute { timed: Option<PassToken>, inputs: Vec<ViewRef>, outputs: Vec<ViewRef> },
    /// Draws inside one rendering bracket, between the two stamps where the pass
    /// is timed.
    Graphics { timed: Option<PassToken>, rendering: RenderingInfo, calls: Vec<DrawCall> },
}

/// One slot of the schedule, recorded.
#[derive(Debug)]
pub struct SlotPlan {
    pub body: PassBody,
    /// The extent the pass is recorded at; see [`recorded_extent`].
    pub extent: Option<(u32, u32)>,
    /// What each barrier in front of the pass acts on, in the plan's order;
    /// `None` for a resource that has no object.
    pub barriers: Vec<Option<BarrierTarget>>,
    pub work: SlotWork,
}

/// The shadow casters of one frame, by how many draws each list holds.
#[derive(Debug)]
pub struct ShadowFrame {
    /// How many cascades the frame has.
    pub cascades: u32,
    /// Draws in each cascade's list.
    pub casters: Vec<usize>,
    /// Faces of each punctual light that got tiles in the atlas.
    pub faces: Vec<u32>,
    /// Draws in each of those lights' lists.
    pub punctual: Vec<usize>,
}

/// Everything recording reads, borrowed for one frame.
#[derive(Debug)]
pub struct FrameRecord {
    /// The pass in each slot of the schedule.
    pub order: Vec<usize>,
    pub bodies: Vec<PassBody>,
    pub kinds: Vec<PassKind>,
    /// The resources of the barriers in front of each slot.
    pub barriers: Vec<Vec<ResourceId>>,
    pub ids: FrameIds,
    /// Which resources the graph owns an image for, by index.
    pub owned: Vec<bool>,
    /// How many levels each resource's image has, by index.
    pub mip_levels: Vec<u32>,
    /// How large each resource's image is, by index.
    pub extents: Vec<(u32, u32)>,
    /// How large the frame is.
    pub extent: (u32, u32),
    /// How large a cascade's map is, on a side.
    pub shadow_resolution: u32,
    /// Whether the device times passes at all.
    pub timestamps: bool,
    /// The query pair of each slot.
    pub tokens: Vec<Option<PassToken>>,
    /// Draws in the camera's opaque, blended and refractive lists.
    pub draws: usize,
    pub transparent: usize,
    pub refractive: usize,
    pub shadows: Option<ShadowFrame>,
    /// Where each cascade's objects begin.
    pub cascade_bases: Vec<u32>,
    pub transparent_base: u32,
    pub refractive_base: u32,
    /// Whether the frame's visible set was decided by a dispatch.
    pub culled: bool,
}

/// Whether a pass is one that records dispatches.
pub open spec fn dispatches(body: PassBody) -> bool {
    !rasterises(body) && !(body is Overlay) && !(body is OcclusionHiz)
}

/// The view backing a resource, whoever owns the allocation: every image in a
/// frame is graph-owned but the two whose history outlives it.
pub open spec fn view_of_spec(ids: &FrameIds, id: ResourceId) -> ViewRef {
    if ids.fog is Some && id == ids.fog->0.scatter {
        ViewRef::FogScatter
    } else if ids.taa is Some && id == ids.taa->0.output {
        ViewRef::TaaOutput
    } else {
        ViewRef::Image(id)
    }
}

/// Every level of a pyramid, one view each.
pub open spec fn pyramid(id: ResourceId, levels: u32) -> Seq<ViewRef> {
    Seq::new(levels as nat, |level: int| ViewRef::Mip(id, level as u32))
}

/// The frame declared what a dispatch reads and writes.
pub open spec fn has_images(ids: &FrameIds, body: PassBody, culled: bool) -> bool {
    match body {
        PassBody::SsrHiz | PassBody::SsrTrace | PassBody::SsrResolve => ids.ssr is Some
            && ids.prepass is Some,
        PassBody::SsrSource => ids.ssr is Some,
        PassBody::FogIntegrate => ids.fog is Some,
        PassBody::SubsurfaceBlurHorizontal | PassBody::SubsurfaceBlurVertical => ids.subsurface
            is Some && ids.prepass is Some,
        PassBody::SubsurfaceComposite => ids.subsurface is Some,
        PassBody::OitComposite => ids.transparency is Some,
        PassBody::RefractionScene | PassBody::RefractionComposite => ids.refraction is Some,
        PassBody::TaaResolve => ids.taa is Some && ids.prepass is Some,
        PassBody::DofPrefilter | PassBody::DofComposite => ids.dof is Some && ids.prepass is Some,
        PassBody::DofTileMax | PassBody::DofGather => ids.dof is Some,
        PassBody::MotionBlurTileMax | PassBody::MotionBlurGather => ids.motion_blur is Some
            && ids.prepass is Some,
        PassBody::MotionBlurNeighbourMax => ids.motion_blur is Some,
        PassBody::CullReset | PassBody::Cull => culled,
        PassBody::BloomPrefilter => ids.bloom is Some && ids.bloom->0.wf(),
        PassBody::BloomDownsample(level) => ids.bloom is Some && ids.bloom->0.wf() && 1 <= level
            < ids.bloom->0.mips,
        PassBody::BloomUpsample(level) => ids.bloom is Some && ids.bloom->0.wf() && level + 1
            < ids.bloom->0.mips,
        _ => true,
    }
}

/// What the climb back up the bloom chain reads beside its own level: the
/// up-chain level above where there is one, and the down chain's last level at
/// the top.
pub open spec fn coarse_of(ids: &FrameIds, level: u32) -> ResourceId {
    if level + 2 < ids.bloom->0.mips {
        ids.bloom->0.up@[level + 1]
    } else {
        ids.bloom->0.down@[level + 1]
    }
}

/// The images a dispatch samples, in the order its shader binds them.
pub open spec fn inputs_of(ids: &FrameIds, body: PassBody) -> Seq<ViewRef> {
    let prepass = ids.prepass->0;
    let ssr = ids.ssr->0;
    let sss = ids.subsurface->0;
    let dof = ids.dof->0;
    let blur = ids.motion_blur->0;
    match body {
        PassBody::SsrHiz => seq![ViewRef::Image(prepass.depth)],
        PassBody::SsrSource => seq![view_of_spec(ids, ssr.source)],
        PassBody::SsrTrace => seq![
            ViewRef::Image(ssr.hiz),
            ViewRef::Image(prepass.depth),
            ViewRef::Image(prepass.normal),
            ViewRef::Image(prepass.material),
            ViewRef::Image(ssr.source_pyramid),
        ],
        PassBody::SsrResolve => seq![
            view_of_spec(ids, ssr.source),
            ViewRef::Image(ssr.rays),
            ViewRef::Image(prepass.depth),
            ViewRef::Image(prepass.normal),
            ViewRef::Image(prepass.material),
            ViewRef::EnvironmentSpecular,
        ],
        PassBody::FogScatter => seq![ViewRef::ShadowMaps],
        PassBody::SubsurfaceBlurHorizontal => seq![
            ViewRef::Image(sss.diffusible),
            ViewRef::Image(prepass.depth),
        ],
        PassBody::SubsurfaceBlurVertical => seq![
            ViewRef::Image(sss.blurred_x),
            ViewRef::Image(prepass.depth),
        ],
        PassBody::SubsurfaceComposite => seq![
            view_of_spec(ids, sss.source),
            ViewRef::Image(sss.blurred_y),
        ],
        PassBody::OitComposite => seq![
            view_of_spec(ids, ids.transparency->0.source),
            ViewRef::Image(ids.transparency->0.accum),
            ViewRef::Image(ids.transparency->0.reveal),
        ],
        PassBody::RefractionScene => seq![view_of_spec(ids, ids.refraction->0.source)],
        PassBody::RefractionComposite => seq![
            view_of_spec(ids, ids.refraction->0.source),
            ViewRef::Image(ids.refraction->0.accum),
        ],
        PassBody::TaaResolve => seq![
            view_of_spec(ids, ids.taa->0.source),
            ViewRef::Image(prepass.velocity),
            ViewRef::Image(prepass.depth),
        ],
        PassBody::DofPrefilter => seq![view_of_spec(ids, dof.source), ViewRef::Image(prepass.depth)],
        PassBody::DofTileMax => seq![ViewRef::Image(dof.prefiltered)],
        PassBody::DofGather => seq![ViewRef::Image(dof.prefiltered), ViewRef::Image(dof.tile)],
        PassBody::DofComposite => seq![
            view_of_spec(ids, dof.source),
            ViewRef::Image(prepass.depth),
            ViewRef::Image(dof.near),
            ViewRef::Image(dof.far),
        ],
        PassBody::MotionBlurTileMax => seq![
            ViewRef::Image(prepass.velocity),
            ViewRef::Image(prepass.depth),
        ],
        PassBody::MotionBlurNeighbourMax => seq![ViewRef::Image(blur.tile)],
        PassBody::MotionBlurGather => seq![
            view_of_spec(ids, blur.source),
            ViewRef::Image(prepass.velocity),
            ViewRef::Image(prepass.depth),
            ViewRef::Image(blur.neighbour),
        ],
        PassBody::LuminanceHistogram => seq![ViewRef::SceneColor],
        PassBody::BloomPrefilter => seq![ViewRef::SceneColor],
        PassBody::BloomDownsample(level) => seq![ViewRef::Image(ids.bloom->0.down@[level - 1])],
        PassBody::BloomUpsample(level) => seq![
            ViewRef::Image(coarse_of(ids, level)),
            ViewRef::Image(ids.bloom->0.down@[level as int]),
        ],
        _ => Seq::empty(),
    }
}

/// The pyramid a dispatch fills level by level, where it fills one.
pub open spec fn pyramid_of(ids: &FrameIds, body: PassBody) -> Option<ResourceId> {
    match body {
        PassBody::SsrHiz => Some(ids.ssr->0.hiz),
        PassBody::SsrSource => Some(ids.ssr->0.source_pyramid),
        PassBody::RefractionScene => Some(ids.refraction->0.scene),
        _ => None,
    }
}

/// The images a dispatch that fills no pyramid writes. The two passes that own
/// what they write, and the ones that write buffers, are handed none.
pub open spec fn flat_outputs_of(ids: &FrameIds, body: PassBody) -> Seq<ViewRef> {
    match body {
        PassBody::SsrTrace => seq![ViewRef::Image(ids.ssr->0.rays)],
        PassBody::SsrResolve => seq![ViewRef::Image(ids.ssr->0.output)],
        PassBody::FogIntegrate => seq![ViewRef::Image(ids.fog->0.volume)],
        PassBody::SubsurfaceBlurHorizontal => seq![ViewRef::Image(ids.subsurface->0.blurred_x)],
        PassBody::SubsurfaceBlurVertical => seq![ViewRef::Image(ids.subsurface->0.blurred_y)],
        PassBody::SubsurfaceComposite => seq![ViewRef::Image(ids.subsurface->0.output)],
        PassBody::OitComposite => seq![ViewRef::Image(ids.transparency->0.output)],
        PassBody::RefractionComposite => seq![ViewRef::Image(ids.refraction->0.output)],
        PassBody::DofPrefilter => seq![ViewRef::Image(ids.dof->0.prefiltered)],
        PassBody::DofTileMax => seq![ViewRef::Image(ids.dof->0.tile)],
        PassBody::DofGather => seq![ViewRef::Image(ids.dof->0.near), ViewRef::Image(ids.dof->0.far)],
        PassBody::DofComposite => seq![ViewRef::Image(ids.dof->0.output)],
        PassBody::MotionBlurTileMax => seq![ViewRef::Image(ids.motion_blur->0.tile)],
        PassBody::MotionBlurNeighbourMax => seq![ViewRef::Image(ids.motion_blur->0.neighbour)],
        PassBody::MotionBlurGather => seq![ViewRef::Image(ids.motion_blur->0.output)],
        PassBody::BloomPrefilter => seq![ViewRef::Image(ids.bloom->0.down@[0])],
        PassBody::BloomDownsample(level) => seq![
            ViewRef::Image(ids.bloom->0.down@[level as int]),
        ],
        PassBody::BloomUpsample(level) => seq![ViewRef::Image(ids.bloom->0.up@[level as int])],
        _ => Seq::empty(),
    }
}

/// The images a dispatch writes, in the order its shader binds them.
pub open spec fn outputs_of(ids: &FrameIds, mip_levels: Seq<u32>, body: PassBody) -> Seq<ViewRef> {
    match pyramid_of(ids, body) {
        Some(id) => pyramid(id, mip_levels[id.index as int]),
        None => flat_outputs_of(ids, body),
    }
}

/// The extent a pass is recorded at, out of the frame's, the cascades' resolution
/// and the extent of the image the pass draws into.
pub open spec fn recorded_extent_spec(
    body: PassBody,
    frame: (u32, u32),
    shadow_resolution: u32,
    target: (u32, u32),
) -> Option<(u32, u32)> {
    match body {
        PassBody::ShadowCascade(_) => Some((shadow_resolution, shadow_resolution)),
        PassBody::SsaoResolve | PassBody::SsaoBlur => Some(target),
        PassBody::GeometryPrepass
        | PassBody::ContactShadows
        | PassBody::Forward
        | PassBody::OitAccumulate
        | PassBody::RefractionDraw
        | PassBody::Tonemap
        | PassBody::SsrHiz
        | PassBody::LuminanceHistogram
        | PassBody::LuminanceAverage => Some(frame),
        _ => None,
    }
}

/// The extent a pass is recorded at: the shadow map's for a cascade, the target's
/// for ambient occlusion, which is not always the frame's size, and the frame's
/// for everything else that is handed one. `None` for the atlas, each of whose
/// faces is drawn into a tile of its own, and for a dispatch that covers what it
/// writes.
pub fn recorded_extent(
    body: PassBody,
    frame: (u32, u32),
    shadow_resolution: u32,
    target: (u32, u32),
) -> (extent: Option<(u32, u32)>)
    ensures
        extent == recorded_extent_spec(body, frame, shadow_resolution, target),
{
    match body {
        PassBody::ShadowCascade(_) => Some((shadow_resolution, shadow_resolution)),
        PassBody::SsaoResolve | PassBody::SsaoBlur => Some(target),
        PassBody::GeometryPrepass
        | PassBody::ContactShadows
        | PassBody::Forward
        | PassBody::OitAccumulate
        | PassBody::RefractionDraw
        | PassBody::Tonemap
        | PassBody::SsrHiz
        | PassBody::LuminanceHistogram
        | PassBody::LuminanceAverage => Some(frame),
        _ => None,
    }
}

/// The image whose own extent an ambient occlusion pass takes: what it draws into.
pub open spec fn sized_by(ids: &FrameIds, body: PassBody) -> Option<ResourceId> {
    match body {
        PassBody::SsaoResolve => Some(ids.ssao->0.raw_ao),
        PassBody::SsaoBlur => Some(ids.ssao->0.ao),
        _ => None,
    }
}

/// What the opaque draws of one view come from.
pub open spec fn opaque_spec(culled: bool, view: u32, list: ListRef, base: u32) -> Draws {
    if culled {
        Draws::Gpu { view }
    } else {
        Draws::Cpu { list, base }
    }
}

/// What a slot costs to record: the draws it will emit.
pub open spec fn punctual_cost(faces: Seq<u32>, punctual: Seq<usize>, count: int) -> nat
    decreases count,
{
    if count <= 0 {
        0
    } else {
        punctual_cost(faces, punctual, count - 1) + (punctual[count - 1] as u32) as nat
            * faces[count - 1] as nat
    }
}

impl FrameRecord {
    /// The parts of the record describe one frame.
    pub open spec fn wf(&self) -> bool {
        &&& self.tokens@.len() == self.order@.len()
        &&& self.barriers@.len() == self.order@.len()
        &&& self.kinds@.len() == self.bodies@.len()
        &&& self.owned@.len() == self.mip_levels@.len()
        &&& self.owned@.len() == self.extents@.len()
        &&& forall|slot: int|
            0 <= slot < self.order@.len() ==> #[trigger] self.order@[slot] < self.bodies@.len()
        &&& forall|slot: int, i: int|
            0 <= slot < self.barriers@.len() && 0 <= i < self.barriers@[slot]@.len()
                ==> (#[trigger] self.barriers@[slot]@[i]).index < self.owned@.len()
    }

    pub open spec fn body(&self, slot: int) -> PassBody {
        self.bodies@[self.order@[slot] as int]
    }

    pub open spec fn kind(&self, slot: int) -> PassKind {
        self.kinds@[self.order@[slot] as int]
    }

    /// The query pair a slot stamps, where the device times passes.
    pub open spec fn timed(&self, slot: int) -> Option<PassToken> {
        if self.timestamps {
            self.tokens@[slot]
        } else {
            None
        }
    }

    /// The frame prepared what the pass in `slot` needs.
    pub open spec fn ready(&self, slot: int) -> bool {
        match self.kind(slot) {
            PassKind::Raw => true,
            PassKind::Compute => {
                &&& dispatches(self.body(slot))
                &&& has_images(&self.ids, self.body(slot), self.culled)
                &&& pyramid_of(&self.ids, self.body(slot)) is Some ==> pyramid_of(
                    &self.ids,
                    self.body(slot),
                )->0.index < self.mip_levels@.len()
            },
            PassKind::Graphics => {
                &&& rasterises(self.body(slot))
                &&& has_targets(&self.ids, self.body(slot))
                &&& self.has_lists(self.body(slot))
                &&& sized_by(&self.ids, self.body(slot)) is Some ==> sized_by(
                    &self.ids,
                    self.body(slot),
                )->0.index < self.extents@.len()
            },
        }
    }

    /// The extent the pass in `slot` is recorded at.
    pub open spec fn extent_of(&self, slot: int) -> Option<(u32, u32)> {
        let body = self.body(slot);
        if self.kind(slot) is Raw {
            None
        } else {
            recorded_extent_spec(
                body,
                self.extent,
                self.shadow_resolution,
                match sized_by(&self.ids, body) {
                    Some(id) => self.extents@[id.index as int],
                    None => self.extent,
                },
            )
        }
    }

    /// The frame has the lists and images a graphics pass draws from.
    pub open spec fn has_lists(&self, body: PassBody) -> bool {
        match body {
            PassBody::ShadowCascade(cascade) => self.shadows is Some && cascade
                < self.shadows->0.casters@.len() && cascade < self.cascade_bases@.len() && cascade
                < u32::MAX,
            PassBody::PunctualShadows => self.shadows is Some && self.shadows->0.cascades
                < u32::MAX,
            PassBody::SsaoResolve
            | PassBody::SsaoBlur
            | PassBody::ContactShadows => self.ids.prepass is Some,
            _ => true,
        }
    }

    /// Where the punctual faces begin in the view numbering: after the camera
    /// and each cascade.
    pub open spec fn first_face_view_spec(&self) -> nat {
        1 + (match self.shadows {
            Some(shadows) => shadows.cascades as nat,
            None => 0,
        })
    }

    /// The draws of a graphics pass, in order.
    pub open spec fn calls_of(&self, body: PassBody) -> Seq<DrawCall> {
        let ids = &self.ids;
        let camera = opaque_spec(self.culled, 0, ListRef::Camera, 0);
        let subsurface = ids.subsurface is Some;
        let msaa = ids.msaa is Some;
        match body {
            PassBody::ShadowCascade(cascade) => seq![
                DrawCall::Cascade {
                    cascade,
                    draws: opaque_spec(
                        self.culled,
                        (1 + cascade) as u32,
                        ListRef::Cascade(cascade),
                        self.cascade_bases@[cascade as int],
                    ),
                },
            ],
            PassBody::PunctualShadows => seq![
                DrawCall::Atlas {
                    gpu: if self.culled {
                        Some(self.first_face_view_spec() as u32)
                    } else {
                        None
                    },
                },
            ],
            PassBody::GeometryPrepass => seq![DrawCall::Prepass { draws: camera }],
            PassBody::SsaoResolve => seq![
                DrawCall::Ssao {
                    target: ids.ssao->0.raw_ao,
                    depth: ids.prepass->0.depth,
                    normal: ids.prepass->0.normal,
                },
            ],
            PassBody::SsaoBlur => seq![
                DrawCall::SsaoBlur {
                    target: ids.ssao->0.ao,
                    raw: ids.ssao->0.raw_ao,
                    depth: ids.prepass->0.depth,
                },
            ],
            PassBody::ContactShadows => seq![
                DrawCall::ContactShadows {
                    depth: ids.prepass->0.depth,
                    normal: ids.prepass->0.normal,
                },
            ],
            PassBody::Forward => seq![
                DrawCall::Opaque { draws: camera, subsurface, msaa },
                DrawCall::Skybox {
                    volume: match ids.fog {
                        Some(fog) => Some(fog.volume),
                        None => None,
                    },
                    subsurface,
                    msaa,
                },
                DrawCall::Lines { subsurface, msaa },
            ],
            PassBody::OitAccumulate => seq![DrawCall::Transparent { base: self.transparent_base }],
            PassBody::RefractionDraw => seq![
                DrawCall::Refractive {
                    scene: ids.refraction->0.scene,
                    source: view_of_spec(ids, ids.refraction->0.source),
                    base: self.refractive_base,
                },
            ],
            PassBody::Tonemap => seq![
                DrawCall::Tonemap {
                    bloom: match ids.bloom {
                        Some(bloom) => ViewRef::Image(bloom.result),
                        None => ViewRef::Black,
                    },
                },
            ],
            _ => Seq::empty(),
        }
    }

    /// What one resource of the barrier plan names: the swapchain image, a
    /// buffer, an image imported from the pass that owns it across a frame
    /// boundary, or a graph-owned image.
    pub open spec fn barrier_target_spec(&self, id: ResourceId) -> Option<BarrierTarget> {
        let ids = &self.ids;
        if id == ids.swapchain_color {
            Some(BarrierTarget::Swapchain)
        } else if id == ids.object_transforms || id == ids.instance_index || id == ids.exposure
            || Some(id) == ids.histogram {
            Some(BarrierTarget::Memory)
        } else if ids.fog is Some && id == ids.fog->0.scatter {
            Some(BarrierTarget::FogScatter)
        } else if ids.taa is Some && id == ids.taa->0.output {
            Some(BarrierTarget::TaaOutput)
        } else if ids.taa is Some && id == ids.taa->0.history {
            Some(BarrierTarget::TaaHistory)
        } else if self.owned@[id.index as int] {
            Some(BarrierTarget::Image(id))
        } else {
            None
        }
    }

    /// What the pass in `slot` costs to record.
    pub open spec fn cost_spec(&self, slot: int) -> nat {
        match self.body(slot) {
            PassBody::ShadowCascade(cascade) => match self.shadows {
                Some(shadows) => (shadows.casters@[cascade as int] as u32) as nat,
                None => 0,
            },
            PassBody::PunctualShadows => match self.shadows {
                Some(shadows) => punctual_cost(
                    shadows.faces@,
                    shadows.punctual@,
                    if shadows.faces@.len() < shadows.punctual@.len() {
                        shadows.faces@.len() as int
                    } else {
                        shadows.punctual@.len() as int
                    },
                ),
                None => 0,
            },
            PassBody::GeometryPrepass | PassBody::Forward => (self.draws as u32) as nat,
            PassBody::OitAccumulate => (self.transparent as u32) as nat,
            PassBody::RefractionDraw => (self.refractive as u32) as nat,
            _ => 0,
        }
    }

    /// The pass in `slot` can be priced: its cascade has a list, and its price
    /// fits.
    pub open spec fn priceable(&self, slot: int) -> bool {
        &&& self.body(slot) matches PassBody::ShadowCascade(cascade) ==> self.shadows is Some
            ==> cascade < self.shadows->0.casters@.len()
        &&& self.cost_spec(slot) <= u32::MAX
    }

    /// The prices of the slots of a segment.
    pub open spec fn costs_of(&self, segment: Range<usize>) -> Seq<u32> {
        Seq::new(
            (segment.end - segment.start) as nat,
            |i: int| self.cost_spec(segment.start + i) as u32,
        )
    }

    /// See [`view_of_spec`].
    pub fn view_of(&self, id: ResourceId) -> (view: ViewRef)
        ensures
            view == view_of_spec(&self.ids, id),
    {
        if let Some(fog) = self.ids.fog {
            if id == fog.scatter {
                return ViewRef::FogScatter;
            }
        }
        match self.ids.taa {
            Some(taa) => if id == taa.output {
                ViewRef::TaaOutput
            } else {
                ViewRef::Image(id)
            },
            None => ViewRef::Image(id),
        }
    }

    /// Which object one resource in the compiled plan names.
    pub fn barrier_target(&self, id: ResourceId) -> (target: Option<BarrierTarget>)
        requires
            id.index < self.owned@.len(),
        ensures
            target == self.barrier_target_spec(id),
    {
        let ids = &self.ids;
        if id == ids.swapchain_color {
            return Some(BarrierTarget::Swapchain);
        }
        let histogram = match ids.histogram {
            Some(histogram) => id == histogram,
            None => false,
        };
        if id == ids.object_transforms || id == ids.instance_index || id == ids.exposure
            || histogram {
            return Some(BarrierTarget::Memory);
        }
        if let Some(fog) = ids.fog {
            if id == fog.scatter {
                return Some(BarrierTarget::FogScatter);
            }
        }
        if let Some(taa) = ids.taa {
            if id == taa.output {
                return Some(BarrierTarget::TaaOutput);
            }
            if id == taa.history {
                return Some(BarrierTarget::TaaHistory);
            }
        }
        if self.owned[id.index] {
            Some(BarrierTarget::Image(id))
        } else {
            None
        }
    }

    /// What an opaque geometry pass draws for `view`: the batches the dispatch
    /// left visible, or the ordered list the sweep handed it.
    pub fn opaque_draws(&self, view: u32, list: ListRef, base: u32) -> (draws: Draws)
        ensures
            draws == opaque_spec(self.culled, view, list, base),
    {
        if self.culled {
            Draws::Gpu { view }
        } else {
            Draws::Cpu { list, base }
        }
    }

    /// Where the punctual faces begin in the view numbering.
    pub fn first_face_view(&self) -> (view: u32)
        requires
            self.first_face_view_spec() <= u32::MAX,
        ensures
            view == self.first_face_view_spec(),
    {
        match &self.shadows {
            Some(shadows) => 1 + shadows.cascades,
            None => 1,
        }
    }

    /// Every level of a pyramid, one view each.
    fn levels_of(&self, id: ResourceId) -> (views: Vec<ViewRef>)
        requires
            id.index < self.mip_levels@.len(),
        ensures
            views@ == pyramid(id, self.mip_levels@[id.index as int]),
    {
        let levels: u32 = self.mip_levels[id.index];
        let mut views: Vec<ViewRef> = Vec::new();
        let mut level: u32 = 0;
        while level < levels
            invariant
                level <= levels,
                views@.len() == level,
                forall|i: int| 0 <= i < level ==> #[trigger] views@[i] == ViewRef::Mip(id, i as u32),
            decreases levels - level,
        {
            views.push(ViewRef::Mip(id, level));
            level = level + 1;
        }
        assert(views@ =~= pyramid(id, levels));
        views
    }

    /// The images a dispatch samples.
    fn inputs(&self, body: PassBody) -> (views: Vec<ViewRef>)
        requires
            dispatches(body),
            has_images(&self.ids, body, self.culled),
        ensures
            views@ == inputs_of(&self.ids, body),
    {
        let ids = &self.ids;
        let mut views: Vec<ViewRef> = Vec::new();
        match body {
            PassBody::SsrHiz => {
                views.push(ViewRef::Image(ids.prepass.unwrap().depth));
            },
            PassBody::SsrSource => {
                views.push(self.view_of(ids.ssr.unwrap().source));
            },
            PassBody::SsrTrace => {
                let ssr = ids.ssr.unwrap();
                let prepass = ids.prepass.unwrap();
                views.push(ViewRef::Image(ssr.hiz));
                views.push(ViewRef::Image(prepass.depth));
                views.push(ViewRef::Image(prepass.normal));
                views.push(ViewRef::Image(prepass.material));
                views.push(ViewRef::Image(ssr.source_pyramid));
            },
            PassBody::SsrResolve => {
                let ssr = ids.ssr.unwrap();
                let prepass = ids.prepass.unwrap();
                views.push(self.view_of(ssr.source));
                views.push(ViewRef::Image(ssr.rays));
                views.push(ViewRef::Image(prepass.depth));
                views.push(ViewRef::Image(prepass.normal));
                views.push(ViewRef::Image(prepass.material));
                views.push(ViewRef::EnvironmentSpecular);
            },
            PassBody::FogScatter => {
                views.push(ViewRef::ShadowMaps);
            },
            PassBody::SubsurfaceBlurHorizontal => {
                views.push(ViewRef::Image(ids.subsurface.unwrap().diffusible));
                views.push(ViewRef::Image(ids.prepass.unwrap().depth));
            },
            PassBody::SubsurfaceBlurVertical => {
                views.push(ViewRef::Image(ids.subsurface.unwrap().blurred_x));
                views.push(ViewRef::Image(ids.prepass.unwrap().depth));
            },
            PassBody::SubsurfaceComposite => {
                let sss = ids.subsurface.unwrap();
                views.push(self.view_of(sss.source));
                views.push(ViewRef::Image(sss.blurred_y));
            },
            PassBody::OitComposite => {
                let oit = ids.transparency.unwrap();
                views.push(self.view_of(oit.source));
                views.push(ViewRef::Image(oit.accum));
                views.push(ViewRef::Image(oit.reveal));
            },
            PassBody::RefractionScene => {
                views.push(self.view_of(ids.refraction.unwrap().source));
            },
            PassBody::RefractionComposite => {
                let refraction = ids.refraction.unwrap();
                views.push(self.view_of(refraction.source));
                views.push(ViewRef::Image(refraction.accum));
            },
            PassBody::TaaResolve => {
                let prepass = ids.prepass.unwrap();
                views.push(self.view_of(ids.taa.unwrap().source));
                views.push(ViewRef::Image(prepass.velocity));
                views.push(ViewRef::Image(prepass.depth));
            },
            PassBody::DofPrefilter => {
                views.push(self.view_of(ids.dof.unwrap().source));
                views.push(ViewRef::Image(ids.prepass.unwrap().depth));
            },
            PassBody::DofTileMax => {
                views.push(ViewRef::Image(ids.dof.unwrap().prefiltered));
            },
            PassBody::DofGather => {
                let dof = ids.dof.unwrap();
                views.push(ViewRef::Image(dof.prefiltered));
                views.push(ViewRef::Image(dof.tile));
            },
            PassBody::DofComposite => {
                let dof = ids.dof.unwrap();
                views.push(self.view_of(dof.source));
                views.push(ViewRef::Image(ids.prepass.unwrap().depth));
                views.push(ViewRef::Image(dof.near));
                views.push(ViewRef::Image(dof.far));
            },
            PassBody::MotionBlurTileMax => {
                let prepass = ids.prepass.unwrap();
                views.push(ViewRef::Image(prepass.velocity));
                views.push(ViewRef::Image(prepass.depth));
            },
            PassBody::MotionBlurNeighbourMax => {
                views.push(ViewRef::Image(ids.motion_blur.unwrap().tile));
            },
            PassBody::MotionBlurGather => {
                let blur = ids.motion_blur.unwrap();
                let prepass = ids.prepass.unwrap();
                views.push(self.view_of(blur.source));
                views.push(ViewRef::Image(prepass.velocity));
                views.push(ViewRef::Image(prepass.depth));
                views.push(ViewRef::Image(blur.neighbour));
            },
            PassBody::LuminanceHistogram | PassBody::BloomPrefilter => {
                views.push(ViewRef::SceneColor);
            },
            PassBody::BloomDownsample(level) => {
                let bloom = ids.bloom.as_ref().unwrap();
                views.push(ViewRef::Image(bloom.down[level as usize - 1]));
            },
            PassBody::BloomUpsample(level) => {
                let bloom = ids.bloom.as_ref().unwrap();
                let level: usize = level as usize;
                let coarse = if level + 2 < bloom.mips {
                    bloom.up[level + 1]
                } else {
                    bloom.down[level + 1]
                };
                views.push(ViewRef::Image(coarse));
                views.push(ViewRef::Image(bloom.down[level]));
            },
            _ => {},
        }
        assert(views@ =~= inputs_of(ids, body));
        views
    }

    /// The images a dispatch writes.
    fn outputs(&self, body: PassBody) -> (views: Vec<ViewRef>)
        requires
            dispatches(body),
            has_images(&self.ids, body, self.culled),
            pyramid_of(&self.ids, body) is Some ==> pyramid_of(&self.ids, body)->0.index
                < self.mip_levels@.len(),
        ensures
            views@ == outputs_of(&self.ids, self.mip_levels@, body),
    {
        let ids = &self.ids;
        let mut views: Vec<ViewRef> = Vec::new();
        match body {
            PassBody::SsrHiz => {
                return self.levels_of(ids.ssr.unwrap().hiz);
            },
            PassBody::SsrSource => {
                return self.levels_of(ids.ssr.unwrap().source_pyramid);
            },
            PassBody::RefractionScene => {
                return self.levels_of(ids.refraction.unwrap().scene);
            },
            PassBody::SsrTrace => {
                views.push(ViewRef::Image(ids.ssr.unwrap().rays));
            },
            PassBody::SsrResolve => {
                views.push(ViewRef::Image(ids.ssr.unwrap().output));
            },
            PassBody::FogIntegrate => {
                views.push(ViewRef::Image(ids.fog.unwrap().volume));
            },
            PassBody::SubsurfaceBlurHorizontal => {
                views.push(ViewRef::Image(ids.subsurface.unwrap().blurred_x));
            },
            PassBody::SubsurfaceBlurVertical => {
                views.push(ViewRef::Image(ids.subsurface.unwrap().blurred_y));
            },
            PassBody::SubsurfaceComposite => {
                views.push(ViewRef::Image(ids.subsurface.unwrap().output));
            },
            PassBody::OitComposite => {
                views.push(ViewRef::Image(ids.transparency.unwrap().output));
            },
            PassBody::RefractionComposite => {
                views.push(ViewRef::Image(ids.refraction.unwrap().output));
            },
            PassBody::DofPrefilter => {
                views.push(ViewRef::Image(ids.dof.unwrap().prefiltered));
            },
            PassBody::DofTileMax => {
                views.push(ViewRef::Image(ids.dof.unwrap().tile));
            },
            PassBody::DofGather => {
                let dof = ids.dof.unwrap();
                views.push(ViewRef::Image(dof.near));
                views.push(ViewRef::Image(dof.far));
            },
            PassBody::DofComposite => {
                views.push(ViewRef::Image(ids.dof.unwrap().output));
            },
            PassBody::MotionBlurTileMax => {
                views.push(ViewRef::Image(ids.motion_blur.unwrap().tile));
            },
            PassBody::MotionBlurNeighbourMax => {
                views.push(ViewRef::Image(ids.motion_blur.unwrap().neighbour));
            },
            PassBody::MotionBlurGather => {
                views.push(ViewRef::Image(ids.motion_blur.unwrap().output));
            },
            PassBody::BloomPrefilter => {
                views.push(ViewRef::Image(ids.bloom.as_ref().unwrap().down[0]));
            },
            PassBody::BloomDownsample(level) => {
                views.push(ViewRef::Image(ids.bloom.as_ref().unwrap().down[level as usize]));
            },
            PassBody::BloomUpsample(level) => {
                views.push(ViewRef::Image(ids.bloom.as_ref().unwrap().up[level as usize]));
            },
            _ => {},
        }
        assert(views@ =~= flat_outputs_of(ids, body));
        views
    }

    /// The draws of a graphics pass.
    fn calls(&self, body: PassBody) -> (calls: Vec<DrawCall>)
        requires
            rasterises(body),
            has_targets(&self.ids, body),
            self.has_lists(body),
        ensures
            calls@ == self.calls_of(body),
    {
        let ids = &self.ids;
        let mut calls: Vec<DrawCall> = Vec::new();
        match body {
            PassBody::ShadowCascade(cascade) => {
                let base: u32 = self.cascade_bases[cascade as usize];
                calls.push(
                    DrawCall::Cascade {
                        cascade,
                        draws: self.opaque_draws(1 + cascade, ListRef::Cascade(cascade), base),
                    },
                );
            },
            PassBody::PunctualShadows => {
                let gpu = if self.culled {
                    Some(self.first_face_view())
                } else {
                    None
                };
                calls.push(DrawCall::Atlas { gpu });
            },
            PassBody::GeometryPrepass => {
                calls.push(DrawCall::Prepass { draws: self.opaque_draws(0, ListRef::Camera, 0) });
            },
            PassBody::SsaoResolve => {
                let prepass = ids.prepass.unwrap();
                calls.push(
                    DrawCall::Ssao {
                        target: ids.ssao.unwrap().raw_ao,
                        depth: prepass.depth,
                        normal: prepass.normal,
                    },
                );
            },
            PassBody::SsaoBlur => {
                let ssao = ids.ssao.unwrap();
                calls.push(
                    DrawCall::SsaoBlur {
                        target: ssao.ao,
                        raw: ssao.raw_ao,
                        depth: ids.prepass.unwrap().depth,
                    },
                );
            },
            PassBody::ContactShadows => {
                let prepass = ids.prepass.unwrap();
                calls.push(
                    DrawCall::ContactShadows { depth: prepass.depth, normal: prepass.normal },
                );
            },
            // The sky between the geometry and the lines: after the geometry so
            // that the depth test rejects it wherever something was drawn, and
            // before the lines because it would otherwise paint over them.
            PassBody::Forward => {
                let subsurface = ids.subsurface.is_some();
                let msaa = ids.msaa.is_some();
                let volume = match ids.fog {
                    Some(fog) => Some(fog.volume),
                    None => None,
                };
                calls.push(
                    DrawCall::Opaque {
                        draws: self.opaque_draws(0, ListRef::Camera, 0),
                        subsurface,
                        msaa,
                    },
                );
                calls.push(DrawCall::Skybox { volume, subsurface, msaa });
                calls.push(DrawCall::Lines { subsurface, msaa });
            },
            PassBody::OitAccumulate => {
                calls.push(DrawCall::Transparent { base: self.transparent_base });
            },
            PassBody::RefractionDraw => {
                let refraction = ids.refraction.unwrap();
                calls.push(
                    DrawCall::Refractive {
                        scene: refraction.scene,
                        source: self.view_of(refraction.source),
                        base: self.refractive_base,
                    },
                );
            },
            PassBody::Tonemap => {
                let bloom = match &ids.bloom {
                    Some(bloom) => ViewRef::Image(bloom.result),
                    None => ViewRef::Black,
                };
                calls.push(DrawCall::Tonemap { bloom });
            },
            _ => {},
        }
        assert(calls@ =~= self.calls_of(body));
        calls
    }

    /// The pass in `slot`.
    pub fn slot_body(&self, slot: usize) -> (body: PassBody)
        requires
            self.wf(),
            slot < self.order@.len(),
        ensures
            body == self.body(slot as int),
    {
        self.bodies[self.order[slot]]
    }

    /// The extent of what the pass draws into, where it is not the frame's.
    fn target_extent(&self, body: PassBody) -> (extent: (u32, u32))
        requires
            sized_by(&self.ids, body) is Some ==> self.ids.ssao is Some && sized_by(
                &self.ids,
                body,
            )->0.index < self.extents@.len(),
        ensures
            extent == (match sized_by(&self.ids, body) {
                Some(id) => self.extents@[id.index as int],
                None => self.extent,
            }),
    {
        match body {
            PassBody::SsaoResolve => {
                let ssao = self.ids.ssao.unwrap();
                self.extents[ssao.raw_ao.index]
            },
            PassBody::SsaoBlur => {
                let ssao = self.ids.ssao.unwrap();
                self.extents[ssao.ao.index]
            },
            _ => self.extent,
        }
    }

    /// Record the pass the compiled order puts in `slot`, and the barriers the
    /// plan puts in front of it.
    pub fn record_slot(&self, slot: usize) -> (plan: SlotPlan)
        requires
            self.wf(),
            slot < self.order@.len(),
            self.ready(slot as int),
        ensures
            plan.body == self.body(slot as int),
            plan.extent == self.extent_of(slot as int),
            plan.barriers@ == self.barriers@[slot as int]@.map_values(
                |id: ResourceId| self.barrier_target_spec(id),
            ),
            match self.kind(slot as int) {
                PassKind::Raw => plan.work is Raw,
                PassKind::Compute => plan.work matches SlotWork::Compute { timed, inputs, outputs }
                    && timed == self.timed(slot as int) && inputs@ == inputs_of(
                    &self.ids,
                    self.body(slot as int),
                ) && outputs@ == outputs_of(
                    &self.ids,
                    self.mip_levels@,
                    self.body(slot as int),
                ),
                PassKind::Graphics => plan.work matches SlotWork::Graphics {
                    timed,
                    rendering,
                    calls,
                } && timed == self.timed(slot as int) && rendering@ == attachments_of(
                    &self.ids,
                    self.body(slot as int),
                ) && calls@ == self.calls_of(self.body(slot as int)),
            },
    {
        let body = self.slot_body(slot);
        let kind = self.kinds[self.order[slot]];
        let resources = &self.barriers[slot];
        let mut barriers: Vec<Option<BarrierTarget>> = Vec::new();
        let mut i: usize = 0;
        while i < resources.len()
            invariant
                self.wf(),
                slot < self.order@.len(),
                resources@ == self.barriers@[slot as int]@,
                i <= resources@.len(),
                barriers@.len() == i,
                forall|j: int|
                    0 <= j < i ==> #[trigger] barriers@[j] == self.barrier_target_spec(
                        resources@[j],
                    ),
            decreases resources@.len() - i,
        {
            assert(self.barriers@[slot as int]@[i as int].index < self.owned@.len());
            barriers.push(self.barrier_target(resources[i]));
            i = i + 1;
        }
        assert(barriers@ =~= self.barriers@[slot as int]@.map_values(
            |id: ResourceId| self.barrier_target_spec(id),
        ));
        // Escape-hatch passes own their submission, so they run after this
        // command buffer rather than inside it.
        if kind == PassKind::Raw {
            return SlotPlan { body, extent: None, barriers, work: SlotWork::Raw };
        }
        let timed = if self.timestamps {
            self.tokens[slot]
        } else {
            None
        };
        // A dispatch is illegal inside a rendering bracket, so a compute pass has
        // none around it. That is the only thing the kind changes.
        if kind == PassKind::Compute {
            let inputs = self.inputs(body);
            let outputs = self.outputs(body);
            return SlotPlan {
                body,
                extent: recorded_extent(body, self.extent, self.shadow_resolution, self.extent),
                barriers,
                work: SlotWork::Compute { timed, inputs, outputs },
            };
        }
        let target = self.target_extent(body);
        let rendering = rendering_info(&self.ids, body).unwrap();
        let calls = self.calls(body);
        SlotPlan {
            body,
            extent: recorded_extent(body, self.extent, self.shadow_resolution, target),
            barriers,
            work: SlotWork::Graphics { timed, rendering, calls },
        }
    }

    /// What the pass in `slot` costs to record, near enough to balance the runs
    /// against each other: the draws it will emit.
    ///
    /// Everything not drawing geometry is a handful of commands whatever it
    /// dispatches over, and scores zero. Each punctual caster is drawn once per
    /// face of its light.
    pub fn cost(&self, slot: usize) -> (cost: u32)
        requires
            self.wf(),
            slot < self.order@.len(),
            self.priceable(slot as int),
        ensures
            cost == self.cost_spec(slot as int),
    {
        match self.bodies[self.order[slot]] {
            PassBody::ShadowCascade(cascade) => match &self.shadows {
                Some(shadows) => #[verifier::truncate] (shadows.casters[cascade as usize] as u32),
                None => 0,
            },
            PassBody::PunctualShadows => match &self.shadows {
                Some(shadows) => {
                    let count: usize = if shadows.faces.len() < shadows.punctual.len() {
                        shadows.faces.len()
                    } else {
                        shadows.punctual.len()
                    };
                    let mut total: u32 = 0;
                    let mut i: usize = 0;
                    while i < count
                        invariant
                            i <= count,
                            count <= shadows.faces@.len(),
                            count <= shadows.punctual@.len(),
                            total == punctual_cost(shadows.faces@, shadows.punctual@, i as int),
                            punctual_cost(shadows.faces@, shadows.punctual@, count as int)
                                <= u32::MAX,
                        decreases count - i,
                    {
                        proof {
                            punctual_cost_grows(
                                shadows.faces@,
                                shadows.punctual@,
                                i as int + 1,
                                count as int,
                            );
                        }
                        let draws: u32 = #[verifier::truncate] (shadows.punctual[i] as u32);
                        let faces: u32 = shadows.faces[i];
                        assert(0 <= draws * faces <= punctual_cost(
                            shadows.faces@,
                            shadows.punctual@,
                            i as int + 1,
                        )) by (nonlinear_arith)
                            requires
                                punctual_cost(shadows.faces@, shadows.punctual@, i as int + 1)
                                    == punctual_cost(shadows.faces@, shadows.punctual@, i as int)
                                    + draws as nat * faces as nat,
                        ;
                        total = total + draws * faces;
                        i = i + 1;
                    }
                    total
                },
                None => 0,
            },
            PassBody::GeometryPrepass | PassBody::Forward => #[verifier::truncate] (self.draws as u32),
            PassBody::OitAccumulate => #[verifier::truncate] (self.transparent as u32),
            PassBody::RefractionDraw => #[verifier::truncate] (self.refractive as u32),
            _ => 0,
        }
    }

    /// Share one of the compiled frame's segments between `threads` workers: the
    /// runs of slots to record, each into a command buffer of its own, in the
    /// order they are executed.
    ///
    /// One run over the whole segment where there is nothing to share, and the
    /// caller then records it in place.
    pub fn record_segment(&self, segment: Range<usize>, threads: usize, parallel: bool) -> (runs:
        Vec<Range<usize>>)
        requires
            self.wf(),
            segment.start <= segment.end <= self.order@.len(),
            parallel && threads >= 2 && segment.end - segment.start >= 2 ==> {
                &&& forall|slot: int|
                    segment.start <= slot < segment.end ==> #[trigger] self.priceable(slot)
                &&& load(self.costs_of(segment), 0, segment.end - segment.start) <= u32::MAX
            },
        ensures
            !parallel || threads < 2 || segment.end - segment.start < 2 ==> runs@ == seq![segment],
            parallel && threads >= 2 && segment.end - segment.start >= 2 ==> {
                let groups: int = if threads < RECORD_GROUPS {
                    threads as int
                } else {
                    RECORD_GROUPS as int
                };
                let costs = self.costs_of(segment);
                exists|split: Seq<Range<usize>>|
                    {
                        &&& #[trigger] tiles(split, 0, costs.len() as int)
                        &&& split.len() <= groups
                        &&& split == first_fit(costs, 0, heaviest(costs, split) as int)
                        &&& forall|other: Seq<Range<usize>>|
                            #![trigger heaviest(costs, other)]
                            tiles(other, 0, costs.len() as int) && other.len() <= groups
                                ==> heaviest(costs, split) <= heaviest(costs, other)
                        &&& runs@ == split.map_values(
                            |run: Range<usize>|
                                Range {
                                    start: (segment.start + run.start) as usize,
                                    end: (segment.start + run.end) as usize,
                                },
                        )
                    }
            },
            segment.start < segment.end ==> tiles(
                runs@.map_values(
                    |run: Range<usize>|
                        Range {
                            start: (run.start - segment.start) as usize,
                            end: (run.end - segment.start) as usize,
                        },
                ),
                0,
                segment.end - segment.start,
            ),
    {
        let start: usize = segment.start;
        let slots: usize = segment.end - segment.start;
        let groups: usize = if threads < RECORD_GROUPS {
            threads
        } else {
            RECORD_GROUPS
        };
        let mut runs: Vec<Range<usize>> = Vec::new();
        let ghost back = |run: Range<usize>|
            Range { start: (run.start - start) as usize, end: (run.end - start) as usize };
        if !parallel || groups < 2 || slots < 2 {
            runs.push(segment.start..segment.end);
            assert(runs@ =~= seq![segment]);
            proof {
                if segment.start < segment.end {
                    assert(runs@.map_values(back) =~= seq![Range { start: 0usize, end: slots }]);
                    assert(tiles(seq![Range { start: 0usize, end: slots }], 0, slots as int));
                }
            }
            return runs;
        }
        let mut costs: Vec<u32> = Vec::new();
        let mut slot: usize = segment.start;
        while slot < segment.end
            invariant
                self.wf(),
                segment.start <= slot <= segment.end <= self.order@.len(),
                forall|slot: int|
                    segment.start <= slot < segment.end ==> #[trigger] self.priceable(slot),
                costs@.len() == slot - segment.start,
                forall|i: int|
                    0 <= i < costs@.len() ==> #[trigger] costs@[i] == self.cost_spec(
                        segment.start + i,
                    ),
            decreases segment.end - slot,
        {
            assert(self.priceable(slot as int));
            costs.push(self.cost(slot));
            slot = slot + 1;
        }
        assert(costs@ =~= self.costs_of(segment));
        let split = partition(costs.as_slice(), groups);
        let ghost forward = |run: Range<usize>|
            Range { start: (start + run.start) as usize, end: (start + run.end) as usize };
        let mut i: usize = 0;
        while i < split.len()
            invariant
                i <= split@.len(),
                runs@.len() == i,
                start + slots <= usize::MAX,
                tiles(split@, 0, slots as int),
                forward == (|run: Range<usize>|
                    Range { start: (start + run.start) as usize, end: (start + run.end) as usize }),
                forall|j: int|
                    0 <= j < i ==> #[trigger] runs@[j] == forward(split@[j]) && split@[j].start
                        < split@[j].end <= slots,
            decreases split@.len() - i,
        {
            proof {
                tiled_run_within(split@, slots as int, i as int);
            }
            let run_start: usize = split[i].start;
            let run_end: usize = split[i].end;
            runs.push(start + run_start..start + run_end);
            i = i + 1;
        }
        proof {
            assert(runs@ =~= split@.map_values(forward));
            assert(runs@.map_values(back) =~= split@);
        }
        runs
    }
}

proof fn tiled_run_within(runs: Seq<Range<usize>>, len: int, i: int)
    requires
        tiles(runs, 0, len),
        0 <= i < runs.len(),
    ensures
        runs[i].start < runs[i].end <= len,
    decreases runs.len() - i,
{
    assert(runs[i].start < runs[i].end);
    if i + 1 < runs.len() {
        tiled_run_within(runs, len, i + 1);
        assert(runs[i].end == runs[i + 1].start);
    }
}

proof fn punctual_cost_grows(faces: Seq<u32>, punctual: Seq<usize>, low: int, high: int)
    requires
        low <= high,
    ensures
        punctual_cost(faces, punctual, low) <= punctual_cost(faces, punctual, high),
    decreases high - low,
{
    if low < high && high > 0 {
        punctual_cost_grows(faces, punctual, low, high - 1);
        assert((punctual[high - 1] as u32) as nat * faces[high - 1] as nat >= 0)
            by (nonlinear_arith);
    }
}

/// The resource behind a view, where the graph owns it.
pub open spec fn resource_of(view: ViewRef) -> Option<ResourceId> {
    match view {
        ViewRef::Image(id) => Some(id),
        ViewRef::Mip(id, _) => Some(id),
        _ => None,
    }
}

/// Every image the frame declared has a label of its own, and no feature is its
/// own source. The declarations of a frame always allow such a labelling: it is
/// what "one resource, one name" says.
pub open spec fn declared_apart(ids: &FrameIds, label: spec_fn(ResourceId) -> int) -> bool {
    &&& ids.prepass matches Some(prepass) ==> label(prepass.depth) == 0 && label(prepass.normal)
        == 1 && label(prepass.velocity) == 2 && label(prepass.material) == 3
    &&& ids.ssr matches Some(ssr) ==> label(ssr.hiz) == 10 && label(ssr.source_pyramid) == 11
        && label(ssr.rays) == 12 && label(ssr.output) == 13 && !(10 <= label(ssr.source) < 14)
    &&& ids.fog matches Some(fog) ==> label(fog.scatter) == 20 && label(fog.volume) == 21
    &&& ids.subsurface matches Some(sss) ==> label(sss.diffusible) == 30 && label(sss.blurred_x)
        == 31 && label(sss.blurred_y) == 32 && label(sss.output) == 33 && !(30 <= label(
        sss.source,
    ) < 34)
    &&& ids.transparency matches Some(oit) ==> label(oit.accum) == 40 && label(oit.reveal) == 41
        && label(oit.output) == 42 && !(40 <= label(oit.source) < 43)
    &&& ids.refraction matches Some(refraction) ==> label(refraction.scene) == 50 && label(
        refraction.accum,
    ) == 51 && label(refraction.output) == 52 && !(50 <= label(refraction.source) < 53)
    &&& ids.dof matches Some(dof) ==> label(dof.prefiltered) == 60 && label(dof.tile) == 61
        && label(dof.near) == 62 && label(dof.far) == 63 && label(dof.output) == 64 && !(60
        <= label(dof.source) < 65)
    &&& ids.motion_blur matches Some(blur) ==> label(blur.tile) == 70 && label(blur.neighbour)
        == 71 && label(blur.output) == 72 && !(70 <= label(blur.source) < 73)
    &&& ids.bloom matches Some(bloom) ==> (forall|i: int|
        0 <= i < bloom.down@.len() ==> label(#[trigger] bloom.down@[i]) == 100 + 2 * i) && (forall|
        i: int,
    |
        0 <= i < bloom.up@.len() ==> label(#[trigger] bloom.up@[i]) == 101 + 2 * i)
}

/// **No dispatch samples an image it writes.** A storage write to an image the
/// same dispatch samples is a race; where the frame's images are declared apart,
/// no pass asks for one.
pub proof fn no_dispatch_samples_what_it_writes(
    ids: &FrameIds,
    label: spec_fn(ResourceId) -> int,
    mip_levels: Seq<u32>,
    body: PassBody,
    culled: bool,
    i: int,
    j: int,
)
    requires
        declared_apart(ids, label),
        dispatches(body),
        has_images(ids, body, culled),
        0 <= i < inputs_of(ids, body).len(),
        0 <= j < outputs_of(ids, mip_levels, body).len(),
        resource_of(inputs_of(ids, body)[i]) is Some,
    ensures
        resource_of(inputs_of(ids, body)[i]) != resource_of(outputs_of(ids, mip_levels, body)[j]),
{
    let read = resource_of(inputs_of(ids, body)[i])->0;
    if resource_of(outputs_of(ids, mip_levels, body)[j]) is Some {
        let written = resource_of(outputs_of(ids, mip_levels, body)[j])->0;
        assert(label(read) != label(written));
    }
}

/// **Ambient occlusion is recorded at the size of what it draws into**, which is not
/// always the frame's.
pub proof fn occlusion_is_sized_by_its_target(ids: &FrameIds, body: PassBody)
    requires
        body is SsaoResolve || body is SsaoBlur,
        has_targets(ids, body),
    ensures
        sized_by(ids, body) matches Some(id) && attachments_of(ids, body).color[0].target
            == Target::Image(id),
{
}

/// **The bloom chain is connected.** Each pass of the chain reads what the pass
/// before it wrote: down from the prefilter, then up from the bottom.
pub proof fn bloom_chain_is_connected(ids: &FrameIds, level: u32)
    requires
        ids.bloom is Some,
        ids.bloom->0.wf(),
    ensures
        1 == level < ids.bloom->0.mips ==> inputs_of(ids, PassBody::BloomDownsample(level))
            == flat_outputs_of(ids, PassBody::BloomPrefilter),
        1 < level < ids.bloom->0.mips ==> inputs_of(ids, PassBody::BloomDownsample(level))
            == flat_outputs_of(ids, PassBody::BloomDownsample((level - 1) as u32)),
        level < u32::MAX && level + 2 < ids.bloom->0.mips ==> inputs_of(
            ids,
            PassBody::BloomUpsample(level),
        )[0]
            == flat_outputs_of(ids, PassBody::BloomUpsample((level + 1) as u32))[0],
        level < u32::MAX && level + 2 == ids.bloom->0.mips ==> inputs_of(
            ids,
            PassBody::BloomUpsample(level),
        )[0]
            == flat_outputs_of(ids, PassBody::BloomDownsample((level + 1) as u32))[0],
{
}

/// **The diffusion is one pipeline.** The vertical blur reads what the
/// horizontal one wrote, and the composite reads what the vertical one wrote.
pub proof fn diffusion_is_connected(ids: &FrameIds)
    requires
        ids.subsurface is Some,
        ids.prepass is Some,
    ensures
        inputs_of(ids, PassBody::SubsurfaceBlurVertical)[0] == flat_outputs_of(
            ids,
            PassBody::SubsurfaceBlurHorizontal,
        )[0],
        inputs_of(ids, PassBody::SubsurfaceComposite)[1] == flat_outputs_of(
            ids,
            PassBody::SubsurfaceBlurVertical,
        )[0],
{
}

/// **Reflections are one pipeline.** The trace marches through the pyramids that the
/// two passes before it fill, from the prepass's depth and from the lit frame; the
/// composite takes the trace's rays to the frame that was traced; and both read the
/// surface off the prepass, as it was drawn.
pub proof fn reflections_are_connected(ids: &FrameIds, mip_levels: Seq<u32>)
    requires
        ids.ssr is Some,
        ids.prepass is Some,
    ensures
        ({
            let trace = inputs_of(ids, PassBody::SsrTrace);
            let resolve = inputs_of(ids, PassBody::SsrResolve);
            let drawn = drawn(ids, PassBody::GeometryPrepass);
            let depth = ViewRef::Image(ids.prepass->0.depth);
            &&& inputs_of(ids, PassBody::SsrHiz) == seq![depth]
            &&& inputs_of(ids, PassBody::SsrSource).len() == 1
            &&& trace.len() == 5
            &&& pyramid_of(ids, PassBody::SsrHiz) matches Some(id) && trace[0] == ViewRef::Image(id)
            &&& pyramid_of(ids, PassBody::SsrSource) matches Some(id) && trace[4]
                == ViewRef::Image(id)
            &&& trace[1] == depth
            &&& trace[2] is Image && drawn[0] == Target::Image(trace[2]->Image_0)
            &&& trace[3] is Image && drawn[2] == Target::Image(trace[3]->Image_0)
            &&& resolve.len() == 6
            &&& resolve[0] == inputs_of(ids, PassBody::SsrSource)[0]
            &&& outputs_of(ids, mip_levels, PassBody::SsrTrace) == seq![resolve[1]]
            &&& resolve.subrange(2, 5) == trace.subrange(1, 4)
            &&& resolve[5] == ViewRef::EnvironmentSpecular
            &&& outputs_of(ids, mip_levels, PassBody::SsrResolve) == seq![
                ViewRef::Image(ids.ssr->0.output),
            ]
        }),
{
}

/// **Defocus is one pipeline.** Everything works on the frame that the prefilter
/// halved; the composite lays the gather's near and far halves over that frame, behind
/// the depth they were told apart by.
pub proof fn defocus_is_connected(ids: &FrameIds, mip_levels: Seq<u32>)
    requires
        ids.dof is Some,
        ids.prepass is Some,
    ensures
        ({
            let prefilter = inputs_of(ids, PassBody::DofPrefilter);
            let gather = inputs_of(ids, PassBody::DofGather);
            let composite = inputs_of(ids, PassBody::DofComposite);
            &&& prefilter.len() == 2
            &&& prefilter[1] == ViewRef::Image(ids.prepass->0.depth)
            &&& inputs_of(ids, PassBody::DofTileMax) == outputs_of(
                ids,
                mip_levels,
                PassBody::DofPrefilter,
            )
            &&& gather == outputs_of(ids, mip_levels, PassBody::DofPrefilter) + outputs_of(
                ids,
                mip_levels,
                PassBody::DofTileMax,
            )
            &&& composite == prefilter + outputs_of(ids, mip_levels, PassBody::DofGather)
            &&& outputs_of(ids, mip_levels, PassBody::DofGather) == seq![
                ViewRef::Image(ids.dof->0.near),
                ViewRef::Image(ids.dof->0.far),
            ]
            &&& outputs_of(ids, mip_levels, PassBody::DofComposite) == seq![
                ViewRef::Image(ids.dof->0.output),
            ]
        }),
{
    assert(inputs_of(ids, PassBody::DofGather) =~= outputs_of(
        ids,
        mip_levels,
        PassBody::DofPrefilter,
    ) + outputs_of(ids, mip_levels, PassBody::DofTileMax));
    assert(inputs_of(ids, PassBody::DofComposite) =~= inputs_of(ids, PassBody::DofPrefilter)
        + outputs_of(ids, mip_levels, PassBody::DofGather));
}

/// **Motion blur is one pipeline.** The tiles are made of the motion that the prepass
/// drew and of its depth, the neighbourhoods of the tiles, and the gather reads the
/// frame, the same motion and depth, and the neighbourhoods, in that order.
pub proof fn motion_blur_is_connected(ids: &FrameIds, mip_levels: Seq<u32>)
    requires
        ids.motion_blur is Some,
        ids.prepass is Some,
    ensures
        ({
            let tiles = inputs_of(ids, PassBody::MotionBlurTileMax);
            let gather = inputs_of(ids, PassBody::MotionBlurGather);
            let drawn = drawn(ids, PassBody::GeometryPrepass);
            &&& tiles.len() == 2
            &&& tiles[0] is Image && drawn[1] == Target::Image(tiles[0]->Image_0)
            &&& tiles[1] == ViewRef::Image(ids.prepass->0.depth)
            &&& inputs_of(ids, PassBody::MotionBlurNeighbourMax) == outputs_of(
                ids,
                mip_levels,
                PassBody::MotionBlurTileMax,
            )
            &&& gather.len() == 4
            &&& gather[0] == view_of_spec(ids, ids.motion_blur->0.source)
            &&& gather.subrange(1, 3) == tiles
            &&& outputs_of(ids, mip_levels, PassBody::MotionBlurNeighbourMax) == seq![gather[3]]
            &&& outputs_of(ids, mip_levels, PassBody::MotionBlurGather) == seq![
                ViewRef::Image(ids.motion_blur->0.output),
            ]
        }),
{
    assert(inputs_of(ids, PassBody::MotionBlurGather).subrange(1, 3) =~= inputs_of(
        ids,
        PassBody::MotionBlurTileMax,
    ));
}

/// **Composites take what was drawn for them.** Transparency's two targets come behind
/// the frame that they go over, in the order they were drawn at, and so does the one
/// of refraction, whose background is the pyramid of the very frame that it goes over;
/// the temporal resolve reads the frame, its motion and its depth.
pub proof fn composites_take_what_was_drawn(ids: &FrameIds, mip_levels: Seq<u32>)
    ensures
        ids.transparency is Some ==> {
            let composite = inputs_of(ids, PassBody::OitComposite);
            let drawn = drawn(ids, PassBody::OitAccumulate);
            &&& composite.len() == 3
            &&& composite[0] == view_of_spec(ids, ids.transparency->0.source)
            &&& composite[1] is Image && drawn[0] == Target::Image(composite[1]->Image_0)
            &&& composite[2] is Image && drawn[1] == Target::Image(composite[2]->Image_0)
            &&& outputs_of(ids, mip_levels, PassBody::OitComposite) == seq![
                ViewRef::Image(ids.transparency->0.output),
            ]
        },
        ids.refraction is Some ==> {
            let composite = inputs_of(ids, PassBody::RefractionComposite);
            let drawn = drawn(ids, PassBody::RefractionDraw);
            &&& composite.len() == 2
            &&& inputs_of(ids, PassBody::RefractionScene) == seq![composite[0]]
            &&& composite[0] == view_of_spec(ids, ids.refraction->0.source)
            &&& composite[1] is Image && drawn[0] == Target::Image(composite[1]->Image_0)
            &&& outputs_of(ids, mip_levels, PassBody::RefractionComposite) == seq![
                ViewRef::Image(ids.refraction->0.output),
            ]
        },
        ids.taa is Some && ids.prepass is Some ==> {
            let resolve = inputs_of(ids, PassBody::TaaResolve);
            let drawn = drawn(ids, PassBody::GeometryPrepass);
            &&& resolve.len() == 3
            &&& resolve[0] == view_of_spec(ids, ids.taa->0.source)
            &&& resolve[1] is Image && drawn[1] == Target::Image(resolve[1]->Image_0)
            &&& resolve[2] == ViewRef::Image(ids.prepass->0.depth)
        },
        ids.subsurface is Some && ids.prepass is Some && has_targets(ids, PassBody::Forward) ==> {
            let blur = inputs_of(ids, PassBody::SubsurfaceBlurHorizontal);
            let drawn = drawn(ids, PassBody::Forward);
            let depth = ViewRef::Image(ids.prepass->0.depth);
            &&& blur.len() == 2
            &&& blur[0] is Image && drawn[1] == Target::Image(blur[0]->Image_0)
            &&& blur[1] == depth
            &&& inputs_of(ids, PassBody::SubsurfaceBlurVertical)[1] == depth
            &&& inputs_of(ids, PassBody::SubsurfaceComposite)[0] == view_of_spec(
                ids,
                ids.subsurface->0.source,
            )
            &&& outputs_of(ids, mip_levels, PassBody::SubsurfaceComposite) == seq![
                ViewRef::Image(ids.subsurface->0.output),
            ]
        },
{
    if has_targets(ids, PassBody::Forward) {
        locations_have_their_images(ids, PassBody::Forward);
    }
    if ids.prepass is Some {
        locations_have_their_images(ids, PassBody::GeometryPrepass);
    }
    assert(attachments_of(ids, PassBody::OitAccumulate).color.len() == 2);
    assert(attachments_of(ids, PassBody::RefractionDraw).color.len() == 1);
}

/// **The whole frame's passes read the frame's end.** Metering and bloom start from
/// the colour that the optical stages ended on, fog from the shadow maps; and what
/// writes a buffer, or an image that outlives the frame, is handed none to write.
pub proof fn ends_of_the_frame_are_connected(ids: &FrameIds, mip_levels: Seq<u32>)
    ensures
        inputs_of(ids, PassBody::LuminanceHistogram) == seq![ViewRef::SceneColor],
        inputs_of(ids, PassBody::BloomPrefilter) == seq![ViewRef::SceneColor],
        inputs_of(ids, PassBody::FogScatter) == seq![ViewRef::ShadowMaps],
        inputs_of(ids, PassBody::FogIntegrate).len() == 0,
        outputs_of(ids, mip_levels, PassBody::FogIntegrate) == seq![
            ViewRef::Image(ids.fog->0.volume),
        ],
        forall|body: PassBody|
            #![trigger outputs_of(ids, mip_levels, body)]
            body is FogScatter || body is TaaResolve || body is LuminanceHistogram || body
                is LuminanceAverage || body is Cull || body is CullReset ==> outputs_of(
                ids,
                mip_levels,
                body,
            ).len() == 0,
        forall|body: PassBody|
            #![trigger inputs_of(ids, body)]
            body is LuminanceAverage || body is Cull || body is CullReset ==> inputs_of(
                ids,
                body,
            ).len() == 0,
{
}

/// **Every level of a bloom chain is its own.** A pass down reads the level above and
/// writes its own; a pass up reads what came up from below beside the level it had on
/// the way down, and writes its own of the way up.
pub proof fn bloom_levels_are_their_own(ids: &FrameIds, mip_levels: Seq<u32>, level: u32)
    requires
        ids.bloom is Some,
        ids.bloom->0.wf(),
    ensures
        outputs_of(ids, mip_levels, PassBody::BloomPrefilter) == seq![
            ViewRef::Image(ids.bloom->0.down@[0]),
        ],
        1 <= level < ids.bloom->0.mips ==> outputs_of(
            ids,
            mip_levels,
            PassBody::BloomDownsample(level),
        ) == seq![ViewRef::Image(ids.bloom->0.down@[level as int])],
        level < u32::MAX && level + 1 < ids.bloom->0.mips ==> {
            &&& outputs_of(ids, mip_levels, PassBody::BloomUpsample(level)) == seq![
                ViewRef::Image(ids.bloom->0.up@[level as int]),
            ]
            &&& inputs_of(ids, PassBody::BloomUpsample(level)).len() == 2
            &&& inputs_of(ids, PassBody::BloomUpsample(level))[1] == ViewRef::Image(
                ids.bloom->0.down@[level as int],
            )
        },
{
}

/// **A pyramid is written level by level**, each level once, from the first.
pub proof fn pyramids_are_written_in_full(
    ids: &FrameIds,
    mip_levels: Seq<u32>,
    body: PassBody,
    level: int,
)
    ensures
        pyramid_of(ids, body) is Some <==> body is SsrHiz || body is SsrSource || body
            is RefractionScene,
        body is SsrHiz ==> pyramid_of(ids, body) == Some(ids.ssr->0.hiz),
        body is SsrSource ==> pyramid_of(ids, body) == Some(ids.ssr->0.source_pyramid),
        body is RefractionScene ==> pyramid_of(ids, body) == Some(ids.refraction->0.scene),
        pyramid_of(ids, body) matches Some(id) ==> {
            let written = outputs_of(ids, mip_levels, body);
            &&& written.len() == mip_levels[id.index as int]
            &&& 0 <= level < written.len() ==> written[level] == ViewRef::Mip(id, level as u32)
        },
{
}

/// **Only what outlives a frame is asked of its owner.**
pub proof fn views_are_their_owners(ids: &FrameIds, id: ResourceId)
    ensures
        view_of_spec(ids, id) is FogScatter <==> ids.fog is Some && id == ids.fog->0.scatter,
        view_of_spec(ids, id) is TaaOutput <==> ids.taa is Some && id == ids.taa->0.output && !(
        ids.fog is Some && id == ids.fog->0.scatter),
        view_of_spec(ids, id) is FogScatter || view_of_spec(ids, id) is TaaOutput || view_of_spec(
            ids,
            id,
        ) == ViewRef::Image(id),
{
}

/// **A barrier acts on the object behind its resource.** The swapchain's image and the
/// buffers are told from images; what outlives the frame is its owner's; and a
/// resource that nobody holds an object for has none.
pub proof fn barriers_act_on_their_objects(record: FrameRecord, id: ResourceId)
    ensures
        ({
            let ids = record.ids;
            let target = record.barrier_target_spec(id);
            let buffer = id == ids.object_transforms || id == ids.instance_index || id
                == ids.exposure || ids.histogram == Some(id);
            let scatter = ids.fog matches Some(fog) && id == fog.scatter;
            let output = ids.taa matches Some(taa) && id == taa.output;
            let history = ids.taa matches Some(taa) && id == taa.history;
            &&& id == ids.swapchain_color <==> target == Some(BarrierTarget::Swapchain)
            &&& id != ids.swapchain_color ==> {
                &&& buffer <==> target == Some(BarrierTarget::Memory)
                &&& !buffer ==> {
                    &&& scatter <==> target == Some(BarrierTarget::FogScatter)
                    &&& !scatter ==> {
                        &&& output <==> target == Some(BarrierTarget::TaaOutput)
                        &&& !output ==> {
                            &&& history <==> target == Some(BarrierTarget::TaaHistory)
                            &&& !history ==> target == (if record.owned@[id.index as int] {
                                Some(BarrierTarget::Image(id))
                            } else {
                                None
                            })
                        }
                    }
                }
            }
        }),
{
}

/// The draws behind one call of an opaque pass.
pub open spec fn draws_of(call: DrawCall) -> Option<Draws> {
    match call {
        DrawCall::Cascade { draws, .. } => Some(draws),
        DrawCall::Prepass { draws } => Some(draws),
        DrawCall::Opaque { draws, .. } => Some(draws),
        _ => None,
    }
}

/// **The view that a pass draws is the view that was culled for it.** Where a dispatch
/// culled, the prepass and the forward pass draw the camera's view, a cascade its own,
/// and the atlas the faces' from the first on, as they are numbered; where the CPU
/// did, each draws its own list from where its objects begin.
pub proof fn passes_draw_their_views(record: FrameRecord, cascade: u32, cascades: usize, faces: usize)
    requires
        cascade < cascades,
        record.shadows is Some,
        record.shadows->0.cascades == cascades,
        cascades < u32::MAX,
    ensures
        ({
            let views = views_of(Some((cascades, faces)));
            let shadow = record.calls_of(PassBody::ShadowCascade(cascade));
            let atlas = record.calls_of(PassBody::PunctualShadows);
            let prepass = record.calls_of(PassBody::GeometryPrepass);
            let forward = record.calls_of(PassBody::Forward);
            &&& shadow.len() == 1 && atlas.len() == 1 && prepass.len() == 1
            &&& shadow[0] matches DrawCall::Cascade { cascade: drawn, .. } && drawn == cascade
            &&& draws_of(prepass[0]) == draws_of(forward[0])
            &&& record.culled ==> {
                &&& draws_of(shadow[0]) matches Some(Draws::Gpu { view }) && views[view as int]
                    == CullView::Cascade(cascade as usize)
                &&& draws_of(prepass[0]) matches Some(Draws::Gpu { view }) && views[view as int]
                    == CullView::Camera
                &&& atlas[0] matches DrawCall::Atlas { gpu } && gpu matches Some(view) && (faces
                    > 0 ==> views[view as int] == CullView::Face(0))
            }
            &&& !record.culled ==> {
                &&& draws_of(shadow[0]) == Some(
                    Draws::Cpu {
                        list: ListRef::Cascade(cascade),
                        base: record.cascade_bases@[cascade as int],
                    },
                )
                &&& draws_of(prepass[0]) == Some(Draws::Cpu { list: ListRef::Camera, base: 0 })
                &&& atlas[0] == (DrawCall::Atlas { gpu: None })
            }
        }),
{
    views_match_the_passes(cascades, faces, cascade as int);
    views_match_the_passes(cascades, faces, 0);
}

/// **The forward pass draws in order.** The geometry, then the sky where there was
/// none, then the lines over both, all three with the pipelines of one frame; and the
/// sky is seen through the frame's fog.
pub proof fn the_sky_stands_behind_the_geometry(record: FrameRecord)
    ensures
        ({
            let forward = record.calls_of(PassBody::Forward);
            &&& forward.len() == 3
            &&& forward[0] matches DrawCall::Opaque { subsurface, msaa, .. } && {
                &&& subsurface <==> record.ids.subsurface is Some
                &&& msaa <==> record.ids.msaa is Some
                &&& forward[1] matches DrawCall::Skybox { volume, subsurface: s, msaa: m } && s
                    == subsurface && m == msaa && (volume is Some <==> record.ids.fog is Some) && (
                volume matches Some(id) ==> id == record.ids.fog->0.volume)
                &&& forward[2] == (DrawCall::Lines { subsurface, msaa })
            }
        }),
{
}

/// **A pass over the screen reads the prepass and draws where it is attached.** The
/// blur of the occlusion reads what the resolve drew; glass sees the pyramid of the
/// frame, and the frame itself, that are behind it; and the tonemap adds the bloom
/// that the chain came to.
pub proof fn screen_passes_are_connected(record: FrameRecord)
    ensures
        ({
            let ids = record.ids;
            let resolve = record.calls_of(PassBody::SsaoResolve);
            let blur = record.calls_of(PassBody::SsaoBlur);
            let contact = record.calls_of(PassBody::ContactShadows);
            let glass = record.calls_of(PassBody::RefractionDraw);
            let tonemap = record.calls_of(PassBody::Tonemap);
            let prepass = ids.prepass->0;
            &&& resolve.len() == 1 && blur.len() == 1 && contact.len() == 1
            &&& glass.len() == 1 && tonemap.len() == 1
            &&& resolve[0] matches DrawCall::Ssao { target, depth, normal } && {
                &&& drawn(&ids, PassBody::SsaoResolve)[0] == Target::Image(target)
                &&& depth == prepass.depth && normal == prepass.normal
                &&& blur[0] matches DrawCall::SsaoBlur { target: blurred, raw, depth: d } && {
                    &&& drawn(&ids, PassBody::SsaoBlur)[0] == Target::Image(blurred)
                    &&& raw == target && d == depth
                }
                &&& contact[0] == (DrawCall::ContactShadows { depth, normal })
            }
            &&& glass[0] matches DrawCall::Refractive { scene, source, base } && {
                &&& pyramid_of(&ids, PassBody::RefractionScene) == Some(scene)
                &&& inputs_of(&ids, PassBody::RefractionScene) == seq![source]
                &&& base == record.refractive_base
            }
            &&& record.calls_of(PassBody::OitAccumulate) == seq![
                DrawCall::Transparent { base: record.transparent_base },
            ]
            &&& tonemap[0] == (DrawCall::Tonemap {
                bloom: match ids.bloom {
                    Some(bloom) => ViewRef::Image(bloom.result),
                    None => ViewRef::Black,
                },
            })
        }),
{
    let ids = record.ids;
    assert(attachments_of(&ids, PassBody::SsaoResolve).color.len() == 1);
    assert(attachments_of(&ids, PassBody::SsaoBlur).color.len() == 1);
}

/// **A pass is as large as what it draws into.** A cascade is square, at the shadow
/// maps' resolution; ambient occlusion has its target's extent; and whatever else is
/// recorded at an extent, at the frame's.
pub proof fn passes_have_their_extents(
    body: PassBody,
    frame: (u32, u32),
    shadow_resolution: u32,
    target: (u32, u32),
)
    ensures
        ({
            let extent = recorded_extent_spec(body, frame, shadow_resolution, target);
            &&& body is ShadowCascade ==> extent == Some((shadow_resolution, shadow_resolution))
            &&& body is SsaoResolve || body is SsaoBlur ==> extent == Some(target)
            &&& rasterises(body) ==> (extent is None <==> body is PunctualShadows)
            &&& !rasterises(body) ==> (extent is Some <==> body is SsrHiz || body
                is LuminanceHistogram || body is LuminanceAverage)
            &&& extent is Some && !(body is ShadowCascade || body is SsaoResolve || body
                is SsaoBlur) ==> extent == Some(frame)
        }),
{
}

/// **A slot costs its draws.** What draws a list costs the list's length, the atlas
/// each light's list once a face, and everything else nothing.
pub proof fn slots_cost_their_draws(record: FrameRecord, slot: int)
    ensures
        ({
            let cost = record.cost_spec(slot);
            let body = record.body(slot);
            &&& body is GeometryPrepass || body is Forward ==> (record.draws <= u32::MAX ==> cost
                == record.draws)
            &&& body is OitAccumulate ==> (record.transparent <= u32::MAX ==> cost
                == record.transparent)
            &&& body is RefractionDraw ==> (record.refractive <= u32::MAX ==> cost
                == record.refractive)
            &&& body matches PassBody::ShadowCascade(cascade) ==> match record.shadows {
                Some(shadows) => shadows.casters@[cascade as int] <= u32::MAX ==> cost
                    == shadows.casters@[cascade as int],
                None => cost == 0,
            }
            &&& !(body is GeometryPrepass || body is Forward || body is OitAccumulate || body
                is RefractionDraw || body is ShadowCascade || body is PunctualShadows) ==> cost == 0
            &&& body is PunctualShadows && record.shadows is None ==> cost == 0
        }),
{
}

/// **Each light costs its draws once a face.** One light more adds its own to what the
/// others cost; a light without a list, or a list without a light, adds nothing.
pub proof fn lights_cost_their_faces(faces: Seq<u32>, punctual: Seq<usize>, light: int)
    requires
        0 <= light,
        punctual[light] <= u32::MAX,
    ensures
        punctual_cost(faces, punctual, 0) == 0,
        punctual_cost(faces, punctual, light + 1) == punctual_cost(faces, punctual, light)
            + punctual[light] * faces[light],
{
}

/// **The atlas costs every light that has both a list and faces.**
pub proof fn the_atlas_costs_every_light(record: FrameRecord, slot: int, lights: int)
    requires
        record.body(slot) is PunctualShadows,
        record.shadows is Some,
        lights <= record.shadows->0.faces@.len(),
        lights <= record.shadows->0.punctual@.len(),
        lights == record.shadows->0.faces@.len() || lights == record.shadows->0.punctual@.len(),
    ensures
        record.cost_spec(slot) == punctual_cost(
            record.shadows->0.faces@,
            record.shadows->0.punctual@,
            lights,
        ),
{
}

/// **A segment's prices are its slots', in order.**
pub proof fn segments_cost_their_slots(record: FrameRecord, segment: Range<usize>, i: int)
    requires
        segment.start <= segment.end,
        0 <= i < segment.end - segment.start,
        record.cost_spec(segment.start + i) <= u32::MAX,
    ensures
        record.costs_of(segment).len() == segment.end - segment.start,
        record.costs_of(segment)[i] == record.cost_spec(segment.start + i),
{
}

/// **A slot is what the schedule put there.** Its pass is the one of the compiled order,
/// and it is stamped with its own pair where the device times passes.
pub proof fn slots_follow_the_order(record: FrameRecord, slot: int)
    ensures
        record.body(slot) == record.bodies@[record.order@[slot] as int],
        record.kind(slot) == record.kinds@[record.order@[slot] as int],
        record.timestamps ==> record.timed(slot) == record.tokens@[slot],
        !record.timestamps ==> record.timed(slot) is None,
{
}

/// **A light's faces are viewed behind the camera and the cascades.** The camera is the
/// first view and the cascades follow it, so that the faces begin where they end; with
/// no shadows there is the camera alone.
pub proof fn faces_are_viewed_behind_the_cascades(record: FrameRecord, cascade: u32)
    ensures
        record.shadows is None ==> record.first_face_view_spec() == 1,
        record.shadows matches Some(shadows) ==> record.first_face_view_spec() == shadows.cascades
            + 1,
        record.shadows matches Some(shadows) && cascade < shadows.cascades ==> 1 + cascade
            < record.first_face_view_spec(),
{
}

} // verus!
