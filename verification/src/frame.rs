//! What a compiled frame is made of: the passes it schedules and the resources
//! they name.

use vstd::prelude::*;

verus! {

/// How many frames the CPU may be ahead of the GPU by.
pub const FRAMES_IN_FLIGHT: usize = 2;

/// A resource of the compiled frame, by its index in the graph.
#[derive(Clone, Copy, Debug, PartialEq, Eq, Structural)]
pub struct ResourceId {
    pub index: usize,
}

/// How a pass is recorded.
#[derive(Clone, Copy, Debug, PartialEq, Eq, Structural)]
pub enum PassKind {
    /// Inside a rendering bracket, with attachments.
    Graphics,
    /// As dispatches, which a rendering bracket would make illegal.
    Compute,
    /// By somebody else: the pass owns its submission and runs after the frame.
    Raw,
}

/// What a scheduled pass does.
#[derive(Clone, Copy, Debug, PartialEq, Eq, Structural)]
pub enum PassBody {
    ShadowCascade(u32),
    PunctualShadows,
    GeometryPrepass,
    SsaoResolve,
    SsaoBlur,
    ContactShadows,
    Forward,
    OitAccumulate,
    RefractionDraw,
    Tonemap,
    Overlay,
    OcclusionHiz,
    SsrHiz,
    SsrSource,
    SsrTrace,
    SsrResolve,
    FogScatter,
    FogIntegrate,
    SubsurfaceBlurHorizontal,
    SubsurfaceBlurVertical,
    SubsurfaceComposite,
    OitComposite,
    RefractionScene,
    RefractionComposite,
    TaaResolve,
    DofPrefilter,
    DofTileMax,
    DofGather,
    DofComposite,
    MotionBlurTileMax,
    MotionBlurNeighbourMax,
    MotionBlurGather,
    LuminanceHistogram,
    LuminanceAverage,
    BloomPrefilter,
    BloomDownsample(u32),
    BloomUpsample(u32),
    CullReset,
    Cull,
}

/// The geometry prepass's four targets.
#[derive(Clone, Copy, Debug, PartialEq, Eq, Structural)]
pub struct PrepassIds {
    pub depth: ResourceId,
    pub normal: ResourceId,
    pub velocity: ResourceId,
    pub material: ResourceId,
}

/// The multisampled forward targets.
#[derive(Clone, Copy, Debug, PartialEq, Eq, Structural)]
pub struct MsaaIds {
    pub hdr: ResourceId,
    pub depth: ResourceId,
}

#[derive(Clone, Copy, Debug, PartialEq, Eq, Structural)]
pub struct SsaoIds {
    pub raw_ao: ResourceId,
    pub ao: ResourceId,
}

#[derive(Clone, Copy, Debug, PartialEq, Eq, Structural)]
pub struct SsrIds {
    pub source: ResourceId,
    pub hiz: ResourceId,
    pub source_pyramid: ResourceId,
    pub rays: ResourceId,
    pub output: ResourceId,
}

/// The froxel volumes. `scatter` is imported: its history survives the frame.
#[derive(Clone, Copy, Debug, PartialEq, Eq, Structural)]
pub struct FogIds {
    pub scatter: ResourceId,
    pub volume: ResourceId,
}

#[derive(Clone, Copy, Debug, PartialEq, Eq, Structural)]
pub struct SubsurfaceIds {
    pub source: ResourceId,
    pub diffusible: ResourceId,
    /// Present exactly when the frame is multisampled.
    pub msaa_diffusible: Option<ResourceId>,
    pub blurred_x: ResourceId,
    pub blurred_y: ResourceId,
    pub output: ResourceId,
}

#[derive(Clone, Copy, Debug, PartialEq, Eq, Structural)]
pub struct TransparencyIds {
    pub source: ResourceId,
    pub accum: ResourceId,
    pub reveal: ResourceId,
    pub output: ResourceId,
}

#[derive(Clone, Copy, Debug, PartialEq, Eq, Structural)]
pub struct RefractionIds {
    pub source: ResourceId,
    pub scene: ResourceId,
    pub accum: ResourceId,
    pub output: ResourceId,
}

/// The temporal resolve's images. `output` and `history` are imported: the pass
/// swaps them across the frame boundary.
#[derive(Clone, Copy, Debug, PartialEq, Eq, Structural)]
pub struct TaaIds {
    pub source: ResourceId,
    pub output: ResourceId,
    pub history: ResourceId,
}

#[derive(Clone, Copy, Debug, PartialEq, Eq, Structural)]
pub struct DofIds {
    pub source: ResourceId,
    pub prefiltered: ResourceId,
    pub tile: ResourceId,
    pub near: ResourceId,
    pub far: ResourceId,
    pub output: ResourceId,
}

#[derive(Clone, Copy, Debug, PartialEq, Eq, Structural)]
pub struct MotionBlurIds {
    pub source: ResourceId,
    pub tile: ResourceId,
    pub neighbour: ResourceId,
    pub output: ResourceId,
}

/// The bloom chain: one image per level on the way down, one per level but the
/// last on the way up, and the one the tonemap reads.
#[derive(Debug)]
pub struct BloomIds {
    pub mips: usize,
    pub down: Vec<ResourceId>,
    pub up: Vec<ResourceId>,
    pub result: ResourceId,
}

impl BloomIds {
    /// The chain has the levels it says it has.
    pub open spec fn wf(&self) -> bool {
        &&& self.mips >= 1
        &&& self.down@.len() == self.mips
        &&& self.up@.len() + 1 == self.mips
    }
}

/// Every resource the frame declared, by what it is for. `None` for a feature
/// the frame was compiled without.
#[derive(Debug)]
pub struct FrameIds {
    pub swapchain_color: ResourceId,
    pub hdr_color: ResourceId,
    pub object_transforms: ResourceId,
    pub instance_index: ResourceId,
    pub exposure: ResourceId,
    pub histogram: Option<ResourceId>,
    pub contact_shadows: Option<ResourceId>,
    pub shadows: Option<ResourceId>,
    pub shadow_atlas: Option<ResourceId>,
    pub prepass: Option<PrepassIds>,
    pub msaa: Option<MsaaIds>,
    pub ssao: Option<SsaoIds>,
    pub ssr: Option<SsrIds>,
    pub fog: Option<FogIds>,
    pub subsurface: Option<SubsurfaceIds>,
    pub transparency: Option<TransparencyIds>,
    pub refraction: Option<RefractionIds>,
    pub taa: Option<TaaIds>,
    pub dof: Option<DofIds>,
    pub motion_blur: Option<MotionBlurIds>,
    pub bloom: Option<BloomIds>,
}

} // verus!
