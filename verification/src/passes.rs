//! The screen-space passes: what each of their dispatches binds, how it samples
//! what it reads, and the workgroups it takes.
//!
//! A binding's number is its place in the list, so a list has no holes.

use crate::extents::{
    dispatch_over, groups_spec, HIZ_LEVELS, HIZ_TILE, SCENE_LEVELS, SOURCE_LEVELS, TILE,
};
use crate::frame::{FrameIds, PassBody};
use crate::recording::{inputs_of, outputs_of, pyramid_of, ViewRef};
use vstd::prelude::*;

verus! {

/// Rays of one pixel differ for this many frames before they repeat.
pub const SAMPLE_FRAMES: u64 = 64;

/// What lies past the edge of an image.
#[derive(Clone, Copy, Debug, PartialEq, Eq, Structural)]
pub enum Edge {
    /// The nearest texel of the image.
    Clamp,
    /// White, which reads as far away: what no shadow map covers is lit.
    White,
}

/// How a shader reads an image.
#[derive(Clone, Copy, Debug, PartialEq, Eq, Structural)]
pub struct SamplerState {
    /// Whether neighbouring texels are blended.
    pub linear: bool,
    /// Whether neighbouring levels are.
    pub linear_levels: bool,
    /// The deepest level it reaches, or every one.
    pub deepest: Option<u32>,
    pub edge: Edge,
    /// Whether it compares depths and blends the answers.
    pub compares: bool,
}

/// Exact texels of one level at a time, of any level.
pub open spec fn nearest_of_any_level() -> SamplerState {
    SamplerState {
        linear: false,
        linear_levels: false,
        deepest: None,
        edge: Edge::Clamp,
        compares: false,
    }
}

/// Exact texels of an image without levels.
pub open spec fn nearest_of_one_level() -> SamplerState {
    SamplerState {
        linear: false,
        linear_levels: false,
        deepest: Some(0),
        edge: Edge::Clamp,
        compares: false,
    }
}

/// Blended texels of an image without levels.
pub open spec fn linear_of_one_level() -> SamplerState {
    SamplerState {
        linear: true,
        linear_levels: false,
        deepest: Some(1),
        edge: Edge::Clamp,
        compares: false,
    }
}

/// Blended texels, blended between levels too.
pub open spec fn linear_of_any_level() -> SamplerState {
    SamplerState {
        linear: true,
        linear_levels: true,
        deepest: None,
        edge: Edge::Clamp,
        compares: false,
    }
}

/// The shadow maps' sampler. The comparison comes before the blend, so a single
/// tap is already the mean of four answers.
pub fn comparison_sampler() -> (state: SamplerState)
    ensures
        state == (SamplerState {
            linear: true,
            linear_levels: false,
            deepest: Some(0),
            edge: Edge::White,
            compares: true,
        }),
{
    SamplerState {
        linear: true,
        linear_levels: false,
        deepest: Some(0),
        edge: Edge::White,
        compares: true,
    }
}

fn nearest(deepest: Option<u32>) -> (state: SamplerState)
    ensures
        state == (SamplerState {
            linear: false,
            linear_levels: false,
            deepest,
            edge: Edge::Clamp,
            compares: false,
        }),
{
    SamplerState {
        linear: false,
        linear_levels: false,
        deepest,
        edge: Edge::Clamp,
        compares: false,
    }
}

fn linear(linear_levels: bool, deepest: Option<u32>) -> (state: SamplerState)
    ensures
        state == (SamplerState {
            linear: true,
            linear_levels,
            deepest,
            edge: Edge::Clamp,
            compares: false,
        }),
{
    SamplerState { linear: true, linear_levels, deepest, edge: Edge::Clamp, compares: false }
}

/// The program a dispatch runs.
#[derive(Clone, Copy, Debug, PartialEq, Eq, Structural)]
pub enum Shader {
    HizBuild,
    ColorPyramid,
    SsrTrace,
    SsrResolve,
    SssBlur,
    SssComposite,
    OitComposite,
    RefractionComposite,
    MotionBlurTileMax,
    MotionBlurNeighbourMax,
    MotionBlurGather,
}

/// One binding of a dispatch.
#[derive(Clone, Copy, Debug, PartialEq, Eq, Structural)]
pub enum Binding {
    Sampled { view: ViewRef, sampler: SamplerState },
    Stored(ViewRef),
    /// The array of levels that [`Dispatch::levels`] lists.
    StoredLevels,
    /// An image whose sampler is a binding of its own.
    Texture(ViewRef),
    /// The environment's own sampler.
    EnvironmentSampler,
    /// The block that the pass fills as the frame begins.
    Uniforms,
}

/// What is pushed beside the bindings.
#[derive(Clone, Copy, Debug, PartialEq, Eq, Structural)]
pub enum Push {
    /// The extent a pyramid is built over, and how many levels it has.
    Pyramid { width: i32, height: i32, levels: i32 },
    /// The axis a blur walks, in texels.
    Axis { x: i32, y: i32 },
}

/// One dispatch.
#[derive(Debug)]
pub struct Dispatch {
    pub shader: Shader,
    pub bindings: Vec<Binding>,
    /// The views behind [`Binding::StoredLevels`], one for every slot of the
    /// shader's array.
    pub levels: Vec<ViewRef>,
    pub push: Option<Push>,
    pub groups: [u32; 3],
}

/// What a [`Dispatch`] holds.
#[verifier::ext_equal]
pub struct DispatchView {
    pub shader: Shader,
    pub bindings: Seq<Binding>,
    pub levels: Seq<ViewRef>,
    pub push: Option<Push>,
    pub groups: Seq<u32>,
}

impl View for Dispatch {
    type V = DispatchView;

    open spec fn view(&self) -> DispatchView {
        DispatchView {
            shader: self.shader,
            bindings: self.bindings@,
            levels: self.levels@,
            push: self.push,
            groups: self.groups@,
        }
    }
}

/// Whether a binding reads an image.
pub open spec fn is_read(binding: Binding, image: ViewRef) -> bool {
    binding matches Binding::Sampled { view, .. } && view == image || binding == Binding::Texture(
        image,
    )
}

/// A dispatch reads its images at the bindings from the first on, in the order its
/// shader declares them, and stores at the one behind them.
pub open spec fn binds_in_order(it: DispatchView, inputs: Seq<ViewRef>, output: ViewRef) -> bool {
    &&& inputs.len() < it.bindings.len()
    &&& forall|k: int|
        0 <= k < inputs.len() ==> is_read(#[trigger] it.bindings[k], inputs[k])
    &&& it.bindings[inputs.len() as int] == Binding::Stored(output)
}

/// The workgroups that cover an extent.
pub open spec fn groups_over(extent: [u32; 2], tile: u32) -> Seq<u32> {
    seq![
        groups_spec(extent[0] as nat, tile as nat) as u32,
        groups_spec(extent[1] as nat, tile as nat) as u32,
        1u32,
    ]
}

/// The level behind each slot of a shader's array: its own, or the last one where
/// the pyramid is shorter than the array. Every slot has to be written, and the
/// level count is what stops a store through a spare.
pub open spec fn slots_of(mips: Seq<ViewRef>, slots: u32) -> Seq<ViewRef> {
    Seq::new(
        slots as nat,
        |i: int|
            if i < mips.len() {
                mips[i]
            } else {
                mips.last()
            },
    )
}

/// A whole pyramid in one dispatch: a workgroup to every tile of the extent.
pub open spec fn pyramid_spec(
    shader: Shader,
    source: ViewRef,
    sampler: SamplerState,
    mips: Seq<ViewRef>,
    slots: u32,
    extent: [u32; 2],
) -> DispatchView {
    DispatchView {
        shader,
        bindings: seq![Binding::Sampled { view: source, sampler }, Binding::StoredLevels],
        levels: slots_of(mips, slots),
        push: Some(
            Push::Pyramid {
                width: extent[0] as i32,
                height: extent[1] as i32,
                levels: mips.len() as i32,
            },
        ),
        groups: groups_over(extent, HIZ_TILE),
    }
}

/// One invocation to every pixel of the target.
pub open spec fn flat_spec(
    shader: Shader,
    bindings: Seq<Binding>,
    push: Option<Push>,
    extent: [u32; 2],
) -> DispatchView {
    DispatchView { shader, bindings, levels: Seq::empty(), push, groups: groups_over(extent, TILE) }
}

fn pyramid(
    shader: Shader,
    source: ViewRef,
    sampler: SamplerState,
    mips: &[ViewRef],
    slots: u32,
    extent: [u32; 2],
) -> (dispatch: Dispatch)
    requires
        1 <= mips@.len() <= i32::MAX,
    ensures
        dispatch@ == pyramid_spec(shader, source, sampler, mips@, slots, extent),
{
    let mut bindings: Vec<Binding> = Vec::new();
    bindings.push(Binding::Sampled { view: source, sampler });
    bindings.push(Binding::StoredLevels);
    let mut levels: Vec<ViewRef> = Vec::new();
    let mut slot: usize = 0;
    while slot < slots as usize
        invariant
            mips@.len() >= 1,
            slot <= slots,
            levels@.len() == slot,
            forall|i: int| 0 <= i < slot ==> #[trigger] levels@[i] == slots_of(mips@, slots)[i],
        decreases slots - slot,
    {
        if slot < mips.len() {
            levels.push(mips[slot]);
        } else {
            levels.push(mips[mips.len() - 1]);
        }
        slot = slot + 1;
    }
    let groups = dispatch_over(extent, HIZ_TILE);
    assert(groups@ =~= groups_over(extent, HIZ_TILE));
    let dispatch = Dispatch {
        shader,
        bindings,
        levels,
        push: Some(
            Push::Pyramid {
                width: #[verifier::truncate] (extent[0] as i32),
                height: #[verifier::truncate] (extent[1] as i32),
                levels: mips.len() as i32,
            },
        ),
        groups,
    };
    assert(dispatch@ =~= pyramid_spec(shader, source, sampler, mips@, slots, extent));
    dispatch
}

fn flat(shader: Shader, bindings: Vec<Binding>, push: Option<Push>, extent: [u32; 2]) -> (dispatch:
    Dispatch)
    ensures
        dispatch@ == flat_spec(shader, bindings@, push, extent),
{
    let groups = dispatch_over(extent, TILE);
    assert(groups@ =~= groups_over(extent, TILE));
    let dispatch = Dispatch { shader, bindings, levels: Vec::new(), push, groups };
    assert(dispatch@ =~= flat_spec(shader, bindings@, push, extent));
    dispatch
}

/// Screen-space reflections.
#[derive(Debug)]
pub struct SsrPass {
    /// For everything the march reads. Interpolating a depth or a normal invents
    /// a surface between two that are really there, and the march would stop on
    /// it.
    pub nearest_clamp: SamplerState,
    /// For the lit frame.
    pub linear_clamp: SamplerState,
    /// For the pyramid of the lit frame: a cone that grows smoothly picks a
    /// fractional level.
    pub linear_mip: SamplerState,
    /// Advanced every frame the pass runs, and what decorrelates the rays from
    /// frame to frame.
    pub frame: u64,
    /// Whether a frame has begun, so that there are uniforms to bind.
    pub begun: bool,
}

/// The whole numbers of the uniforms that the trace and the composite share.
#[derive(Clone, Copy, Debug, PartialEq, Eq, Structural)]
pub struct SsrFrame {
    /// Which of the ray sequences this frame takes.
    pub sample: u64,
    /// Steps a ray marches at most, and at least one.
    pub steps: u32,
    /// Levels of the depth pyramid, where the march has to stop.
    pub levels: u32,
    /// How large the frame is.
    pub width: u32,
    pub height: u32,
    /// What a pixel coordinate is divided by, and never zero.
    pub across: u32,
    pub down: u32,
    /// Levels of the environment's prefiltered reflection.
    pub specular_mips: u32,
}

pub open spec fn at_least_one(value: u32) -> u32 {
    if value >= 1 {
        value
    } else {
        1
    }
}

fn at_least(value: u32) -> (bounded: u32)
    ensures
        bounded == at_least_one(value),
{
    if value >= 1 {
        value
    } else {
        1
    }
}

impl SsrPass {
    pub open spec fn wf(&self) -> bool {
        &&& self.nearest_clamp == nearest_of_any_level()
        &&& self.linear_clamp == linear_of_one_level()
        &&& self.linear_mip == linear_of_any_level()
    }

    pub fn new() -> (pass: Self)
        ensures
            pass.wf(),
            pass.frame == 0,
            !pass.begun,
    {
        SsrPass {
            nearest_clamp: nearest(None),
            linear_clamp: linear(false, Some(1)),
            linear_mip: linear(true, None),
            frame: 0,
            begun: false,
        }
    }

    /// The ray sequence a frame takes.
    pub open spec fn sample(&self) -> int {
        self.frame as int % SAMPLE_FRAMES as int
    }

    /// Begin a frame.
    pub fn begin_frame(
        &mut self,
        max_steps: u32,
        extent: [u32; 2],
        levels: u32,
        specular_mips: u32,
    ) -> (frame: SsrFrame)
        requires
            old(self).wf(),
        ensures
            final(self).wf(),
            final(self).begun,
            final(self).frame == (if old(self).frame == u64::MAX {
                0
            } else {
                old(self).frame + 1
            }),
            frame == (SsrFrame {
                sample: final(self).sample() as u64,
                steps: at_least_one(max_steps),
                levels,
                width: extent[0],
                height: extent[1],
                across: at_least_one(extent[0]),
                down: at_least_one(extent[1]),
                specular_mips,
            }),
    {
        self.frame = self.frame.wrapping_add(1);
        self.begun = true;
        SsrFrame {
            sample: self.frame % SAMPLE_FRAMES,
            steps: at_least(max_steps),
            levels,
            width: extent[0],
            height: extent[1],
            across: at_least(extent[0]),
            down: at_least(extent[1]),
            specular_mips,
        }
    }

    /// Build every level of the depth pyramid, over the frame's extent.
    pub fn record_hiz(&self, depth: ViewRef, mips: &[ViewRef], extent: [u32; 2]) -> (dispatch:
        Dispatch)
        requires
            1 <= mips@.len() <= i32::MAX,
        ensures
            dispatch@ == pyramid_spec(
                Shader::HizBuild,
                depth,
                self.nearest_clamp,
                mips@,
                HIZ_LEVELS,
                extent,
            ),
    {
        pyramid(Shader::HizBuild, depth, self.nearest_clamp, mips, HIZ_LEVELS, extent)
    }

    /// Reduce the lit frame into the pyramid the trace samples cones out of, over
    /// the extent of its first level: one blended fetch between four texels is
    /// their mean.
    pub fn record_source(&self, source: ViewRef, mips: &[ViewRef], extent: [u32; 2]) -> (dispatch:
        Dispatch)
        requires
            1 <= mips@.len() <= i32::MAX,
        ensures
            dispatch@ == pyramid_spec(
                Shader::ColorPyramid,
                source,
                self.linear_clamp,
                mips@,
                SOURCE_LEVELS,
                extent,
            ),
    {
        pyramid(Shader::ColorPyramid, source, self.linear_clamp, mips, SOURCE_LEVELS, extent)
    }

    pub open spec fn trace_bindings(
        &self,
        hiz: ViewRef,
        depth: ViewRef,
        normal: ViewRef,
        material: ViewRef,
        source: ViewRef,
        target: ViewRef,
    ) -> Seq<Binding> {
        seq![
            Binding::Sampled { view: hiz, sampler: self.nearest_clamp },
            Binding::Sampled { view: depth, sampler: self.nearest_clamp },
            Binding::Sampled { view: normal, sampler: self.nearest_clamp },
            Binding::Sampled { view: material, sampler: self.nearest_clamp },
            Binding::Sampled { view: source, sampler: self.linear_mip },
            Binding::Stored(target),
            Binding::Uniforms,
        ]
    }

    /// March one ray per pixel of the target.
    pub fn record_trace(
        &self,
        hiz: ViewRef,
        depth: ViewRef,
        normal: ViewRef,
        material: ViewRef,
        source: ViewRef,
        target: ViewRef,
        extent: [u32; 2],
    ) -> (dispatch: Dispatch)
        requires
            self.begun,
        ensures
            binds_in_order(dispatch@, seq![hiz, depth, normal, material, source], target),
            dispatch@ == flat_spec(
                Shader::SsrTrace,
                self.trace_bindings(hiz, depth, normal, material, source, target),
                None,
                extent,
            ),
    {
        let mut bindings: Vec<Binding> = Vec::new();
        bindings.push(Binding::Sampled { view: hiz, sampler: self.nearest_clamp });
        bindings.push(Binding::Sampled { view: depth, sampler: self.nearest_clamp });
        bindings.push(Binding::Sampled { view: normal, sampler: self.nearest_clamp });
        bindings.push(Binding::Sampled { view: material, sampler: self.nearest_clamp });
        bindings.push(Binding::Sampled { view: source, sampler: self.linear_mip });
        bindings.push(Binding::Stored(target));
        bindings.push(Binding::Uniforms);
        assert(bindings@ =~= self.trace_bindings(hiz, depth, normal, material, source, target));
        flat(Shader::SsrTrace, bindings, None, extent)
    }

    pub open spec fn resolve_bindings(
        &self,
        source: ViewRef,
        rays: ViewRef,
        depth: ViewRef,
        normal: ViewRef,
        material: ViewRef,
        environment: ViewRef,
        target: ViewRef,
    ) -> Seq<Binding> {
        seq![
            Binding::Sampled { view: source, sampler: self.linear_clamp },
            Binding::Sampled { view: rays, sampler: self.nearest_clamp },
            Binding::Sampled { view: depth, sampler: self.nearest_clamp },
            Binding::Sampled { view: normal, sampler: self.nearest_clamp },
            Binding::Sampled { view: material, sampler: self.nearest_clamp },
            Binding::Stored(target),
            Binding::Texture(environment),
            Binding::EnvironmentSampler,
            Binding::Uniforms,
        ]
    }

    /// Swap the environment's guess for what the rays found. The rays are fetched
    /// at exact texels: the gather interpolates for itself, and a blend here would
    /// cross the silhouettes it exists to respect.
    pub fn record_resolve(
        &self,
        source: ViewRef,
        rays: ViewRef,
        depth: ViewRef,
        normal: ViewRef,
        material: ViewRef,
        environment: ViewRef,
        target: ViewRef,
        extent: [u32; 2],
    ) -> (dispatch: Dispatch)
        requires
            self.begun,
        ensures
            binds_in_order(dispatch@, seq![source, rays, depth, normal, material], target),
            dispatch@ == flat_spec(
                Shader::SsrResolve,
                self.resolve_bindings(source, rays, depth, normal, material, environment, target),
                None,
                extent,
            ),
    {
        let mut bindings: Vec<Binding> = Vec::new();
        bindings.push(Binding::Sampled { view: source, sampler: self.linear_clamp });
        bindings.push(Binding::Sampled { view: rays, sampler: self.nearest_clamp });
        bindings.push(Binding::Sampled { view: depth, sampler: self.nearest_clamp });
        bindings.push(Binding::Sampled { view: normal, sampler: self.nearest_clamp });
        bindings.push(Binding::Sampled { view: material, sampler: self.nearest_clamp });
        bindings.push(Binding::Stored(target));
        bindings.push(Binding::Texture(environment));
        bindings.push(Binding::EnvironmentSampler);
        bindings.push(Binding::Uniforms);
        assert(bindings@ =~= self.resolve_bindings(
            source,
            rays,
            depth,
            normal,
            material,
            environment,
            target,
        ));
        flat(Shader::SsrResolve, bindings, None, extent)
    }
}

/// The screen-space half of subsurface scattering: two blurs and a composite.
#[derive(Debug)]
pub struct SubsurfacePass {
    /// Every fetch is at an exact texel: the kernel does its own weighting, and a
    /// blended tap would cross the silhouettes the depth term exists to reject.
    pub nearest_clamp: SamplerState,
    /// Whether a frame has begun, so that there is a kernel to push.
    pub begun: bool,
}

impl SubsurfacePass {
    pub open spec fn wf(&self) -> bool {
        self.nearest_clamp == nearest_of_one_level()
    }

    pub fn new() -> (pass: Self)
        ensures
            pass.wf(),
            !pass.begun,
    {
        SubsurfacePass { nearest_clamp: nearest(Some(0)), begun: false }
    }

    /// Begin a frame: both axes blur with the kernel it resolves, whatever the
    /// schedule puts between them.
    pub fn begin_frame(&mut self)
        ensures
            final(self).begun,
            final(self).nearest_clamp == old(self).nearest_clamp,
    {
        self.begun = true;
    }

    pub open spec fn axis(vertical: bool) -> Push {
        if vertical {
            Push::Axis { x: 0, y: 1 }
        } else {
            Push::Axis { x: 1, y: 0 }
        }
    }

    /// The axis a blur walks, the one thing the two dispatches differ in.
    pub fn push_for(&self, vertical: bool) -> (push: Push)
        requires
            self.begun,
        ensures
            push == Self::axis(vertical),
    {
        if vertical {
            Push::Axis { x: 0, y: 1 }
        } else {
            Push::Axis { x: 1, y: 0 }
        }
    }

    pub open spec fn bindings(&self, first: ViewRef, second: ViewRef, target: ViewRef) -> Seq<
        Binding,
    > {
        seq![
            Binding::Sampled { view: first, sampler: self.nearest_clamp },
            Binding::Sampled { view: second, sampler: self.nearest_clamp },
            Binding::Stored(target),
        ]
    }

    /// One axis of the diffusion.
    pub fn record_blur(
        &self,
        source: ViewRef,
        depth: ViewRef,
        target: ViewRef,
        vertical: bool,
        extent: [u32; 2],
    ) -> (dispatch: Dispatch)
        requires
            self.begun,
        ensures
            binds_in_order(dispatch@, seq![source, depth], target),
            dispatch@ == flat_spec(
                Shader::SssBlur,
                self.bindings(source, depth, target),
                Some(Self::axis(vertical)),
                extent,
            ),
    {
        let bindings = two_sampled(source, depth, self.nearest_clamp, target);
        assert(bindings@ =~= self.bindings(source, depth, target));
        let push = self.push_for(vertical);
        flat(Shader::SssBlur, bindings, Some(push), extent)
    }

    /// Add what was diffused back to the frame.
    pub fn record_composite(
        &self,
        source: ViewRef,
        diffused: ViewRef,
        target: ViewRef,
        extent: [u32; 2],
    ) -> (dispatch: Dispatch)
        ensures
            binds_in_order(dispatch@, seq![source, diffused], target),
            dispatch@ == flat_spec(
                Shader::SssComposite,
                self.bindings(source, diffused, target),
                None,
                extent,
            ),
    {
        let bindings = two_sampled(source, diffused, self.nearest_clamp, target);
        assert(bindings@ =~= self.bindings(source, diffused, target));
        flat(Shader::SssComposite, bindings, None, extent)
    }
}

fn two_sampled(first: ViewRef, second: ViewRef, sampler: SamplerState, target: ViewRef) -> (bindings:
    Vec<Binding>)
    ensures
        bindings@ == seq![
            Binding::Sampled { view: first, sampler },
            Binding::Sampled { view: second, sampler },
            Binding::Stored(target),
        ],
{
    let mut bindings: Vec<Binding> = Vec::new();
    bindings.push(Binding::Sampled { view: first, sampler });
    bindings.push(Binding::Sampled { view: second, sampler });
    bindings.push(Binding::Stored(target));
    bindings
}

/// The composite of the blended surfaces.
#[derive(Debug)]
pub struct OitPass {
    /// It reads all three inputs at its own pixel, so there is nothing to filter.
    pub nearest_clamp: SamplerState,
}

impl OitPass {
    pub open spec fn wf(&self) -> bool {
        self.nearest_clamp == nearest_of_one_level()
    }

    pub fn new() -> (pass: Self)
        ensures
            pass.wf(),
    {
        OitPass { nearest_clamp: nearest(Some(0)) }
    }

    pub open spec fn bindings(
        &self,
        scene: ViewRef,
        accum: ViewRef,
        reveal: ViewRef,
        target: ViewRef,
    ) -> Seq<Binding> {
        seq![
            Binding::Sampled { view: scene, sampler: self.nearest_clamp },
            Binding::Sampled { view: accum, sampler: self.nearest_clamp },
            Binding::Sampled { view: reveal, sampler: self.nearest_clamp },
            Binding::Stored(target),
        ]
    }

    /// Put what the accumulation gathered over the lit frame.
    pub fn record_composite(
        &self,
        scene: ViewRef,
        accum: ViewRef,
        reveal: ViewRef,
        target: ViewRef,
        extent: [u32; 2],
    ) -> (dispatch: Dispatch)
        ensures
            binds_in_order(dispatch@, seq![scene, accum, reveal], target),
            dispatch@ == flat_spec(
                Shader::OitComposite,
                self.bindings(scene, accum, reveal, target),
                None,
                extent,
            ),
    {
        let mut bindings: Vec<Binding> = Vec::new();
        bindings.push(Binding::Sampled { view: scene, sampler: self.nearest_clamp });
        bindings.push(Binding::Sampled { view: accum, sampler: self.nearest_clamp });
        bindings.push(Binding::Sampled { view: reveal, sampler: self.nearest_clamp });
        bindings.push(Binding::Stored(target));
        assert(bindings@ =~= self.bindings(scene, accum, reveal, target));
        flat(Shader::OitComposite, bindings, None, extent)
    }
}

/// The pyramid behind refractive surfaces, and their composite.
#[derive(Debug)]
pub struct RefractionPass {
    /// For the frame itself: a blended fetch at a texel's centre is that texel.
    pub linear_clamp: SamplerState,
    /// For the pyramid of it: roughness picks a fractional level, and a step
    /// between blurs would read as a ring.
    pub linear_mip: SamplerState,
    /// For the composite, which reads both inputs at its own pixel.
    pub nearest_clamp: SamplerState,
}

impl RefractionPass {
    pub open spec fn wf(&self) -> bool {
        &&& self.linear_clamp == linear_of_one_level()
        &&& self.linear_mip == linear_of_any_level()
        &&& self.nearest_clamp == nearest_of_one_level()
    }

    pub fn new() -> (pass: Self)
        ensures
            pass.wf(),
    {
        RefractionPass {
            linear_clamp: linear(false, Some(1)),
            linear_mip: linear(true, None),
            nearest_clamp: nearest(Some(0)),
        }
    }

    /// Reduce the lit frame into the pyramid a refractive surface samples its
    /// background out of, over the extent of its first level.
    pub fn record_pyramid(&self, source: ViewRef, mips: &[ViewRef], extent: [u32; 2]) -> (dispatch:
        Dispatch)
        requires
            1 <= mips@.len() <= i32::MAX,
        ensures
            dispatch@ == pyramid_spec(
                Shader::ColorPyramid,
                source,
                self.linear_clamp,
                mips@,
                SCENE_LEVELS,
                extent,
            ),
    {
        pyramid(Shader::ColorPyramid, source, self.linear_clamp, mips, SCENE_LEVELS, extent)
    }

    /// The views of the frame behind the glass, in the set past the ones shared
    /// with the forward pass: the pyramid for rough surfaces, and the frame itself
    /// for smooth ones.
    pub fn scene_set(&self, blur: ViewRef, sharp: ViewRef) -> (bindings: Vec<Binding>)
        ensures
            bindings@ == seq![
                Binding::Sampled { view: blur, sampler: self.linear_mip },
                Binding::Sampled { view: sharp, sampler: self.linear_clamp },
            ],
    {
        let mut bindings: Vec<Binding> = Vec::new();
        bindings.push(Binding::Sampled { view: blur, sampler: self.linear_mip });
        bindings.push(Binding::Sampled { view: sharp, sampler: self.linear_clamp });
        bindings
    }

    pub open spec fn bindings(&self, scene: ViewRef, accum: ViewRef, target: ViewRef) -> Seq<
        Binding,
    > {
        seq![
            Binding::Sampled { view: scene, sampler: self.nearest_clamp },
            Binding::Sampled { view: accum, sampler: self.nearest_clamp },
            Binding::Stored(target),
        ]
    }

    /// Put what the draw pass gathered over the lit frame.
    pub fn record_composite(
        &self,
        scene: ViewRef,
        accum: ViewRef,
        target: ViewRef,
        extent: [u32; 2],
    ) -> (dispatch: Dispatch)
        ensures
            binds_in_order(dispatch@, seq![scene, accum], target),
            dispatch@ == flat_spec(
                Shader::RefractionComposite,
                self.bindings(scene, accum, target),
                None,
                extent,
            ),
    {
        let bindings = two_sampled(scene, accum, self.nearest_clamp, target);
        assert(bindings@ =~= self.bindings(scene, accum, target));
        flat(Shader::RefractionComposite, bindings, None, extent)
    }
}

/// Motion blur: the longest vector of every tile, of every tile's neighbours, and
/// the gather along it.
#[derive(Debug)]
pub struct MotionBlurPass {
    /// A velocity interpolated across a silhouette describes a surface that is not
    /// there, and a maximum blended with its neighbour is no longer one.
    pub nearest_clamp: SamplerState,
}

impl MotionBlurPass {
    pub open spec fn wf(&self) -> bool {
        self.nearest_clamp == nearest_of_one_level()
    }

    pub fn new() -> (pass: Self)
        ensures
            pass.wf(),
    {
        MotionBlurPass { nearest_clamp: nearest(Some(0)) }
    }

    pub open spec fn tile_bindings(&self, velocity: ViewRef, depth: ViewRef, target: ViewRef) -> Seq<
        Binding,
    > {
        seq![
            Binding::Sampled { view: velocity, sampler: self.nearest_clamp },
            Binding::Sampled { view: depth, sampler: self.nearest_clamp },
            Binding::Stored(target),
            Binding::Uniforms,
        ]
    }

    pub fn record_tile_max(
        &self,
        velocity: ViewRef,
        depth: ViewRef,
        target: ViewRef,
        extent: [u32; 2],
    ) -> (dispatch: Dispatch)
        ensures
            binds_in_order(dispatch@, seq![velocity, depth], target),
            dispatch@ == flat_spec(
                Shader::MotionBlurTileMax,
                self.tile_bindings(velocity, depth, target),
                None,
                extent,
            ),
    {
        let mut bindings = two_sampled(velocity, depth, self.nearest_clamp, target);
        bindings.push(Binding::Uniforms);
        assert(bindings@ =~= self.tile_bindings(velocity, depth, target));
        flat(Shader::MotionBlurTileMax, bindings, None, extent)
    }

    pub open spec fn neighbour_bindings(&self, tiles: ViewRef, target: ViewRef) -> Seq<Binding> {
        seq![
            Binding::Sampled { view: tiles, sampler: self.nearest_clamp },
            Binding::Stored(target),
        ]
    }

    pub fn record_neighbour_max(&self, tiles: ViewRef, target: ViewRef, extent: [u32; 2]) -> (dispatch:
        Dispatch)
        ensures
            binds_in_order(dispatch@, seq![tiles], target),
            dispatch@ == flat_spec(
                Shader::MotionBlurNeighbourMax,
                self.neighbour_bindings(tiles, target),
                None,
                extent,
            ),
    {
        let mut bindings: Vec<Binding> = Vec::new();
        bindings.push(Binding::Sampled { view: tiles, sampler: self.nearest_clamp });
        bindings.push(Binding::Stored(target));
        assert(bindings@ =~= self.neighbour_bindings(tiles, target));
        flat(Shader::MotionBlurNeighbourMax, bindings, None, extent)
    }

    pub open spec fn gather_bindings(
        &self,
        color: ViewRef,
        velocity: ViewRef,
        depth: ViewRef,
        neighbour: ViewRef,
        target: ViewRef,
    ) -> Seq<Binding> {
        seq![
            Binding::Sampled { view: color, sampler: self.nearest_clamp },
            Binding::Sampled { view: velocity, sampler: self.nearest_clamp },
            Binding::Sampled { view: depth, sampler: self.nearest_clamp },
            Binding::Sampled { view: neighbour, sampler: self.nearest_clamp },
            Binding::Stored(target),
            Binding::Uniforms,
        ]
    }

    pub fn record_gather(
        &self,
        color: ViewRef,
        velocity: ViewRef,
        depth: ViewRef,
        neighbour: ViewRef,
        target: ViewRef,
        extent: [u32; 2],
    ) -> (dispatch: Dispatch)
        ensures
            binds_in_order(dispatch@, seq![color, velocity, depth, neighbour], target),
            dispatch@ == flat_spec(
                Shader::MotionBlurGather,
                self.gather_bindings(color, velocity, depth, neighbour, target),
                None,
                extent,
            ),
    {
        let mut bindings: Vec<Binding> = Vec::new();
        bindings.push(Binding::Sampled { view: color, sampler: self.nearest_clamp });
        bindings.push(Binding::Sampled { view: velocity, sampler: self.nearest_clamp });
        bindings.push(Binding::Sampled { view: depth, sampler: self.nearest_clamp });
        bindings.push(Binding::Sampled { view: neighbour, sampler: self.nearest_clamp });
        bindings.push(Binding::Stored(target));
        bindings.push(Binding::Uniforms);
        assert(bindings@ =~= self.gather_bindings(color, velocity, depth, neighbour, target));
        flat(Shader::MotionBlurGather, bindings, None, extent)
    }
}

/// The passes of one renderer.
#[derive(Debug)]
pub struct Passes {
    pub ssr: SsrPass,
    pub subsurface: SubsurfacePass,
    pub oit: OitPass,
    pub refraction: RefractionPass,
    pub motion_blur: MotionBlurPass,
}

/// The images a dispatch reads, and how many: what its slot names.
pub open spec fn reads(body: PassBody) -> Option<nat> {
    match body {
        PassBody::SsrHiz | PassBody::SsrSource | PassBody::RefractionScene => Some(1),
        PassBody::MotionBlurNeighbourMax => Some(1),
        PassBody::SubsurfaceBlurHorizontal | PassBody::SubsurfaceBlurVertical => Some(2),
        PassBody::SubsurfaceComposite | PassBody::RefractionComposite => Some(2),
        PassBody::MotionBlurTileMax => Some(2),
        PassBody::OitComposite => Some(3),
        PassBody::MotionBlurGather => Some(4),
        PassBody::SsrTrace => Some(5),
        PassBody::SsrResolve => Some(6),
        _ => None,
    }
}

/// Whether a dispatch fills a pyramid, level by level.
pub open spec fn fills_pyramid(body: PassBody) -> bool {
    body is SsrHiz || body is SsrSource || body is RefractionScene
}

impl Passes {
    pub open spec fn wf(&self) -> bool {
        &&& self.ssr.wf()
        &&& self.subsurface.wf()
        &&& self.oit.wf()
        &&& self.refraction.wf()
        &&& self.motion_blur.wf()
    }

    /// A frame has begun for what this pass resolves as it does: the reflections'
    /// uniforms, or the diffusion's kernel.
    pub open spec fn begun(&self, body: PassBody) -> bool {
        &&& (body is SsrTrace || body is SsrResolve) ==> self.ssr.begun
        &&& (body is SubsurfaceBlurHorizontal || body is SubsurfaceBlurVertical)
            ==> self.subsurface.begun
    }

    /// The slot names as many images as the pass binds.
    pub open spec fn fits(body: PassBody, inputs: Seq<ViewRef>, outputs: Seq<ViewRef>) -> bool {
        reads(body) is Some ==> {
            &&& inputs.len() == reads(body)->0
            &&& if fills_pyramid(body) {
                1 <= outputs.len() <= i32::MAX
            } else {
                outputs.len() == 1
            }
        }
    }

    /// What a slot dispatches, from the images it names: over the frame for the
    /// depth pyramid, and over the target for everything else.
    pub open spec fn dispatch_of(
        &self,
        body: PassBody,
        i: Seq<ViewRef>,
        o: Seq<ViewRef>,
        frame: [u32; 2],
        target: [u32; 2],
    ) -> Option<DispatchView> {
        match body {
            PassBody::SsrHiz => Some(
                pyramid_spec(
                    Shader::HizBuild,
                    i[0],
                    self.ssr.nearest_clamp,
                    o,
                    HIZ_LEVELS,
                    frame,
                ),
            ),
            PassBody::SsrSource => Some(
                pyramid_spec(
                    Shader::ColorPyramid,
                    i[0],
                    self.ssr.linear_clamp,
                    o,
                    SOURCE_LEVELS,
                    target,
                ),
            ),
            PassBody::SsrTrace => Some(
                flat_spec(
                    Shader::SsrTrace,
                    self.ssr.trace_bindings(i[0], i[1], i[2], i[3], i[4], o[0]),
                    None,
                    target,
                ),
            ),
            PassBody::SsrResolve => Some(
                flat_spec(
                    Shader::SsrResolve,
                    self.ssr.resolve_bindings(i[0], i[1], i[2], i[3], i[4], i[5], o[0]),
                    None,
                    target,
                ),
            ),
            PassBody::SubsurfaceBlurHorizontal => Some(
                flat_spec(
                    Shader::SssBlur,
                    self.subsurface.bindings(i[0], i[1], o[0]),
                    Some(SubsurfacePass::axis(false)),
                    target,
                ),
            ),
            PassBody::SubsurfaceBlurVertical => Some(
                flat_spec(
                    Shader::SssBlur,
                    self.subsurface.bindings(i[0], i[1], o[0]),
                    Some(SubsurfacePass::axis(true)),
                    target,
                ),
            ),
            PassBody::SubsurfaceComposite => Some(
                flat_spec(
                    Shader::SssComposite,
                    self.subsurface.bindings(i[0], i[1], o[0]),
                    None,
                    target,
                ),
            ),
            PassBody::OitComposite => Some(
                flat_spec(
                    Shader::OitComposite,
                    self.oit.bindings(i[0], i[1], i[2], o[0]),
                    None,
                    target,
                ),
            ),
            PassBody::RefractionScene => Some(
                pyramid_spec(
                    Shader::ColorPyramid,
                    i[0],
                    self.refraction.linear_clamp,
                    o,
                    SCENE_LEVELS,
                    target,
                ),
            ),
            PassBody::RefractionComposite => Some(
                flat_spec(
                    Shader::RefractionComposite,
                    self.refraction.bindings(i[0], i[1], o[0]),
                    None,
                    target,
                ),
            ),
            PassBody::MotionBlurTileMax => Some(
                flat_spec(
                    Shader::MotionBlurTileMax,
                    self.motion_blur.tile_bindings(i[0], i[1], o[0]),
                    None,
                    target,
                ),
            ),
            PassBody::MotionBlurNeighbourMax => Some(
                flat_spec(
                    Shader::MotionBlurNeighbourMax,
                    self.motion_blur.neighbour_bindings(i[0], o[0]),
                    None,
                    target,
                ),
            ),
            PassBody::MotionBlurGather => Some(
                flat_spec(
                    Shader::MotionBlurGather,
                    self.motion_blur.gather_bindings(i[0], i[1], i[2], i[3], o[0]),
                    None,
                    target,
                ),
            ),
            _ => None,
        }
    }

    pub fn new() -> (passes: Self)
        ensures
            passes.wf(),
            passes.ssr.frame == 0,
            !passes.ssr.begun,
            !passes.subsurface.begun,
    {
        Passes {
            ssr: SsrPass::new(),
            subsurface: SubsurfacePass::new(),
            oit: OitPass::new(),
            refraction: RefractionPass::new(),
            motion_blur: MotionBlurPass::new(),
        }
    }

    /// What a slot dispatches, from the images that
    /// [`record_slot`](crate::recording::FrameRecord::record_slot) names for it;
    /// `None` for a pass that is not one of these.
    pub fn record(
        &self,
        body: PassBody,
        inputs: &[ViewRef],
        outputs: &[ViewRef],
        frame: [u32; 2],
        target: [u32; 2],
    ) -> (dispatch: Option<Dispatch>)
        requires
            self.begun(body),
            Self::fits(body, inputs@, outputs@),
        ensures
            dispatch is Some <==> self.dispatch_of(body, inputs@, outputs@, frame, target) is Some,
            dispatch matches Some(it) ==> it@ == self.dispatch_of(
                body,
                inputs@,
                outputs@,
                frame,
                target,
            )->0,
    {
        match body {
            PassBody::SsrHiz => Some(self.ssr.record_hiz(inputs[0], outputs, frame)),
            PassBody::SsrSource => Some(self.ssr.record_source(inputs[0], outputs, target)),
            PassBody::SsrTrace => Some(
                self.ssr.record_trace(
                    inputs[0],
                    inputs[1],
                    inputs[2],
                    inputs[3],
                    inputs[4],
                    outputs[0],
                    target,
                ),
            ),
            PassBody::SsrResolve => Some(
                self.ssr.record_resolve(
                    inputs[0],
                    inputs[1],
                    inputs[2],
                    inputs[3],
                    inputs[4],
                    inputs[5],
                    outputs[0],
                    target,
                ),
            ),
            PassBody::SubsurfaceBlurHorizontal => Some(
                self.subsurface.record_blur(inputs[0], inputs[1], outputs[0], false, target),
            ),
            PassBody::SubsurfaceBlurVertical => Some(
                self.subsurface.record_blur(inputs[0], inputs[1], outputs[0], true, target),
            ),
            PassBody::SubsurfaceComposite => Some(
                self.subsurface.record_composite(inputs[0], inputs[1], outputs[0], target),
            ),
            PassBody::OitComposite => Some(
                self.oit.record_composite(inputs[0], inputs[1], inputs[2], outputs[0], target),
            ),
            PassBody::RefractionScene => Some(
                self.refraction.record_pyramid(inputs[0], outputs, target),
            ),
            PassBody::RefractionComposite => Some(
                self.refraction.record_composite(inputs[0], inputs[1], outputs[0], target),
            ),
            PassBody::MotionBlurTileMax => Some(
                self.motion_blur.record_tile_max(inputs[0], inputs[1], outputs[0], target),
            ),
            PassBody::MotionBlurNeighbourMax => Some(
                self.motion_blur.record_neighbour_max(inputs[0], outputs[0], target),
            ),
            PassBody::MotionBlurGather => Some(
                self.motion_blur.record_gather(
                    inputs[0],
                    inputs[1],
                    inputs[2],
                    inputs[3],
                    outputs[0],
                    target,
                ),
            ),
            _ => None,
        }
    }
}

/// **What a slot names is what its dispatch binds.** A screen-space pass reads
/// each of the images its slot names as read, and no other; and it stores to each
/// of those named as written, and no other. A pyramid has to fit the array that
/// its shader stores through.
pub proof fn dispatches_bind_what_slots_name(
    passes: Passes,
    ids: FrameIds,
    mip_levels: Seq<u32>,
    body: PassBody,
    frame: [u32; 2],
    target: [u32; 2],
)
    requires
        reads(body) is Some,
        fills_pyramid(body) ==> 1 <= mip_levels[pyramid_of(&ids, body)->0.index as int]
            <= HIZ_LEVELS,
    ensures
        Passes::fits(body, inputs_of(&ids, body), outputs_of(&ids, mip_levels, body)),
        ({
            let inputs = inputs_of(&ids, body);
            let outputs = outputs_of(&ids, mip_levels, body);
            let it = passes.dispatch_of(body, inputs, outputs, frame, target)->0;
            &&& forall|i: int|
                0 <= i < inputs.len() ==> exists|b: int|
                    0 <= b < it.bindings.len() && is_read(
                        #[trigger] it.bindings[b],
                        #[trigger] inputs[i],
                    )
            &&& forall|b: int, image: ViewRef|
                0 <= b < it.bindings.len() && #[trigger] is_read(it.bindings[b], image)
                    ==> inputs.contains(image)
            &&& if fills_pyramid(body) {
                &&& it.bindings.last() == Binding::StoredLevels
                &&& forall|level: int|
                    0 <= level < outputs.len() ==> #[trigger] it.levels[level] == outputs[level]
                &&& forall|slot: int|
                    0 <= slot < it.levels.len() ==> outputs.contains(#[trigger] it.levels[slot])
            } else {
                &&& it.bindings.contains(Binding::Stored(outputs[0]))
                &&& forall|b: int|
                    0 <= b < it.bindings.len() ==> (#[trigger] it.bindings[b] matches Binding::Stored(
                        image,
                    ) ==> image == outputs[0])
            }
        }),
{
}

/// Whether a binding blends what it reads.
pub open spec fn blends(binding: Binding) -> bool {
    binding matches Binding::Sampled { sampler, .. } && (sampler.linear || sampler.linear_levels)
}

/// **Only the lit frame is blended.** Depth, normals, materials, velocities and
/// rays are read at exact texels by every pass: a value between two surfaces
/// belongs to neither of them. What is blended is the lit frame, or the pyramid of
/// it.
pub proof fn only_the_lit_frame_is_blended(
    passes: Passes,
    body: PassBody,
    inputs: Seq<ViewRef>,
    outputs: Seq<ViewRef>,
    frame: [u32; 2],
    target: [u32; 2],
    b: int,
)
    requires
        passes.wf(),
        passes.dispatch_of(body, inputs, outputs, frame, target) matches Some(it) && 0 <= b
            < it.bindings.len() && blends(it.bindings[b]),
    ensures
        body is SsrSource || body is SsrTrace || body is SsrResolve || body is RefractionScene,
        is_read(
            passes.dispatch_of(body, inputs, outputs, frame, target)->0.bindings[b],
            inputs[if body is SsrTrace {
                4
            } else {
                0
            }],
        ),
{
}

/// **The trace reaches every level.** Both of the pyramids that a ray marches
/// through are sampled at any depth.
pub proof fn the_trace_reaches_every_level(
    pass: SsrPass,
    hiz: ViewRef,
    depth: ViewRef,
    normal: ViewRef,
    material: ViewRef,
    source: ViewRef,
    target: ViewRef,
)
    requires
        pass.wf(),
    ensures
        ({
            let bindings = pass.trace_bindings(hiz, depth, normal, material, source, target);
            &&& bindings[0] matches Binding::Sampled { view, sampler } && view == hiz
                && sampler.deepest is None
            &&& bindings[4] matches Binding::Sampled { view, sampler } && view == source
                && sampler.deepest is None
        }),
{
}

/// **Rays do not repeat.** The frames that the sequence lasts for all take
/// different rays, also where the frame counter wraps.
pub proof fn rays_do_not_repeat(first: SsrPass, later: SsrPass, apart: int)
    requires
        0 < apart < SAMPLE_FRAMES,
        later.frame == (first.frame + apart) % 0x1_0000_0000_0000_0000,
    ensures
        later.sample() != first.sample(),
{
}

/// **The blur's axes cross.** The two dispatches of the diffusion walk at right
/// angles, a texel at a time.
pub proof fn blur_axes_cross()
    ensures
        SubsurfacePass::axis(false) matches Push::Axis { x: ax, y: ay }
            && SubsurfacePass::axis(true) matches Push::Axis { x: bx, y: by } && {
            &&& ax * bx + ay * by == 0
            &&& ax * ax + ay * ay == 1
            &&& bx * bx + by * by == 1
        },
{
}

/// **Every image is bound at its number.** A screen-space pass reads the images that
/// its slot names at the bindings of the same numbers, and stores at the next one;
/// only the environment, which the composite of reflections reads too, comes behind
/// the store, with the sampler of its own. The uniforms come last.
pub proof fn bindings_have_their_numbers(
    passes: Passes,
    body: PassBody,
    inputs: Seq<ViewRef>,
    outputs: Seq<ViewRef>,
    frame: [u32; 2],
    target: [u32; 2],
)
    requires
        reads(body) is Some,
        Passes::fits(body, inputs, outputs),
    ensures
        passes.dispatch_of(body, inputs, outputs, frame, target) matches Some(it) && {
            let uniforms = body is SsrTrace || body is SsrResolve || body is MotionBlurTileMax
                || body is MotionBlurGather;
            &&& if fills_pyramid(body) {
                &&& it.bindings.len() == 2
                &&& is_read(it.bindings[0], inputs[0])
                &&& it.bindings[1] == Binding::StoredLevels
            } else if body is SsrResolve {
                &&& it.bindings.len() == 9
                &&& binds_in_order(it, inputs.drop_last(), outputs[0])
                &&& it.bindings[6] == Binding::Texture(inputs[5])
                &&& it.bindings[7] == Binding::EnvironmentSampler
            } else {
                &&& it.bindings.len() == inputs.len() + 1 + (if uniforms {
                    1int
                } else {
                    0
                })
                &&& binds_in_order(it, inputs, outputs[0])
            }
            &&& forall|k: int|
                0 <= k < it.bindings.len() ==> (#[trigger] it.bindings[k] == Binding::Uniforms
                    <==> uniforms && k == it.bindings.len() - 1)
        },
{
}

/// **Every pass runs its own program**, but for the two pyramids of lit frames and
/// the two axes of a blur, which share one each.
pub proof fn passes_run_their_programs(
    passes: Passes,
    body: PassBody,
    inputs: Seq<ViewRef>,
    outputs: Seq<ViewRef>,
    frame: [u32; 2],
    target: [u32; 2],
)
    ensures
        passes.dispatch_of(body, inputs, outputs, frame, target) is Some <==> reads(body) is Some,
        passes.dispatch_of(body, inputs, outputs, frame, target) matches Some(it) ==> {
            &&& body is SsrHiz <==> it.shader is HizBuild
            &&& body is SsrSource || body is RefractionScene <==> it.shader is ColorPyramid
            &&& body is SsrTrace <==> it.shader is SsrTrace
            &&& body is SsrResolve <==> it.shader is SsrResolve
            &&& body is SubsurfaceBlurHorizontal || body is SubsurfaceBlurVertical
                <==> it.shader is SssBlur
            &&& body is SubsurfaceComposite <==> it.shader is SssComposite
            &&& body is OitComposite <==> it.shader is OitComposite
            &&& body is RefractionComposite <==> it.shader is RefractionComposite
            &&& body is MotionBlurTileMax <==> it.shader is MotionBlurTileMax
            &&& body is MotionBlurNeighbourMax <==> it.shader is MotionBlurNeighbourMax
            &&& body is MotionBlurGather <==> it.shader is MotionBlurGather
        },
{
}

/// **Every texel has its invocation, and no workgroup is idle.** The groups of a
/// dispatch, a tile each, reach to the edge of what it covers and not a tile further:
/// the frame for the depth pyramid, and the target for everything else.
pub proof fn dispatches_cover_what_they_write(
    passes: Passes,
    body: PassBody,
    inputs: Seq<ViewRef>,
    outputs: Seq<ViewRef>,
    frame: [u32; 2],
    target: [u32; 2],
    axis: int,
)
    requires
        0 <= axis < 2,
        passes.dispatch_of(body, inputs, outputs, frame, target) is Some,
    ensures
        ({
            let it = passes.dispatch_of(body, inputs, outputs, frame, target)->0;
            let covered = if body is SsrHiz {
                frame[axis]
            } else {
                target[axis]
            };
            let tile: int = if fills_pyramid(body) {
                64
            } else {
                8
            };
            &&& it.groups.len() == 3
            &&& it.groups[axis] * tile >= covered
            &&& (it.groups[axis] - 1) * tile < covered
            &&& it.groups[2] == 1
        }),
{
}

/// **A pyramid's shader is told its size.** It gets the extent it covers and the
/// levels there are, and an array with every level in its slot; what is left of the
/// array repeats the last level. Nothing but a pyramid and a blur is pushed anything.
pub proof fn pyramids_know_their_size(
    passes: Passes,
    body: PassBody,
    inputs: Seq<ViewRef>,
    outputs: Seq<ViewRef>,
    frame: [u32; 2],
    target: [u32; 2],
)
    requires
        reads(body) is Some,
        Passes::fits(body, inputs, outputs),
    ensures
        passes.dispatch_of(body, inputs, outputs, frame, target) matches Some(it) && match it.push {
            Some(Push::Pyramid { width, height, levels }) => {
                let covered = if body is SsrHiz {
                    frame
                } else {
                    target
                };
                &&& fills_pyramid(body)
                &&& covered[0] <= i32::MAX ==> width == covered[0]
                &&& covered[1] <= i32::MAX ==> height == covered[1]
                &&& levels == outputs.len()
                &&& it.levels.len() == 7
                &&& forall|i: int|
                    0 <= i < it.levels.len() ==> #[trigger] it.levels[i] == (if i
                        < outputs.len() {
                        outputs[i]
                    } else {
                        outputs.last()
                    })
            },
            Some(Push::Axis { x, y }) => {
                &&& body is SubsurfaceBlurHorizontal ==> x == 1 && y == 0
                &&& body is SubsurfaceBlurVertical ==> x == 0 && y == 1
                &&& body is SubsurfaceBlurHorizontal || body is SubsurfaceBlurVertical
                &&& it.levels.len() == 0
            },
            None => {
                &&& !fills_pyramid(body)
                &&& !(body is SubsurfaceBlurHorizontal || body is SubsurfaceBlurVertical)
                &&& it.levels.len() == 0
            },
        },
{
}

/// **Every image is sampled the way it is read.** What is blended is the lit frame,
/// and the pyramid of it between its levels too; everything else is read at exact
/// texels. Reflections reach every level of what they read, and the passes over one
/// level no further than it. Nothing is compared, and nothing wraps.
pub proof fn images_are_sampled_as_they_are_read(
    passes: Passes,
    body: PassBody,
    inputs: Seq<ViewRef>,
    outputs: Seq<ViewRef>,
    frame: [u32; 2],
    target: [u32; 2],
    k: int,
)
    requires
        passes.wf(),
        reads(body) is Some,
        Passes::fits(body, inputs, outputs),
        0 <= k < passes.dispatch_of(body, inputs, outputs, frame, target)->0.bindings.len(),
    ensures
        passes.dispatch_of(body, inputs, outputs, frame, target)->0.bindings[k]
            matches Binding::Sampled { sampler, .. } ==> {
            let lit = k == 0 && (body is SsrSource || body is SsrResolve || body
                is RefractionScene);
            let cone = k == 4 && body is SsrTrace;
            let marched = body is SsrHiz || body is SsrTrace || body is SsrResolve;
            &&& sampler.linear <==> lit || cone
            &&& sampler.linear_levels <==> cone
            &&& sampler.deepest == (if lit {
                Some(1u32)
            } else if marched {
                None
            } else {
                Some(0u32)
            })
            &&& sampler.edge is Clamp
            &&& !sampler.compares
        },
{
}

/// **A frame of no size divides by nothing.** What a coordinate is divided by, and
/// the steps of a march, are what was asked for wherever that is anything at all.
pub proof fn bounds_keep_what_is_there(value: u32)
    ensures
        at_least_one(value) >= 1,
        value >= 1 ==> at_least_one(value) == value,
        value == 0 ==> at_least_one(value) == 1,
{
}

} // verus!
