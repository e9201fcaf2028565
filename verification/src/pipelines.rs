//! How the geometry pipelines are set up: which faces they keep, whether they
//! write depth, and how their fragments blend.
//!
//! The transparency accumulation writes two targets whose blend equations commute,
//! so no sort exists to get wrong and nothing pops when two surfaces cross.

use vstd::arithmetic::power::pow;
use vstd::prelude::*;
use vstd::seq_lib::{commutative_foldl, lemma_fold_left_permutation};

verus! {

/// A pipeline that draws geometry.
#[derive(Clone, Copy, Debug, PartialEq, Eq, Structural)]
pub enum Pipeline {
    /// Depth and surface attributes, with an alpha test where it is masked.
    Prepass { masked: bool },
    /// Depth alone, into a cascade or a tile of the atlas.
    Caster { masked: bool },
    /// The accumulation of blended surfaces.
    Transparency,
    /// Refractive surfaces, back to front.
    Refraction,
}

#[derive(Clone, Copy, Debug, PartialEq, Eq, Structural)]
pub enum CullMode {
    Neither,
    Back,
}

/// What a source or a target is multiplied by before the two are added.
#[derive(Clone, Copy, Debug, PartialEq, Eq, Structural)]
pub enum BlendFactor {
    Zero,
    One,
    OneMinusSrcColor,
    OneMinusSrcAlpha,
}

/// How a fragment meets what a target holds: both multiplied, and added.
#[derive(Clone, Copy, Debug, PartialEq, Eq, Structural)]
pub struct Blend {
    pub src_color: BlendFactor,
    pub dst_color: BlendFactor,
    pub src_alpha: BlendFactor,
    pub dst_alpha: BlendFactor,
}

#[derive(Clone, Copy, Debug, PartialEq, Eq, Structural)]
pub enum TargetFormat {
    /// Eight bits a channel, four channels.
    Rgba8,
    /// Signed, for motion: a vector is negative half the time.
    Rg16Float,
    /// Wide colour with an alpha channel, for sums without a bound.
    HdrWide,
    /// One fraction, in eight bits.
    R8,
}

/// One colour target of a pipeline; what is not blended is overwritten.
#[derive(Clone, Copy, Debug, PartialEq, Eq, Structural)]
pub struct ColorTarget {
    pub format: TargetFormat,
    pub blend: Option<Blend>,
}

/// The fixed part of a pipeline. Every one of them tests depth and keeps what is
/// nearer.
#[derive(Debug)]
pub struct PipelineState {
    pub cull: CullMode,
    pub depth_write: bool,
    /// Whether a bias on depth is set as it draws.
    pub depth_bias: bool,
    /// Whether a scissor is: the viewport alone does not promise that a fragment
    /// stays inside its tile.
    pub scissor: bool,
    pub targets: Vec<ColorTarget>,
}

/// The fixed part of a pipeline, as values.
#[verifier::ext_equal]
pub struct PipelineView {
    pub cull: CullMode,
    pub depth_write: bool,
    pub depth_bias: bool,
    pub scissor: bool,
    pub targets: Seq<ColorTarget>,
}

impl PipelineState {
    pub open spec fn view(&self) -> PipelineView {
        PipelineView {
            cull: self.cull,
            depth_write: self.depth_write,
            depth_bias: self.depth_bias,
            scissor: self.scissor,
            targets: self.targets@,
        }
    }
}

/// Plain addition.
pub open spec fn additive() -> Blend {
    Blend {
        src_color: BlendFactor::One,
        dst_color: BlendFactor::One,
        src_alpha: BlendFactor::One,
        dst_alpha: BlendFactor::One,
    }
}

/// What is behind, times what the fragment lets through. The reason its target is
/// cleared to one.
pub open spec fn revealing() -> Blend {
    Blend {
        src_color: BlendFactor::Zero,
        dst_color: BlendFactor::OneMinusSrcColor,
        src_alpha: BlendFactor::Zero,
        dst_alpha: BlendFactor::OneMinusSrcAlpha,
    }
}

/// A premultiplied fragment over what is behind it.
pub open spec fn over() -> Blend {
    Blend {
        src_color: BlendFactor::One,
        dst_color: BlendFactor::OneMinusSrcAlpha,
        src_alpha: BlendFactor::One,
        dst_alpha: BlendFactor::OneMinusSrcAlpha,
    }
}

pub open spec fn opaque(format: TargetFormat) -> ColorTarget {
    ColorTarget { format, blend: None }
}

/// How each pipeline is set up.
pub open spec fn state_of(pipeline: Pipeline) -> PipelineView {
    match pipeline {
        Pipeline::Prepass { masked } => PipelineView {
            cull: if masked {
                CullMode::Neither
            } else {
                CullMode::Back
            },
            depth_write: true,
            depth_bias: false,
            scissor: false,
            targets: seq![
                opaque(TargetFormat::Rgba8),
                opaque(TargetFormat::Rg16Float),
                opaque(TargetFormat::Rgba8),
            ],
        },
        Pipeline::Caster { masked } => PipelineView {
            cull: if masked {
                CullMode::Neither
            } else {
                CullMode::Back
            },
            depth_write: true,
            depth_bias: true,
            scissor: true,
            targets: Seq::empty(),
        },
        Pipeline::Transparency => PipelineView {
            cull: CullMode::Neither,
            depth_write: false,
            depth_bias: false,
            scissor: false,
            targets: seq![
                ColorTarget { format: TargetFormat::HdrWide, blend: Some(additive()) },
                ColorTarget { format: TargetFormat::R8, blend: Some(revealing()) },
            ],
        },
        Pipeline::Refraction => PipelineView {
            cull: CullMode::Back,
            depth_write: false,
            depth_bias: false,
            scissor: false,
            targets: seq![ColorTarget { format: TargetFormat::HdrWide, blend: Some(over()) }],
        },
    }
}

/// The fixed part of a pipeline.
///
/// A cut-out is drawn from both sides, in every pass alike: the passes have to
/// rasterise the same triangles, or the depth one leaves is not the depth another
/// shades against. So is a blended surface, whose back faces show; a refractive
/// one is not, because its thickness already stands for its far side. What blends
/// is tested against the opaque scene and never writes depth: two of them must
/// not occlude each other.
pub fn build_pipeline(pipeline: Pipeline) -> (state: PipelineState)
    ensures
        state@ == state_of(pipeline),
{
    let mut targets: Vec<ColorTarget> = Vec::new();
    match pipeline {
        Pipeline::Prepass { masked } => {
            targets.push(ColorTarget { format: TargetFormat::Rgba8, blend: None });
            targets.push(ColorTarget { format: TargetFormat::Rg16Float, blend: None });
            targets.push(ColorTarget { format: TargetFormat::Rgba8, blend: None });
            assert(targets@ =~= state_of(pipeline).targets);
            PipelineState {
                cull: if masked {
                    CullMode::Neither
                } else {
                    CullMode::Back
                },
                depth_write: true,
                depth_bias: false,
                scissor: false,
                targets,
            }
        },
        Pipeline::Caster { masked } => {
            assert(targets@ =~= state_of(pipeline).targets);
            PipelineState {
                cull: if masked {
                    CullMode::Neither
                } else {
                    CullMode::Back
                },
                depth_write: true,
                depth_bias: true,
                scissor: true,
                targets,
            }
        },
        Pipeline::Transparency => {
            let sum = Blend {
                src_color: BlendFactor::One,
                dst_color: BlendFactor::One,
                src_alpha: BlendFactor::One,
                dst_alpha: BlendFactor::One,
            };
            let reveal = Blend {
                src_color: BlendFactor::Zero,
                dst_color: BlendFactor::OneMinusSrcColor,
                src_alpha: BlendFactor::Zero,
                dst_alpha: BlendFactor::OneMinusSrcAlpha,
            };
            targets.push(ColorTarget { format: TargetFormat::HdrWide, blend: Some(sum) });
            targets.push(ColorTarget { format: TargetFormat::R8, blend: Some(reveal) });
            assert(targets@ =~= state_of(pipeline).targets);
            PipelineState {
                cull: CullMode::Neither,
                depth_write: false,
                depth_bias: false,
                scissor: false,
                targets,
            }
        },
        Pipeline::Refraction => {
            let premultiplied = Blend {
                src_color: BlendFactor::One,
                dst_color: BlendFactor::OneMinusSrcAlpha,
                src_alpha: BlendFactor::One,
                dst_alpha: BlendFactor::OneMinusSrcAlpha,
            };
            targets.push(ColorTarget { format: TargetFormat::HdrWide, blend: Some(premultiplied) });
            assert(targets@ =~= state_of(pipeline).targets);
            PipelineState {
                cull: CullMode::Back,
                depth_write: false,
                depth_bias: false,
                scissor: false,
                targets,
            }
        },
    }
}

/// One channel of a fragment, and its alpha, in some fraction of one.
pub struct Fragment {
    pub color: int,
    pub alpha: int,
}

/// One channel of a target, exactly: a numerator, over as many factors of the unit
/// as there were fragments, and one.
pub struct Held {
    pub numerator: int,
    pub fragments: nat,
}

/// What a factor multiplies by, in units.
pub open spec fn factor_of(factor: BlendFactor, unit: int, fragment: Fragment) -> int {
    match factor {
        BlendFactor::Zero => 0,
        BlendFactor::One => unit,
        BlendFactor::OneMinusSrcColor => unit - fragment.color,
        BlendFactor::OneMinusSrcAlpha => unit - fragment.alpha,
    }
}

/// A channel after one more fragment, without rounding.
pub open spec fn blended(
    src: BlendFactor,
    dst: BlendFactor,
    unit: int,
    held: Held,
    fragment: Fragment,
) -> Held {
    Held {
        numerator: fragment.color * factor_of(src, unit, fragment) * pow(unit, held.fragments)
            + held.numerator * factor_of(dst, unit, fragment),
        fragments: held.fragments + 1,
    }
}

/// A channel after some fragments, drawn in this order.
pub open spec fn drawn(
    src: BlendFactor,
    dst: BlendFactor,
    unit: int,
    held: Held,
    fragments: Seq<Fragment>,
) -> Held {
    fragments.fold_left(held, |held: Held, fragment: Fragment| blended(src, dst, unit, held, fragment))
}

proof fn sums_commute(unit: int, held: Held, a: Fragment, b: Fragment)
    ensures
        ({
            let one = BlendFactor::One;
            blended(one, one, unit, blended(one, one, unit, held, a), b) == blended(
                one,
                one,
                unit,
                blended(one, one, unit, held, b),
                a,
            )
        }),
{
    reveal(pow);
    let power = pow(unit, held.fragments);
    let higher = pow(unit, held.fragments + 1);
    assert(higher == unit * power);
    let n = held.numerator;
    let (x, y) = (a.color, b.color);
    assert(y * unit * higher + (x * unit * power + n * unit) * unit == x * unit * higher + (y * unit
        * power + n * unit) * unit) by (nonlinear_arith)
        requires
            higher == unit * power,
    ;
}

proof fn products_commute(dst: BlendFactor, unit: int, held: Held, a: Fragment, b: Fragment)
    requires
        dst is OneMinusSrcColor || dst is OneMinusSrcAlpha,
    ensures
        ({
            let zero = BlendFactor::Zero;
            blended(zero, dst, unit, blended(zero, dst, unit, held, a), b) == blended(
                zero,
                dst,
                unit,
                blended(zero, dst, unit, held, b),
                a,
            )
        }),
{
    let n = held.numerator;
    let power = pow(unit, held.fragments);
    let higher = pow(unit, held.fragments + 1);
    let (x, y) = (factor_of(dst, unit, a), factor_of(dst, unit, b));
    let (r, s) = (a.color, b.color);
    assert(s * 0 * higher + (r * 0 * power + n * x) * y == r * 0 * higher + (s * 0 * power + n * y)
        * x) by (nonlinear_arith);
}

/// **Transparency needs no order.** In exact arithmetic, what each of the two
/// targets holds is the same in whatever order the fragments are drawn.
pub proof fn transparency_needs_no_order(
    target: int,
    alpha: bool,
    unit: int,
    held: Held,
    first: Seq<Fragment>,
    second: Seq<Fragment>,
)
    requires
        0 <= target < state_of(Pipeline::Transparency).targets.len(),
        first.to_multiset() == second.to_multiset(),
    ensures
        ({
            let blend = state_of(Pipeline::Transparency).targets[target].blend->0;
            let (src, dst) = if alpha {
                (blend.src_alpha, blend.dst_alpha)
            } else {
                (blend.src_color, blend.dst_color)
            };
            drawn(src, dst, unit, held, first) == drawn(src, dst, unit, held, second)
        }),
{
    let blend = state_of(Pipeline::Transparency).targets[target].blend->0;
    let (src, dst) = if alpha {
        (blend.src_alpha, blend.dst_alpha)
    } else {
        (blend.src_color, blend.dst_color)
    };
    let step = |held: Held, fragment: Fragment| blended(src, dst, unit, held, fragment);
    assert forall|a: Fragment, b: Fragment, held: Held| #[trigger]
        step(step(held, a), b) == step(step(held, b), a) by {
        if target == 0 {
            sums_commute(unit, held, a, b);
        } else {
            products_commute(dst, unit, held, a, b);
        }
    }
    assert(commutative_foldl(step));
    lemma_fold_left_permutation(first, second, step, held);
}

/// **What blends occludes nothing**, and only what blends leaves depth alone.
pub proof fn blending_never_writes_depth(pipeline: Pipeline, target: int)
    requires
        0 <= target < state_of(pipeline).targets.len(),
    ensures
        state_of(pipeline).depth_write <==> state_of(pipeline).targets[target].blend is None,
{
}

/// **A cut-out is the same triangles everywhere.** The prepass and the casters
/// keep the same faces of it.
pub proof fn cutouts_agree(masked: bool)
    ensures
        state_of(Pipeline::Prepass { masked }).cull == state_of(Pipeline::Caster { masked }).cull,
{
}

/// **Every pipeline keeps the faces that show.** A cut-out and a blended surface are
/// drawn from both sides, and a solid and a refractive one from the front.
pub proof fn pipelines_keep_the_faces_that_show(pipeline: Pipeline)
    ensures
        state_of(pipeline).cull is Neither <==> match pipeline {
            Pipeline::Prepass { masked } => masked,
            Pipeline::Caster { masked } => masked,
            Pipeline::Transparency => true,
            Pipeline::Refraction => false,
        },
{
}

/// **Only casters are biased and kept to their tile**, and they alone draw no colour.
pub proof fn casters_are_kept_to_their_tile(pipeline: Pipeline)
    ensures
        state_of(pipeline).depth_bias <==> pipeline is Caster,
        state_of(pipeline).scissor <==> pipeline is Caster,
        state_of(pipeline).targets.len() == 0 <==> pipeline is Caster,
        state_of(pipeline).depth_write <==> pipeline is Caster || pipeline is Prepass,
{
}

/// **Every target holds what its location is drawn with.** The prepass overwrites a
/// normal, a signed motion and a material; transparency adds up into a wide sum and
/// multiplies into one fraction; and refraction goes into a wide target of its own.
pub proof fn targets_hold_what_is_drawn(masked: bool)
    ensures
        ({
            let prepass = state_of(Pipeline::Prepass { masked }).targets;
            let transparency = state_of(Pipeline::Transparency).targets;
            let refraction = state_of(Pipeline::Refraction).targets;
            &&& prepass.len() == 3
            &&& prepass[0].format is Rgba8
            &&& prepass[1].format is Rg16Float
            &&& prepass[2].format is Rgba8
            &&& transparency.len() == 2
            &&& transparency[0].format is HdrWide
            &&& transparency[1].format is R8
            &&& refraction.len() == 1
            &&& refraction[0].format is HdrWide
        }),
{
}

/// **The blends are a sum, a product and an over.** In exact arithmetic a fragment adds
/// itself to transparency's first target, whatever its alpha; scales the second by what
/// it lets through, and adds nothing; and goes over the refraction's target, which
/// shows through as far as the fragment is not opaque.
pub proof fn blends_are_what_they_stand_for(unit: int, held: Held, fragment: Fragment)
    ensures
        ({
            let sum = state_of(Pipeline::Transparency).targets[0].blend->0;
            let product = state_of(Pipeline::Transparency).targets[1].blend->0;
            let over = state_of(Pipeline::Refraction).targets[0].blend->0;
            let power = pow(unit, held.fragments);
            let added = fragment.color * unit * power;
            let n = held.numerator;
            &&& blended(sum.src_color, sum.dst_color, unit, held, fragment).numerator == added + n
                * unit
            &&& blended(sum.src_alpha, sum.dst_alpha, unit, held, fragment).numerator == added + n
                * unit
            &&& blended(product.src_color, product.dst_color, unit, held, fragment).numerator == n
                * (unit - fragment.color)
            &&& blended(product.src_alpha, product.dst_alpha, unit, held, fragment).numerator == n
                * (unit - fragment.alpha)
            &&& blended(over.src_color, over.dst_color, unit, held, fragment).numerator == added + n
                * (unit - fragment.alpha)
            &&& blended(over.src_alpha, over.dst_alpha, unit, held, fragment).numerator == added + n
                * (unit - fragment.alpha)
        }),
{
    let power = pow(unit, held.fragments);
    let color = fragment.color;
    assert(color * 0 * power == 0) by (nonlinear_arith);
}

} // verus!
