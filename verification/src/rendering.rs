//! What each graphics pass renders into: its attachments, how they are loaded
//! and stored, and what they are cleared to.
//!
//! An attachment carries its own clear, so there is no positional list to keep
//! in step with it.

use crate::frame::{FrameIds, PassBody, ResourceId};
use vstd::prelude::*;

verus! {

#[derive(Clone, Copy, Debug, PartialEq, Eq, Structural)]
pub enum LoadOp {
    Load,
    Clear,
    DontCare,
}

#[derive(Clone, Copy, Debug, PartialEq, Eq, Structural)]
pub enum StoreOp {
    Store,
    DontCare,
}

/// What an attachment is cleared to, by meaning. The components are floating
/// point and belong to whoever fills in the device's own structure.
#[derive(Clone, Copy, Debug, PartialEq, Eq, Structural)]
pub enum Clear {
    /// `(0.5, 0.5, 1, 0)`: a normal pointing straight at the camera.
    FlatNormal,
    /// `(0, 0, 0, 0)`: no motion, nothing reflected, nothing accumulated.
    Zero,
    /// `(1, 0, 0, 0)`: fully unoccluded, fully lit, everything revealed.
    One,
    /// The scene's background colour, opaque.
    Background,
    /// A depth of one: as far as there is.
    Far,
}

/// The image an attachment is.
#[derive(Clone, Copy, Debug, PartialEq, Eq, Structural)]
pub enum Target {
    /// A graph-owned image, whole.
    Image(ResourceId),
    /// One layer of a graph-owned array.
    Layer(ResourceId, u32),
    /// The acquired swapchain image.
    Swapchain,
}

#[derive(Clone, Copy, Debug, PartialEq, Eq, Structural)]
pub struct Attachment {
    pub target: Target,
    pub load: LoadOp,
    pub store: StoreOp,
    pub clear: Option<Clear>,
    /// Where a multisampled attachment is resolved to.
    pub resolve: Option<ResourceId>,
    /// Whether the pass leaves the attachment in a read-only layout, because it
    /// tests against it and never writes it.
    pub read_only: bool,
}

/// What one graphics pass renders into.
#[derive(Debug)]
pub struct RenderingInfo {
    pub color: Vec<Attachment>,
    pub depth: Option<Attachment>,
}

/// The attachments of a pass, as values.
#[verifier::ext_equal]
pub struct Attachments {
    pub color: Seq<Attachment>,
    pub depth: Option<Attachment>,
}

impl RenderingInfo {
    pub open spec fn view(&self) -> Attachments {
        Attachments { color: self.color@, depth: self.depth }
    }
}

/// A colour attachment that is cleared, drawn into, and kept.
pub open spec fn cleared_spec(target: Target, clear: Clear) -> Attachment {
    Attachment {
        target,
        load: LoadOp::Clear,
        store: StoreOp::Store,
        clear: Some(clear),
        resolve: None,
        read_only: false,
    }
}

/// An attachment whose previous contents do not matter and which is entirely
/// rewritten: the swapchain image, and the shadow atlas, whose live tiles are
/// cleared one by one.
pub open spec fn overwritten_spec(target: Target) -> Attachment {
    Attachment {
        target,
        load: LoadOp::DontCare,
        store: StoreOp::Store,
        clear: None,
        resolve: None,
        read_only: false,
    }
}

/// A multisampled colour attachment that is cleared, drawn into, resolved into
/// `resolve`, and then discarded: nothing reads the samples after the resolve.
pub open spec fn resolved_spec(target: Target, resolve: ResourceId, clear: Clear) -> Attachment {
    Attachment {
        target,
        load: LoadOp::Clear,
        store: StoreOp::DontCare,
        clear: Some(clear),
        resolve: Some(resolve),
        read_only: false,
    }
}

/// A depth attachment the pass rasterises for itself and discards at the end.
pub open spec fn depth_scratch_spec(target: Target) -> Attachment {
    Attachment {
        target,
        load: LoadOp::Clear,
        store: StoreOp::DontCare,
        clear: Some(Clear::Far),
        resolve: None,
        read_only: false,
    }
}

/// A depth attachment that is cleared, written, and kept for later passes.
pub open spec fn depth_written_spec(target: Target) -> Attachment {
    cleared_spec(target, Clear::Far)
}

/// The prepass's depth, borrowed by a pass that tests against it and never
/// writes it. Stored rather than discarded: discarding would license a driver
/// to leave it undefined for the passes that read it afterwards.
pub open spec fn depth_borrowed_spec(target: Target) -> Attachment {
    Attachment {
        target,
        load: LoadOp::Load,
        store: StoreOp::Store,
        clear: None,
        resolve: None,
        read_only: true,
    }
}

/// Whether a pass rasterises, and so has attachments at all.
pub open spec fn rasterises(body: PassBody) -> bool {
    match body {
        PassBody::ShadowCascade(_)
        | PassBody::PunctualShadows
        | PassBody::GeometryPrepass
        | PassBody::SsaoResolve
        | PassBody::SsaoBlur
        | PassBody::ContactShadows
        | PassBody::Forward
        | PassBody::OitAccumulate
        | PassBody::RefractionDraw
        | PassBody::Tonemap => true,
        _ => false,
    }
}

/// The frame declared what the pass renders into.
pub open spec fn has_targets(ids: &FrameIds, body: PassBody) -> bool {
    match body {
        PassBody::GeometryPrepass => ids.prepass is Some,
        PassBody::SsaoResolve | PassBody::SsaoBlur => ids.ssao is Some,
        PassBody::ContactShadows => ids.contact_shadows is Some,
        PassBody::Forward => if ids.msaa is Some {
            ids.subsurface is Some ==> ids.subsurface->0.msaa_diffusible is Some
        } else {
            ids.prepass is Some
        },
        PassBody::OitAccumulate => ids.transparency is Some && ids.prepass is Some,
        PassBody::RefractionDraw => ids.refraction is Some && ids.prepass is Some,
        PassBody::ShadowCascade(_) => ids.shadows is Some,
        PassBody::PunctualShadows => ids.shadow_atlas is Some,
        _ => true,
    }
}

/// The colour attachments of a pass, in the order its shader writes them.
pub open spec fn color_of(ids: &FrameIds, body: PassBody) -> Seq<Attachment> {
    match body {
        PassBody::GeometryPrepass => seq![
            cleared_spec(Target::Image(ids.prepass->0.normal), Clear::FlatNormal),
            cleared_spec(Target::Image(ids.prepass->0.velocity), Clear::Zero),
            cleared_spec(Target::Image(ids.prepass->0.material), Clear::Zero),
        ],
        PassBody::SsaoResolve => seq![cleared_spec(Target::Image(ids.ssao->0.raw_ao), Clear::One)],
        PassBody::SsaoBlur => seq![cleared_spec(Target::Image(ids.ssao->0.ao), Clear::One)],
        PassBody::ContactShadows => seq![
            cleared_spec(Target::Image(ids.contact_shadows->0), Clear::One),
        ],
        PassBody::Forward => forward_lit(ids) + forward_diffusible(ids),
        PassBody::OitAccumulate => seq![
            cleared_spec(Target::Image(ids.transparency->0.accum), Clear::Zero),
            cleared_spec(Target::Image(ids.transparency->0.reveal), Clear::One),
        ],
        PassBody::RefractionDraw => seq![
            cleared_spec(Target::Image(ids.refraction->0.accum), Clear::Zero),
        ],
        PassBody::Tonemap => seq![overwritten_spec(Target::Swapchain)],
        _ => Seq::empty(),
    }
}

/// The forward pass's lit colour: resolved where the frame is multisampled,
/// written in place where it is not.
pub open spec fn forward_lit(ids: &FrameIds) -> Seq<Attachment> {
    match ids.msaa {
        Some(msaa) => seq![
            resolved_spec(Target::Image(msaa.hdr), ids.hdr_color, Clear::Background),
        ],
        None => seq![cleared_spec(Target::Image(ids.hdr_color), Clear::Background)],
    }
}

/// The forward pass's second attachment, there only where the frame diffuses.
/// Its clear is the feature's mask: a zero radius is "nothing scattered here".
pub open spec fn forward_diffusible(ids: &FrameIds) -> Seq<Attachment> {
    match ids.subsurface {
        None => Seq::empty(),
        Some(sss) => match ids.msaa {
            Some(_) => seq![
                resolved_spec(
                    Target::Image(sss.msaa_diffusible->0),
                    sss.diffusible,
                    Clear::Zero,
                ),
            ],
            None => seq![cleared_spec(Target::Image(sss.diffusible), Clear::Zero)],
        },
    }
}

/// The depth attachment of a pass.
pub open spec fn depth_of(ids: &FrameIds, body: PassBody) -> Option<Attachment> {
    match body {
        PassBody::GeometryPrepass => Some(depth_written_spec(Target::Image(ids.prepass->0.depth))),
        PassBody::Forward => match ids.msaa {
            Some(msaa) => Some(depth_scratch_spec(Target::Image(msaa.depth))),
            None => Some(depth_borrowed_spec(Target::Image(ids.prepass->0.depth))),
        },
        PassBody::OitAccumulate | PassBody::RefractionDraw => Some(
            depth_borrowed_spec(Target::Image(ids.prepass->0.depth)),
        ),
        PassBody::ShadowCascade(cascade) => Some(
            depth_written_spec(Target::Layer(ids.shadows->0, cascade)),
        ),
        PassBody::PunctualShadows => Some(overwritten_spec(Target::Image(ids.shadow_atlas->0))),
        _ => None,
    }
}

/// Everything a pass renders into.
pub open spec fn attachments_of(ids: &FrameIds, body: PassBody) -> Attachments {
    Attachments { color: color_of(ids, body), depth: depth_of(ids, body) }
}

fn cleared(target: Target, clear: Clear) -> (attachment: Attachment)
    ensures
        attachment == cleared_spec(target, clear),
{
    Attachment {
        target,
        load: LoadOp::Clear,
        store: StoreOp::Store,
        clear: Some(clear),
        resolve: None,
        read_only: false,
    }
}

fn overwritten(target: Target) -> (attachment: Attachment)
    ensures
        attachment == overwritten_spec(target),
{
    Attachment {
        target,
        load: LoadOp::DontCare,
        store: StoreOp::Store,
        clear: None,
        resolve: None,
        read_only: false,
    }
}

fn resolved(target: Target, resolve: ResourceId, clear: Clear) -> (attachment: Attachment)
    ensures
        attachment == resolved_spec(target, resolve, clear),
{
    Attachment {
        target,
        load: LoadOp::Clear,
        store: StoreOp::DontCare,
        clear: Some(clear),
        resolve: Some(resolve),
        read_only: false,
    }
}

fn depth_scratch(target: Target) -> (attachment: Attachment)
    ensures
        attachment == depth_scratch_spec(target),
{
    Attachment {
        target,
        load: LoadOp::Clear,
        store: StoreOp::DontCare,
        clear: Some(Clear::Far),
        resolve: None,
        read_only: false,
    }
}

fn depth_written(target: Target) -> (attachment: Attachment)
    ensures
        attachment == depth_written_spec(target),
{
    cleared(target, Clear::Far)
}

fn depth_borrowed(target: Target) -> (attachment: Attachment)
    ensures
        attachment == depth_borrowed_spec(target),
{
    Attachment {
        target,
        load: LoadOp::Load,
        store: StoreOp::Store,
        clear: None,
        resolve: None,
        read_only: true,
    }
}

/// What one graphics pass renders into, or `None` for a compute pass or one
/// recorded outside the executor.
pub fn rendering_info(ids: &FrameIds, body: PassBody) -> (info: Option<RenderingInfo>)
    requires
        has_targets(ids, body),
    ensures
        info is Some <==> rasterises(body),
        info is Some ==> info->0@ == attachments_of(ids, body),
{
    let mut color: Vec<Attachment> = Vec::new();
    let mut depth: Option<Attachment> = None;
    match body {
        // Flat +Z in the normal buffer, no motion in the velocity buffer, far in
        // depth, and a black reflectance: a pixel nothing rasterised reflects
        // nothing and reprojects with the camera alone.
        PassBody::GeometryPrepass => {
            let prepass = ids.prepass.unwrap();
            color.push(cleared(Target::Image(prepass.normal), Clear::FlatNormal));
            color.push(cleared(Target::Image(prepass.velocity), Clear::Zero));
            color.push(cleared(Target::Image(prepass.material), Clear::Zero));
            depth = Some(depth_written(Target::Image(prepass.depth)));
        },
        PassBody::SsaoResolve => {
            color.push(cleared(Target::Image(ids.ssao.unwrap().raw_ao), Clear::One));
        },
        PassBody::SsaoBlur => {
            color.push(cleared(Target::Image(ids.ssao.unwrap().ao), Clear::One));
        },
        PassBody::ContactShadows => {
            color.push(cleared(Target::Image(ids.contact_shadows.unwrap()), Clear::One));
        },
        // Two independent questions: does this frame resolve, and does it
        // diffuse.
        PassBody::Forward => {
            match ids.msaa {
                Some(msaa) => {
                    color.push(
                        resolved(Target::Image(msaa.hdr), ids.hdr_color, Clear::Background),
                    );
                    if let Some(sss) = ids.subsurface {
                        color.push(
                            resolved(
                                Target::Image(sss.msaa_diffusible.unwrap()),
                                sss.diffusible,
                                Clear::Zero,
                            ),
                        );
                    }
                    depth = Some(depth_scratch(Target::Image(msaa.depth)));
                },
                None => {
                    color.push(cleared(Target::Image(ids.hdr_color), Clear::Background));
                    if let Some(sss) = ids.subsurface {
                        color.push(cleared(Target::Image(sss.diffusible), Clear::Zero));
                    }
                    depth = Some(depth_borrowed(Target::Image(ids.prepass.unwrap().depth)));
                },
            }
        },
        // Nothing accumulated, and everything revealed: revealage is a running
        // product, so a clear of zero would hide the opaque frame everywhere.
        PassBody::OitAccumulate => {
            let oit = ids.transparency.unwrap();
            color.push(cleared(Target::Image(oit.accum), Clear::Zero));
            color.push(cleared(Target::Image(oit.reveal), Clear::One));
            depth = Some(depth_borrowed(Target::Image(ids.prepass.unwrap().depth)));
        },
        PassBody::RefractionDraw => {
            color.push(cleared(Target::Image(ids.refraction.unwrap().accum), Clear::Zero));
            depth = Some(depth_borrowed(Target::Image(ids.prepass.unwrap().depth)));
        },
        // One layer of the cascade array: handing the attachment the whole array
        // would make every cascade overwrite the same texels.
        PassBody::ShadowCascade(cascade) => {
            depth = Some(depth_written(Target::Layer(ids.shadows.unwrap(), cascade)));
        },
        PassBody::PunctualShadows => {
            depth = Some(overwritten(Target::Image(ids.shadow_atlas.unwrap())));
        },
        PassBody::Tonemap => {
            color.push(overwritten(Target::Swapchain));
        },
        _ => {
            return None;
        },
    }
    assert(color@ =~= color_of(ids, body));
    Some(RenderingInfo { color, depth })
}

/// Whether an attachment is one of a pass's.
pub open spec fn attaches(all: Attachments, attachment: Attachment) -> bool {
    all.color.contains(attachment) || all.depth == Some(attachment)
}

/// **A clear value exactly where one is used.** An attachment carries a clear
/// value if and only if it is loaded by clearing.
pub proof fn clears_where_it_says(ids: &FrameIds, body: PassBody, attachment: Attachment)
    requires
        has_targets(ids, body),
        attaches(attachments_of(ids, body), attachment),
    ensures
        attachment.clear is Some <==> attachment.load is Clear,
{
    let color = color_of(ids, body);
    if color.contains(attachment) {
        let i = choose|i: int| 0 <= i < color.len() && color[i] == attachment;
        assert(color[i] == attachment);
    }
}

/// **Nothing borrowed is damaged.** A pass that borrows the prepass's depth
/// loads it, keeps it, and leaves it read-only; and only such a pass has a
/// read-only attachment.
pub proof fn borrowed_depth_survives(ids: &FrameIds, body: PassBody, attachment: Attachment)
    requires
        has_targets(ids, body),
        attaches(attachments_of(ids, body), attachment),
        attachment.read_only || attachment.load is Load,
    ensures
        attachment == depth_borrowed_spec(Target::Image(ids.prepass->0.depth)),
        ids.prepass is Some,
        body is OitAccumulate || body is RefractionDraw || (body is Forward && ids.msaa is None),
{
    let color = color_of(ids, body);
    if color.contains(attachment) {
        let i = choose|i: int| 0 <= i < color.len() && color[i] == attachment;
        assert(color[i] == attachment);
    }
}

/// **Samples are discarded exactly where they are resolved or nobody reads
/// them.** What a pass does not store is either multisampled colour that it
/// resolves, or the multisampled frame's own depth.
pub proof fn discarded_only_when_multisampled(
    ids: &FrameIds,
    body: PassBody,
    attachment: Attachment,
)
    requires
        has_targets(ids, body),
        attaches(attachments_of(ids, body), attachment),
        attachment.store is DontCare,
    ensures
        body is Forward,
        ids.msaa is Some,
        attachment.resolve is Some || attachment == depth_scratch_spec(
            Target::Image(ids.msaa->0.depth),
        ),
{
    let color = color_of(ids, body);
    if color.contains(attachment) {
        let i = choose|i: int| 0 <= i < color.len() && color[i] == attachment;
        assert(color[i] == attachment);
    }
}

/// The image that holds what was drawn once the pass is over: what the samples are
/// resolved into, where they are resolved.
pub open spec fn lands_in(attachment: Attachment) -> Target {
    match attachment.resolve {
        Some(image) => Target::Image(image),
        None => attachment.target,
    }
}

/// The images that hold what a pass drew, by the location its shader writes.
pub open spec fn drawn(ids: &FrameIds, body: PassBody) -> Seq<Target> {
    attachments_of(ids, body).color.map_values(|attachment: Attachment| lands_in(attachment))
}

/// **Every location is the image that its readers take it for.** The prepass writes
/// normals, motion and material, in that order; transparency its weighted sum and
/// what it reveals; and the forward pass the lit frame, and the light to diffuse
/// behind it where the frame diffuses any.
pub proof fn locations_have_their_images(ids: &FrameIds, body: PassBody)
    requires
        has_targets(ids, body),
    ensures
        body is GeometryPrepass ==> {
            let prepass = ids.prepass->0;
            &&& drawn(ids, body).len() == 3
            &&& drawn(ids, body)[0] == Target::Image(prepass.normal)
            &&& drawn(ids, body)[1] == Target::Image(prepass.velocity)
            &&& drawn(ids, body)[2] == Target::Image(prepass.material)
        },
        body is OitAccumulate ==> {
            &&& drawn(ids, body).len() == 2
            &&& drawn(ids, body)[0] == Target::Image(ids.transparency->0.accum)
            &&& drawn(ids, body)[1] == Target::Image(ids.transparency->0.reveal)
        },
        body is Forward ==> {
            &&& drawn(ids, body)[0] == Target::Image(ids.hdr_color)
            &&& ids.subsurface is None ==> drawn(ids, body).len() == 1
            &&& ids.subsurface matches Some(sss) ==> drawn(ids, body).len() == 2 && drawn(
                ids,
                body,
            )[1] == Target::Image(sss.diffusible)
        },
        body is SsaoResolve ==> drawn(ids, body) == seq![Target::Image(ids.ssao->0.raw_ao)],
        body is SsaoBlur ==> drawn(ids, body) == seq![Target::Image(ids.ssao->0.ao)],
        body is ContactShadows ==> drawn(ids, body) == seq![Target::Image(ids.contact_shadows->0)],
        body is RefractionDraw ==> drawn(ids, body) == seq![Target::Image(ids.refraction->0.accum)],
        body is Tonemap ==> drawn(ids, body) == seq![Target::Swapchain],
        body is ShadowCascade || body is PunctualShadows ==> drawn(ids, body).len() == 0,
{
    let color = attachments_of(ids, body).color;
    assert(drawn(ids, body).len() == color.len());
}

/// **Multisampling changes where a frame is drawn and not what comes of it.** The
/// forward pass draws every attachment of a multisampled frame into the image of its
/// samples and resolves each colour; nothing else resolves anything.
pub proof fn samples_are_drawn_apart(ids: &FrameIds, body: PassBody, i: int)
    requires
        has_targets(ids, body),
        0 <= i < attachments_of(ids, body).color.len(),
    ensures
        attachments_of(ids, body).color[i].resolve is Some <==> body is Forward && ids.msaa is Some,
        body is Forward && ids.msaa is Some ==> {
            let all = attachments_of(ids, body);
            &&& all.color[i].target == Target::Image(
                if i == 0 {
                    ids.msaa->0.hdr
                } else {
                    ids.subsurface->0.msaa_diffusible->0
                },
            )
            &&& all.depth matches Some(depth) && depth.target == Target::Image(ids.msaa->0.depth)
        },
        attachments_of(ids, body).depth matches Some(depth) ==> depth.resolve is None,
{
}

/// **Every pass tests against the depth it is drawn behind.** The prepass writes the
/// scene's; what is drawn over the lit frame later borrows it, the multisampled
/// forward pass excepted, which has its own; a cascade has a layer of the array to
/// itself; and a pass over the screen has none.
pub proof fn depths_have_their_images(ids: &FrameIds, body: PassBody)
    requires
        has_targets(ids, body),
        rasterises(body),
    ensures
        match attachments_of(ids, body).depth {
            Some(depth) => depth.target == (match body {
                PassBody::ShadowCascade(cascade) => Target::Layer(ids.shadows->0, cascade),
                PassBody::PunctualShadows => Target::Image(ids.shadow_atlas->0),
                PassBody::Forward if ids.msaa is Some => Target::Image(ids.msaa->0.depth),
                _ => Target::Image(ids.prepass->0.depth),
            }),
            None => body is SsaoResolve || body is SsaoBlur || body is ContactShadows
                || body is Tonemap,
        },
        attachments_of(ids, body).depth matches Some(depth) ==> {
            &&& depth.read_only <==> body is OitAccumulate || body is RefractionDraw || (
            body is Forward && ids.msaa is None)
            &&& depth.read_only ==> depth.load is Load && depth.store is Store
            &&& body is PunctualShadows <==> depth.load is DontCare
            &&& depth.store is DontCare <==> body is Forward && ids.msaa is Some
        },
{
}

/// **An untouched pixel says that nothing is there.** It faces the camera, does not
/// move, reflects nothing, hides nothing, is neither occluded nor shadowed, scatters
/// nothing, and is as far away as can be; only the lit frame shows the background.
pub proof fn untouched_pixels_say_nothing(ids: &FrameIds, body: PassBody, i: int)
    requires
        has_targets(ids, body),
    ensures
        0 <= i < attachments_of(ids, body).color.len() ==> attachments_of(ids, body).color[i].clear
            == (match body {
            PassBody::GeometryPrepass => Some(
                if i == 0 {
                    Clear::FlatNormal
                } else {
                    Clear::Zero
                },
            ),
            PassBody::SsaoResolve | PassBody::SsaoBlur | PassBody::ContactShadows => Some(
                Clear::One,
            ),
            PassBody::Forward => Some(
                if i == 0 {
                    Clear::Background
                } else {
                    Clear::Zero
                },
            ),
            PassBody::OitAccumulate => Some(
                if i == 0 {
                    Clear::Zero
                } else {
                    Clear::One
                },
            ),
            PassBody::RefractionDraw => Some(Clear::Zero),
            _ => None,
        }),
        attachments_of(ids, body).depth matches Some(depth) ==> depth.clear == (if depth.load
            is Clear {
            Some(Clear::Far)
        } else {
            None
        }),
{
}

/// **What is drawn in colour is kept**, as it is or resolved, and never written over
/// what was there before: it is cleared first, but for the swapchain's image, every
/// pixel of which the tonemap writes.
pub proof fn colours_are_kept(ids: &FrameIds, body: PassBody, i: int)
    requires
        has_targets(ids, body),
        0 <= i < attachments_of(ids, body).color.len(),
    ensures
        ({
            let attachment = attachments_of(ids, body).color[i];
            &&& attachment.store is Store <==> attachment.resolve is None
            &&& attachment.load is DontCare <==> body is Tonemap
            &&& attachment.load is Clear <==> !(body is Tonemap)
            &&& !attachment.read_only
        }),
{
}

/// **No two cascades share a layer.**
pub proof fn cascades_are_drawn_apart(ids: &FrameIds, one: u32, other: u32)
    requires
        ids.shadows is Some,
        one != other,
    ensures
        attachments_of(ids, PassBody::ShadowCascade(one)).depth->0.target != attachments_of(
            ids,
            PassBody::ShadowCascade(other),
        ).depth->0.target,
{
}

} // verus!
