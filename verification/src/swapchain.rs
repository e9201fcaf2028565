//! What the surface will honour of what was asked for, and when the target is
//! rebuilt.

use vstd::prelude::*;

verus! {

/// How frames meet the display.
#[derive(Clone, Copy, Debug, PartialEq, Eq, Structural)]
pub enum VsyncMode {
    Fifo,
    FifoRelaxed,
    Mailbox,
    Immediate,
}

/// A present mode the presentation engine may offer.
#[derive(Clone, Copy, Debug, PartialEq, Eq, Structural)]
pub enum PresentMode {
    Immediate,
    Mailbox,
    Fifo,
    FifoRelaxed,
    /// A mode the renderer never asks for.
    Other(u32),
}

/// What the swapchain should be built with.
#[derive(Clone, Copy, Debug, PartialEq, Eq, Structural)]
pub struct PresentSettings {
    pub vsync: VsyncMode,
    pub images: u32,
}

/// A colour format of a target.
#[derive(Clone, Copy, Debug, PartialEq, Eq, Structural)]
pub enum ColorFormat {
    Bgra8Srgb,
    Rgba8Srgb,
    Other(u32),
}

/// What an offscreen render targets: the byte order a readback wants, encoded
/// the way a window's is.
pub const OFFSCREEN_FORMAT: ColorFormat = ColorFormat::Rgba8Srgb;

/// Images an uncapped present mode needs before it can do anything a capped one
/// cannot: one on screen, one queued, one being drawn.
pub const UNCAPPED_MINIMUM: u32 = 3;

/// The present mode a vsync mode asks for.
pub open spec fn present_mode_spec(vsync: VsyncMode) -> PresentMode {
    match vsync {
        VsyncMode::Fifo => PresentMode::Fifo,
        VsyncMode::FifoRelaxed => PresentMode::FifoRelaxed,
        VsyncMode::Mailbox => PresentMode::Mailbox,
        VsyncMode::Immediate => PresentMode::Immediate,
    }
}

/// The modes that let a frame finish ahead of the display.
pub open spec fn uncapped(mode: PresentMode) -> bool {
    mode is Mailbox || mode is Immediate
}

/// The least count that is at least `want`, at least what the mode needs and at
/// least `min`, or `max` where that is less.
pub open spec fn image_count_spec(want: u32, mode: PresentMode, min: u32, max: Option<u32>) -> u32 {
    let floor: u32 = if uncapped(mode) {
        UNCAPPED_MINIMUM
    } else {
        1
    };
    let raised: u32 = if want < floor {
        floor
    } else {
        want
    };
    let images: u32 = if raised < min {
        min
    } else {
        raised
    };
    match max {
        Some(max) => if images > max {
            max
        } else {
            images
        },
        None => images,
    }
}

/// The one place a [`VsyncMode`] becomes a present mode.
pub fn present_mode(vsync: VsyncMode) -> (mode: PresentMode)
    ensures
        mode == present_mode_spec(vsync),
{
    match vsync {
        VsyncMode::Fifo => PresentMode::Fifo,
        VsyncMode::FifoRelaxed => PresentMode::FifoRelaxed,
        VsyncMode::Mailbox => PresentMode::Mailbox,
        VsyncMode::Immediate => PresentMode::Immediate,
    }
}

/// How many images to build the swapchain with, given what was asked for, the
/// mode the surface honoured, and the range it advertises.
///
/// The floor belongs to the mode and not to the setting: with two images an
/// uncapped mode measures as the capped one it was chosen over. The surface has
/// the last word, so that one with a smaller maximum than the floor gets a worse
/// frame rather than a failed swapchain.
pub fn image_count(want: u32, mode: PresentMode, min: u32, max: Option<u32>) -> (count: u32)
    ensures
        count == image_count_spec(want, mode, min, max),
{
    let floor: u32 = match mode {
        PresentMode::Mailbox | PresentMode::Immediate => UNCAPPED_MINIMUM,
        _ => 1,
    };
    let mut images: u32 = want;
    if images < floor {
        images = floor;
    }
    if images < min {
        images = min;
    }
    match max {
        Some(max) => if images > max {
            max
        } else {
            images
        },
        None => images,
    }
}

/// What the surface will actually honour of what was asked for.
///
/// `modes` is what the surface offers and `range` the image counts it
/// advertises; either is `None` where it could not be asked. Both halves fall
/// back rather than fail: an unsupported mode becomes `Fifo`, which every driver
/// has to offer, and a count outside the range is clamped into it.
pub fn resolve(
    want: PresentSettings,
    modes: Option<Vec<PresentMode>>,
    range: Option<(u32, Option<u32>)>,
) -> (resolved: (PresentMode, u32))
    ensures
        resolved == honoured(want, modes, range),
{
    let wanted = present_mode(want.vsync);
    let mode = match modes {
        Some(modes) => {
            let mut found = false;
            let mut i: usize = 0;
            while i < modes.len()
                invariant
                    i <= modes@.len(),
                    found <==> exists|j: int| 0 <= j < i && modes@[j] == wanted,
                decreases modes@.len() - i,
            {
                if modes[i] == wanted {
                    found = true;
                }
                i = i + 1;
            }
            if found {
                wanted
            } else {
                PresentMode::Fifo
            }
        },
        None => PresentMode::Fifo,
    };
    let (min, max): (u32, Option<u32>) = match range {
        Some(range) => range,
        None => (1, None),
    };
    (mode, image_count(want.images, mode, min, max))
}

/// What the images of a target are used for.
#[derive(Clone, Copy, Debug, PartialEq, Eq, Structural)]
pub struct ImageUses {
    pub color_attachment: bool,
    pub transfer_dst: bool,
    /// Copied back out once the frame is done, which a presented image never is.
    pub transfer_src: bool,
}

/// A target to create.
#[derive(Clone, Copy, Debug)]
pub struct TargetPlan {
    pub format: ColorFormat,
    pub extent: [u32; 2],
    pub uses: ImageUses,
    /// The mode and the least count of images, where the target is presented.
    pub present: Option<(PresentMode, u32)>,
}

/// What the frame's last pass draws into: a swapchain, or offscreen a single
/// image that nobody presents.
#[derive(Clone, Copy, Debug)]
pub struct SwapchainState {
    /// The mode and the count of images of the swapchain; `None` offscreen.
    pub swapchain: Option<(PresentMode, u32)>,
    pub format: ColorFormat,
    /// Views, one for every image.
    pub views: u32,
    /// Images that the finished frame can be copied out of.
    pub readback: u32,
    pub extent: [u32; 2],
}

/// What a surface honours of what was asked for, out of the modes and the range
/// of image counts that it advertises.
pub open spec fn honoured(
    want: PresentSettings,
    modes: Option<Vec<PresentMode>>,
    range: Option<(u32, Option<u32>)>,
) -> (PresentMode, u32) {
    let mode = if modes is Some && modes->0@.contains(present_mode_spec(want.vsync)) {
        present_mode_spec(want.vsync)
    } else {
        PresentMode::Fifo
    };
    let (min, max) = match range {
        Some(range) => range,
        None => (1u32, None::<u32>),
    };
    (mode, image_count_spec(want.images, mode, min, max))
}

impl SwapchainState {
    /// Everything shown has a view, and only what is not presented is read back.
    pub open spec fn wf(&self) -> bool {
        match self.swapchain {
            Some(applied) => self.views == applied.1 && self.readback == 0,
            None => self.views == 1 && self.readback == 1,
        }
    }

    /// The swapchain to create for a window.
    pub fn plan(
        format: ColorFormat,
        extent: [u32; 2],
        want: PresentSettings,
        modes: Option<Vec<PresentMode>>,
        range: Option<(u32, Option<u32>)>,
    ) -> (plan: TargetPlan)
        ensures
            plan.format == format,
            plan.extent@ == extent@,
            plan.uses == (ImageUses {
                color_attachment: true,
                transfer_dst: true,
                transfer_src: false,
            }),
            plan.present == Some(honoured(want, modes, range)),
    {
        TargetPlan {
            format,
            extent,
            uses: ImageUses { color_attachment: true, transfer_dst: true, transfer_src: false },
            present: Some(resolve(want, modes, range)),
        }
    }

    /// A window's target, of the images the swapchain was given.
    pub fn new(format: ColorFormat, extent: [u32; 2], mode: PresentMode, images: u32) -> (state: Self)
        ensures
            state.wf(),
            state.swapchain == Some((mode, images)),
            state.format == format,
            state.extent@ == extent@,
    {
        SwapchainState {
            swapchain: Some((mode, images)),
            format,
            views: images,
            readback: 0,
            extent,
        }
    }

    /// A single image the frame renders into and nobody presents.
    pub fn offscreen(format: ColorFormat, extent: [u32; 2]) -> (made: (TargetPlan, Self))
        ensures
            made.0.format == format,
            made.0.extent@ == extent@,
            made.0.uses == (ImageUses {
                color_attachment: true,
                transfer_dst: true,
                transfer_src: true,
            }),
            made.0.present is None,
            made.1.wf(),
            made.1.swapchain is None,
            made.1.format == format,
            made.1.extent@ == extent@,
    {
        let plan = TargetPlan {
            format,
            extent,
            uses: ImageUses { color_attachment: true, transfer_dst: true, transfer_src: true },
            present: None,
        };
        (plan, SwapchainState { swapchain: None, format, views: 1, readback: 1, extent })
    }

    /// The swapchain to create in this one's place, or `None` where it stays: a
    /// surface of no area is skipped, and an offscreen target has a fixed extent.
    ///
    /// What was asked for is resolved anew, so a change of present mode or image
    /// count reaches the swapchain the way an extent does.
    pub fn recreate(
        &self,
        extent: [u32; 2],
        want: PresentSettings,
        modes: Option<Vec<PresentMode>>,
        range: Option<(u32, Option<u32>)>,
    ) -> (plan: Option<TargetPlan>)
        ensures
            plan is Some <==> self.swapchain is Some && extent[0] != 0 && extent[1] != 0,
            plan matches Some(plan) ==> {
                &&& plan.format == self.format
                &&& plan.extent@ == extent@
                &&& plan.uses == (ImageUses {
                    color_attachment: true,
                    transfer_dst: true,
                    transfer_src: false,
                })
                &&& plan.present == Some(honoured(want, modes, range))
            },
    {
        if extent[0] == 0 || extent[1] == 0 {
            return None;
        }
        match self.swapchain {
            Some(_) => Some(Self::plan(self.format, extent, want, modes, range)),
            None => None,
        }
    }

    /// Take in the swapchain that was created, with the images it was given.
    pub fn recreated(&mut self, extent: [u32; 2], mode: PresentMode, images: u32)
        requires
            old(self).wf(),
            old(self).swapchain is Some,
        ensures
            final(self).wf(),
            final(self).swapchain == Some((mode, images)),
            final(self).extent@ == extent@,
            final(self).format == old(self).format,
    {
        self.swapchain = Some((mode, images));
        self.views = images;
        self.extent = extent;
    }

    /// What the surface honoured, as opposed to what was asked for; `None`
    /// offscreen, where there is nobody to ask.
    pub fn applied_present(&self) -> (applied: Option<(PresentMode, u32)>)
        ensures
            applied == self.swapchain,
    {
        self.swapchain
    }
}

/// Whether a surface's pairing of format and colour space is one to render into.
pub open spec fn suitable(offer: (ColorFormat, bool)) -> bool {
    offer.1 && (offer.0 is Bgra8Srgb || offer.0 is Rgba8Srgb)
}

/// The format to render into: the first pairing the surface offers of a
/// byte-order the renderer writes with a non-linear sRGB colour space, which the
/// flag stands for.
pub fn swapchain_color_format(offers: &[(ColorFormat, bool)]) -> (format: ColorFormat)
    ensures
        (forall|i: int| 0 <= i < offers@.len() ==> !suitable(#[trigger] offers@[i]))
            ==> format == ColorFormat::Bgra8Srgb,
        (exists|i: int| 0 <= i < offers@.len() && suitable(#[trigger] offers@[i]))
            ==> exists|i: int|
            {
                &&& 0 <= i < offers@.len()
                &&& suitable(#[trigger] offers@[i])
                &&& format == offers@[i].0
                &&& forall|j: int| 0 <= j < i ==> !suitable(#[trigger] offers@[j])
            },
{
    let mut i: usize = 0;
    while i < offers.len()
        invariant
            i <= offers@.len(),
            forall|j: int| 0 <= j < i ==> !suitable(#[trigger] offers@[j]),
        decreases offers@.len() - i,
    {
        let offer = offers[i];
        let wanted = match offer.0 {
            ColorFormat::Bgra8Srgb | ColorFormat::Rgba8Srgb => true,
            _ => false,
        };
        if wanted && offer.1 {
            assert(suitable(offers@[i as int]));
            return offer.0;
        }
        i = i + 1;
    }
    ColorFormat::Bgra8Srgb
}

/// **What is presented is never read back.** A target for a window is not copied
/// out of, and the one that is copied out of is not presented.
pub proof fn presented_or_read_back(state: SwapchainState)
    requires
        state.wf(),
    ensures
        state.readback > 0 <==> state.swapchain is None,
{
}

/// **The surface has the last word.** Whatever is asked for, the count lies in
/// the advertised range, where there is one.
pub proof fn count_lies_in_the_range(want: u32, mode: PresentMode, min: u32, max: Option<u32>)
    requires
        max is Some ==> min <= max->0,
    ensures
        image_count_spec(want, mode, min, max) >= min,
        max is Some ==> image_count_spec(want, mode, min, max) <= max->0,
{
}

/// **The floor raises a count and never lowers one.** An uncapped mode gets at
/// least as many images as a capped one would.
pub proof fn uncapped_never_gets_fewer(
    want: u32,
    free: PresentMode,
    capped: PresentMode,
    min: u32,
    max: Option<u32>,
)
    requires
        uncapped(free),
        !uncapped(capped),
    ensures
        image_count_spec(want, free, min, max) >= image_count_spec(want, capped, min, max),
{
}

/// **Every setting has its own mode.** A frame that waits for the display is capped by
/// it, late frames or not, and one that does not is not.
pub proof fn settings_have_their_modes(vsync: VsyncMode)
    ensures
        vsync is Fifo <==> present_mode_spec(vsync) is Fifo,
        vsync is FifoRelaxed <==> present_mode_spec(vsync) is FifoRelaxed,
        vsync is Mailbox <==> present_mode_spec(vsync) is Mailbox,
        vsync is Immediate <==> present_mode_spec(vsync) is Immediate,
        uncapped(present_mode_spec(vsync)) <==> vsync is Mailbox || vsync is Immediate,
{
}

/// **Nobody gets more images than there is a reason for.** The count is what was asked
/// for, what the surface needs or the three that an uncapped mode needs, whichever is
/// the most; and only a smaller maximum of the surface's makes it less.
pub proof fn counts_have_a_reason(want: u32, mode: PresentMode, min: u32, max: Option<u32>)
    ensures
        ({
            let count = image_count_spec(want, mode, min, max);
            let free = mode is Mailbox || mode is Immediate;
            &&& count < want || count < min || count < 1 || (free && count < 3) ==> max == Some(
                count,
            )
            &&& count > want && count > min && count > 1 ==> free && count <= 3
            &&& max is None && count > want && count > min && count > 1 ==> count == 3
            &&& max matches Some(max) ==> count <= max
        }),
{
}

/// **The surface is asked for what it offers.** It gets the mode that was asked for
/// where it offers it, and otherwise the one that every driver has; and the count of
/// images that this mode is to have in the range it advertises.
pub proof fn surfaces_are_asked_for_what_they_offer(
    want: PresentSettings,
    modes: Option<Vec<PresentMode>>,
    range: Option<(u32, Option<u32>)>,
)
    ensures
        ({
            let (mode, count) = honoured(want, modes, range);
            let asked = present_mode_spec(want.vsync);
            &&& modes is Some && modes->0@.contains(asked) ==> mode == asked
            &&& !(modes is Some && modes->0@.contains(asked)) ==> mode is Fifo
            &&& range matches Some(range) ==> count == image_count_spec(
                want.images,
                mode,
                range.0,
                range.1,
            )
            &&& range is None ==> count == image_count_spec(want.images, mode, 1, None)
        }),
{
}

/// **Only a non-linear pairing of a byte order that the renderer writes will do.**
pub proof fn suitable_formats_are_srgb(format: ColorFormat, nonlinear: bool)
    ensures
        suitable((format, nonlinear)) <==> nonlinear && (format is Bgra8Srgb || format
            is Rgba8Srgb),
{
}

} // verus!
