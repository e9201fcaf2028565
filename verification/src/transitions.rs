//! The layout transitions of an uploaded image.
//!
//! A transition is written down where it happens rather than derived: what came
//! before it, what comes after it, and which part of the image it covers. Masks
//! are the device's own bits.
//!
//! The barriers go out through an interface whose access masks have two and
//! thirty bits; a bit above those would vanish, and leave a barrier that carries
//! nothing.

use vstd::prelude::*;

verus! {

pub const TOP_OF_PIPE: u64 = 0x1;

pub const FRAGMENT_SHADER: u64 = 0x80;

pub const ALL_TRANSFER: u64 = 0x1000;

pub const SHADER_READ: u64 = 0x20;

pub const TRANSFER_READ: u64 = 0x800;

pub const TRANSFER_WRITE: u64 = 0x1000;

/// How the texels of an image are laid out.
#[derive(Clone, Copy, Debug, PartialEq, Eq, Structural)]
pub enum Layout {
    /// Nothing is known; the contents may be dropped.
    Undefined,
    TransferDst,
    TransferSrc,
    /// What every shader that samples the image takes it to be in.
    ShaderRead,
}

/// Mip levels and array layers of an image, each from the first that is meant to
/// the first that is not.
#[derive(Clone, Copy, Debug, PartialEq, Eq, Structural)]
pub struct Subresources {
    pub first_mip: u32,
    pub end_mip: u32,
    pub first_layer: u32,
    pub end_layer: u32,
}

/// A barrier on an image.
#[derive(Clone, Copy, Debug, PartialEq, Eq, Structural)]
pub struct Transition {
    pub src_stages: u64,
    pub src_access: u64,
    pub dst_stages: u64,
    pub dst_access: u64,
    pub old_layout: Layout,
    pub new_layout: Layout,
    pub range: Subresources,
}

/// A mip level and an array layer of an image are meant.
pub open spec fn meant(range: Subresources, mip: int, layer: int) -> bool {
    range.first_mip <= mip < range.end_mip && range.first_layer <= layer < range.end_layer
}

/// Every mip level and array layer of an image.
pub fn whole_image(mip_levels: u32, array_layers: u32) -> (range: Subresources)
    ensures
        forall|mip: int, layer: int|
            #![trigger meant(range, mip, layer)]
            meant(range, mip, layer) <==> 0 <= mip < mip_levels && 0 <= layer < array_layers,
        range == (Subresources {
            first_mip: 0,
            end_mip: mip_levels,
            first_layer: 0,
            end_layer: array_layers,
        }),
{
    Subresources { first_mip: 0, end_mip: mip_levels, first_layer: 0, end_layer: array_layers }
}

pub open spec fn into_transfer_dst(range: Subresources, old_layout: Layout) -> Transition {
    Transition {
        src_stages: TOP_OF_PIPE,
        src_access: 0,
        dst_stages: ALL_TRANSFER,
        dst_access: TRANSFER_WRITE,
        old_layout,
        new_layout: Layout::TransferDst,
        range,
    }
}

pub open spec fn from_dst_to_src(range: Subresources) -> Transition {
    Transition {
        src_stages: ALL_TRANSFER,
        src_access: TRANSFER_WRITE,
        dst_stages: ALL_TRANSFER,
        dst_access: TRANSFER_READ,
        old_layout: Layout::TransferDst,
        new_layout: Layout::TransferSrc,
        range,
    }
}

pub open spec fn into_shader_read(range: Subresources, old_layout: Layout) -> Transition {
    Transition {
        src_stages: ALL_TRANSFER,
        src_access: TRANSFER_READ | TRANSFER_WRITE,
        dst_stages: FRAGMENT_SHADER,
        dst_access: SHADER_READ,
        old_layout,
        new_layout: Layout::ShaderRead,
        range,
    }
}

/// What an image needs before anything may copy or blit into it, from a state
/// whose contents do not matter.
pub fn to_transfer_dst(range: Subresources, old_layout: Layout) -> (transition: Transition)
    ensures
        transition == into_transfer_dst(range, old_layout),
{
    Transition {
        src_stages: TOP_OF_PIPE,
        src_access: 0,
        dst_stages: ALL_TRANSFER,
        dst_access: TRANSFER_WRITE,
        old_layout,
        new_layout: Layout::TransferDst,
        range,
    }
}

/// What a level needs between being written and being read as a blit source.
pub fn transfer_dst_to_src(range: Subresources) -> (transition: Transition)
    ensures
        transition == from_dst_to_src(range),
{
    Transition {
        src_stages: ALL_TRANSFER,
        src_access: TRANSFER_WRITE,
        dst_stages: ALL_TRANSFER,
        dst_access: TRANSFER_READ,
        old_layout: Layout::TransferDst,
        new_layout: Layout::TransferSrc,
        range,
    }
}

/// What hands a finished image to the shaders that sample it.
pub fn to_shader_read(range: Subresources, old_layout: Layout) -> (transition: Transition)
    ensures
        transition == into_shader_read(range, old_layout),
{
    Transition {
        src_stages: ALL_TRANSFER,
        src_access: TRANSFER_READ | TRANSFER_WRITE,
        dst_stages: FRAGMENT_SHADER,
        dst_access: SHADER_READ,
        old_layout,
        new_layout: Layout::ShaderRead,
        range,
    }
}

/// One transition picks up where another leaves off: its layout is the one the
/// image was left in, and what it waits for takes in what the other let through.
pub open spec fn follows(first: Transition, second: Transition) -> bool {
    &&& second.old_layout == first.new_layout
    &&& second.range == first.range
    &&& second.src_stages & first.dst_stages == first.dst_stages
    &&& second.src_access & first.dst_access == first.dst_access
}

/// **An upload leaves no gap.** From a copy to the shaders, whether the level was
/// read back to make a smaller one or not, every transition takes up what the one
/// before it allowed.
pub proof fn uploads_are_chained(range: Subresources, before: Layout)
    ensures
        follows(into_transfer_dst(range, before), from_dst_to_src(range)),
        follows(from_dst_to_src(range), into_shader_read(range, Layout::TransferSrc)),
        follows(into_transfer_dst(range, before), into_shader_read(range, Layout::TransferDst)),
{
    assert(0x1000u64 & 0x1000 == 0x1000) by (bit_vector);
    assert((0x800u64 | 0x1000) & 0x800 == 0x800) by (bit_vector);
    assert((0x800u64 | 0x1000) & 0x1000 == 0x1000) by (bit_vector);
}

/// **No access is lost.** Every access mask fits the narrow interface.
pub proof fn access_masks_are_narrow(range: Subresources, before: Layout)
    ensures
        into_transfer_dst(range, before).src_access <= u32::MAX,
        into_transfer_dst(range, before).dst_access <= u32::MAX,
        from_dst_to_src(range).src_access <= u32::MAX,
        from_dst_to_src(range).dst_access <= u32::MAX,
        into_shader_read(range, before).src_access <= u32::MAX,
        into_shader_read(range, before).dst_access <= u32::MAX,
{
    assert((0x800u64 | 0x1000) == 0x1800) by (bit_vector);
}

/// **Every transition leaves its image as it is used next.** Before a copy nothing is
/// waited for, and what is copied may be written; before a blit reads a level, what was
/// written into it is; and before a shader samples an image, every transfer on it is
/// over, reads and writes, and what it reads is what they left. None of them touches
/// more of the image than it was asked to.
pub proof fn transitions_lead_to_their_use(range: Subresources, before: Layout)
    ensures
        ({
            let copy = into_transfer_dst(range, before);
            let blit = from_dst_to_src(range);
            let sample = into_shader_read(range, before);
            &&& copy.range == range && blit.range == range && sample.range == range
            &&& copy.old_layout == before && copy.new_layout is TransferDst
            &&& copy.src_stages == TOP_OF_PIPE && copy.src_access == 0
            &&& copy.dst_stages == ALL_TRANSFER && copy.dst_access == TRANSFER_WRITE
            &&& blit.old_layout is TransferDst && blit.new_layout is TransferSrc
            &&& blit.src_stages == ALL_TRANSFER && blit.src_access == TRANSFER_WRITE
            &&& blit.dst_stages == ALL_TRANSFER && blit.dst_access == TRANSFER_READ
            &&& sample.old_layout == before && sample.new_layout is ShaderRead
            &&& sample.src_stages == ALL_TRANSFER
            &&& sample.src_access & TRANSFER_WRITE == TRANSFER_WRITE
            &&& sample.src_access & TRANSFER_READ == TRANSFER_READ
            &&& sample.dst_stages == FRAGMENT_SHADER && sample.dst_access == SHADER_READ
        }),
{
    assert((0x800u64 | 0x1000) & 0x1000 == 0x1000) by (bit_vector);
    assert((0x800u64 | 0x1000) & 0x800 == 0x800) by (bit_vector);
}

/// **A range is the levels and layers between its ends**, the first ends in and the
/// last ones out.
pub proof fn ranges_are_half_open(range: Subresources, mip: int, layer: int)
    ensures
        meant(range, mip, layer) <==> range.first_mip <= mip && mip < range.end_mip
            && range.first_layer <= layer && layer < range.end_layer,
{
}

} // verus!
