use ash::vk;
use ferron::transitions::{
    to_shader_read, to_transfer_dst, transfer_dst_to_src, whole_image, Layout, Subresources,
    ALL_TRANSFER, FRAGMENT_SHADER, SHADER_READ, TOP_OF_PIPE, TRANSFER_READ, TRANSFER_WRITE,
};

/// The masks are the device's own.
#[test]
fn masks_are_vulkans() {
    assert_eq!(TOP_OF_PIPE, vk::PipelineStageFlags2::TOP_OF_PIPE.as_raw());
    assert_eq!(FRAGMENT_SHADER, vk::PipelineStageFlags2::FRAGMENT_SHADER.as_raw());
    assert_eq!(ALL_TRANSFER, vk::PipelineStageFlags2::ALL_TRANSFER.as_raw());
    assert_eq!(SHADER_READ, vk::AccessFlags2::SHADER_READ.as_raw());
    assert_eq!(TRANSFER_READ, vk::AccessFlags2::TRANSFER_READ.as_raw());
    assert_eq!(TRANSFER_WRITE, vk::AccessFlags2::TRANSFER_WRITE.as_raw());
}

#[test]
fn the_whole_image_is_every_level_and_layer() {
    assert_eq!(
        whole_image(11, 6),
        Subresources { first_mip: 0, end_mip: 11, first_layer: 0, end_layer: 6 }
    );
}

/// From a copy to the shaders, every transition takes up what the one before it
/// let through.
#[test]
fn an_upload_is_chained() {
    let range = whole_image(1, 1);
    let copy = to_transfer_dst(range, Layout::Undefined);
    assert_eq!((copy.old_layout, copy.new_layout), (Layout::Undefined, Layout::TransferDst));
    assert_eq!((copy.src_stages, copy.src_access), (TOP_OF_PIPE, 0));
    let blit = transfer_dst_to_src(range);
    assert_eq!(blit.old_layout, copy.new_layout);
    assert_eq!((blit.src_stages, blit.src_access), (copy.dst_stages, copy.dst_access));
    let read = to_shader_read(range, Layout::TransferSrc);
    assert_eq!(read.old_layout, blit.new_layout);
    assert_eq!(read.src_access, TRANSFER_READ | TRANSFER_WRITE);
    assert_eq!((read.dst_stages, read.dst_access), (FRAGMENT_SHADER, SHADER_READ));
    assert_eq!(read.new_layout, Layout::ShaderRead);
    assert_eq!(to_shader_read(range, Layout::TransferDst).old_layout, Layout::TransferDst);
    for transition in [copy, blit, read] {
        assert_eq!(transition.range, range);
        assert!(transition.src_access <= u32::MAX as u64);
        assert!(transition.dst_access <= u32::MAX as u64);
    }
}
