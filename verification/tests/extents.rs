use ferron::extents::{
    base_extent, bound_levels, dispatch_over, groups, levels_for, max_mip_levels, HIZ_LEVELS,
    HIZ_TILE, MAX_BLUR_PIXELS, OCCLUSION_LEVELS, SCENE_LEVELS, SOURCE_LEVELS, TILE, TILE_SHIFT,
};

/// The tile shift, the blur cap and the shader's tile are one fact spread across
/// three files: the gather reaches half a vector, so the cap has to be exactly the
/// two tiles the neighbour-max pass dilates one ring over.
#[test]
fn the_blur_cap_reaches_exactly_the_dilated_ring() {
    let tile = (1u32 << TILE_SHIFT) as f32;
    assert_eq!(tile, 16.0, "the shaders declare a 16-pixel tile");
    assert_eq!(MAX_BLUR_PIXELS as f32 * 0.5, tile);
}

#[test]
fn the_base_is_the_frame_halved() {
    assert_eq!(base_extent([1920, 1080]), [960, 540]);
    // Halving an odd extent drops the last column.
    assert_eq!(base_extent([1921, 1081]), [960, 540]);
    assert_eq!(base_extent([1, 1]), [1, 1]);
}

/// A window too small for the full pyramid gets a shorter one.
#[test]
fn a_small_window_carries_a_shorter_pyramid() {
    assert_eq!(levels_for([960, 540]), OCCLUSION_LEVELS);
    // 16 texels across is exactly five halvings.
    assert_eq!(levels_for([16, 9]), 5);
    assert_eq!(levels_for([1, 1]), 1);
}

/// The shader reduces a fixed tile with a fixed number of steps, and the dispatch
/// is sized off the same tile.
#[test]
fn the_pyramid_is_no_deeper_than_one_tile_can_reduce() {
    assert_eq!(
        HIZ_LEVELS,
        HIZ_TILE.trailing_zeros() + 1,
        "a {HIZ_TILE}-texel tile reduces to {} levels, not {HIZ_LEVELS}",
        HIZ_TILE.trailing_zeros() + 1,
    );
    assert_eq!(SOURCE_LEVELS, HIZ_LEVELS);
    assert_eq!(SCENE_LEVELS, HIZ_LEVELS);
}

#[test]
fn a_mip_chain_ends_at_one_texel() {
    assert_eq!(max_mip_levels([1, 1]), 1);
    assert_eq!(max_mip_levels([0, 0]), 1);
    assert_eq!(max_mip_levels([2, 1]), 2);
    assert_eq!(max_mip_levels([3, 1]), 2);
    assert_eq!(max_mip_levels([1920, 1080]), 11);
    assert_eq!(max_mip_levels([1, u32::MAX]), 32);
    for side in 1..2000u32 {
        let mut levels = 1;
        let mut size = side;
        while size > 1 {
            size /= 2;
            levels += 1;
        }
        assert_eq!(max_mip_levels([side, 1]), levels);
    }
}

#[test]
fn a_dispatch_covers_its_target() {
    assert_eq!(dispatch_over([1920, 1080], TILE), [240, 135, 1]);
    assert_eq!(dispatch_over([1921, 1081], TILE), [241, 136, 1]);
    assert_eq!(dispatch_over([0, 1], TILE), [0, 1, 1]);
    assert_eq!(groups(u32::MAX, 1), u32::MAX);
    assert_eq!(groups(u32::MAX, 64), u32::MAX.div_ceil(64));
    for size in 0..300u32 {
        assert_eq!(groups(size, HIZ_TILE), size.div_ceil(HIZ_TILE));
    }
}

#[test]
fn spare_slots_repeat_the_last_level() {
    assert_eq!(bound_levels(7, 3), vec![0, 1, 2, 2, 2, 2, 2]);
    assert_eq!(bound_levels(3, 7), vec![0, 1, 2]);
    assert_eq!(bound_levels(2, 1), vec![0, 0]);
}
