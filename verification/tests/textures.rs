use ferron::textures::{
    brick_cells, brick_texel, checkerboard, hash_bits, load_rgba, metallic_roughness,
    try_load_rgba, BrickTexel,
};

#[test]
fn a_board_alternates() {
    let (a, b) = ([220, 60, 50], [240, 240, 245]);
    let board = checkerboard(8, 4, a, b);
    assert_eq!(board.len(), 8 * 8 * 4);
    for y in 0..8usize {
        for x in 0..8usize {
            let texel = &board[4 * (y * 8 + x)..4 * (y * 8 + x) + 4];
            let color = if (x / 2 + y / 2) % 2 == 0 { a } else { b };
            assert_eq!(texel, &[color[0], color[1], color[2], 255]);
        }
    }
    // More cells than texels is a cell a texel.
    assert_eq!(checkerboard(2, 9, [1, 2, 3], [4, 5, 6]), vec![
        1, 2, 3, 255, 4, 5, 6, 255, 4, 5, 6, 255, 1, 2, 3, 255
    ]);
    assert!(checkerboard(0, 1, a, b).is_empty());
}

#[test]
fn roughness_rises_across_the_map() {
    let size = 256usize;
    let map = metallic_roughness(256);
    assert_eq!(map.len(), size * size * 4);
    for y in [0, 1, 255usize] {
        for x in 0..size {
            let texel = &map[4 * (y * size + x)..4 * (y * size + x) + 4];
            let metal = if (x / 32) % 2 == 0 { 255 } else { 0 };
            assert_eq!(texel, &[0, (x * 255 / 256) as u8, metal, 255]);
        }
    }
    assert_eq!(metallic_roughness(1), vec![0, 0, 255, 255]);
}

/// The hash is PCG's, by its definition.
#[test]
fn the_hash_is_repeatable() {
    for seed in [0u32, 1, 2, 77, 0x9e37_79b9, u32::MAX] {
        let state = seed.wrapping_mul(747_796_405).wrapping_add(2_891_336_453);
        let word = ((state >> ((state >> 28).wrapping_add(4))) ^ state).wrapping_mul(277_803_737);
        assert_eq!(hash_bits(seed), (word >> 22) ^ word);
    }
    assert_eq!(hash_bits(0), 129708002);
}

/// Running bond: every other course is offset by half a block.
#[test]
fn courses_are_offset() {
    assert_eq!(brick_cells(512, 8, 4), (64, 128));
    assert_eq!(brick_cells(4, 8, 4), (2, 2));
    assert_eq!(brick_texel(0, 0, 64, 128), BrickTexel { across: 0, up: 0, block: 0 });
    assert_eq!(brick_texel(63, 127, 64, 128), BrickTexel { across: 0, up: 0, block: 0 });
    assert_eq!(brick_texel(32, 64, 64, 128), BrickTexel { across: 31, up: 63, block: 0 });
    assert_eq!(brick_texel(0, 128, 64, 128), BrickTexel { across: 31, up: 0, block: 0x9e37 });
    assert_eq!(brick_texel(32, 128, 64, 128), BrickTexel { across: 0, up: 0, block: 0x9e38 });
    // An even course is not shifted, however far along it a texel is.
    assert_eq!(
        brick_texel(u32::MAX, 0, 64, 128),
        BrickTexel { across: 0, up: 0, block: 0x03ff_ffff }
    );
}

fn encoded(format: image::ImageFormat) -> Vec<u8> {
    let picture = image::RgbImage::from_fn(3, 2, |x, y| image::Rgb([10 * x as u8, 20 * y as u8, 7]));
    let mut bytes = std::io::Cursor::new(Vec::new());
    picture.write_to(&mut bytes, format).unwrap();
    bytes.into_inner()
}

#[test]
fn a_picture_is_decoded_to_four_channels() {
    let bytes = encoded(image::ImageFormat::Png);
    let (data, width, height) = load_rgba(&bytes);
    assert_eq!((width, height), (3, 2));
    assert_eq!(data, vec![
        0, 0, 7, 255, 10, 0, 7, 255, 20, 0, 7, 255, 0, 20, 7, 255, 10, 20, 7, 255, 20, 20, 7, 255
    ]);
    assert_eq!(try_load_rgba(&bytes), Some((data, width, height)));
}

#[test]
fn a_photograph_is_decoded_too() {
    let bytes = encoded(image::ImageFormat::Jpeg);
    let (data, width, height) = try_load_rgba(&bytes).unwrap();
    assert_eq!((width, height), (3, 2));
    assert_eq!(data.len(), 24);
    assert!(data.chunks(4).all(|texel| texel[3] == 255));
}

#[test]
fn what_is_no_picture_is_refused() {
    assert_eq!(try_load_rgba(&[]), None);
    assert_eq!(try_load_rgba(b"not a picture"), None);
    let mut bytes = encoded(image::ImageFormat::Png);
    bytes.truncate(bytes.len() / 2);
    assert_eq!(try_load_rgba(&bytes), None);
}
