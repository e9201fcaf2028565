//! The procedural maps whose texels are whole numbers, and the decoding of the
//! ones that ship as files.
//!
//! A map is four bytes a texel, row by row.

use vstd::prelude::*;

verus! {

/// What decoding an encoded picture gives: its texels, its width and its height,
/// or `None` where it cannot be decoded.
pub uninterp spec fn decoded_rgba(bytes: Seq<u8>) -> Option<(Seq<u8>, u32, u32)>;

/// Calls `image::load_from_memory`, and `DynamicImage::to_rgba8` on what it
/// returns.
///
/// Trusted of them: what comes back depends on the bytes alone, given the formats
/// the crate is built with and that nobody registers decoding hooks with it; and
/// the buffer holds at least four bytes for every texel of the reported size,
/// which the crate checks when it makes the image. What the texels are is left to
/// the formats.
#[verifier::external_body]
fn decode_rgba(bytes: &[u8]) -> (decoded: Option<(Vec<u8>, u32, u32)>)
    ensures
        decoded is Some <==> decoded_rgba(bytes@) is Some,
        decoded matches Some((data, width, height)) ==> decoded_rgba(bytes@) == Some(
            (data@, width, height),
        ) && data@.len() >= 4 * (width * height),
{
    let picture = image::load_from_memory(bytes).ok()?.to_rgba8();
    let (width, height) = picture.dimensions();
    Some((picture.into_raw(), width, height))
}

/// Decode a picture that ships with the engine: four bytes a texel, its width and
/// its height.
pub fn load_rgba(bytes: &[u8]) -> (picture: (Vec<u8>, u32, u32))
    requires
        decoded_rgba(bytes@) is Some,
    ensures
        decoded_rgba(bytes@) == Some((picture.0@, picture.1, picture.2)),
        picture.0@.len() >= 4 * (picture.1 * picture.2),
{
    decode_rgba(bytes).unwrap()
}

/// Decode a picture of unknown origin, or `None` where it cannot be.
pub fn try_load_rgba(bytes: &[u8]) -> (picture: Option<(Vec<u8>, u32, u32)>)
    ensures
        picture is Some <==> decoded_rgba(bytes@) is Some,
        picture matches Some((data, width, height)) ==> decoded_rgba(bytes@) == Some(
            (data@, width, height),
        ) && data@.len() >= 4 * (width * height),
{
    match decode_rgba(bytes) {
        Some(_) => Some(load_rgba(bytes)),
        None => None,
    }
}

/// Byte `channel` of texel `(x, y)` of a square map.
pub open spec fn texel(data: Seq<u8>, size: u32, x: int, y: int, channel: int) -> u8 {
    data[4 * (y * size as int + x) + channel]
}

/// The cell of a checkerboard: an even share of the side, and at least a texel.
pub open spec fn cell_of(size: u32, checks: u32) -> int {
    if size / checks >= 1 {
        (size / checks) as int
    } else {
        1
    }
}

/// What a checkerboard shows at one texel.
pub open spec fn check_at(size: u32, checks: u32, a: [u8; 3], b: [u8; 3], x: int, y: int) -> Seq<u8> {
    let cell = cell_of(size, checks);
    let color = if (x / cell + y / cell) % 2 == 0 {
        a@
    } else {
        b@
    };
    seq![color[0], color[1], color[2], 255u8]
}

/// What the metallic-roughness map shows in one column: roughness rises across
/// the map, and metal comes in bands an eighth of it wide.
pub open spec fn metal_at(size: u32, x: int) -> Seq<u8> {
    let band: int = if size / 8 >= 1 {
        (size / 8) as int
    } else {
        1
    };
    seq![
        0u8,
        (x * 255 / size as int) as u8,
        if (x / band) % 2 == 0 {
            255u8
        } else {
            0u8
        },
        255u8,
    ]
}

proof fn texels_apart(x1: int, y1: int, x2: int, y2: int, size: int)
    requires
        0 <= x1 < size,
        0 <= x2 < size,
        y1 < y2 || (y1 == y2 && x1 < x2),
    ensures
        y1 * size + x1 < y2 * size + x2,
{
    assert(y1 * size + x1 < y2 * size + x2) by (nonlinear_arith)
        requires
            0 <= x1 < size,
            0 <= x2 < size,
            y1 < y2 || (y1 == y2 && x1 < x2),
    ;
}

/// A board of `checks` cells on a side in two colours, `a` in the corner.
pub fn checkerboard(size: u32, checks: u32, a: [u8; 3], b: [u8; 3]) -> (data: Vec<u8>)
    requires
        checks > 0,
        size * size * 4 <= u32::MAX,
    ensures
        data@.len() == 4 * (size * size),
        forall|x: int, y: int, channel: int|
            0 <= x < size && 0 <= y < size && 0 <= channel < 4 ==> #[trigger] texel(
                data@,
                size,
                x,
                y,
                channel,
            ) == check_at(size, checks, a, b, x, y)[channel],
{
    let share: u32 = size / checks;
    let cell: u32 = if share >= 1 {
        share
    } else {
        1
    };
    let mut data: Vec<u8> = Vec::new();
    let mut y: u32 = 0;
    while y < size
        invariant
            checks > 0,
            y <= size,
            cell == cell_of(size, checks),
            data@.len() == 4 * (y * size),
            forall|i: int, j: int, channel: int|
                0 <= i < size && 0 <= j < y && 0 <= channel < 4 ==> #[trigger] texel(
                    data@,
                    size,
                    i,
                    j,
                    channel,
                ) == check_at(size, checks, a, b, i, j)[channel],
        decreases size - y,
    {
        let mut x: u32 = 0;
        while x < size
            invariant
                checks > 0,
                y < size,
                x <= size,
                cell == cell_of(size, checks),
                data@.len() == 4 * (y * size + x),
                forall|i: int, j: int, channel: int|
                    0 <= i < size && 0 <= j && (j < y || (j == y && i < x)) && 0 <= channel < 4
                        ==> #[trigger] texel(data@, size, i, j, channel) == check_at(
                        size,
                        checks,
                        a,
                        b,
                        i,
                        j,
                    )[channel],
            decreases size - x,
        {
            let ghost before = data@;
            assert(x / cell <= x && y / cell <= y) by (nonlinear_arith)
                requires
                    cell >= 1,
            ;
            assert(x as u64 / cell as u64 == x / cell && y as u64 / cell as u64 == y / cell);
            let even = (x as u64 / cell as u64 + y as u64 / cell as u64) % 2 == 0;
            let red: u8 = if even { a[0] } else { b[0] };
            let green: u8 = if even { a[1] } else { b[1] };
            let blue: u8 = if even { a[2] } else { b[2] };
            data.push(red);
            data.push(green);
            data.push(blue);
            data.push(255);
            proof {
                assert forall|i: int, j: int, channel: int|
                    0 <= i < size && 0 <= j && (j < y || (j == y && i < x + 1)) && 0 <= channel
                        < 4 implies #[trigger] texel(data@, size, i, j, channel) == check_at(
                    size,
                    checks,
                    a,
                    b,
                    i,
                    j,
                )[channel] by {
                    if j == y && i == x {
                        let at = y * size as int + x;
                        assert(data@[4 * at + 0] == red);
                        assert(data@[4 * at + 1] == green);
                        assert(data@[4 * at + 2] == blue);
                        assert(data@[4 * at + 3] == 255);
                    } else {
                        texels_apart(i, j, x as int, y as int, size as int);
                        assert(0 <= j * size as int) by (nonlinear_arith)
                            requires
                                0 <= j,
                        ;
                        assert(texel(before, size, i, j, channel) == texel(
                            data@,
                            size,
                            i,
                            j,
                            channel,
                        ));
                    }
                }
            }
            x = x + 1;
        }
        assert((y + 1) * size == y * size + size) by (nonlinear_arith);
        y = y + 1;
    }
    data
}

/// A metallic-roughness map that shows the whole range of both: glTF's packing,
/// green for roughness and blue for metal.
pub fn metallic_roughness(size: u32) -> (data: Vec<u8>)
    requires
        size * size * 4 <= u32::MAX,
    ensures
        data@.len() == 4 * (size * size),
        forall|x: int, y: int, channel: int|
            0 <= x < size && 0 <= y < size && 0 <= channel < 4 ==> #[trigger] texel(
                data@,
                size,
                x,
                y,
                channel,
            ) == metal_at(size, x)[channel],
{
    let eighth: u32 = size / 8;
    let band: u32 = if eighth >= 1 {
        eighth
    } else {
        1
    };
    let mut data: Vec<u8> = Vec::new();
    assert(size <= 0x7FFF) by (nonlinear_arith)
        requires
            size * size * 4 <= u32::MAX,
    ;
    let mut y: u32 = 0;
    while y < size
        invariant
            y <= size <= 0x7FFF,
            band == (if size / 8 >= 1 {
                size / 8
            } else {
                1
            }),
            data@.len() == 4 * (y * size),
            forall|i: int, j: int, channel: int|
                0 <= i < size && 0 <= j < y && 0 <= channel < 4 ==> #[trigger] texel(
                    data@,
                    size,
                    i,
                    j,
                    channel,
                ) == metal_at(size, i)[channel],
        decreases size - y,
    {
        let mut x: u32 = 0;
        while x < size
            invariant
                y < size <= 0x7FFF,
                x <= size,
                band == (if size / 8 >= 1 {
                    size / 8
                } else {
                    1
                }),
                data@.len() == 4 * (y * size + x),
                forall|i: int, j: int, channel: int|
                    0 <= i < size && 0 <= j && (j < y || (j == y && i < x)) && 0 <= channel < 4
                        ==> #[trigger] texel(data@, size, i, j, channel) == metal_at(
                        size,
                        i,
                    )[channel],
            decreases size - x,
        {
            let ghost before = data@;
            assert(x * 255 / size as int <= 255) by (nonlinear_arith)
                requires
                    x < size,
                    size > 0,
            ;
            let roughness: u8 = (x * 255 / size) as u8;
            let metallic: u8 = if (x / band) % 2 == 0 {
                255
            } else {
                0
            };
            data.push(0);
            data.push(roughness);
            data.push(metallic);
            data.push(255);
            proof {
                assert forall|i: int, j: int, channel: int|
                    0 <= i < size && 0 <= j && (j < y || (j == y && i < x + 1)) && 0 <= channel
                        < 4 implies #[trigger] texel(data@, size, i, j, channel) == metal_at(
                    size,
                    i,
                )[channel] by {
                    if j == y && i == x {
                        let at = y * size as int + x;
                        assert(data@[4 * at + 0] == 0);
                        assert(data@[4 * at + 1] == roughness);
                        assert(data@[4 * at + 2] == metallic);
                        assert(data@[4 * at + 3] == 255);
                    } else {
                        texels_apart(i, j, x as int, y as int, size as int);
                        assert(0 <= j * size as int) by (nonlinear_arith)
                            requires
                                0 <= j,
                        ;
                        assert(texel(before, size, i, j, channel) == texel(
                            data@,
                            size,
                            i,
                            j,
                            channel,
                        ));
                    }
                }
            }
            x = x + 1;
        }
        assert((y + 1) * size == y * size + size) by (nonlinear_arith);
        y = y + 1;
    }
    data
}

/// PCG's output hash.
pub open spec fn hash_spec(seed: u32) -> u32 {
    let state = seed.wrapping_mul(747_796_405).wrapping_add(2_891_336_453);
    let word = ((state >> ((state >> 28) + 4) as u32) ^ state).wrapping_mul(277_803_737);
    (word >> 22) ^ word
}

/// PCG's output hash, which is enough of a random number for a wall: what it has
/// to be is repeatable. The number it stands for is a fraction of the greatest
/// one.
pub fn hash_bits(seed: u32) -> (hash: u32)
    ensures
        hash == hash_spec(seed),
{
    let state: u32 = seed.wrapping_mul(747_796_405).wrapping_add(2_891_336_453);
    assert(state >> 28 <= 15) by (bit_vector);
    let shift: u32 = (state >> 28) + 4;
    let word: u32 = ((state >> shift) ^ state).wrapping_mul(277_803_737);
    (word >> 22) ^ word
}

/// How large a block of a masonry wall is, in texels: at least two, so that it
/// has an edge on both sides.
pub open spec fn block_size(size: u32, count: u32) -> u32 {
    if size / count >= 2 {
        size / count
    } else {
        2
    }
}

/// One texel of a running-bond wall.
#[derive(Clone, Copy, Debug, PartialEq, Eq, Structural)]
pub struct BrickTexel {
    /// Texels to the nearest joint, across and up.
    pub across: u32,
    pub up: u32,
    /// The block it belongs to.
    pub block: u32,
}

/// The lesser of the distances to the two ends of a span.
pub open spec fn to_edge(at: int, span: int) -> int {
    if at <= span - 1 - at {
        at
    } else {
        span - 1 - at
    }
}

/// The block size of a wall of `columns` by `rows` blocks over `size` texels.
pub fn brick_cells(size: u32, columns: u32, rows: u32) -> (cells: (u32, u32))
    requires
        columns > 0,
        rows > 0,
    ensures
        cells.0 == block_size(size, columns),
        cells.1 == block_size(size, rows),
{
    let width: u32 = size / columns;
    let height: u32 = size / rows;
    (
        if width >= 2 {
            width
        } else {
            2
        },
        if height >= 2 {
            height
        } else {
            2
        },
    )
}

/// Which block of the wall a texel belongs to, and how far it is from a joint.
///
/// Alternate courses are offset by half a block, in whole texels: otherwise the
/// course above meets the one below off by one.
pub fn brick_texel(x: u32, y: u32, cell_w: u32, cell_h: u32) -> (texel: BrickTexel)
    requires
        cell_w >= 2,
        cell_h >= 2,
        (y / cell_h) % 2 == 1 ==> x + cell_w / 2 <= u32::MAX,
    ensures
        ({
            let row = y / cell_h;
            let shifted = x + (if row % 2 == 1 {
                cell_w / 2
            } else {
                0
            });
            &&& texel.across == to_edge(shifted % cell_w as int, cell_w as int)
            &&& texel.up == to_edge(y as int % cell_h as int, cell_h as int)
            &&& texel.block == row.wrapping_mul(0x9e37).wrapping_add(
                (shifted / cell_w as int) as u32,
            )
        }),
{
    let row: u32 = y / cell_h;
    let shift: u32 = if row % 2 == 1 {
        cell_w / 2
    } else {
        0
    };
    let shifted: u32 = x + shift;
    let at_x: u32 = shifted % cell_w;
    let at_y: u32 = y % cell_h;
    let column: u32 = shifted / cell_w;
    BrickTexel {
        across: if at_x <= cell_w - 1 - at_x {
            at_x
        } else {
            cell_w - 1 - at_x
        },
        up: if at_y <= cell_h - 1 - at_y {
            at_y
        } else {
            cell_h - 1 - at_y
        },
        block: row.wrapping_mul(0x9e37).wrapping_add(column),
    }
}

/// **A board alternates from cell to cell.** The first colour is in the corner; all
/// texels of a cell show one colour; a step of a cell across or up shows the other;
/// and every texel is opaque.
pub proof fn boards_alternate(
    size: u32,
    checks: u32,
    a: [u8; 3],
    b: [u8; 3],
    x: int,
    y: int,
    within: int,
)
    requires
        checks > 0,
        0 <= x,
        0 <= y,
        x % cell_of(size, checks) <= x % cell_of(size, checks) + within < cell_of(size, checks),
    ensures
        ({
            let cell = cell_of(size, checks);
            let first = seq![a@[0], a@[1], a@[2], 255u8];
            let second = seq![b@[0], b@[1], b@[2], 255u8];
            let at = |x: int, y: int| check_at(size, checks, a, b, x, y);
            &&& at(0, 0) == first
            &&& at(x, y) == first || at(x, y) == second
            &&& at(x + within, y) == at(x, y)
            &&& at(y, x) == at(x, y)
            &&& at(x + 2 * cell, y) == at(x, y)
            &&& first != second ==> at(x + cell, y) != at(x, y) && at(x, y + cell) != at(x, y)
        }),
{
    let cell = cell_of(size, checks);
    assert(0int / cell == 0) by (nonlinear_arith)
        requires
            cell >= 1,
    ;
    assert((x + cell) / cell == x / cell + 1 && (y + cell) / cell == y / cell + 1 && (x + 2 * cell)
        / cell == x / cell + 2) by (nonlinear_arith)
        requires
            cell >= 1,
    ;
    vstd::arithmetic::div_mod::lemma_fundamental_div_mod(x, cell);
    vstd::arithmetic::div_mod::lemma_fundamental_div_mod_converse(
        x + within,
        cell,
        x / cell,
        x % cell + within,
    );
    let first = seq![a@[0], a@[1], a@[2], 255u8];
    let second = seq![b@[0], b@[1], b@[2], 255u8];
    assert(check_at(size, checks, a, b, 0, 0) =~= first);
}

/// **A board has the cells it was asked for.** Where they fit they are an even share of
/// the side, as large as it allows, and otherwise a texel each.
pub proof fn cells_share_the_side(size: u32, checks: u32)
    requires
        checks > 0,
    ensures
        checks <= size ==> cell_of(size, checks) * checks <= size < (cell_of(size, checks) + 1)
            * checks,
        checks > size ==> cell_of(size, checks) == 1,
{
    assert((size / checks) * checks <= size < (size / checks + 1) * checks) by (nonlinear_arith)
        requires
            checks > 0,
    ;
    assert((checks <= size) ==> size / checks >= 1) by (nonlinear_arith)
        requires
            checks > 0,
    ;
    assert((checks > size) ==> size / checks == 0) by (nonlinear_arith)
        requires
            checks > 0,
    ;
}

/// **Roughness rises evenly across the map and metal comes in bands.** The map starts
/// smooth and of metal; roughness is the column's share of the width in whole steps;
/// metal changes from one eighth of the width to the next.
pub proof fn maps_show_the_whole_range(size: u32, x: int)
    requires
        0 <= x < size,
    ensures
        ({
            let texel = metal_at(size, x);
            let band: int = if size >= 8 {
                (size / 8) as int
            } else {
                1
            };
            &&& texel.len() == 4
            &&& texel[0] == 0
            &&& texel[3] == 255
            &&& texel[1] * size <= 255 * x < (texel[1] + 1) * size
            &&& texel[2] == 0 || texel[2] == 255
            &&& x < band ==> texel[2] == 255
            &&& metal_at(size, x + band)[2] != texel[2]
            &&& 0 < x && x % band != 0 ==> metal_at(size, x - 1)[2] == texel[2]
        }),
{
    let band: int = if size >= 8 {
        (size / 8) as int
    } else {
        1
    };
    let share = x * 255 / size as int;
    assert(0 <= share <= 255 && share * size <= 255 * x < (share + 1) * size) by (nonlinear_arith)
        requires
            0 <= x < size,
            share == x * 255 / size as int,
    ;
    assert((x + band) / band == x / band + 1) by (nonlinear_arith)
        requires
            band >= 1,
    ;
    assert(x < band ==> x / band == 0) by (nonlinear_arith)
        requires
            band >= 1,
            0 <= x,
    ;
    vstd::arithmetic::div_mod::lemma_fundamental_div_mod(x, band);
    vstd::arithmetic::div_mod::lemma_mod_bound(x, band);
    if x % band != 0 {
        vstd::arithmetic::div_mod::lemma_fundamental_div_mod_converse(
            x - 1,
            band,
            x / band,
            x % band - 1,
        );
    }
}

/// **The nearer joint is the one that counts.** The distance is one of the two, the
/// lesser, and the same from either side; the first and last texel stand at a joint.
pub proof fn the_nearer_joint_counts(at: int, span: int)
    requires
        0 <= at < span,
    ensures
        to_edge(at, span) == at || to_edge(at, span) == span - 1 - at,
        0 <= to_edge(at, span) <= at,
        to_edge(at, span) <= span - 1 - at,
        to_edge(at, span) == to_edge(span - 1 - at, span),
{
}

/// **A wall has the blocks it was asked for.** Where they are two texels or more they
/// are an even share of the side, as large as it allows.
pub proof fn blocks_share_the_side(size: u32, count: u32)
    requires
        count > 0,
    ensures
        block_size(size, count) >= 2,
        2 * count <= size ==> block_size(size, count) * count <= size < (block_size(size, count)
            + 1) * count,
        2 * count > size ==> block_size(size, count) == 2,
{
    assert((size / count) * count <= size < (size / count + 1) * count) by (nonlinear_arith)
        requires
            count > 0,
    ;
    assert((2 * count <= size) ==> size / count >= 2) by (nonlinear_arith)
        requires
            count > 0,
    ;
    assert((2 * count > size) ==> size / count < 2) by (nonlinear_arith)
        requires
            count > 0,
    ;
}

/// **The hash is PCG's**: a step of the generator, its word shifted by what its own top
/// four bits say, multiplied, and folded once more; all of it in two and thirty bits.
pub proof fn the_hash_is_pcgs(seed: u32) -> (words: (u32, u32))
    ensures
        words.0 == (seed * 747_796_405 + 2_891_336_453) % 0x1_0000_0000,
        words.1 == (((words.0 >> ((words.0 / 0x1000_0000 + 4) as u32)) ^ words.0) * 277_803_737)
            % 0x1_0000_0000,
        hash_spec(seed) == (words.1 >> 22u32) ^ words.1,
{
    let state = seed.wrapping_mul(747_796_405).wrapping_add(2_891_336_453);
    assert(state >> 28 == state / 0x1000_0000) by (bit_vector);
    let word = ((state >> ((state >> 28) + 4) as u32) ^ state).wrapping_mul(277_803_737);
    (state, word)
}

} // verus!
