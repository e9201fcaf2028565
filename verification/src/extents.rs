//! Sizes: how deep a mip pyramid an extent carries, and how many workgroups
//! cover it.

use vstd::prelude::*;
use vstd::std_specs::bits::{axiom_u32_leading_zeros, u32_leading_zeros};

verus! {

/// Threads on a side of the workgroups that run once per pixel.
pub const TILE: u32 = 8;

/// Texels on a side of the tile that one workgroup reduces to a whole pyramid.
pub const HIZ_TILE: u32 = 64;

/// Levels of the reflections' depth pyramid: as many as one tile reduces to.
pub const HIZ_LEVELS: u32 = 7;

/// Levels of the reflections' colour pyramid, reduced by the same tile.
pub const SOURCE_LEVELS: u32 = 7;

/// Levels of the refraction's scene pyramid, reduced by the same tile.
pub const SCENE_LEVELS: u32 = 7;

/// Levels of the occlusion pyramid.
pub const OCCLUSION_LEVELS: u32 = 6;

/// The motion blur's velocity tile is this power of two pixels on a side.
pub const TILE_SHIFT: u32 = 4;

/// The longest blur the gather reconstructs, in whole pixels: the gather reaches
/// half a vector, so this is exactly the two tiles that the neighbour search
/// dilates one ring over.
pub const MAX_BLUR_PIXELS: u32 = 2 << TILE_SHIFT;

/// The greater of two sizes.
pub open spec fn larger(a: u32, b: u32) -> u32 {
    if a >= b {
        a
    } else {
        b
    }
}

/// Levels of a chain that halves until one texel is left.
pub open spec fn chain(size: nat) -> nat
    decreases size,
{
    if size <= 1 {
        1
    } else {
        1 + chain(size / 2)
    }
}

/// Workgroups of `tile` threads that cover `size` of them.
pub open spec fn groups_spec(size: nat, tile: nat) -> nat {
    ((size + tile - 1) / tile as int) as nat
}

proof fn leading_zeros_of_half(size: u32)
    requires
        size >= 2,
    ensures
        u32_leading_zeros(size / 2) == u32_leading_zeros(size) + 1,
{
    axiom_u32_leading_zeros(size);
    axiom_u32_leading_zeros(size / 2);
    let half: u32 = size / 2;
    let whole_zeros: u32 = u32_leading_zeros(size);
    let half_zeros: u32 = u32_leading_zeros(half);
    let whole_top: u32 = (31 - whole_zeros) as u32;
    let half_top: u32 = (31 - half_zeros) as u32;
    let whole_over: u32 = (32 - whole_zeros) as u32;
    let half_over: u32 = (32 - half_zeros) as u32;
    assert(half_zeros == whole_zeros + 1) by (bit_vector)
        requires
            size >= 2,
            half == size / 2,
            whole_zeros < 32,
            half_zeros < 32,
            whole_top + whole_zeros == 31,
            half_top + half_zeros == 31,
            whole_over + whole_zeros == 32,
            half_over + half_zeros == 32,
            (size >> whole_top) & 1u32 != 0u32,
            size >> whole_over == 0,
            (half >> half_top) & 1u32 != 0u32,
            half >> half_over == 0,
    ;
}

proof fn chain_is_bit_length(size: u32)
    requires
        size >= 1,
    ensures
        chain(size as nat) == 32 - u32_leading_zeros(size),
    decreases size,
{
    axiom_u32_leading_zeros(size);
    if size == 1 {
        let zeros: u32 = u32_leading_zeros(1);
        let top: u32 = (31 - zeros) as u32;
        assert(zeros == 31) by (bit_vector)
            requires
                zeros < 32,
                top + zeros == 31,
                (1u32 >> top) & 1u32 != 0u32,
        ;
    } else {
        leading_zeros_of_half(size);
        chain_is_bit_length(size / 2);
    }
}

/// The deepest pyramid an extent can carry: halving stops at one texel.
pub fn max_mip_levels(extent: [u32; 2]) -> (levels: u32)
    ensures
        levels == chain(larger(extent[0], extent[1]) as nat),
        1 <= levels <= 32,
{
    let mut size: u32 = if extent[0] >= extent[1] { extent[0] } else { extent[1] };
    if size < 1 {
        size = 1;
    }
    proof {
        chain_is_bit_length(size);
        axiom_u32_leading_zeros(size);
    }
    32 - size.leading_zeros()
}

/// The occlusion pyramid's first level: half the frame, and never less than a
/// texel.
pub fn base_extent(frame: [u32; 2]) -> (base: [u32; 2])
    ensures
        base[0] == larger(frame[0] / 2, 1),
        base[1] == larger(frame[1] / 2, 1),
{
    let width: u32 = frame[0] / 2;
    let height: u32 = frame[1] / 2;
    [
        if width >= 1 {
            width
        } else {
            1
        },
        if height >= 1 {
            height
        } else {
            1
        },
    ]
}

/// How many levels the occlusion pyramid gets: as many as are built, or as many
/// as its base carries where that is fewer.
pub fn levels_for(base: [u32; 2]) -> (levels: u32)
    ensures
        levels == (if chain(larger(base[0], base[1]) as nat) < OCCLUSION_LEVELS {
            chain(larger(base[0], base[1]) as nat)
        } else {
            OCCLUSION_LEVELS as nat
        }),
{
    let deepest: u32 = max_mip_levels(base);
    if deepest < OCCLUSION_LEVELS {
        deepest
    } else {
        OCCLUSION_LEVELS
    }
}

/// Workgroups of `tile` threads that cover `size` of them: the quotient, rounded
/// up.
pub fn groups(size: u32, tile: u32) -> (count: u32)
    requires
        tile >= 1,
    ensures
        count == groups_spec(size as nat, tile as nat),
{
    let whole: u32 = size / tile;
    let rest: u32 = size % tile;
    proof {
        groups_round_up(size as int, tile as int);
        assert(whole <= size) by (nonlinear_arith)
            requires
                whole == size / tile,
                tile >= 1,
        ;
        if rest > 0 {
            assert(whole < size) by (nonlinear_arith)
                requires
                    whole == size / tile,
                    rest == size % tile,
                    rest > 0,
                    tile >= 1,
            ;
        }
    }
    if rest > 0 {
        whole + 1
    } else {
        whole
    }
}

proof fn groups_round_up(size: int, tile: int)
    requires
        size >= 0,
        tile >= 1,
    ensures
        (size + tile - 1) / tile == size / tile + (if size % tile > 0 {
            1int
        } else {
            0
        }),
{
    let whole = size / tile;
    let rest = size % tile;
    vstd::arithmetic::div_mod::lemma_fundamental_div_mod(size, tile);
    if rest > 0 {
        assert(size + tile - 1 == (whole + 1) * tile + (rest - 1)) by (nonlinear_arith)
            requires
                size == tile * whole + rest,
        ;
        vstd::arithmetic::div_mod::lemma_fundamental_div_mod_converse(
            size + tile - 1,
            tile,
            whole + 1,
            rest - 1,
        );
    } else {
        assert(size + tile - 1 == whole * tile + (tile - 1)) by (nonlinear_arith)
            requires
                size == tile * whole + rest,
                rest == 0,
        ;
        vstd::arithmetic::div_mod::lemma_fundamental_div_mod_converse(
            size + tile - 1,
            tile,
            whole,
            tile - 1,
        );
    }
}

/// The workgroups that cover an extent.
pub fn dispatch_over(extent: [u32; 2], tile: u32) -> (count: [u32; 3])
    requires
        tile >= 1,
    ensures
        count[0] == groups_spec(extent[0] as nat, tile as nat),
        count[1] == groups_spec(extent[1] as nat, tile as nat),
        count[2] == 1,
{
    [groups(extent[0], tile), groups(extent[1], tile), 1]
}

/// The level each slot of a shader's storage array is bound to: its own, or the
/// last one where the pyramid is shorter than the array. Every slot has to be
/// written, and the level count is what stops a store through a spare.
pub fn bound_levels(slots: u32, levels: u32) -> (bound: Vec<u32>)
    requires
        levels >= 1,
    ensures
        bound@.len() == slots,
        forall|i: int|
            0 <= i < slots ==> #[trigger] bound@[i] == (if i < levels {
                i
            } else {
                levels - 1
            }),
{
    let mut bound: Vec<u32> = Vec::new();
    let mut slot: u32 = 0;
    while slot < slots
        invariant
            levels >= 1,
            slot <= slots,
            bound@.len() == slot,
            forall|i: int|
                0 <= i < slot ==> #[trigger] bound@[i] == (if i < levels {
                    i
                } else {
                    levels - 1
                }),
        decreases slots - slot,
    {
        bound.push(
            if slot < levels {
                slot
            } else {
                levels - 1
            },
        );
        slot = slot + 1;
    }
    bound
}

/// **Every pixel has a workgroup.** The workgroups of a dispatch cover the
/// extent, and none of them lies wholly outside it.
pub proof fn dispatch_covers_exactly(size: nat, tile: nat)
    requires
        tile >= 1,
    ensures
        groups_spec(size, tile) * tile >= size,
        groups_spec(size, tile) >= 1 ==> (groups_spec(size, tile) - 1) * tile < size,
{
    let count = (size + tile - 1) / tile as int;
    let rest = (size + tile - 1) % tile as int;
    vstd::arithmetic::div_mod::lemma_fundamental_div_mod(size + tile - 1, tile as int);
    assert(count >= 0) by (nonlinear_arith)
        requires
            count == (size + tile - 1) / tile as int,
            tile >= 1,
            size >= 0,
    ;
    assert(count * tile >= size && (count - 1) * tile < size) by (nonlinear_arith)
        requires
            size + tile - 1 == tile * count + rest,
            0 <= rest < tile,
    ;
}

/// **A pyramid ends at one texel.** The last level of a full chain has one texel
/// and the level before it has more.
pub proof fn chain_ends_at_one_texel(size: nat)
    requires
        size >= 1,
    ensures
        level_size(size, (chain(size) - 1) as nat) == 1,
        forall|level: nat| level + 1 < chain(size) ==> #[trigger] level_size(size, level) > 1,
    decreases size,
{
    if size > 1 {
        chain_ends_at_one_texel(size / 2);
        assert(level_size(size, (chain(size) - 1) as nat) == level_size(
            size / 2,
            (chain(size / 2) - 1) as nat,
        ));
        assert forall|level: nat| level + 1 < chain(size) implies #[trigger] level_size(
            size,
            level,
        ) > 1 by {
            if level > 0 {
                assert(level_size(size, level) == level_size(size / 2, (level - 1) as nat));
            }
        }
    }
}

/// The texels on a side of one level of a chain.
pub open spec fn level_size(size: nat, level: nat) -> nat
    decreases level,
{
    if level == 0 {
        size
    } else {
        level_size(size / 2, (level - 1) as nat)
    }
}

/// **One tile reduces to one pyramid.** The pyramids built by a single workgroup
/// per tile are exactly as deep as that tile reduces, and the occlusion pyramid,
/// whose first level is halved already, as deep as half of it does.
pub proof fn pyramids_are_one_tile_deep()
    ensures
        chain(HIZ_TILE as nat) == HIZ_LEVELS,
        chain(HIZ_TILE as nat) == SOURCE_LEVELS,
        chain(HIZ_TILE as nat) == SCENE_LEVELS,
        chain(HIZ_TILE as nat / 2) == OCCLUSION_LEVELS,
{
    reveal_with_fuel(chain, 8);
}

/// **The larger of two sizes is one of them, and no smaller than either.**
pub proof fn larger_is_the_greater(a: u32, b: u32)
    ensures
        larger(a, b) >= a,
        larger(a, b) >= b,
        larger(a, b) == a || larger(a, b) == b,
{
}

} // verus!
