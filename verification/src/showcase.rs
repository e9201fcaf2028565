//! The courtyard: the materials of the rig, arranged as somewhere.
//!
//! The sun is low and the camera looks into it, so the only surface that is both
//! lit and visible is the ground. The walls are kept low enough for the sun to
//! clear them and land on it.
//!
//! Lengths are in thousandths of a metre, angles in degrees.

use crate::library::{Color, MaterialKey, MeshKey, WALL_TILE};
use crate::scene::{
    cubed, drawable, ground_scorch, halved, light, numbered, panel_size, point, scorch, scorch_of,
    spawn, spawn_light, views, Air, Body, Eye, Point, Scene, Spawn, SpawnView, Turn, SKY_HEIGHT,
    SKY_WIDTH,
};
use crate::text::written;
use crate::textures::{hash_bits, hash_spec};
use vstd::prelude::*;
use vstd::string::*;

verus! {

/// The floor's extent. The courtyard is open on its near side, which is where the
/// camera stands.
pub const FLOOR_WEST: i32 = -8_000;

pub const FLOOR_EAST: i32 = 8_000;

pub const FLOOR_FAR: i32 = -9_000;

pub const FLOOR_NEAR: i32 = 7_000;

/// Edge of one flagstone, and so the metres that the rock maps are stretched
/// over: each stone is one quad carrying one tile.
pub const STONE: i32 = 2_000;

/// Wall thickness.
pub const THICK: i32 = 500;

/// The gateway's opening in the west wall, and its head height. The sun enters
/// here.
pub const GATE_FAR: i32 = -6_400;

pub const GATE_NEAR: i32 = -3_200;

pub const GATE_HEAD: i32 = 3_200;

/// Half way between two places.
pub open spec fn middle_of(from: i32, to: i32) -> int {
    (from + to) / 2
}

fn middle(from: i32, to: i32) -> (middle: i32)
    requires
        -1_000_000 <= from <= to <= 1_000_000,
    ensures
        middle == middle_of(from, to),
{
    from + ((to - from) as u32 / 2) as i32
}

/// A block of the courtyard's structural stone.
pub open spec fn slab_of(name: Seq<char>, center: Point, size: Point) -> SpawnView {
    SpawnView {
        name,
        at: center,
        turn: Turn::Level,
        size,
        body: Body::Mesh { mesh: MeshKey::CubePlain, material: MaterialKey::Stone },
    }
}

fn slab(out: &mut Vec<Spawn>, name: String, center: Point, size: Point)
    ensures
        views(final(out)@) == views(old(out)@).push(slab_of(name@, center, size)),
{
    spawn(
        out,
        name,
        center,
        Turn::Level,
        size,
        Body::Mesh { mesh: MeshKey::CubePlain, material: MaterialKey::Stone },
    );
}

// ---------------------------------------------------------------------------
// The paving.

/// The stone that a coordinate falls on: the nearest, and the one away from the
/// middle where two are as near.
pub open spec fn ground_of(v: i32) -> int {
    if v >= 0 {
        (v + STONE / 2) / (STONE as int)
    } else {
        -((STONE / 2 - v) / (STONE as int))
    }
}

fn ground(v: i32) -> (stone: i32)
    requires
        -1_000_000 <= v <= 1_000_000,
    ensures
        stone == ground_of(v),
{
    if v >= 0 {
        ((v + 1_000) as u32 / 2_000) as i32
    } else {
        -(((1_000 - v) as u32 / 2_000) as i32)
    }
}

/// Stones in one column of the paving, from the far side to the near one.
pub open spec fn rows_of_paving() -> int {
    ground_of(FLOOR_NEAR) - ground_of(FLOOR_FAR)
}

/// Columns of the paving, from west to east.
pub open spec fn columns_of_paving() -> int {
    ground_of(FLOOR_EAST) - ground_of(FLOOR_WEST)
}

/// What the chances of one stone are drawn from.
pub open spec fn seed_of(ix: i32, iz: i32) -> u32 {
    (ix as u32).wrapping_mul(73_856_093) ^ (iz as u32).wrapping_mul(19_349_663)
}

fn seed(ix: i32, iz: i32) -> (seed: u32)
    ensures
        seed == seed_of(ix, iz),
{
    (#[verifier::truncate] (ix as u32)).wrapping_mul(73_856_093) ^ (#[verifier::truncate] (
    iz as u32)).wrapping_mul(19_349_663)
}

/// Four times the fraction that some bits of a hash stand for, in whole quarters.
/// The fraction has four and twenty bits, so what lies close enough below a
/// quarter is rounded up to it.
pub open spec fn quarters_of(bits: u32) -> u32 {
    if bits < 0x4000_0000 - 32 {
        0
    } else if bits < 0x8000_0000 - 64 {
        1
    } else if bits < 0xc000_0000 - 128 {
        2
    } else if bits < 0x1_0000_0000 - 128 {
        3
    } else {
        4
    }
}

/// How many quarter turns a stone is laid with.
pub fn quarters(bits: u32) -> (turns: u32)
    ensures
        turns == quarters_of(bits),
{
    if bits < 0x3fff_ffe0 {
        0
    } else if bits < 0x7fff_ffc0 {
        1
    } else if bits < 0xbfff_ff80 {
        2
    } else if bits < 0xffff_ff80 {
        3
    } else {
        4
    }
}

/// A flagstone: quarter turns only, so that the tile still meets itself at every
/// seam.
pub open spec fn flagstone_at(index: int, ix: i32, iz: i32) -> SpawnView {
    SpawnView {
        name: "Flagstone "@ + written(index as nat, 10),
        at: point(ix * STONE + STONE / 2, 0, iz * STONE + STONE / 2),
        turn: Turn::Quarters(quarters_of(hash_spec(seed_of(ix, iz) ^ 0x9e37_79b9))),
        size: cubed(STONE as int),
        body: Body::Settled {
            mesh: MeshKey::PlanePlain,
            material: MaterialKey::Rock,
            settle: hash_spec(seed_of(ix, iz)),
        },
    }
}

/// Flagstone `index`: the paving is laid column by column.
pub open spec fn flagstone(index: int) -> SpawnView {
    flagstone_at(
        index,
        (ground_of(FLOOR_WEST) + index / rows_of_paving()) as i32,
        (ground_of(FLOOR_FAR) + index % rows_of_paving()) as i32,
    )
}

pub open spec fn stones(count: nat) -> Seq<SpawnView> {
    Seq::new(count, |i: int| flagstone(i))
}

/// What the stones are laid on.
pub open spec fn substrate() -> SpawnView {
    slab_of(
        "Substrate"@,
        point(middle_of(FLOOR_WEST, FLOOR_EAST), -350, middle_of(FLOOR_FAR, FLOOR_NEAR)),
        point(FLOOR_EAST - FLOOR_WEST, 600, FLOOR_NEAR - FLOOR_FAR),
    )
}

pub open spec fn all_paving() -> Seq<SpawnView> {
    stones((columns_of_paving() * rows_of_paving()) as nat).push(substrate())
}

fn paving(out: &mut Vec<Spawn>)
    ensures
        views(final(out)@) == views(old(out)@) + all_paving(),
{
    let ghost before = views(out@);
    let west: i32 = ground(FLOOR_WEST);
    let east: i32 = ground(FLOOR_EAST);
    let far: i32 = ground(FLOOR_FAR);
    let near: i32 = ground(FLOOR_NEAR);
    let mut index: u64 = 0;
    let mut ix: i32 = west;
    assert(before + stones(0) =~= before);
    while ix < east
        invariant
            west == -4,
            east == 4,
            far == -5,
            near == 4,
            west == ground_of(FLOOR_WEST),
            far == ground_of(FLOOR_FAR),
            rows_of_paving() == 9,
            west <= ix <= east,
            index == (ix - west) * 9,
            views(out@) == before + stones(index as nat),
        decreases east - ix,
    {
        let mut iz: i32 = far;
        while iz < near
            invariant
                west == -4,
                east == 4,
                far == -5,
                near == 4,
                west == ground_of(FLOOR_WEST),
                far == ground_of(FLOOR_FAR),
                rows_of_paving() == 9,
                west <= ix < east,
                far <= iz <= near,
                index == (ix - west) * 9 + (iz - far),
                views(out@) == before + stones(index as nat),
            decreases near - iz,
        {
            assert(index / 9 == ix - west && index % 9 == iz - far);
            let chance: u32 = seed(ix, iz);
            spawn(
                out,
                numbered("Flagstone ", index),
                Point { x: ix * STONE + 1_000, y: 0, z: iz * STONE + 1_000 },
                Turn::Quarters(quarters(hash_bits(chance ^ 0x9e37_79b9))),
                Point { x: STONE, y: STONE, z: STONE },
                Body::Settled {
                    mesh: MeshKey::PlanePlain,
                    material: MaterialKey::Rock,
                    settle: hash_bits(chance),
                },
            );
            assert(views(out@) =~= before + stones(index as nat + 1));
            index = index + 1;
            iz = iz + 1;
        }
        ix = ix + 1;
    }
    slab(
        out,
        "Substrate".to_owned(),
        Point { x: middle(FLOOR_WEST, FLOOR_EAST), y: -350, z: middle(FLOOR_FAR, FLOOR_NEAR) },
        Point { x: FLOOR_EAST - FLOOR_WEST, y: 600, z: FLOOR_NEAR - FLOOR_FAR },
    );
    assert(columns_of_paving() * rows_of_paving() == 72);
    assert(views(out@) =~= before + all_paving());
}

// ---------------------------------------------------------------------------
// The walls.

/// A stretch of wall: from where to where along its line, and how high.
#[derive(Clone, Copy, Debug, PartialEq, Eq, Structural)]
pub struct Stretch {
    pub from: i32,
    pub to: i32,
    pub height: i32,
}

/// The west wall: the gateway is between the first two stretches.
pub open spec fn west(index: int) -> Stretch {
    if index == 0 {
        Stretch { from: FLOOR_FAR, to: GATE_FAR, height: 4_000 }
    } else if index == 1 {
        Stretch { from: GATE_NEAR, to: 1_000, height: 4_000 }
    } else if index == 2 {
        Stretch { from: 1_000, to: 4_000, height: 2_600 }
    } else {
        Stretch { from: 4_000, to: 7_000, height: 2_000 }
    }
}

/// The north wall, with a collapsed span that the light and the air come through.
pub open spec fn north(index: int) -> Stretch {
    if index == 0 {
        Stretch { from: FLOOR_WEST, to: 2_500, height: 4_500 }
    } else {
        Stretch { from: 4_500, to: FLOOR_EAST, height: 3_200 }
    }
}

/// The east wall, in whole brick tiles: its inner face is clad.
pub open spec fn east(index: int) -> Stretch {
    if index == 0 {
        Stretch { from: FLOOR_FAR, to: -5_000i32, height: 4_000 }
    } else {
        Stretch { from: -5_000i32, to: -1_000i32, height: 2_000 }
    }
}

/// A wall that runs along z, its middle at some x.
pub open spec fn wall_along_z(name: Seq<char>, x: int, stretch: Stretch) -> SpawnView {
    slab_of(
        name,
        point(x, (stretch.height / 2) as int, middle_of(stretch.from, stretch.to)),
        point(THICK as int, stretch.height as int, stretch.to - stretch.from),
    )
}

/// A wall that runs along x, its middle at some z.
pub open spec fn wall_along_x(name: Seq<char>, z: int, stretch: Stretch) -> SpawnView {
    slab_of(
        name,
        point(middle_of(stretch.from, stretch.to), (stretch.height / 2) as int, z),
        point(stretch.to - stretch.from, stretch.height as int, THICK as int),
    )
}

pub open spec fn west_wall(index: int) -> SpawnView {
    wall_along_z("West Wall "@ + written(index as nat, 10), FLOOR_WEST - THICK / 2, west(index))
}

pub open spec fn north_wall(index: int) -> SpawnView {
    wall_along_x("North Wall "@ + written(index as nat, 10), FLOOR_FAR - THICK / 2, north(index))
}

pub open spec fn east_wall(index: int) -> SpawnView {
    wall_along_z("East Wall "@ + written(index as nat, 10), FLOOR_EAST + THICK / 2, east(index))
}

pub open spec fn all_walls() -> Seq<SpawnView> {
    seq![
        west_wall(0),
        west_wall(1),
        west_wall(2),
        west_wall(3),
        north_wall(0),
        north_wall(1),
        east_wall(0),
        east_wall(1),
    ]
}

fn along_z(out: &mut Vec<Spawn>, name: String, x: i32, stretch: Stretch)
    requires
        -1_000_000 <= stretch.from <= stretch.to <= 1_000_000,
        0 <= stretch.height <= 1_000_000,
    ensures
        views(final(out)@) == views(old(out)@).push(wall_along_z(name@, x as int, stretch)),
{
    slab(
        out,
        name,
        Point { x, y: middle(0, stretch.height), z: middle(stretch.from, stretch.to) },
        Point { x: THICK, y: stretch.height, z: stretch.to - stretch.from },
    );
}

fn along_x(out: &mut Vec<Spawn>, name: String, z: i32, stretch: Stretch)
    requires
        -1_000_000 <= stretch.from <= stretch.to <= 1_000_000,
        0 <= stretch.height <= 1_000_000,
    ensures
        views(final(out)@) == views(old(out)@).push(wall_along_x(name@, z as int, stretch)),
{
    slab(
        out,
        name,
        Point { x: middle(stretch.from, stretch.to), y: middle(0, stretch.height), z },
        Point { x: stretch.to - stretch.from, y: stretch.height, z: THICK },
    );
}

fn walls(out: &mut Vec<Spawn>)
    ensures
        views(final(out)@) == views(old(out)@) + all_walls(),
{
    let ghost before = views(out@);
    let x: i32 = FLOOR_WEST - 250;
    along_z(out, numbered("West Wall ", 0), x, Stretch { from: FLOOR_FAR, to: GATE_FAR, height: 4_000 });
    along_z(out, numbered("West Wall ", 1), x, Stretch { from: GATE_NEAR, to: 1_000, height: 4_000 });
    along_z(out, numbered("West Wall ", 2), x, Stretch { from: 1_000, to: 4_000, height: 2_600 });
    along_z(out, numbered("West Wall ", 3), x, Stretch { from: 4_000, to: 7_000, height: 2_000 });
    let z: i32 = FLOOR_FAR - 250;
    along_x(out, numbered("North Wall ", 0), z, Stretch { from: FLOOR_WEST, to: 2_500, height: 4_500 });
    along_x(out, numbered("North Wall ", 1), z, Stretch { from: 4_500, to: FLOOR_EAST, height: 3_200 });
    let x: i32 = FLOOR_EAST + 250;
    along_z(out, numbered("East Wall ", 0), x, Stretch { from: FLOOR_FAR, to: -5_000, height: 4_000 });
    along_z(out, numbered("East Wall ", 1), x, Stretch { from: -5_000, to: -1_000, height: 2_000 });
    assert(views(out@) =~= before + all_walls());
}

/// The lintel over the gateway.
pub open spec fn gate_lintel() -> SpawnView {
    slab_of(
        "Gate Lintel"@,
        point(FLOOR_WEST - THICK / 2, (GATE_HEAD + 4_000) / 2, middle_of(GATE_FAR, GATE_NEAR)),
        point(THICK as int, 4_000 - GATE_HEAD, GATE_NEAR - GATE_FAR),
    )
}

/// A step worn into the threshold.
pub open spec fn threshold(index: int) -> SpawnView {
    let inset: int = if index == 0 { 0 } else { 550 };
    let height: int = if index == 0 { 240 } else { 120 };
    slab_of(
        "Threshold "@ + written(index as nat, 10),
        point(FLOOR_WEST + inset + 300, height / 2, middle_of(GATE_FAR, GATE_NEAR)),
        point(600, height, GATE_NEAR - GATE_FAR + 600),
    )
}

pub open spec fn all_gateway() -> Seq<SpawnView> {
    seq![gate_lintel(), threshold(0), threshold(1)]
}

fn gateway(out: &mut Vec<Spawn>)
    ensures
        views(final(out)@) == views(old(out)@) + all_gateway(),
{
    let ghost before = views(out@);
    let z: i32 = middle(GATE_FAR, GATE_NEAR);
    slab(
        out,
        "Gate Lintel".to_owned(),
        Point { x: FLOOR_WEST - 250, y: middle(GATE_HEAD, 4_000), z },
        Point { x: THICK, y: 4_000 - GATE_HEAD, z: GATE_NEAR - GATE_FAR },
    );
    slab(
        out,
        numbered("Threshold ", 0),
        Point { x: FLOOR_WEST + 300, y: 120, z },
        Point { x: 600, y: 240, z: GATE_NEAR - GATE_FAR + 600 },
    );
    slab(
        out,
        numbered("Threshold ", 1),
        Point { x: FLOOR_WEST + 550 + 300, y: 60, z },
        Point { x: 600, y: 120, z: GATE_NEAR - GATE_FAR + 600 },
    );
    assert(views(out@) =~= before + all_gateway());
}

/// A pier of the free-standing arch.
pub open spec fn arch_pier(index: int) -> SpawnView {
    slab_of(
        "Arch Pier "@ + written(index as nat, 10),
        point(if index == 0 {
            -4_200
        } else {
            600
        }, 2_100, 1_900),
        point(700, 4_200, 700),
    )
}

/// The lintel of the arch: it stands between the camera and the sun.
pub open spec fn arch_lintel() -> SpawnView {
    slab_of("Arch Lintel"@, point(-1_800, 4_550, 1_900), point(6_200, 700, 700))
}

pub open spec fn all_arcade() -> Seq<SpawnView> {
    seq![arch_pier(0), arch_pier(1), arch_lintel()]
}

fn arcade(out: &mut Vec<Spawn>)
    ensures
        views(final(out)@) == views(old(out)@) + all_arcade(),
{
    let ghost before = views(out@);
    let size = Point { x: 700, y: 4_200, z: 700 };
    slab(out, numbered("Arch Pier ", 0), Point { x: -4_200, y: 2_100, z: 1_900 }, size);
    slab(out, numbered("Arch Pier ", 1), Point { x: 600, y: 2_100, z: 1_900 }, size);
    slab(
        out,
        "Arch Lintel".to_owned(),
        Point { x: -1_800, y: 4_550, z: 1_900 },
        Point { x: 6_200, y: 700, z: 700 },
    );
    assert(views(out@) =~= before + all_arcade());
}

/// A panel of brick on a face that points to the west, into the sun.
pub open spec fn panel(name: Seq<char>, at: Point) -> SpawnView {
    SpawnView {
        name,
        at,
        turn: Turn::FacingWest,
        size: panel_size(),
        body: Body::Mesh { mesh: MeshKey::PlanePlain, material: MaterialKey::Brick },
    }
}

fn spawn_panel(out: &mut Vec<Spawn>, name: String, at: Point)
    ensures
        views(final(out)@) == views(old(out)@).push(panel(name@, at)),
{
    spawn(
        out,
        name,
        at,
        Turn::FacingWest,
        Point { x: (WALL_TILE.0 / 10) as i32, y: 1_000, z: (WALL_TILE.1 / 10) as i32 },
        Body::Mesh { mesh: MeshKey::PlanePlain, material: MaterialKey::Brick },
    );
}

/// The standing pier, and the brick on its lit face: two centimetres proud of the
/// stone behind it.
pub open spec fn all_pier() -> Seq<SpawnView> {
    seq![
        slab_of("Pier"@, point(1_600, 2_250, -3_000), point(600, 4_500, 4_000)),
        panel("Pier Facing "@ + written(0, 10), point(1_280, 1_000, -3_000)),
        panel("Pier Facing "@ + written(1, 10), point(1_280, 3_000, -3_000)),
    ]
}

fn pier(out: &mut Vec<Spawn>)
    ensures
        views(final(out)@) == views(old(out)@) + all_pier(),
{
    let ghost before = views(out@);
    slab(
        out,
        "Pier".to_owned(),
        Point { x: 1_600, y: 2_250, z: -3_000 },
        Point { x: 600, y: 4_500, z: 4_000 },
    );
    spawn_panel(out, numbered("Pier Facing ", 0), Point { x: 1_280, y: 1_000, z: -3_000 });
    spawn_panel(out, numbered("Pier Facing ", 1), Point { x: 1_280, y: 3_000, z: -3_000 });
    assert(views(out@) =~= before + all_pier());
}

/// The brick on the east wall's inner face.
pub open spec fn east_facing(index: int) -> SpawnView {
    panel(
        "East Facing "@ + written(index as nat, 10),
        point(FLOOR_EAST - 20, if index == 1 {
            3_000
        } else {
            1_000
        }, if index == 2 {
            -3_000
        } else {
            -7_000
        }),
    )
}

pub open spec fn all_facing() -> Seq<SpawnView> {
    seq![east_facing(0), east_facing(1), east_facing(2)]
}

fn facing(out: &mut Vec<Spawn>)
    ensures
        views(final(out)@) == views(old(out)@) + all_facing(),
{
    let ghost before = views(out@);
    let x: i32 = FLOOR_EAST - 20;
    spawn_panel(out, numbered("East Facing ", 0), Point { x, y: 1_000, z: -7_000 });
    spawn_panel(out, numbered("East Facing ", 1), Point { x, y: 3_000, z: -7_000 });
    spawn_panel(out, numbered("East Facing ", 2), Point { x, y: 1_000, z: -3_000 });
    assert(views(out@) =~= before + all_facing());
}

// ---------------------------------------------------------------------------
// The artefacts.

/// A sphere of some material, standing on the ground or on something.
pub open spec fn ball(name: Seq<char>, at: Point, size: int, material: MaterialKey) -> SpawnView {
    SpawnView {
        name,
        at,
        turn: Turn::Level,
        size: cubed(size),
        body: Body::Mesh { mesh: MeshKey::SpherePlain, material },
    }
}

fn spawn_ball(out: &mut Vec<Spawn>, name: String, at: Point, size: i32, material: MaterialKey)
    ensures
        views(final(out)@) == views(old(out)@).push(ball(name@, at, size as int, material)),
{
    spawn(
        out,
        name,
        at,
        Turn::Level,
        Point { x: size, y: size, z: size },
        Body::Mesh { mesh: MeshKey::SpherePlain, material },
    );
}

/// A plinth of some height, and a sphere of some diameter on it.
pub open spec fn exhibit(
    name: Seq<char>,
    material: MaterialKey,
    x: int,
    z: int,
    height: int,
    diameter: int,
) -> Seq<SpawnView> {
    seq![
        slab_of(
            name + " Plinth"@,
            point(x, height / 2, z),
            point(diameter + 150, height, diameter + 150),
        ),
        ball(name, point(x, height + diameter / 2, z), diameter, material),
    ]
}

fn spawn_exhibit(
    out: &mut Vec<Spawn>,
    name: &str,
    material: MaterialKey,
    x: i32,
    z: i32,
    height: i32,
    diameter: i32,
)
    requires
        0 <= height <= 1_000_000,
        0 <= diameter <= 1_000_000,
    ensures
        views(final(out)@) == views(old(out)@) + exhibit(
            name@,
            material,
            x as int,
            z as int,
            height as int,
            diameter as int,
        ),
{
    let ghost before = views(out@);
    let mut plinth: String = name.to_owned();
    plinth.append(" Plinth");
    slab(
        out,
        plinth,
        Point { x, y: middle(0, height), z },
        Point { x: diameter + 150, y: height, z: diameter + 150 },
    );
    let top = Point { x, y: height + middle(0, diameter), z };
    spawn_ball(out, name.to_owned(), top, diameter, material);
    assert(views(out@) =~= before + exhibit(
        name@,
        material,
        x as int,
        z as int,
        height as int,
        diameter as int,
    ));
}

/// A pane of glazing, leaning.
pub open spec fn glazing(index: int) -> SpawnView {
    SpawnView {
        name: "Glazing "@ + written(index as nat, 10),
        at: if index == 0 {
            point(1_600, 1_150, 4_400)
        } else {
            point(2_300, 1_150, 5_000)
        },
        turn: if index == 0 {
            Turn::Lean { yaw: 14, lean: 13 }
        } else {
            Turn::Lean { yaw: -22i32, lean: -11i32 }
        },
        size: point(1_400, 1_900, 70),
        body: Body::Mesh { mesh: MeshKey::CubePlain, material: MaterialKey::Glass },
    }
}

/// Bodies of different transport models, between the camera and the sun.
pub open spec fn all_artefacts() -> Seq<SpawnView> {
    exhibit("Marble"@, MaterialKey::Marble, 1_000, 1_200, 1_700, 900) + exhibit(
        "Crystal"@,
        MaterialKey::Crystal,
        3_000,
        1_200,
        500,
        1_050,
    ) + exhibit("Wax"@, MaterialKey::Wax, 5_000, 1_400, 1_100, 950) + seq![
        ball("Frosted"@, point(1_800, 600, 3_400), 1_200, MaterialKey::Frosted),
        glazing(0),
        glazing(1),
    ]
}

fn artefacts(out: &mut Vec<Spawn>)
    ensures
        views(final(out)@) == views(old(out)@) + all_artefacts(),
{
    let ghost before = views(out@);
    spawn_exhibit(out, "Marble", MaterialKey::Marble, 1_000, 1_200, 1_700, 900);
    spawn_exhibit(out, "Crystal", MaterialKey::Crystal, 3_000, 1_200, 500, 1_050);
    spawn_exhibit(out, "Wax", MaterialKey::Wax, 5_000, 1_400, 1_100, 950);
    spawn_ball(
        out,
        "Frosted".to_owned(),
        Point { x: 1_800, y: 600, z: 3_400 },
        1_200,
        MaterialKey::Frosted,
    );
    let size = Point { x: 1_400, y: 1_900, z: 70 };
    let body = Body::Mesh { mesh: MeshKey::CubePlain, material: MaterialKey::Glass };
    spawn(
        out,
        numbered("Glazing ", 0),
        Point { x: 1_600, y: 1_150, z: 4_400 },
        Turn::Lean { yaw: 14, lean: 13 },
        size,
        body,
    );
    spawn(
        out,
        numbered("Glazing ", 1),
        Point { x: 2_300, y: 1_150, z: 5_000 },
        Turn::Lean { yaw: -22, lean: -11 },
        size,
        body,
    );
    assert(views(out@) =~= before + all_artefacts());
}

// ---------------------------------------------------------------------------
// The overgrowth.

/// Where a sprig grows, how large it is and how it is turned.
#[derive(Clone, Copy, Debug, PartialEq, Eq, Structural)]
pub struct Sprig {
    pub x: i32,
    pub y: i32,
    pub z: i32,
    pub scale: i32,
    pub yaw: i32,
}

pub const SPRIGS: usize = 15;

/// The sprigs: five against the far wall, two either side of the pier, three at
/// the gateway, three on the wall tops and two out in the paving.
pub open spec fn sprig_of(index: int) -> Sprig {
    if index == 0 {
        Sprig { x: -7_000i32, y: 0, z: -8_100i32, scale: 1_500, yaw: 15 }
    } else if index == 1 {
        Sprig { x: -4_400i32, y: 0, z: -8_300i32, scale: 1_300, yaw: -40i32 }
    } else if index == 2 {
        Sprig { x: 400, y: 0, z: -8_200i32, scale: 1_700, yaw: 25 }
    } else if index == 3 {
        Sprig { x: 2_000, y: 0, z: -8_100i32, scale: 1_400, yaw: -15i32 }
    } else if index == 4 {
        Sprig { x: 5_600, y: 0, z: -8_200i32, scale: 1_500, yaw: 60 }
    } else if index == 5 {
        Sprig { x: 2_600, y: 0, z: -1_000i32, scale: 1_600, yaw: 35 }
    } else if index == 6 {
        Sprig { x: 2_800, y: 0, z: -6_500i32, scale: 1_300, yaw: -25i32 }
    } else if index == 7 {
        Sprig { x: -7_100i32, y: 0, z: -3_000i32, scale: 1_200, yaw: 10 }
    } else if index == 8 {
        Sprig { x: -7_200i32, y: 0, z: -6_500i32, scale: 1_400, yaw: -30i32 }
    } else if index == 9 {
        Sprig { x: -6_600i32, y: 0, z: -4_900i32, scale: 1_300, yaw: 45 }
    } else if index == 10 {
        Sprig { x: -8_250i32, y: 2_000, z: 5_200, scale: 1_400, yaw: 20 }
    } else if index == 11 {
        Sprig { x: -8_250i32, y: 2_600, z: 2_600, scale: 1_600, yaw: -20i32 }
    } else if index == 12 {
        Sprig { x: 8_250, y: 2_600, z: -1_400i32, scale: 1_500, yaw: 40 }
    } else if index == 13 {
        Sprig { x: -2_600i32, y: 0, z: 5_400, scale: 1_000, yaw: -10i32 }
    } else {
        Sprig { x: -6_000i32, y: 0, z: 6_200, scale: 1_400, yaw: 15 }
    }
}

fn sprig(index: u64) -> (sprig: Sprig)
    requires
        index < SPRIGS,
    ensures
        sprig == sprig_of(index as int),
        0 <= sprig.scale <= 10_000,
        0 <= sprig.y <= 10_000,
        -360 <= sprig.yaw <= 360,
{
    match index {
        0 => Sprig { x: -7_000, y: 0, z: -8_100, scale: 1_500, yaw: 15 },
        1 => Sprig { x: -4_400, y: 0, z: -8_300, scale: 1_300, yaw: -40 },
        2 => Sprig { x: 400, y: 0, z: -8_200, scale: 1_700, yaw: 25 },
        3 => Sprig { x: 2_000, y: 0, z: -8_100, scale: 1_400, yaw: -15 },
        4 => Sprig { x: 5_600, y: 0, z: -8_200, scale: 1_500, yaw: 60 },
        5 => Sprig { x: 2_600, y: 0, z: -1_000, scale: 1_600, yaw: 35 },
        6 => Sprig { x: 2_800, y: 0, z: -6_500, scale: 1_300, yaw: -25 },
        7 => Sprig { x: -7_100, y: 0, z: -3_000, scale: 1_200, yaw: 10 },
        8 => Sprig { x: -7_200, y: 0, z: -6_500, scale: 1_400, yaw: -30 },
        9 => Sprig { x: -6_600, y: 0, z: -4_900, scale: 1_300, yaw: 45 },
        10 => Sprig { x: -8_250, y: 2_000, z: 5_200, scale: 1_400, yaw: 20 },
        11 => Sprig { x: -8_250, y: 2_600, z: 2_600, scale: 1_600, yaw: -20 },
        12 => Sprig { x: 8_250, y: 2_600, z: -1_400, scale: 1_500, yaw: 40 },
        13 => Sprig { x: -2_600, y: 0, z: 5_400, scale: 1_000, yaw: -10 },
        _ => Sprig { x: -6_000, y: 0, z: 6_200, scale: 1_400, yaw: 15 },
    }
}

/// A leaf card: each sprig is a crossed pair, half its height above where it
/// stands.
pub open spec fn leaf(index: int) -> SpawnView {
    let sprig = sprig_of(index / 2);
    SpawnView {
        name: "Overgrowth "@ + written((index / 2) as nat, 10) + "."@ + written(
            (index % 2) as nat,
            10,
        ),
        at: point(sprig.x as int, sprig.y + sprig.scale as int / 2, sprig.z as int),
        turn: Turn::Stood((sprig.yaw + index % 2 * 90) as i32),
        size: cubed(sprig.scale as int),
        body: Body::Mesh { mesh: MeshKey::PlanePlain, material: MaterialKey::Foliage },
    }
}

pub open spec fn leaves(count: nat) -> Seq<SpawnView> {
    Seq::new(count, |i: int| leaf(i))
}

fn overgrowth(out: &mut Vec<Spawn>)
    ensures
        views(final(out)@) == views(old(out)@) + leaves(30),
{
    let ghost before = views(out@);
    let body = Body::Mesh { mesh: MeshKey::PlanePlain, material: MaterialKey::Foliage };
    let mut index: u64 = 0;
    assert(before + leaves(0) =~= before);
    while index < 15
        invariant
            index <= 15,
            body == (Body::Mesh { mesh: MeshKey::PlanePlain, material: MaterialKey::Foliage }),
            views(out@) == before + leaves((2 * index) as nat),
        decreases 15 - index,
    {
        let here = sprig(index);
        let at = Point { x: here.x, y: here.y + middle(0, here.scale), z: here.z };
        let size = Point { x: here.scale, y: here.scale, z: here.scale };
        assert((2 * index) / 2 == index && (2 * index + 1) / 2 == index);
        assert((2 * index) % 2 == 0 && (2 * index + 1) % 2 == 1);
        spawn(out, halved("Overgrowth ", index, 0), at, Turn::Stood(here.yaw), size, body);
        assert(views(out@) =~= before + leaves((2 * index + 1) as nat));
        spawn(out, halved("Overgrowth ", index, 1), at, Turn::Stood(here.yaw + 90), size, body);
        assert(views(out@) =~= before + leaves((2 * index + 2) as nat));
        index = index + 1;
    }
}

// ---------------------------------------------------------------------------
// The lights and the marks.

/// Where the sunlight travels: low, to the near east.
pub open spec fn courtyard_sun() -> Point {
    point(798, -379, 469)
}

/// The sun, the fire and the sconce. The fire is an emissive body and a fixture
/// in one place: a surface that is bright lights nothing, and a light is not
/// geometry.
pub open spec fn all_lights() -> Seq<SpawnView> {
    seq![
        light(
            "Sun"@,
            point(0, 0, 0),
            Body::Directional {
                aim: courtyard_sun(),
                color: Color { r: 10_000, g: 7_200, b: 4_500 },
                lux: 22_000,
            },
        ),
        slab_of("Brazier"@, point(-5_000, 180, 600), point(1_500, 360, 1_500)),
        ball("Fire"@, point(-5_000, 520, 600), 850, MaterialKey::Ember),
        light(
            "Fire Light"@,
            point(-5_000, 750, 600),
            Body::Bulb {
                color: Color { r: 10_000, g: 5_500, b: 2_500 },
                lumens: 20_000,
                range: 14_000,
            },
        ),
        light(
            "Sconce"@,
            point(7_400, 4_200, -2_600),
            Body::Spot {
                aim: point(-550, -1_000, 300),
                color: Color { r: 10_000, g: 8_400, b: 6_200 },
                lumens: 9_000,
                range: 18_000,
                inner: 20,
                outer: 30,
            },
        ),
    ]
}

fn lights(out: &mut Vec<Spawn>)
    ensures
        views(final(out)@) == views(old(out)@) + all_lights(),
{
    let ghost before = views(out@);
    spawn_light(
        out,
        "Sun".to_owned(),
        Point { x: 0, y: 0, z: 0 },
        Body::Directional {
            aim: Point { x: 798, y: -379, z: 469 },
            color: Color { r: 10_000, g: 7_200, b: 4_500 },
            lux: 22_000,
        },
    );
    slab(
        out,
        "Brazier".to_owned(),
        Point { x: -5_000, y: 180, z: 600 },
        Point { x: 1_500, y: 360, z: 1_500 },
    );
    let embers = Point { x: -5_000, y: 520, z: 600 };
    spawn_ball(out, "Fire".to_owned(), embers, 850, MaterialKey::Ember);
    spawn_light(
        out,
        "Fire Light".to_owned(),
        Point { x: -5_000, y: 750, z: 600 },
        Body::Bulb {
            color: Color { r: 10_000, g: 5_500, b: 2_500 },
            lumens: 20_000,
            range: 14_000,
        },
    );
    spawn_light(
        out,
        "Sconce".to_owned(),
        Point { x: 7_400, y: 4_200, z: -2_600 },
        Body::Spot {
            aim: Point { x: -550, y: -1_000, z: 300 },
            color: Color { r: 10_000, g: 8_400, b: 6_200 },
            lumens: 9_000,
            range: 18_000,
            inner: 20,
            outer: 30,
        },
    );
    assert(views(out@) =~= before + all_lights());
}

/// Two marks on the flagstones and one on the brick pier.
pub open spec fn all_marks() -> Seq<SpawnView> {
    seq![
        ground_scorch(0, 2_000, 0, 2_600, 4_000, Some(850)),
        ground_scorch(1, -5_000, 0, 600, 2_800, Some(1_000)),
        SpawnView {
            name: "Scorch (pier)"@,
            at: point(980, 1_500, -2_400),
            turn: Turn::East,
            size: point(1_500, 1_500, 800),
            body: scorch_of(Some(700)),
        },
    ]
}

fn marks(out: &mut Vec<Spawn>)
    ensures
        views(final(out)@) == views(old(out)@) + all_marks(),
{
    let ghost before = views(out@);
    spawn(
        out,
        numbered("Scorch ", 0),
        Point { x: 2_000, y: 0, z: 2_600 },
        Turn::Down,
        Point { x: 4_000, y: 4_000, z: 1_600 },
        scorch(Some(850)),
    );
    spawn(
        out,
        numbered("Scorch ", 1),
        Point { x: -5_000, y: 0, z: 600 },
        Turn::Down,
        Point { x: 2_800, y: 2_800, z: 1_120 },
        scorch(Some(1_000)),
    );
    spawn(
        out,
        "Scorch (pier)".to_owned(),
        Point { x: 980, y: 1_500, z: -2_400 },
        Turn::East,
        Point { x: 1_500, y: 1_500, z: 800 },
        scorch(Some(700)),
    );
    assert(views(out@) =~= before + all_marks());
}

// ---------------------------------------------------------------------------
// The scene.

/// Everything the courtyard spawns, in order.
pub open spec fn courtyard() -> Seq<SpawnView> {
    all_paving() + all_walls() + all_gateway() + all_arcade() + all_pier() + all_facing()
        + all_artefacts() + leaves(30) + all_lights() + all_marks()
}

/// A scene is the courtyard: what it spawns, its low sun, where it is seen from,
/// its air, its exposure and its sky.
pub open spec fn is_courtyard(scene: Scene) -> bool {
    &&& views(scene.spawns@) == courtyard()
    &&& scene.sun == courtyard_sun()
    &&& scene.sky == (SKY_WIDTH, SKY_HEIGHT)
    &&& scene.eye == Eye {
        position: point(4_400, 1_750, 9_500),
        target: point(650, 1_000, -4_750),
        fov: Some(45),
    }
    &&& scene.air == Some(Air { density: 14, height_falloff: 100, anisotropy: 750, volumetric: true })
    &&& scene.exposure == Some(-1_000i32)
    &&& scene.sky_luminance == Some(70u32)
}

/// The ruined courtyard.
pub fn build_showcase_scene() -> (scene: Scene)
    ensures
        is_courtyard(scene),
{
    let mut spawns: Vec<Spawn> = Vec::new();
    assert(views(spawns@) =~= Seq::empty());
    paving(&mut spawns);
    assert(views(spawns@) =~= all_paving());
    walls(&mut spawns);
    gateway(&mut spawns);
    arcade(&mut spawns);
    pier(&mut spawns);
    facing(&mut spawns);
    artefacts(&mut spawns);
    overgrowth(&mut spawns);
    lights(&mut spawns);
    marks(&mut spawns);
    Scene {
        spawns,
        sun: Point { x: 798, y: -379, z: 469 },
        sky: (SKY_WIDTH, SKY_HEIGHT),
        eye: Eye {
            position: Point { x: 4_400, y: 1_750, z: 9_500 },
            target: Point { x: 650, y: 1_000, z: -4_750 },
            fov: Some(45),
        },
        air: Some(Air { density: 14, height_falloff: 100, anisotropy: 750, volumetric: true }),
        exposure: Some(-1_000),
        sky_luminance: Some(70),
    }
}

/// **The courtyard draws nothing that was not loaded.**
pub proof fn courtyard_is_drawable(index: int)
    requires
        0 <= index < courtyard().len(),
    ensures
        drawable(courtyard()[index]),
{
}

/// The ground that a flagstone covers.
pub open spec fn covers(stone: SpawnView, x: int, z: int) -> bool {
    &&& stone.at.x - STONE / 2 <= x < stone.at.x + STONE / 2
    &&& stone.at.z - STONE / 2 <= z < stone.at.z + STONE / 2
}

proof fn stone_place(index: int)
    requires
        0 <= index < 72,
    ensures
        flagstone(index).at.x == (index / 9 - 4) * 2_000 + 1_000,
        flagstone(index).at.z == (index % 9 - 5) * 2_000 + 1_000,
        0 <= index / 9 < 8,
        index == index / 9 * 9 + index % 9,
{
    assert(rows_of_paving() == 9);
    assert(0 <= index / 9 < 8);
}

/// **Every place of the floor is paved.**
pub proof fn paving_covers_the_floor(x: int, z: int) -> (index: int)
    requires
        FLOOR_WEST <= x < FLOOR_EAST,
        FLOOR_FAR <= z < FLOOR_NEAR,
    ensures
        0 <= index < all_paving().len() - 1,
        covers(all_paving()[index], x, z),
{
    assert(rows_of_paving() == 9 && columns_of_paving() == 8);
    assert(columns_of_paving() * rows_of_paving() == 72);
    let column = (x + 8_000) / 2_000;
    let row = (z + 10_000) / 2_000;
    let index = column * 9 + row;
    assert(index / 9 == column && index % 9 == row);
    stone_place(index);
    index
}

/// **No place is paved twice.**
pub proof fn flagstones_do_not_overlap(one: int, other: int, x: int, z: int)
    requires
        0 <= one < all_paving().len() - 1,
        0 <= other < all_paving().len() - 1,
        covers(all_paving()[one], x, z),
        covers(all_paving()[other], x, z),
    ensures
        one == other,
{
    assert(columns_of_paving() * rows_of_paving() == 72);
    stone_place(one);
    stone_place(other);
    assert(one / 9 == other / 9);
    assert(one % 9 == other % 9);
}

/// **The gateway is an opening and nothing more.** The lintel reaches from the
/// end of one stretch of the west wall to the start of the next, from its head to
/// their tops; and the other stretches leave no gap.
pub proof fn west_wall_opens_at_the_gate()
    ensures
        ({
            let lintel = gate_lintel();
            &&& lintel.at.x == west_wall(0).at.x == west_wall(1).at.x
            &&& lintel.at.z - lintel.size.z / 2 == west(0).to
            &&& lintel.at.z + lintel.size.z / 2 == west(1).from
            &&& lintel.at.y - lintel.size.y / 2 == GATE_HEAD
            &&& lintel.at.y + lintel.size.y / 2 == west(0).height == west(1).height
        }),
        west(0).from == FLOOR_FAR,
        west(1).to == west(2).from,
        west(2).to == west(3).from,
        west(3).to == FLOOR_NEAR,
{
}

/// What a panel that faces west covers of its wall: along z, and up.
pub open spec fn panel_covers(panel: SpawnView, z: int, y: int) -> bool {
    &&& panel.at.z - panel.size.x / 2 <= z < panel.at.z + panel.size.x / 2
    &&& panel.at.y - panel.size.z / 2 <= y < panel.at.y + panel.size.z / 2
}

/// What a stretch of wall shows of its face: along its line, and up.
pub open spec fn stretch_shows(stretch: Stretch, z: int, y: int) -> bool {
    stretch.from <= z < stretch.to && 0 <= y < stretch.height
}

/// **The cladding covers the stone exactly**: no band of bare wall, and no
/// floating panel.
pub proof fn facing_covers_the_east_wall(z: int, y: int)
    ensures
        (stretch_shows(east(0), z, y) || stretch_shows(east(1), z, y)) <==> (panel_covers(
            east_facing(0),
            z,
            y,
        ) || panel_covers(east_facing(1), z, y) || panel_covers(east_facing(2), z, y)),
{
}

/// **A sphere on a plinth rests on it**, and does not reach over its edge.
pub proof fn exhibits_rest_on_their_plinths(
    name: Seq<char>,
    material: MaterialKey,
    x: int,
    z: int,
    height: int,
    diameter: int,
)
    requires
        -1_000_000 <= x <= 1_000_000,
        -1_000_000 <= z <= 1_000_000,
        0 <= height <= 1_000_000,
        0 <= diameter <= 1_000_000,
        height % 2 == 0,
    ensures
        ({
            let plinth = exhibit(name, material, x, z, height, diameter)[0];
            let ball = exhibit(name, material, x, z, height, diameter)[1];
            &&& plinth.at.y - plinth.size.y / 2 == 0
            &&& plinth.at.y + plinth.size.y / 2 == ball.at.y - ball.size.y as int / 2
            &&& ball.at.x == plinth.at.x
            &&& ball.at.z == plinth.at.z
            &&& ball.size.x < plinth.size.x
            &&& ball.size.z < plinth.size.z
        }),
{
}

/// **Sprigs come in crossed pairs**: in one place, a right angle apart.
pub proof fn leaves_are_crossed(index: int)
    requires
        0 <= index < SPRIGS,
    ensures
        leaf(2 * index).at == leaf(2 * index + 1).at,
        leaf(2 * index).turn matches Turn::Stood(yaw) && leaf(2 * index + 1).turn == Turn::Stood(
            (yaw + 90) as i32,
        ),
{
    assert((2 * index) / 2 == index && (2 * index + 1) / 2 == index);
    assert((2 * index) % 2 == 0 && (2 * index + 1) % 2 == 1);
}

/// **A middle is as far from one end as from the other**, to the thousandth below.
pub proof fn middles_are_in_the_middle(from: i32, to: i32)
    requires
        from <= to,
    ensures
        from <= middle_of(from, to) <= to,
        0 <= (to - middle_of(from, to)) - (middle_of(from, to) - from) <= 1,
{
}

/// **A place falls on the nearest stone, and east and west alike.** Half way between
/// two it is the outer one.
pub proof fn places_fall_on_the_nearest_stone(v: i32)
    requires
        -1_000_000 <= v <= 1_000_000,
    ensures
        -STONE <= 2 * (v - STONE * ground_of(v)) <= STONE,
        ground_of((-v) as i32) == -ground_of(v),
        2 * (v - STONE * ground_of(v)) == STONE ==> v < 0,
        2 * (v - STONE * ground_of(v)) == -STONE ==> v > 0,
{
}

/// **Quarters go up with the bits.** Each is the share of the whole that the bits are,
/// but for what lies so close below the next one that it counts as it.
pub proof fn quarters_go_up_with_the_bits(one: u32, other: u32)
    requires
        one <= other,
    ensures
        quarters_of(one) <= quarters_of(other) <= 4,
        quarters_of(one) == one / 0x4000_0000 || quarters_of(one) == one / 0x4000_0000 + 1,
        quarters_of(one) == one / 0x4000_0000 + 1 ==> one as int % 0x4000_0000 >= 0x4000_0000
            - 128,
        one as int % 0x4000_0000 >= 0x4000_0000 - 32 ==> quarters_of(one) == one / 0x4000_0000 + 1,
{
}

/// **A stone is laid flat in its place by its own two chances.** Its turn and its
/// height come from the hash of the place's seed; stones of one seed are laid alike,
/// and a stone is square, of rock, one tile large.
pub proof fn stones_are_laid_in_their_places(index: int, ix: i32, iz: i32)
    requires
        -1_000 <= ix <= 1_000,
        -1_000 <= iz <= 1_000,
    ensures
        ({
            let stone = flagstone_at(index, ix, iz);
            &&& stone.at.x - STONE / 2 == ix * STONE
            &&& stone.at.z - STONE / 2 == iz * STONE
            &&& stone.at.y == 0
            &&& stone.size.x == stone.size.y == stone.size.z == STONE
            &&& stone.body matches Body::Settled { mesh, material, settle } && {
                &&& mesh is PlanePlain
                &&& material is Rock
                &&& settle == hash_spec(seed_of(ix, iz))
            }
            &&& stone.turn matches Turn::Quarters(turns) && turns <= 4
            &&& flagstone_at(index, (ix + 1) as i32, iz).at.x == stone.at.x + STONE
            &&& flagstone_at(index, ix, (iz + 1) as i32).at.z == stone.at.z + STONE
        }),
{
}

/// **The substrate reaches as far as the floor, right below the stones.**
pub proof fn the_substrate_lies_under_the_floor()
    ensures
        ({
            let slab = substrate();
            &&& 2 * slab.at.x - slab.size.x == 2 * FLOOR_WEST
            &&& 2 * slab.at.x + slab.size.x == 2 * FLOOR_EAST
            &&& 2 * slab.at.z - slab.size.z == 2 * FLOOR_FAR
            &&& 2 * slab.at.z + slab.size.z == 2 * FLOOR_NEAR
            &&& -100 <= slab.at.y + slab.size.y / 2 < 0
        }),
{
}

/// **A wall stands on the ground, along its stretch, up to its height.** Which side it
/// runs along decides which of its sides is thick.
pub proof fn walls_stand_along_their_stretch(name: Seq<char>, line: int, stretch: Stretch)
    requires
        -100_000 <= line <= 100_000,
        -100_000 <= stretch.from <= stretch.to <= 100_000,
        0 <= stretch.height <= 100_000,
        stretch.height % 2 == 0,
        (stretch.from + stretch.to) % 2 == 0,
    ensures
        ({
            let along_z = wall_along_z(name, line, stretch);
            let along_x = wall_along_x(name, line, stretch);
            &&& along_z.at.x == line && along_x.at.z == line
            &&& along_z.size.x == THICK && along_x.size.z == THICK
            &&& 2 * along_z.at.z - along_z.size.z == 2 * stretch.from
            &&& 2 * along_z.at.z + along_z.size.z == 2 * stretch.to
            &&& 2 * along_x.at.x - along_x.size.x == 2 * stretch.from
            &&& 2 * along_x.at.x + along_x.size.x == 2 * stretch.to
            &&& 2 * along_z.at.y == along_z.size.y == stretch.height
            &&& 2 * along_x.at.y == along_x.size.y == stretch.height
            &&& along_z.name == name && along_x.name == name
        }),
{
}

/// **The walls stand around the floor.** Their inner faces are its edges: west, far and
/// east; the far wall reaches from corner to corner but for what has collapsed; and no
/// wall rises again towards the near side, which is open.
pub proof fn walls_stand_around_the_floor(index: int)
    requires
        0 <= index < 4,
    ensures
        west_wall(index).at.x + THICK / 2 == FLOOR_WEST,
        north_wall(index).at.z + THICK / 2 == FLOOR_FAR,
        east_wall(index).at.x - THICK / 2 == FLOOR_EAST,
        index > 0 ==> west(index).height <= west(index - 1).height,
        north(0).from == FLOOR_WEST,
        north(1).to == FLOOR_EAST,
        north(0).to < north(1).from,
        east(0).from == FLOOR_FAR,
        east(0).to == east(1).from,
        east(1).height < east(0).height,
        // Whole tiles of brick.
        (10 * (east(0).to - east(0).from)) % (WALL_TILE.0 as int) == 0,
        (10 * (east(1).to - east(1).from)) % (WALL_TILE.0 as int) == 0,
        (10 * east(0).height) % (WALL_TILE.1 as int) == 0,
        (10 * east(1).height) % (WALL_TILE.1 as int) == 0,
{
}

/// **The threshold steps down into the courtyard.** Its steps rest on the ground in
/// front of the gateway, wider than it by as much on both sides; the inner one is half
/// as high.
pub proof fn the_threshold_steps_down()
    ensures
        ({
            let outer = threshold(0);
            let inner = threshold(1);
            &&& 2 * outer.at.y == outer.size.y
            &&& 2 * inner.at.y == inner.size.y
            &&& outer.size.y == 2 * inner.size.y
            &&& outer.at.x - outer.size.x / 2 == FLOOR_WEST
            &&& outer.at.x < inner.at.x <= outer.at.x + outer.size.x
            &&& outer.at.z == inner.at.z == gate_lintel().at.z
            &&& outer.size.z == inner.size.z == gate_lintel().size.z + 600
        }),
{
}

/// **The arch stands on its piers.** They rest on the ground, alike; the lintel rests on
/// both, in their line, and reaches as far over the one as over the other.
pub proof fn the_arch_stands_on_its_piers()
    ensures
        ({
            let left = arch_pier(0);
            let right = arch_pier(1);
            let lintel = arch_lintel();
            &&& left.size == right.size
            &&& 2 * left.at.y == left.size.y
            &&& left.at.y == right.at.y
            &&& left.at.z == right.at.z == lintel.at.z
            &&& left.size.z == lintel.size.z
            &&& lintel.at.y - lintel.size.y / 2 == left.size.y
            &&& lintel.at.x - left.at.x == right.at.x - lintel.at.x
            &&& lintel.size.x > (right.at.x - left.at.x) + left.size.x
        }),
{
}

/// **The pier's brick stands proud of its lit face.** Two panels, one right above the
/// other from the ground up, as wide as the pier is long, two centimetres in front of
/// it.
pub proof fn the_pier_is_faced(index: int)
    requires
        1 <= index < 3,
    ensures
        ({
            let pier = all_pier()[0];
            let panel = all_pier()[index];
            &&& 2 * pier.at.y == pier.size.y
            &&& panel.turn is FacingWest
            &&& panel.body matches Body::Mesh { material, .. } && material is Brick
            &&& pier.at.x - pier.size.x / 2 - panel.at.x == 20
            &&& panel.at.z == pier.at.z
            &&& panel.size.x == pier.size.z
            &&& index == 1 ==> panel.at.y - panel.size.z / 2 == 0
            &&& index == 2 ==> panel.at.y - panel.size.z / 2 == panel.size.z
        }),
{
}

/// **What is shown stands apart and is what it is called.** The three exhibits stand on
/// plinths of their own, named for what they are made of; the frosted sphere rests on
/// the ground; the two panes lean opposite ways.
pub proof fn exhibits_are_what_they_are_called()
    ensures
        ({
            let shown = all_artefacts();
            let material = |spawn: SpawnView| spawn.body->Mesh_material;
            &&& shown.len() == 9
            &&& shown[1].name == "Marble"@ && material(shown[1]) is Marble
            &&& shown[3].name == "Crystal"@ && material(shown[3]) is Crystal
            &&& shown[5].name == "Wax"@ && material(shown[5]) is Wax
            &&& shown[6].name == "Frosted"@ && material(shown[6]) is Frosted
            &&& material(shown[0]) is Stone && shown[0].name == "Marble"@ + " Plinth"@
            &&& material(shown[2]) is Stone && shown[2].name == "Crystal"@ + " Plinth"@
            &&& material(shown[4]) is Stone && shown[4].name == "Wax"@ + " Plinth"@
            &&& shown[1].at.x + 2_000 == shown[3].at.x
            &&& shown[3].at.x + 2_000 == shown[5].at.x
            &&& 2 * shown[6].at.y == shown[6].size.y
            &&& material(shown[7]) is Glass && material(shown[8]) is Glass
            &&& shown[7].size == shown[8].size && shown[7].at.y == shown[8].at.y
            &&& shown[7].turn matches Turn::Lean { yaw, lean } && yaw > 0 && lean > 0
            &&& shown[8].turn matches Turn::Lean { yaw, lean } && yaw < 0 && lean < 0
        }),
{
}

/// **A sprig stands where it grows.** Its cards are as wide as high and half of that
/// above its foot. All but those on the wall tops grow from the paving, inside the
/// walls; the two on the west wall grow from the top of the stretch they stand on.
pub proof fn sprigs_stand_where_they_grow(index: int)
    requires
        0 <= index < SPRIGS,
    ensures
        ({
            let sprig = sprig_of(index);
            let leaf = leaf(2 * index);
            &&& leaf.at.x == sprig.x
            &&& leaf.at.z == sprig.z
            &&& leaf.size.x == leaf.size.y == leaf.size.z == sprig.scale
            &&& 2 * (leaf.at.y - sprig.y) == sprig.scale
            &&& leaf.turn == Turn::Stood(sprig.yaw)
            &&& leaf.body matches Body::Mesh { material, .. } && material is Foliage
            &&& sprig.y == 0 <==> FLOOR_WEST <= sprig.x <= FLOOR_EAST
            &&& FLOOR_FAR <= sprig.z <= FLOOR_NEAR
            &&& index < 5 ==> sprig.y == 0 && sprig.z < FLOOR_FAR + 1_000
            &&& 7 <= index < 10 ==> sprig.x < FLOOR_WEST + 2_000 && GATE_FAR - 600 < sprig.z
                < GATE_NEAR + 600
            &&& index == 10 ==> sprig.y == west(3).height && west(3).from <= sprig.z <= west(3).to
            &&& index == 11 ==> sprig.y == west(2).height && west(2).from <= sprig.z <= west(2).to
            &&& 10 <= index < 12 ==> sprig.x == west_wall(0).at.x
            &&& index == 12 ==> sprig.x == east_wall(0).at.x
        }),
{
    assert((2 * index) / 2 == index && (2 * index) % 2 == 0);
}

/// **The fire is a body and a light in one place.** The brazier rests on the ground, the
/// embers lie in it and the light hangs over them; and the second mark is burnt around
/// it, as wide as it is long.
pub proof fn the_fire_burns_in_one_place()
    ensures
        ({
            let brazier = all_lights()[1];
            let embers = all_lights()[2];
            let fire = all_lights()[3];
            let mark = all_marks()[1];
            &&& 2 * brazier.at.y == brazier.size.y
            &&& embers.body matches Body::Mesh { material, .. } && material is Ember
            &&& fire.body is Bulb
            &&& brazier.at.y < embers.at.y < fire.at.y
            &&& embers.at.y - embers.size.y as int / 2 < brazier.size.y
            &&& brazier.at.x == embers.at.x == fire.at.x == mark.at.x
            &&& brazier.at.z == embers.at.z == fire.at.z == mark.at.z
            &&& mark.size.x > brazier.size.x
            &&& embers.size.x < brazier.size.x
        }),
{
}

/// **A mark on open ground is aimed down at it.** It is as wide as long, its box two
/// fifths as deep, and has the opacity it was given.
pub proof fn ground_marks_are_aimed_down(
    index: int,
    x: int,
    y: int,
    z: int,
    size: int,
    opacity: Option<u32>,
)
    requires
        -1_000_000 <= x <= 1_000_000,
        -1_000_000 <= y <= 1_000_000,
        -1_000_000 <= z <= 1_000_000,
        0 <= size <= 1_000_000,
        size % 5 == 0,
    ensures
        ({
            let mark = ground_scorch(index, x, y, z, size, opacity);
            &&& mark.turn is Down
            &&& mark.at.x == x && mark.at.y == y && mark.at.z == z
            &&& mark.size.x == mark.size.y == size
            &&& 5 * mark.size.z == 2 * size
            &&& mark.body matches Body::Scorch { opacity: given, .. } && given == opacity
        }),
{
}

/// **The courtyard is seen into the sun, from its open side.** Its sky and its light
/// have one sun; the camera stands in front of the near edge at a person's height and
/// looks away from it, against the light; the air shows the shafts.
pub proof fn the_courtyard_is_seen_into_the_sun(scene: Scene)
    requires
        is_courtyard(scene),
    ensures
        all_lights()[0].body matches Body::Directional { aim, .. } && aim == scene.sun,
        scene.sun.y < 0,
        scene.sun.x > 0,
        scene.sun.z > 0,
        scene.eye.position.z > FLOOR_NEAR,
        FLOOR_WEST < scene.eye.position.x < FLOOR_EAST,
        scene.eye.target.z < scene.eye.position.z,
        scene.eye.target.x < scene.eye.position.x,
        scene.eye.position.y > scene.eye.target.y > 0,
        (scene.eye.target.x - scene.eye.position.x) * scene.sun.x + (scene.eye.target.z
            - scene.eye.position.z) * scene.sun.z < 0,
        scene.air matches Some(air) && air.volumetric && air.anisotropy <= 1_000,
        scene.exposure matches Some(stops) && stops < 0,
        scene.sky.0 == 2 * scene.sky.1,
        scene.spawns@.len() == courtyard().len(),
{
    assert(views(scene.spawns@).len() == scene.spawns@.len());
}

/// **The courtyard is spawned in its order.** In a scene that is the courtyard: the
/// stones, what they lie on, the walls from the west round to the east, the gateway,
/// the arch, the pier and its brick, the brick on the east wall, what is shown, the
/// overgrowth, the lights and the marks.
pub proof fn the_courtyard_is_in_order(scene: Scene, i: int)
    requires
        is_courtyard(scene),
        0 <= i < scene.spawns@.len(),
    ensures
        scene.spawns@.len() == 140,
        ({
            let spawned = scene.spawns@[i]@;
            &&& i < 72 ==> spawned == flagstone(i)
            &&& i == 72 ==> spawned == substrate()
            &&& 73 <= i < 77 ==> spawned == west_wall(i - 73)
            &&& 77 <= i < 79 ==> spawned == north_wall(i - 77)
            &&& 79 <= i < 81 ==> spawned == east_wall(i - 79)
            &&& i == 81 ==> spawned == gate_lintel()
            &&& 82 <= i < 84 ==> spawned == threshold(i - 82)
            &&& 84 <= i < 86 ==> spawned == arch_pier(i - 84)
            &&& i == 86 ==> spawned == arch_lintel()
            &&& 87 <= i < 90 ==> spawned == all_pier()[i - 87]
            &&& 90 <= i < 93 ==> spawned == east_facing(i - 90)
            &&& 93 <= i < 102 ==> spawned == all_artefacts()[i - 93]
            &&& 102 <= i < 132 ==> spawned == leaf(i - 102)
            &&& 132 <= i < 137 ==> spawned == all_lights()[i - 132]
            &&& 137 <= i ==> spawned == all_marks()[i - 137]
        }),
{
    let spawned = views(scene.spawns@);
    assert(spawned.len() == scene.spawns@.len());
    assert(spawned[i] == scene.spawns@[i]@);
    assert(rows_of_paving() == 9 && columns_of_paving() == 8);
    assert(columns_of_paving() * rows_of_paving() == 72);
    let a = all_paving();
    let b = a + all_walls();
    let c = b + all_gateway();
    let d = c + all_arcade();
    let e = d + all_pier();
    let f = e + all_facing();
    let g = f + all_artefacts();
    let h = g + leaves(30);
    let k = h + all_lights();
    assert(courtyard() == k + all_marks());
    assert(a.len() == 73 && b.len() == 81 && c.len() == 84 && d.len() == 87 && e.len() == 90);
    assert(f.len() == 93 && g.len() == 102 && h.len() == 132 && k.len() == 137);
}

/// **A stone's seed is its place's.** Its column and its row each count by a prime of
/// their own, in two and thirty bits, west and far counted below nothing.
pub proof fn seeds_are_their_places(ix: i32, iz: i32) -> (parts: (u32, u32))
    ensures
        seed_of(ix, iz) == parts.0 ^ parts.1,
        parts.0 == (ix * 73_856_093) % 0x1_0000_0000,
        parts.1 == (iz * 19_349_663) % 0x1_0000_0000,
{
    wrapped_product(ix, 73_856_093);
    wrapped_product(iz, 19_349_663);
    (
        (ix as u32).wrapping_mul(73_856_093),
        (iz as u32).wrapping_mul(19_349_663),
    )
}

proof fn wrapped_product(index: i32, factor: u32)
    ensures
        (index as u32).wrapping_mul(factor) == (index * factor) % 0x1_0000_0000,
{
    let wide: int = 0x1_0000_0000;
    assert(index >= 0 ==> index as u32 == index) by (bit_vector);
    assert(index < 0 ==> index as u32 == index + 0x1_0000_0000) by (bit_vector);
    if index < 0 {
        assert((index as u32) * factor == index * factor + wide * factor) by (nonlinear_arith)
            requires
                index as u32 == index + wide,
        ;
        vstd::arithmetic::div_mod::lemma_mod_multiples_vanish(
            factor as int,
            index * factor,
            wide,
        );
    }
}

/// **The overgrowth is where it was planted**: place by place, from the far wall round
/// the pier and the gateway to the wall tops and the paving.
pub proof fn sprigs_are_where_they_were_planted(i: int)
    requires
        0 <= i < SPRIGS,
    ensures
        sprig_of(i).x == seq![
            -7_000i32,
            -4_400i32,
            400i32,
            2_000i32,
            5_600i32,
            2_600i32,
            2_800i32,
            -7_100i32,
            -7_200i32,
            -6_600i32,
            -8_250i32,
            -8_250i32,
            8_250i32,
            -2_600i32,
            -6_000i32,
        ][i],
        sprig_of(i).z == seq![
            -8_100i32,
            -8_300i32,
            -8_200i32,
            -8_100i32,
            -8_200i32,
            -1_000i32,
            -6_500i32,
            -3_000i32,
            -6_500i32,
            -4_900i32,
            5_200i32,
            2_600i32,
            -1_400i32,
            5_400i32,
            6_200i32,
        ][i],
        sprig_of(i).scale == 100 * seq![
            15int, 13, 17, 14, 15, 16, 13, 12, 14, 13, 14, 16, 15, 10, 14,
        ][i],
        sprig_of(i).yaw == 5 * seq![
            3int, -8int, 5, -3int, 12, 7, -5int, 2, -6int, 9, 4, -4int, 8, -2int, 3,
        ][i],
        i == 12 ==> sprig_of(i).y == 2_600,
{
}

/// **The courtyard's lights have their strengths.** A low sun, a warm fire and a sconce
/// high on the east side that is aimed inwards and down.
pub proof fn the_courtyard_has_its_lights(scene: Scene)
    requires
        is_courtyard(scene),
    ensures
        scene.spawns@[132]@.body == (Body::Directional {
            aim: Point { x: 798, y: -379i32, z: 469 },
            color: Color { r: 10_000, g: 7_200, b: 4_500 },
            lux: 22_000,
        }),
        scene.spawns@[133]@.at == (Point { x: -5_000i32, y: 180, z: 600 }),
        scene.spawns@[133]@.size == (Point { x: 1_500, y: 360, z: 1_500 }),
        scene.spawns@[134]@.at.y == 520,
        scene.spawns@[134]@.size.x == 850,
        scene.spawns@[135]@.at.y == 750,
        scene.spawns@[135]@.body == (Body::Bulb {
            color: Color { r: 10_000, g: 5_500, b: 2_500 },
            lumens: 20_000,
            range: 14_000,
        }),
        scene.spawns@[136]@.at == (Point { x: 7_400, y: 4_200, z: -2_600i32 }),
        scene.spawns@[136]@.body == (Body::Spot {
            aim: Point { x: -550i32, y: -1_000i32, z: 300 },
            color: Color { r: 10_000, g: 8_400, b: 6_200 },
            lumens: 9_000,
            range: 18_000,
            inner: 20,
            outer: 30,
        }),
        scene.sun == (Point { x: 798, y: -379i32, z: 469 }),
        scene.eye.position == (Point { x: 4_400, y: 1_750, z: 9_500 }),
        scene.eye.target == (Point { x: 650, y: 1_000, z: -4_750i32 }),
        scene.eye.fov == Some(45u32),
        scene.air->0.density == 14,
        scene.air->0.height_falloff == 100,
        scene.air->0.anisotropy == 750,
        scene.exposure->0 == -1_000,
        scene.sky_luminance == Some(70u32),
{
    assert(views(scene.spawns@).len() == scene.spawns@.len());
    courtyard_has_all_of_it();
    the_courtyard_is_in_order(scene, 132);
    the_courtyard_is_in_order(scene, 133);
    the_courtyard_is_in_order(scene, 134);
    the_courtyard_is_in_order(scene, 135);
    the_courtyard_is_in_order(scene, 136);
}

proof fn courtyard_has_all_of_it()
    ensures
        courtyard().len() == 140,
{
    assert(rows_of_paving() == 9 && columns_of_paving() == 8);
    assert(columns_of_paving() * rows_of_paving() == 72);
}

/// **The exhibits and the marks have their places.** The exhibits are known by their
/// height and width, the panes by their lean, and the arch, the pier, the threshold and
/// the marks by where they stand.
pub proof fn things_are_where_they_were_put(i: int)
    requires
        0 <= i < 3,
    ensures
        ({
            let plinth = all_artefacts()[2 * i];
            let ball = all_artefacts()[2 * i + 1];
            let mark = all_marks()[i];
            &&& plinth.at.x == ball.at.x == seq![1_000i32, 3_000i32, 5_000i32][i]
            &&& plinth.at.z == ball.at.z == seq![1_200i32, 1_200i32, 1_400i32][i]
            &&& plinth.size.y == seq![1_700i32, 500i32, 1_100i32][i]
            &&& ball.size.x == seq![900i32, 1_050i32, 950i32][i]
            &&& mark.at.x == seq![2_000i32, -5_000i32, 980i32][i]
            &&& mark.at.y == seq![0i32, 0i32, 1_500i32][i]
            &&& mark.at.z == seq![2_600i32, 600i32, -2_400i32][i]
            &&& mark.size.x == mark.size.y == seq![4_000i32, 2_800i32, 1_500i32][i]
            &&& mark.size.z == seq![1_600i32, 1_120i32, 800i32][i]
            &&& mark.body->opacity == Some(seq![850u32, 1_000u32, 700u32][i])
            &&& i == 2 <==> mark.turn is East
            &&& i < 2 <==> mark.turn is Down
        }),
        all_artefacts()[6].at == (Point { x: 1_800, y: 600, z: 3_400 }),
        glazing(0).at == (Point { x: 1_600, y: 1_150, z: 4_400 }),
        glazing(1).at == (Point { x: 2_300, y: 1_150, z: 5_000 }),
        glazing(0).size == (Point { x: 1_400, y: 1_900, z: 70 }),
        glazing(0).turn == (Turn::Lean { yaw: 14, lean: 13 }),
        glazing(1).turn == (Turn::Lean { yaw: -22i32, lean: -11i32 }),
        arch_pier(0).at == (Point { x: -4_200i32, y: 2_100, z: 1_900 }),
        arch_pier(1).at.x == 600,
        arch_pier(0).size == (Point { x: 700, y: 4_200, z: 700 }),
        arch_lintel().size == (Point { x: 6_200, y: 700, z: 700 }),
        all_pier()[0].at == (Point { x: 1_600, y: 2_250, z: -3_000i32 }),
        all_pier()[0].size == (Point { x: 600, y: 4_500, z: 4_000 }),
        threshold(0).size.y == 240,
        threshold(1).at.x - threshold(0).at.x == 550,
        threshold(0).size.x == 600,
        substrate().size.y == 600,
        substrate().at.y == -350,
        east_facing(i).at.x == FLOOR_EAST - 20,
        west(0).height == 4_000 && west(2).height == 2_600 && west(3).height == 2_000,
        west(1).to == 1_000 && west(2).to == 4_000,
        north(0).to == 2_500 && north(1).from == 4_500,
        north(0).height == 4_500 && north(1).height == 3_200,
        east(0).to == -5_000 && east(1).to == -1_000 && east(0).height == 4_000,
{
    assert(all_artefacts()[2 * i] == seq![
        all_artefacts()[0],
        all_artefacts()[2],
        all_artefacts()[4],
    ][i]);
    assert(all_artefacts()[2 * i + 1] == seq![
        all_artefacts()[1],
        all_artefacts()[3],
        all_artefacts()[5],
    ][i]);
}

} // verus!
