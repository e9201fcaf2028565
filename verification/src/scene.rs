//! The feature rig: one readout per feature, laid out to be measured.
//!
//! Nothing here is composed to look like a place. Every object exists to say
//! whether one thing is working, and it is placed where that answer is legible.
//! The offscreen captures frame specific coordinates in here, so moving an object
//! is moving a measurement.
//!
//! Lengths are in thousandths of a metre, angles in degrees. A scene is a list of
//! what to spawn, in order; the code around the library spawns it.

use crate::library::{
    authored_of, in_library, material_name_of, percent_of, shows, step_at, step_of, Asset, Color,
    Layer, MaterialKey, MeshKey, TextureKey, SWEEP, WALL_TILE,
};
use crate::text::{append_number, written};
use vstd::prelude::*;
use vstd::string::*;

verus! {

/// Cubes on a side of the grid.
pub const GRID: i32 = 10;

/// From one cube of the grid to the next.
pub const SPACING: i32 = 2_000;

/// The width of a drawn sky.
pub const SKY_WIDTH: u32 = 1024;

/// The height of a drawn sky.
pub const SKY_HEIGHT: u32 = 512;

/// How far what the scorch mark lands on may turn away from it: well under a right
/// angle, which keeps it off the sides of what its box swallows.
pub const SCORCH_ANGLE: u32 = 55;

#[derive(Clone, Copy, Debug, PartialEq, Eq, Structural)]
pub struct Point {
    pub x: i32,
    pub y: i32,
    pub z: i32,
}

/// How an entity is turned.
#[derive(Clone, Copy, Debug, PartialEq, Eq, Structural)]
pub enum Turn {
    Level,
    /// About the vertical.
    Yaw(i32),
    /// Leant back, and then turned about the vertical.
    Lean { yaw: i32, lean: i32 },
    /// A quad, stood on edge first and turned second.
    Stood(i32),
    /// A quad, stood on edge and turned a quarter, to face -x.
    FacingWest,
    /// Quarter turns about the vertical.
    Quarters(u32),
    /// Aimed straight down.
    Down,
    /// Aimed along +x.
    East,
}

/// What an entity is.
#[derive(Clone, Copy, Debug, PartialEq, Eq, Structural)]
pub enum Body {
    Mesh { mesh: MeshKey, material: MaterialKey },
    /// A mesh that turns about the vertical, in thousandths of a radian a second.
    Spinning { mesh: MeshKey, material: MaterialKey, speed: u32 },
    /// A mesh that stands a little proud of its place, or sunk into it, by a
    /// number of [`hash_bits`](crate::textures::hash_bits).
    Settled { mesh: MeshKey, material: MaterialKey, settle: u32 },
    /// The scorch mark, projected; at its own opacity where none is given, in
    /// thousandths. It fades off what turns further away from it than its angle,
    /// and drives the roughness and metalness of what it lands on where it
    /// affects the surface.
    Scorch {
        albedo: TextureKey,
        normal: TextureKey,
        metallic_roughness: TextureKey,
        angle: u32,
        affects_surface: bool,
        opacity: Option<u32>,
    },
    /// Lit from far away, in lux. The direction is not of unit length.
    Directional { aim: Point, color: Color, lux: u32 },
    /// A bulb, in lumens.
    Bulb { color: Color, lumens: u32, range: u32 },
    /// A bulb with a reflector; half angles from its axis.
    Spot { aim: Point, color: Color, lumens: u32, range: u32, inner: u32, outer: u32 },
}

/// An entity to spawn.
#[derive(Debug)]
pub struct Spawn {
    pub name: String,
    pub at: Point,
    pub turn: Turn,
    pub size: Point,
    pub body: Body,
}

/// What a [`Spawn`] says.
#[verifier::ext_equal]
pub struct SpawnView {
    pub name: Seq<char>,
    pub at: Point,
    pub turn: Turn,
    pub size: Point,
    pub body: Body,
}

impl View for Spawn {
    type V = SpawnView;

    open spec fn view(&self) -> SpawnView {
        SpawnView {
            name: self.name@,
            at: self.at,
            turn: self.turn,
            size: self.size,
            body: self.body,
        }
    }
}

/// What a list of entities says.
pub open spec fn views(spawns: Seq<Spawn>) -> Seq<SpawnView> {
    spawns.map_values(|spawn: Spawn| spawn@)
}

/// Where a scene is seen from.
#[derive(Clone, Copy, Debug, PartialEq, Eq, Structural)]
pub struct Eye {
    pub position: Point,
    pub target: Point,
    /// The field of view, where it is not the camera's own.
    pub fov: Option<u32>,
}

/// The air of a scene, in thousandths, and whether shafts of light show in it.
#[derive(Clone, Copy, Debug, PartialEq, Eq, Structural)]
pub struct Air {
    pub density: u32,
    pub height_falloff: u32,
    pub anisotropy: u32,
    pub volumetric: bool,
}

/// A scene.
#[derive(Debug)]
pub struct Scene {
    pub spawns: Vec<Spawn>,
    /// Where the sunlight of the sky travels. Not of unit length.
    pub sun: Point,
    /// The width and height of the sky that is drawn.
    pub sky: (u32, u32),
    pub eye: Eye,
    pub air: Option<Air>,
    /// Stops, in thousandths, where the scene has its own.
    pub exposure: Option<i32>,
    /// What the sky is, in candela per square metre, where the scene says.
    pub sky_luminance: Option<u32>,
}

pub open spec fn point(x: int, y: int, z: int) -> Point {
    Point { x: x as i32, y: y as i32, z: z as i32 }
}

pub open spec fn cubed(size: int) -> Point {
    point(size, size, size)
}

/// Spawn one more entity.
pub fn spawn(out: &mut Vec<Spawn>, name: String, at: Point, turn: Turn, size: Point, body: Body)
    ensures
        views(final(out)@) == views(old(out)@).push(
            (SpawnView { name: name@, at, turn, size, body }),
        ),
{
    let ghost before = out@;
    out.push(Spawn { name, at, turn, size, body });
    assert(views(out@) =~= views(before).push(SpawnView { name: name@, at, turn, size, body }));
}

/// A name with a number behind it.
pub fn numbered(prefix: &str, number: u64) -> (name: String)
    ensures
        name@ == prefix@ + written(number as nat, 10),
{
    let mut name: String = prefix.to_owned();
    append_number(&mut name, number, 10);
    name
}

/// A name with a number and a half behind it.
pub fn halved(prefix: &str, number: u64, half: u64) -> (name: String)
    ensures
        name@ == prefix@ + written(number as nat, 10) + "."@ + written(half as nat, 10),
{
    let mut name: String = prefix.to_owned();
    append_number(&mut name, number, 10);
    name.append(".");
    append_number(&mut name, half, 10);
    name
}

// ---------------------------------------------------------------------------
// The grid.

/// The material of a cube of the grid.
pub open spec fn grid_material(x: int, z: int) -> MaterialKey {
    if (x + z) % 3 == 0 {
        MaterialKey::Rock
    } else if (x + z) % 3 == 1 {
        MaterialKey::Textured
    } else {
        palette((x + z) % 5)
    }
}

/// The metallic-roughness palette.
pub open spec fn palette(index: int) -> MaterialKey {
    if index == 0 {
        MaterialKey::Gold
    } else if index == 1 {
        MaterialKey::Copper
    } else if index == 2 {
        MaterialKey::Glossy
    } else if index == 3 {
        MaterialKey::Clay
    } else {
        MaterialKey::Neon
    }
}

/// Cube `index` of the grid, which is filled column by column.
pub open spec fn grid_cube(index: int) -> SpawnView {
    let x = index / (GRID as int);
    let z = index % (GRID as int);
    SpawnView {
        name: "Cube "@ + written(index as nat, 10),
        at: point(x * SPACING - 9_000, 0, z * SPACING - 9_000),
        turn: Turn::Level,
        size: cubed(1_000),
        body: Body::Spinning {
            mesh: MeshKey::Cube,
            material: grid_material(x, z),
            speed: (500 + (x + z) % 5 * 400) as u32,
        },
    }
}

pub open spec fn grid(count: nat) -> Seq<SpawnView> {
    Seq::new(count, |i: int| grid_cube(i))
}

fn cube_material(x: i32, z: i32) -> (material: MaterialKey)
    requires
        0 <= x < GRID,
        0 <= z < GRID,
    ensures
        material == grid_material(x as int, z as int),
{
    let sum: u32 = (x + z) as u32;
    match sum % 3 {
        0 => MaterialKey::Rock,
        1 => MaterialKey::Textured,
        _ => match sum % 5 {
            0 => MaterialKey::Gold,
            1 => MaterialKey::Copper,
            2 => MaterialKey::Glossy,
            3 => MaterialKey::Clay,
            _ => MaterialKey::Neon,
        },
    }
}

fn spawn_grid(out: &mut Vec<Spawn>)
    ensures
        views(final(out)@) == views(old(out)@) + grid(100),
{
    let ghost before = views(out@);
    let mut index: u64 = 0;
    let mut x: i32 = 0;
    assert(before + grid(0) =~= before);
    while x < GRID
        invariant
            0 <= x <= GRID,
            index == x * GRID,
            views(out@) == before + grid(index as nat),
        decreases GRID - x,
    {
        let mut z: i32 = 0;
        while z < GRID
            invariant
                0 <= x < GRID,
                0 <= z <= GRID,
                index == x * GRID + z,
                views(out@) == before + grid(index as nat),
            decreases GRID - z,
        {
            assert(index / 10 == x && index % 10 == z);
            let sum: u32 = (x + z) as u32;
            spawn(
                out,
                numbered("Cube ", index),
                Point { x: x * SPACING - 9_000, y: 0, z: z * SPACING - 9_000 },
                Turn::Level,
                Point { x: 1_000, y: 1_000, z: 1_000 },
                Body::Spinning {
                    mesh: MeshKey::Cube,
                    material: cube_material(x, z),
                    speed: 500 + sum % 5 * 400,
                },
            );
            assert(views(out@) =~= before + grid(index as nat + 1));
            index = index + 1;
            z = z + 1;
        }
        x = x + 1;
    }
}

// ---------------------------------------------------------------------------
// The spheres.

/// Sphere `index` of the roughness sweep: a metal and a dielectric for each step.
pub open spec fn sweep_sphere(index: int) -> SpawnView {
    let step = (index / 2) as usize;
    let metal = index % 2 == 0;
    SpawnView {
        name: (if metal {
            "Metal "@
        } else {
            "Dielectric "@
        }) + written(percent_of(step), 10) + "%"@,
        at: point(step * 3_000 - 6_000, 2_500, if metal {
            11_000
        } else {
            14_000
        }),
        turn: Turn::Level,
        size: cubed(2_000),
        body: Body::Mesh {
            mesh: MeshKey::Sphere,
            material: if metal {
                MaterialKey::Metal(step)
            } else {
                MaterialKey::Dielectric(step)
            },
        },
    }
}

pub open spec fn sweep(count: nat) -> Seq<SpawnView> {
    Seq::new(count, |i: int| sweep_sphere(i))
}

fn percentage(prefix: &str, step: usize) -> (name: String)
    requires
        step < SWEEP,
    ensures
        name@ == prefix@ + written(percent_of(step), 10) + "%"@,
{
    let mut name: String = prefix.to_owned();
    append_number(&mut name, (step * 100 / (SWEEP - 1)) as u64, 10);
    name.append("%");
    name
}

fn spawn_sweep(out: &mut Vec<Spawn>)
    ensures
        views(final(out)@) == views(old(out)@) + sweep(10),
{
    let ghost before = views(out@);
    let mut step: usize = 0;
    assert(before + sweep(0) =~= before);
    while step < SWEEP
        invariant
            step <= SWEEP,
            views(out@) == before + sweep((2 * step) as nat),
        decreases SWEEP - step,
    {
        let x: i32 = step as i32 * 3_000 - 6_000;
        let size = Point { x: 2_000, y: 2_000, z: 2_000 };
        spawn(
            out,
            percentage("Metal ", step),
            Point { x, y: 2_500, z: 11_000 },
            Turn::Level,
            size,
            Body::Mesh { mesh: MeshKey::Sphere, material: MaterialKey::Metal(step) },
        );
        assert((2 * step) / 2 == step && (2 * step + 1) / 2 == step);
        assert((2 * step) % 2 == 0 && (2 * step + 1) % 2 == 1);
        assert(views(out@) =~= before + sweep((2 * step + 1) as nat));
        spawn(
            out,
            percentage("Dielectric ", step),
            Point { x, y: 2_500, z: 14_000 },
            Turn::Level,
            size,
            Body::Mesh { mesh: MeshKey::Sphere, material: MaterialKey::Dielectric(step) },
        );
        assert(views(out@) =~= before + sweep((2 * step + 2) as nat));
        step = step + 1;
    }
}

/// The extra lobes, in the order of their row.
pub open spec fn lobe(index: int) -> MaterialKey {
    if index == 0 {
        MaterialKey::Clearcoat
    } else if index == 1 {
        MaterialKey::Velvet
    } else if index == 2 {
        MaterialKey::Brushed
    } else if index == 3 {
        MaterialKey::Crystal
    } else if index == 4 {
        MaterialKey::Frosted
    } else if index == 5 {
        MaterialKey::Marble
    } else {
        MaterialKey::Wax
    }
}

/// Sphere `index` of the row of lobes, which is centred on its own length.
pub open spec fn lobe_sphere(index: int) -> SpawnView {
    SpawnView {
        name: material_name_of(lobe(index)),
        at: point(index * 2_900 - 8_700, 6_000, 13_000),
        turn: Turn::Level,
        size: cubed(1_200),
        body: Body::Mesh { mesh: MeshKey::Sphere, material: lobe(index) },
    }
}

pub open spec fn lobes(count: nat) -> Seq<SpawnView> {
    Seq::new(count, |i: int| lobe_sphere(i))
}

fn spawn_lobes(out: &mut Vec<Spawn>)
    ensures
        views(final(out)@) == views(old(out)@) + lobes(7),
{
    let ghost before = views(out@);
    let mut index: i32 = 0;
    assert(before + lobes(0) =~= before);
    while index < 7
        invariant
            0 <= index <= 7,
            views(out@) == before + lobes(index as nat),
        decreases 7 - index,
    {
        let material = match index {
            0 => MaterialKey::Clearcoat,
            1 => MaterialKey::Velvet,
            2 => MaterialKey::Brushed,
            3 => MaterialKey::Crystal,
            4 => MaterialKey::Frosted,
            5 => MaterialKey::Marble,
            _ => MaterialKey::Wax,
        };
        spawn(
            out,
            material.name(),
            Point { x: index * 2_900 - 8_700, y: 6_000, z: 13_000 },
            Turn::Level,
            Point { x: 1_200, y: 1_200, z: 1_200 },
            Body::Mesh { mesh: MeshKey::Sphere, material },
        );
        assert(views(out@) =~= before + lobes(index as nat + 1));
        index = index + 1;
    }
}

// ---------------------------------------------------------------------------
// The floor, the panes, the walls, the leaf cards.

/// A flattened cube that gives the grid real contact surfaces.
pub open spec fn floor() -> SpawnView {
    SpawnView {
        name: "Ground"@,
        at: point(0, -750, 0),
        turn: Turn::Level,
        size: point(30_000, 500, 30_000),
        body: Body::Mesh { mesh: MeshKey::Cube, material: MaterialKey::Ground },
    }
}

/// Three panes at different depths, deliberately crossing.
pub open spec fn pane(index: int) -> SpawnView {
    let (x, z, yaw) = if index == 0 {
        (-3_000int, 6_000int, 0i32)
    } else if index == 1 {
        (0int, 7_500int, 25i32)
    } else {
        (3_000int, 6_500int, -20i32)
    };
    SpawnView {
        name: "Glass "@ + written(index as nat, 10),
        at: point(x, 2_500, z),
        turn: Turn::Yaw(yaw),
        size: point(4_000, 4_000, 100),
        body: Body::Mesh { mesh: MeshKey::Cube, material: MaterialKey::Glass },
    }
}

pub open spec fn panes() -> Seq<SpawnView> {
    seq![pane(0), pane(1), pane(2)]
}

/// The masonry's own metres.
pub open spec fn panel_size() -> Point {
    point((WALL_TILE.0 / 10) as int, 1_000, (WALL_TILE.1 / 10) as int)
}

/// One half of the comparison: a panel that marches its height field, and above
/// it one that does not.
pub open spec fn wall_panel(parallax: bool) -> SpawnView {
    SpawnView {
        name: if parallax {
            "Wall (parallax)"@
        } else {
            "Wall (flat)"@
        },
        at: point(0, if parallax {
            500
        } else {
            2_500
        }, -13_000),
        turn: Turn::Stood(25),
        size: panel_size(),
        body: Body::Mesh {
            mesh: MeshKey::PlanePlain,
            material: if parallax {
                MaterialKey::Brick
            } else {
                MaterialKey::BrickFlat
            },
        },
    }
}

/// Where a stand of leaf cards is, and how it is turned.
pub open spec fn stand(index: int) -> (int, int, int) {
    if index == 0 {
        (-11_500, 3_500, 10)
    } else if index == 1 {
        (-10_400, 6_500, -35)
    } else if index == 2 {
        (11_000, 4_000, -15)
    } else {
        (12_100, 7_000, 40)
    }
}

/// A leaf card: each stand is a crossed pair.
pub open spec fn card(index: int) -> SpawnView {
    let (x, z, yaw) = stand(index / 2);
    SpawnView {
        name: "Foliage "@ + written((index / 2) as nat, 10) + "."@ + written(
            (index % 2) as nat,
            10,
        ),
        at: point(x, 1_600, z),
        turn: Turn::Stood((yaw + index % 2 * 90) as i32),
        size: cubed(3_200),
        body: Body::Mesh { mesh: MeshKey::Plane, material: MaterialKey::Foliage },
    }
}

pub open spec fn cards(count: nat) -> Seq<SpawnView> {
    Seq::new(count, |i: int| card(i))
}

fn spawn_floor(out: &mut Vec<Spawn>)
    ensures
        views(final(out)@) == views(old(out)@) + seq![floor()],
{
    let ghost before = views(out@);
    spawn(
        out,
        "Ground".to_owned(),
        Point { x: 0, y: -750, z: 0 },
        Turn::Level,
        Point { x: 30_000, y: 500, z: 30_000 },
        Body::Mesh { mesh: MeshKey::Cube, material: MaterialKey::Ground },
    );
    assert(views(out@) =~= before + seq![floor()]);
}

fn spawn_panes(out: &mut Vec<Spawn>)
    ensures
        views(final(out)@) == views(old(out)@) + panes(),
{
    let ghost before = views(out@);
    let size = Point { x: 4_000, y: 4_000, z: 100 };
    let body = Body::Mesh { mesh: MeshKey::Cube, material: MaterialKey::Glass };
    let left = Point { x: -3_000, y: 2_500, z: 6_000 };
    spawn(out, numbered("Glass ", 0), left, Turn::Yaw(0), size, body);
    let middle = Point { x: 0, y: 2_500, z: 7_500 };
    spawn(out, numbered("Glass ", 1), middle, Turn::Yaw(25), size, body);
    let right = Point { x: 3_000, y: 2_500, z: 6_500 };
    spawn(out, numbered("Glass ", 2), right, Turn::Yaw(-20), size, body);
    assert(views(out@) =~= before + panes());
}

fn spawn_walls(out: &mut Vec<Spawn>)
    ensures
        views(final(out)@) == views(old(out)@) + seq![wall_panel(true), wall_panel(false)],
{
    let ghost before = views(out@);
    let size = Point { x: (WALL_TILE.0 / 10) as i32, y: 1_000, z: (WALL_TILE.1 / 10) as i32 };
    spawn(
        out,
        "Wall (parallax)".to_owned(),
        Point { x: 0, y: 500, z: -13_000 },
        Turn::Stood(25),
        size,
        Body::Mesh { mesh: MeshKey::PlanePlain, material: MaterialKey::Brick },
    );
    spawn(
        out,
        "Wall (flat)".to_owned(),
        Point { x: 0, y: 2_500, z: -13_000 },
        Turn::Stood(25),
        size,
        Body::Mesh { mesh: MeshKey::PlanePlain, material: MaterialKey::BrickFlat },
    );
    assert(views(out@) =~= before + seq![wall_panel(true), wall_panel(false)]);
}

fn spawn_cards(out: &mut Vec<Spawn>)
    ensures
        views(final(out)@) == views(old(out)@) + cards(8),
{
    let ghost before = views(out@);
    let size = Point { x: 3_200, y: 3_200, z: 3_200 };
    let body = Body::Mesh { mesh: MeshKey::Plane, material: MaterialKey::Foliage };
    let mut index: u64 = 0;
    assert(before + cards(0) =~= before);
    while index < 4
        invariant
            index <= 4,
            size == cubed(3_200),
            body == (Body::Mesh { mesh: MeshKey::Plane, material: MaterialKey::Foliage }),
            views(out@) == before + cards((2 * index) as nat),
        decreases 4 - index,
    {
        let (x, z, yaw): (i32, i32, i32) = match index {
            0 => (-11_500, 3_500, 10),
            1 => (-10_400, 6_500, -35),
            2 => (11_000, 4_000, -15),
            _ => (12_100, 7_000, 40),
        };
        let at = Point { x, y: 1_600, z };
        assert((2 * index) / 2 == index && (2 * index + 1) / 2 == index);
        assert((2 * index) % 2 == 0 && (2 * index + 1) % 2 == 1);
        spawn(out, halved("Foliage ", index, 0), at, Turn::Stood(yaw), size, body);
        assert(views(out@) =~= before + cards((2 * index + 1) as nat));
        spawn(out, halved("Foliage ", index, 1), at, Turn::Stood(yaw + 90), size, body);
        assert(views(out@) =~= before + cards((2 * index + 2) as nat));
        index = index + 1;
    }
}

// ---------------------------------------------------------------------------
// The decals and the lights.

/// The scorch mark of the library: its three maps, and the surface under it burnt.
pub open spec fn scorch_of(opacity: Option<u32>) -> Body {
    Body::Scorch {
        albedo: TextureKey::ScorchAlbedo,
        normal: TextureKey::ScorchNormal,
        metallic_roughness: TextureKey::ScorchRough,
        angle: SCORCH_ANGLE,
        affects_surface: true,
        opacity,
    }
}

/// The scorch mark of the library.
pub fn scorch(opacity: Option<u32>) -> (body: Body)
    ensures
        body == scorch_of(opacity),
{
    Body::Scorch {
        albedo: TextureKey::ScorchAlbedo,
        normal: TextureKey::ScorchNormal,
        metallic_roughness: TextureKey::ScorchRough,
        angle: SCORCH_ANGLE,
        affects_surface: true,
        opacity,
    }
}

/// A scorch mark on open ground, aimed straight down. Its box is two fifths as
/// deep as it is wide.
pub open spec fn ground_scorch(
    index: int,
    x: int,
    y: int,
    z: int,
    size: int,
    opacity: Option<u32>,
) -> SpawnView {
    SpawnView {
        name: "Scorch "@ + written(index as nat, 10),
        at: point(x, y, z),
        turn: Turn::Down,
        size: point(size, size, size * 2 / 5),
        body: scorch_of(opacity),
    }
}

pub open spec fn decals() -> Seq<SpawnView> {
    seq![
        ground_scorch(0, -10_000, -500, 10_000, 5_000, None),
        ground_scorch(1, 9_500, -500, 8_000, 3_500, None),
        SpawnView {
            name: "Scorch (wall)"@,
            at: point(-800, 1_100, -12_700),
            turn: Turn::Yaw(25),
            size: point(1_600, 1_600, 800),
            body: scorch_of(Some(750)),
        },
    ]
}

fn spawn_decals(out: &mut Vec<Spawn>)
    ensures
        views(final(out)@) == views(old(out)@) + decals(),
{
    let ghost before = views(out@);
    spawn(
        out,
        numbered("Scorch ", 0),
        Point { x: -10_000, y: -500, z: 10_000 },
        Turn::Down,
        Point { x: 5_000, y: 5_000, z: 2_000 },
        scorch(None),
    );
    spawn(
        out,
        numbered("Scorch ", 1),
        Point { x: 9_500, y: -500, z: 8_000 },
        Turn::Down,
        Point { x: 3_500, y: 3_500, z: 1_400 },
        scorch(None),
    );
    spawn(
        out,
        "Scorch (wall)".to_owned(),
        Point { x: -800, y: 1_100, z: -12_700 },
        Turn::Yaw(25),
        Point { x: 1_600, y: 1_600, z: 800 },
        scorch(Some(750)),
    );
    assert(views(out@) =~= before + decals());
}

/// An entity that is a light and nothing else.
pub open spec fn light(name: Seq<char>, at: Point, body: Body) -> SpawnView {
    SpawnView { name, at, turn: Turn::Level, size: cubed(1_000), body }
}

/// Where the rig's sunlight travels.
pub open spec fn rig_sun() -> Point {
    point(-400, -1_000, -600)
}

/// A large architectural fixture.
pub open spec fn bulb(color: Color) -> Body {
    Body::Bulb { color, lumens: 8_000, range: 10_000 }
}

/// The lights of the rig: deep twilight, so that a sun, a lamp and a neon tube
/// are within a few stops of each other.
pub open spec fn rig_lights() -> Seq<SpawnView> {
    seq![
        light(
            "Sun"@,
            point(0, 0, 0),
            Body::Directional {
                aim: rig_sun(),
                color: Color { r: 10_000, g: 9_700, b: 9_200 },
                lux: 250,
            },
        ),
        light(
            "Point Light "@ + written(0, 10),
            point(-4_000, 3_000, -4_000),
            bulb(Color { r: 10_000, g: 3_500, b: 1_000 }),
        ),
        light(
            "Point Light "@ + written(1, 10),
            point(4_000, 3_000, 4_000),
            bulb(Color { r: 2_000, g: 5_000, b: 10_000 }),
        ),
        light(
            "Point Light "@ + written(2, 10),
            point(4_000, 3_000, -4_000),
            bulb(Color { r: 2_000, g: 10_000, b: 4_000 }),
        ),
        light(
            "Spot Light"@,
            point(-6_000, 9_000, 6_000),
            Body::Spot {
                aim: point(550, -1_000, -550),
                color: Color { r: 10_000, g: 9_000, b: 7_500 },
                lumens: 10_000,
                range: 30_000,
                inner: 22,
                outer: 32,
            },
        ),
    ]
}

/// Spawn a light that covers no space.
pub fn spawn_light(out: &mut Vec<Spawn>, name: String, at: Point, body: Body)
    ensures
        views(final(out)@) == views(old(out)@).push(light(name@, at, body)),
{
    spawn(out, name, at, Turn::Level, Point { x: 1_000, y: 1_000, z: 1_000 }, body);
}

fn spawn_rig_lights(out: &mut Vec<Spawn>)
    ensures
        views(final(out)@) == views(old(out)@) + rig_lights(),
{
    let ghost before = views(out@);
    spawn_light(
        out,
        "Sun".to_owned(),
        Point { x: 0, y: 0, z: 0 },
        Body::Directional {
            aim: Point { x: -400, y: -1_000, z: -600 },
            color: Color { r: 10_000, g: 9_700, b: 9_200 },
            lux: 250,
        },
    );
    spawn_light(
        out,
        numbered("Point Light ", 0),
        Point { x: -4_000, y: 3_000, z: -4_000 },
        Body::Bulb {
            color: Color { r: 10_000, g: 3_500, b: 1_000 },
            lumens: 8_000,
            range: 10_000,
        },
    );
    spawn_light(
        out,
        numbered("Point Light ", 1),
        Point { x: 4_000, y: 3_000, z: 4_000 },
        Body::Bulb {
            color: Color { r: 2_000, g: 5_000, b: 10_000 },
            lumens: 8_000,
            range: 10_000,
        },
    );
    spawn_light(
        out,
        numbered("Point Light ", 2),
        Point { x: 4_000, y: 3_000, z: -4_000 },
        Body::Bulb {
            color: Color { r: 2_000, g: 10_000, b: 4_000 },
            lumens: 8_000,
            range: 10_000,
        },
    );
    spawn_light(
        out,
        "Spot Light".to_owned(),
        Point { x: -6_000, y: 9_000, z: 6_000 },
        Body::Spot {
            aim: Point { x: 550, y: -1_000, z: -550 },
            color: Color { r: 10_000, g: 9_000, b: 7_500 },
            lumens: 10_000,
            range: 30_000,
            inner: 22,
            outer: 32,
        },
    );
    assert(views(out@) =~= before + rig_lights());
}

// ---------------------------------------------------------------------------
// The scene.

/// Everything the rig spawns, in order.
pub open spec fn rig() -> Seq<SpawnView> {
    grid(100) + seq![floor()] + sweep(10) + panes() + lobes(7) + seq![
        wall_panel(true),
        wall_panel(false),
    ] + cards(8) + decals() + rig_lights()
}

/// A scene is the rig: what it spawns, its sun and sky, and the whole grid in view.
pub open spec fn is_rig(scene: Scene) -> bool {
    &&& views(scene.spawns@) == rig()
    &&& scene.sun == rig_sun()
    &&& scene.sky == (SKY_WIDTH, SKY_HEIGHT)
    &&& scene.eye == Eye {
        position: point(0, GRID * SPACING * 6 / 10, GRID * SPACING * 11 / 10),
        target: point(0, 0, 0),
        fov: None,
    }
    &&& scene.air is None
    &&& scene.exposure is None
    &&& scene.sky_luminance is None
}

/// The feature rig.
pub fn build_default_scene() -> (scene: Scene)
    ensures
        is_rig(scene),
{
    let mut spawns: Vec<Spawn> = Vec::new();
    assert(views(spawns@) =~= Seq::empty());
    spawn_grid(&mut spawns);
    assert(views(spawns@) =~= grid(100));
    spawn_floor(&mut spawns);
    spawn_sweep(&mut spawns);
    spawn_panes(&mut spawns);
    spawn_lobes(&mut spawns);
    spawn_walls(&mut spawns);
    spawn_cards(&mut spawns);
    spawn_decals(&mut spawns);
    spawn_rig_lights(&mut spawns);
    Scene {
        spawns,
        sun: Point { x: -400, y: -1_000, z: -600 },
        sky: (SKY_WIDTH, SKY_HEIGHT),
        eye: Eye {
            position: Point { x: 0, y: 12_000, z: 22_000 },
            target: Point { x: 0, y: 0, z: 0 },
            fov: None,
        },
        air: None,
        exposure: None,
        sky_luminance: None,
    }
}

/// What an entity is drawn with is in the library.
pub open spec fn drawable(spawn: SpawnView) -> bool {
    match spawn.body {
        Body::Mesh { mesh, material } => in_library(Asset::Mesh(mesh)) && in_library(
            Asset::Material(material),
        ),
        Body::Spinning { mesh, material, speed } => in_library(Asset::Mesh(mesh)) && in_library(
            Asset::Material(material),
        ),
        Body::Settled { mesh, material, settle } => in_library(Asset::Mesh(mesh)) && in_library(
            Asset::Material(material),
        ),
        Body::Scorch { albedo, normal, metallic_roughness, .. } => in_library(
            Asset::Texture(albedo),
        ) && in_library(Asset::Texture(normal)) && in_library(Asset::Texture(metallic_roughness)),
        _ => true,
    }
}

/// **The rig draws nothing that was not loaded.**
pub proof fn rig_is_drawable(index: int)
    requires
        0 <= index < rig().len(),
    ensures
        drawable(rig()[index]),
{
    let a = grid(100) + seq![floor()];
    let b = a + sweep(10);
    let c = b + panes();
    let d = c + lobes(7);
    let e = d + seq![wall_panel(true), wall_panel(false)];
    let f = e + cards(8);
    let g = f + decals();
    assert(rig() == g + rig_lights());
    if 101 <= index < 111 {
        assert(rig()[index] == sweep_sphere(index - 101));
    }
}

/// **How much the rig spawns**: a hundred cubes and thirty-nine other things.
pub proof fn rig_has_every_readout()
    ensures
        rig().len() == 139,
{
}

/// **The grid and the rows are centred.** Mirroring a place of a row mirrors its
/// entity.
pub proof fn rows_are_centred(x: int, z: int, step: int, lobe: int)
    requires
        0 <= x < GRID,
        0 <= z < GRID,
        0 <= step < SWEEP,
        0 <= lobe < 7,
    ensures
        grid_cube(x * GRID + z).at.x == -grid_cube((GRID - 1 - x) * GRID + z).at.x,
        grid_cube(x * GRID + z).at.z == -grid_cube(x * GRID + (GRID - 1 - z)).at.z,
        sweep_sphere(2 * step).at.x == -sweep_sphere(2 * (SWEEP - 1 - step)).at.x,
        lobe_sphere(lobe).at.x == -lobe_sphere(6 - lobe).at.x,
{
    assert((x * 10 + z) / 10 == x && (x * 10 + z) % 10 == z);
    assert(((9 - x) * 10 + z) / 10 == 9 - x && ((9 - x) * 10 + z) % 10 == z);
    assert((x * 10 + (9 - z)) / 10 == x && (x * 10 + (9 - z)) % 10 == 9 - z);
    assert((2 * step) / 2 == step && (2 * (4 - step)) / 2 == 4 - step);
}

/// **No two cubes of the grid share a place.**
pub proof fn cubes_stand_apart(one: int, other: int)
    requires
        0 <= one < 100,
        0 <= other < 100,
        one != other,
    ensures
        grid_cube(one).at != grid_cube(other).at,
{
    assert(one == one / 10 * 10 + one % 10);
    assert(other == other / 10 * 10 + other % 10);
    assert(grid_cube(one).at.x == one / 10 * 2_000 - 9_000);
    assert(grid_cube(one).at.z == one % 10 * 2_000 - 9_000);
    assert(grid_cube(other).at.x == other / 10 * 2_000 - 9_000);
    assert(grid_cube(other).at.z == other % 10 * 2_000 - 9_000);
}

/// **The two walls are one wall seen the same way**: turned and sized alike, one
/// right above the other.
pub proof fn walls_are_stacked()
    ensures
        ({
            let lower = wall_panel(true);
            let upper = wall_panel(false);
            &&& lower.turn == upper.turn
            &&& lower.size == upper.size
            &&& lower.at.x == upper.at.x
            &&& lower.at.z == upper.at.z
            &&& upper.at.y - lower.at.y == lower.size.z
        }),
{
}

/// **Leaf cards come in crossed pairs**: in one place, a right angle apart.
pub proof fn cards_are_crossed(index: int)
    requires
        0 <= index < 4,
    ensures
        card(2 * index).at == card(2 * index + 1).at,
        card(2 * index).turn matches Turn::Stood(yaw) && card(2 * index + 1).turn == Turn::Stood(
            (yaw + 90) as i32,
        ),
{
    assert((2 * index) / 2 == index && (2 * index + 1) / 2 == index);
    assert((2 * index) % 2 == 0 && (2 * index + 1) % 2 == 1);
}

proof fn rig_is_spawned(scene: Scene)
    requires
        is_rig(scene),
    ensures
        scene.spawns@.len() == 139,
        forall|i: int| 0 <= i < 139 ==> #[trigger] rig()[i] == scene.spawns@[i]@,
{
    rig_has_every_readout();
    let views = views(scene.spawns@);
    assert(views.len() == scene.spawns@.len());
    assert forall|i: int| 0 <= i < 139 implies #[trigger] rig()[i] == scene.spawns@[i]@ by {
        assert(views[i] == scene.spawns@[i]@);
    }
}

/// **Cubes stand a spacing apart, column by column.** In a scene that is the rig the
/// cube in column `x` and row `z` is number ten times `x` and `z`; the next one of its
/// column is a spacing further along z, the one beside it a spacing along x. All are
/// cubes a metre large, on the floor's top, and turn the faster by how far they are
/// from the corner, five speeds in turn.
pub proof fn cubes_stand_in_columns(scene: Scene, x: int, z: int)
    requires
        is_rig(scene),
        0 <= x < GRID,
        0 <= z < GRID,
    ensures
        ({
            let cube = scene.spawns@[GRID * x + z]@;
            let ground = scene.spawns@[GRID * GRID]@;
            &&& z + 1 < GRID ==> scene.spawns@[GRID * x + z + 1]@.at == (Point {
                z: (cube.at.z + SPACING) as i32,
                ..cube.at
            })
            &&& x + 1 < GRID ==> scene.spawns@[GRID * (x + 1) + z]@.at == (Point {
                x: (cube.at.x + SPACING) as i32,
                ..cube.at
            })
            &&& cube.size.x == cube.size.y == cube.size.z == 1_000
            &&& cube.at.y - cube.size.y / 2 == ground.at.y + ground.size.y / 2
            &&& -ground.size.x / 2 <= cube.at.x - cube.size.x / 2
            &&& cube.at.x + cube.size.x / 2 <= ground.size.x / 2
            &&& cube.name == "Cube "@ + written((GRID * x + z) as nat, 10)
            &&& cube.body matches Body::Spinning { mesh, material, speed } && {
                &&& mesh is Cube
                &&& material is Rock <==> (x + z) % 3 == 0
                &&& material is Textured <==> (x + z) % 3 == 1
                &&& (x + z) % 3 == 2 ==> material == palette((x + z) % 5)
                &&& speed == 500 + 400 * ((x + z) % 5)
            }
        }),
{
    let index = 10 * x + z;
    assert(index / 10 == x && index % 10 == z);
    rig_is_spawned(scene);
    assert(rig()[index] == grid_cube(index));
    assert(rig()[100] == floor());
    if z + 1 < 10 {
        assert((index + 1) / 10 == x && (index + 1) % 10 == z + 1);
        assert(rig()[index + 1] == grid_cube(index + 1));
    }
    if x + 1 < 10 {
        assert((index + 10) / 10 == x + 1 && (index + 10) % 10 == z);
        assert(rig()[index + 10] == grid_cube(index + 10));
    }
}

/// **The palette is gone through in turn**: five materials, each at its place, none of
/// them twice.
pub proof fn the_palette_has_five(one: int, other: int)
    requires
        0 <= one < 5,
        0 <= other < 5,
    ensures
        palette(one) == palette(other) <==> one == other,
        palette(one) == step_at(one + 6)->Material_0,
{
}

/// **The sweep is two rows of spheres that correspond.** Behind the floor, in a scene
/// that is the rig, each step has a metal and then a dielectric of its own roughness:
/// side by side, as large, as high, three metres from the next step's.
pub proof fn the_sweep_is_two_rows(scene: Scene, step: int)
    requires
        is_rig(scene),
        0 <= step < SWEEP,
    ensures
        ({
            let metal = scene.spawns@[101 + 2 * step]@;
            let dielectric = scene.spawns@[102 + 2 * step]@;
            &&& metal.body == Body::Mesh {
                mesh: MeshKey::Sphere,
                material: MaterialKey::Metal(step as usize),
            }
            &&& dielectric.body == Body::Mesh {
                mesh: MeshKey::Sphere,
                material: MaterialKey::Dielectric(step as usize),
            }
            &&& metal.at.x == dielectric.at.x
            &&& metal.at.y == dielectric.at.y
            &&& dielectric.at.z == metal.at.z + 3_000
            &&& metal.size == dielectric.size
            &&& metal.name == "Metal "@ + written(percent_of(step as usize), 10) + "%"@
            &&& dielectric.name == "Dielectric "@ + written(percent_of(step as usize), 10) + "%"@
            &&& step + 1 < SWEEP ==> scene.spawns@[103 + 2 * step]@.at == (Point {
                x: (metal.at.x + 3_000) as i32,
                ..metal.at
            })
        }),
{
    rig_is_spawned(scene);
    let index = 2 * step;
    assert(index / 2 == step && index % 2 == 0);
    assert((index + 1) / 2 == step && (index + 1) % 2 == 1);
    assert((index + 2) / 2 == step + 1 && (index + 2) % 2 == 0);
    assert(rig()[101 + index] == sweep_sphere(index));
    assert(rig()[102 + index] == sweep_sphere(index + 1));
    if step + 1 < 5 {
        assert(rig()[103 + index] == sweep_sphere(index + 2));
    }
}

/// **Every extra lobe has its sphere, and is named on it.** Behind the panes, in a
/// scene that is the rig: in one row, evenly spaced, as large as each other, each of
/// another material.
pub proof fn lobes_have_their_spheres(scene: Scene, one: int, other: int)
    requires
        is_rig(scene),
        0 <= one < other < 7,
    ensures
        ({
            let first = scene.spawns@[114 + one]@;
            let second = scene.spawns@[114 + other]@;
            &&& second.at == (Point {
                x: (first.at.x + 2_900 * (other - one)) as i32,
                ..first.at
            })
            &&& first.size == second.size
            &&& first.body matches Body::Mesh { mesh, material } && mesh is Sphere && first.name
                == material_name_of(material) && material == lobe(one)
            &&& first.body != second.body
            &&& second.body matches Body::Mesh { mesh, material } && mesh is Sphere && second.name
                == material_name_of(material)
        }),
{
    rig_is_spawned(scene);
    assert(rig()[114 + one] == lobe_sphere(one));
    assert(rig()[114 + other] == lobe_sphere(other));
}

/// **The row of lobes shows the lobes.** Each of its materials switches one on, and
/// they come as the library loads them.
pub proof fn the_row_shows_the_lobes(index: int)
    requires
        0 <= index < 7,
    ensures
        ({
            let shown = authored_of(lobe(index));
            ||| shown.clearcoat is Some
            ||| shown.sheen_color is Some
            ||| shown.anisotropy is Some
            ||| shown.transmission is Some
            ||| shown.subsurface_color is Some
        }),
        step_of(Asset::Material(lobe(index))) == 44 + index,
{
}

/// **Marks lie on what they burn.** In a scene that is the rig the two on the ground
/// are aimed down at the floor's top and as wide as long, their boxes two fifths as
/// deep; the one on the wall is turned as the wall is. All have the library's three
/// maps, each in its place, and burn what they land on.
pub proof fn marks_lie_on_what_they_burn(scene: Scene, index: int)
    requires
        is_rig(scene),
        131 <= index < 134,
    ensures
        ({
            let mark = scene.spawns@[index]@;
            let ground = scene.spawns@[GRID * GRID]@;
            &&& mark.body matches Body::Scorch {
                albedo,
                normal,
                metallic_roughness,
                angle,
                affects_surface,
                opacity,
            } && {
                &&& shows(albedo, Layer::Albedo)
                &&& shows(normal, Layer::Normal)
                &&& shows(metallic_roughness, Layer::MetallicRoughness)
                &&& angle == SCORCH_ANGLE
                &&& affects_surface
                &&& index < 133 <==> opacity is None
            }
            &&& mark.size.x == mark.size.y
            &&& index < 133 ==> {
                &&& mark.turn is Down
                &&& mark.at.y == ground.at.y + ground.size.y / 2
                &&& 5 * mark.size.z == 2 * mark.size.x
            }
            &&& index == 133 ==> (mark.turn matches Turn::Yaw(yaw) && wall_panel(true).turn
                == Turn::Stood(yaw))
        }),
{
    rig_is_spawned(scene);
    assert(rig()[index] == decals()[index - 131]);
    assert(rig()[100] == floor());
}

/// **The sky's sun is the light's.** In a scene that is the rig the first light is the
/// only one from far away, and travels where the sunlight of the sky does; the bulbs
/// are alike but for their colour and place; a spot's beam is at its full inside the
/// cone it ends at.
pub proof fn the_sky_has_the_lights_sun(scene: Scene, index: int)
    requires
        is_rig(scene),
        134 <= index < 139,
    ensures
        ({
            let light = scene.spawns@[index]@;
            &&& light.body is Directional <==> index == 134
            &&& light.body matches Body::Directional { aim, .. } ==> aim == scene.sun && aim.y < 0
            &&& light.body is Bulb <==> 135 <= index < 138
            &&& light.body matches Body::Bulb { lumens, range, .. } ==> lumens == 8_000 && range
                == 10_000 && light.at.y == 3_000
            &&& light.body matches Body::Spot { inner, outer, aim, .. } ==> inner < outer && aim.y
                < 0
        }),
        scene.spawns@.len() == 139,
        scene.eye.target == point(0, 0, 0),
        10 * scene.eye.position.y == 6 * GRID * SPACING,
        10 * scene.eye.position.z == 11 * GRID * SPACING,
        scene.sky.0 == 2 * scene.sky.1,
{
    rig_is_spawned(scene);
    assert(rig()[index] == rig_lights()[index - 134]);
}

/// **Panes, walls and cards are in their order.** In a scene that is the rig the three
/// panes are of glass, alike but for their turn and place, and hang at one height; the
/// wall that marches stands below the one that does not; and every leaf card stands on
/// the ground.
pub proof fn panes_walls_and_cards_are_in_order(scene: Scene, pane: int, card: int)
    requires
        is_rig(scene),
        0 <= pane < 3,
        0 <= card < 8,
    ensures
        ({
            let glass = scene.spawns@[111 + pane]@;
            let first = scene.spawns@[111]@;
            &&& glass.body == Body::Mesh { mesh: MeshKey::Cube, material: MaterialKey::Glass }
            &&& glass.at.y == first.at.y
            &&& glass.size == first.size
            &&& glass.turn is Yaw
            &&& glass.at.x == first.at.x + 3_000 * pane
            &&& glass.name == "Glass "@ + written(pane as nat, 10)
        }),
        scene.spawns@[121]@.body == (Body::Mesh {
            mesh: MeshKey::PlanePlain,
            material: MaterialKey::Brick,
        }),
        scene.spawns@[122]@.body == (Body::Mesh {
            mesh: MeshKey::PlanePlain,
            material: MaterialKey::BrickFlat,
        }),
        scene.spawns@[122]@.at.y > scene.spawns@[121]@.at.y,
        10 * scene.spawns@[121]@.size.x == WALL_TILE.0,
        10 * scene.spawns@[121]@.size.z == WALL_TILE.1,
        ({
            let leaf = scene.spawns@[123 + card]@;
            &&& leaf.body == Body::Mesh { mesh: MeshKey::Plane, material: MaterialKey::Foliage }
            &&& leaf.at.y == leaf.size.z / 2
            &&& leaf.size.x == leaf.size.y == leaf.size.z
            &&& leaf.name == "Foliage "@ + written((card / 2) as nat, 10) + "."@ + written(
                (card % 2) as nat,
                10,
            )
        }),
{
    rig_is_spawned(scene);
    assert(rig()[111 + pane] == panes()[pane]);
    assert(rig()[111] == panes()[0]);
    assert(rig()[121] == wall_panel(true));
    assert(rig()[122] == wall_panel(false));
    assert(rig()[123 + card] == cards(8)[card]);
}

/// **What is placed by hand is where it is measured.** In a scene that is the rig: the
/// panes one behind another and turned apart, the stands of cards two to a side, and
/// the marks clear of the grid.
pub proof fn things_are_where_they_are_measured(scene: Scene, i: int)
    requires
        is_rig(scene),
        0 <= i < 3,
    ensures
        ({
            let pane = scene.spawns@[111 + i]@;
            let mark = scene.spawns@[131 + i]@;
            &&& pane.at.x == seq![-3_000i32, 0i32, 3_000i32][i]
            &&& pane.at.z == seq![6_000i32, 7_500i32, 6_500i32][i]
            &&& pane.turn == Turn::Yaw(seq![0i32, 25i32, -20i32][i])
            &&& pane.at.y == 2_500
            &&& pane.size == (Point { x: 4_000, y: 4_000, z: 100 })
            &&& mark.at.x == seq![-10_000i32, 9_500i32, -800i32][i]
            &&& mark.at.z == seq![10_000i32, 8_000i32, -12_700i32][i]
            &&& mark.size.x == seq![5_000i32, 3_500i32, 1_600i32][i]
        }),
        scene.spawns@[133]@.at.y == 1_100,
        scene.spawns@[133]@.size.z == 800,
        scene.spawns@[133]@.body->opacity == Some(750u32),
        ({
            let ground = scene.spawns@[100]@;
            &&& ground.at == (Point { x: 0, y: -750i32, z: 0 })
            &&& ground.size == (Point { x: 30_000, y: 500, z: 30_000 })
            &&& ground.body == (Body::Mesh { mesh: MeshKey::Cube, material: MaterialKey::Ground })
        }),
        scene.spawns@[101]@.at == (Point { x: -6_000i32, y: 2_500, z: 11_000 }),
        scene.spawns@[101]@.size == (Point { x: 2_000, y: 2_000, z: 2_000 }),
        scene.spawns@[114]@.at == (Point { x: -8_700i32, y: 6_000, z: 13_000 }),
        scene.spawns@[114]@.size == (Point { x: 1_200, y: 1_200, z: 1_200 }),
        scene.spawns@[121]@.at == (Point { x: 0, y: 500, z: -13_000i32 }),
        scene.spawns@[121]@.turn == Turn::Stood(25),
{
    rig_is_spawned(scene);
    assert(rig()[100] == floor());
    assert(rig()[101] == sweep_sphere(0));
    assert(rig()[114] == lobe_sphere(0));
    assert(rig()[121] == wall_panel(true));
    assert(rig()[111 + i] == panes()[i]);
    assert(rig()[131 + i] == decals()[i]);
    assert(rig()[133] == decals()[2]);
}

/// **A stand of cards is where it grows**: in a scene that is the rig both cards of a
/// stand are, and are turned as it is.
pub proof fn stands_are_where_they_grow(scene: Scene, i: int)
    requires
        is_rig(scene),
        0 <= i < 4,
    ensures
        ({
            let card = scene.spawns@[123 + 2 * i]@;
            &&& card.at.x == seq![-11_500i32, -10_400i32, 11_000i32, 12_100i32][i]
            &&& card.at.z == seq![3_500i32, 6_500i32, 4_000i32, 7_000i32][i]
            &&& card.turn == Turn::Stood(seq![10i32, -35i32, -15i32, 40i32][i])
            &&& card.size.y == 3_200
        }),
{
    rig_is_spawned(scene);
    assert((2 * i) / 2 == i && (2 * i) % 2 == 0);
    assert(rig()[123 + 2 * i] == card(2 * i));
}

/// **The lights are where they shine from.** In a scene that is the rig: three bulbs at
/// corners of the grid's middle, one warm, one cold, one green, and a spot over the
/// corner that has none, aimed across.
pub proof fn lights_are_where_they_shine_from(scene: Scene, i: int)
    requires
        is_rig(scene),
        0 <= i < 3,
    ensures
        ({
            let bulb = scene.spawns@[135 + i]@;
            let spot = scene.spawns@[138]@;
            &&& bulb.at.x == seq![-4_000i32, 4_000i32, 4_000i32][i]
            &&& bulb.at.z == seq![-4_000i32, 4_000i32, -4_000i32][i]
            &&& bulb.name == "Point Light "@ + written(i as nat, 10)
            &&& bulb.body matches Body::Bulb { color, .. } && {
                &&& color.r == seq![10_000u32, 2_000u32, 2_000u32][i]
                &&& color.g == seq![3_500u32, 5_000u32, 10_000u32][i]
                &&& color.b == seq![1_000u32, 10_000u32, 4_000u32][i]
            }
            &&& spot.at == (Point { x: -6_000i32, y: 9_000, z: 6_000 })
            &&& spot.body matches Body::Spot { aim, color, lumens, range, inner, outer } && {
                &&& aim == (Point { x: 550, y: -1_000i32, z: -550i32 })
                &&& color == (Color { r: 10_000, g: 9_000, b: 7_500 })
                &&& lumens == 10_000
                &&& range == 30_000
                &&& inner == 22
                &&& outer == 32
            }
        }),
        scene.spawns@[134]@.body == (Body::Directional {
            aim: Point { x: -400i32, y: -1_000i32, z: -600i32 },
            color: Color { r: 10_000, g: 9_700, b: 9_200 },
            lux: 250,
        }),
{
    rig_is_spawned(scene);
    assert(rig()[134] == rig_lights()[0]);
    assert(rig()[135 + i] == rig_lights()[1 + i]);
    assert(rig()[138] == rig_lights()[4]);
}

} // verus!
