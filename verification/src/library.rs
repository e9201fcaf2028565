//! The demo asset library: every mesh, texture and material the built-in scenes
//! draw, loaded once from one place.
//!
//! The scenes read one table on purpose: a material authored wrong is wrong in
//! all of them. Loading alternates with the device: the library says what to load
//! next, and is told what it was numbered.

use crate::assets::{MaterialHandle, MeshHandle, TextureHandle};
use crate::text::{append_padded, padded, written};
use vstd::prelude::*;
use vstd::string::*;

verus! {

/// Texels on a side of the masonry panel's maps.
pub const WALL: u32 = 512;

/// The metres of wall that the masonry panel's maps are stretched over, in
/// ten-thousandths. The generator and every mesh drawn with the result have to be
/// told the same thing.
pub const WALL_TILE: (u32, u32) = (40_000, 20_000);

/// How deep the mortar sits behind the blocks, in ten-thousandths of a metre: a
/// deeply raked joint.
pub const WALL_DEPTH: u32 = 500;

/// Texels on a side of the other procedural maps.
pub const MAP: u32 = 256;

/// Spheres per roughness row: a sample at nothing, a quarter, a half, three
/// quarters and all of it.
pub const SWEEP: usize = 5;

/// How many things the library loads.
pub const STEPS: usize = 51;

#[derive(Clone, Copy, Debug, PartialEq, Eq, Structural)]
pub enum MeshKey {
    Cube,
    Plane,
    Sphere,
    /// The same three with white vertex colours.
    CubePlain,
    PlanePlain,
    SpherePlain,
}

#[derive(Clone, Copy, Debug, PartialEq, Eq, Structural)]
pub enum TextureKey {
    ProcAlbedo,
    ProcNormal,
    ProcMetalRough,
    ScorchAlbedo,
    ScorchNormal,
    ScorchRough,
    LeafAlbedo,
    RockAlbedo,
    RockNormal,
    RockRough,
    RockHeight,
    BrickAlbedo,
    BrickNormal,
    BrickHeight,
}

#[derive(Clone, Copy, Debug, PartialEq, Eq, Structural)]
pub enum MaterialKey {
    Gold,
    Copper,
    Glossy,
    Clay,
    Neon,
    /// A metal of the roughness sweep, by its place in the row.
    Metal(usize),
    /// A dielectric of the roughness sweep, by its place in the row.
    Dielectric(usize),
    Textured,
    Foliage,
    Rock,
    Stone,
    Ember,
    Brick,
    BrickFlat,
    Ground,
    Glass,
    Clearcoat,
    Velvet,
    Brushed,
    Crystal,
    Frosted,
    Marble,
    Wax,
}

/// A colour, or another triple, in ten-thousandths.
#[derive(Clone, Copy, Debug, PartialEq, Eq, Structural)]
pub struct Color {
    pub r: u32,
    pub g: u32,
    pub b: u32,
}

/// What a material is authored with, in ten-thousandths; what is left out has the
/// device's own default. Emission is a luminance, in candela per square metre;
/// lengths are in metres.
#[derive(Clone, Copy, Debug, PartialEq, Eq, Structural)]
pub struct Authored {
    pub base_color: Color,
    pub metallic: u32,
    pub roughness: u32,
    pub alpha: Option<u32>,
    pub reflectance: Option<u32>,
    pub emissive: Option<Color>,
    pub clearcoat: Option<u32>,
    pub clearcoat_roughness: Option<u32>,
    pub sheen_color: Option<Color>,
    pub sheen_roughness: Option<u32>,
    pub anisotropy: Option<u32>,
    pub transmission: Option<u32>,
    pub ior: Option<u32>,
    pub thickness: Option<u32>,
    pub attenuation_color: Option<Color>,
    pub attenuation_distance: Option<u32>,
    pub subsurface_color: Option<Color>,
    pub subsurface_radius: Option<Color>,
    pub subsurface_forward_scatter: Option<u32>,
    pub alpha_cutoff: Option<u32>,
    pub parallax_depth: Option<u32>,
}

/// How a material meets what is behind it.
#[derive(Clone, Copy, Debug, PartialEq, Eq, Structural)]
pub enum BlendMode {
    Opaque,
    /// Its alpha is its shape.
    Masked,
    Blend,
    Transmissive,
}

/// The maps a material samples.
#[derive(Clone, Copy, Debug, PartialEq, Eq, Structural)]
pub struct MaterialMaps {
    pub albedo: Option<TextureKey>,
    pub normal: Option<TextureKey>,
    pub metallic_roughness: Option<TextureKey>,
    pub height: Option<TextureKey>,
}

/// The same maps, as they were numbered.
#[derive(Clone, Copy, Debug, PartialEq, Eq, Structural)]
pub struct BoundMaps {
    pub albedo: Option<TextureHandle>,
    pub normal: Option<TextureHandle>,
    pub metallic_roughness: Option<TextureHandle>,
    pub height: Option<TextureHandle>,
}

/// A map of the same picture.
#[derive(Clone, Copy, Debug, PartialEq, Eq, Structural)]
pub enum Layer {
    Albedo,
    Normal,
    MetallicRoughness,
    Height,
}

/// Where a texture's texels come from. Fractions are in ten-thousandths.
#[derive(Clone, Copy, Debug, PartialEq, Eq)]
pub enum TextureSource {
    Checkerboard { size: u32, checks: u32, first: (u8, u8, u8), second: (u8, u8, u8) },
    Bumps { size: u32, frequency: u32, strength: u32 },
    MetallicRoughness { size: u32 },
    Scorch { size: u32, layer: Layer },
    Leaf { size: u32 },
    /// Decoded from a file that ships with the engine.
    RockFile { layer: Layer },
    Masonry { size: u32, columns: u32, rows: u32, tile: (u32, u32), depth: u32, layer: Layer },
}

/// The geometry of a mesh.
#[derive(Clone, Copy, Debug, PartialEq, Eq, Structural)]
pub enum Shape {
    Cube,
    Plane,
    Sphere { segments: u32, rings: u32 },
}

/// One thing the library loads.
#[derive(Clone, Copy, Debug, PartialEq, Eq, Structural)]
pub enum Asset {
    Mesh(MeshKey),
    Texture(TextureKey),
    Material(MaterialKey),
}

/// What the device is asked to load next.
#[derive(Clone, Copy, Debug, PartialEq, Eq)]
pub enum LoadAction {
    Mesh(MeshKey),
    Texture { texture: TextureKey, source: TextureSource, srgb: bool },
    Material { material: MaterialKey, authored: Authored, blend: BlendMode, maps: BoundMaps },
}

/// What the library loads at each step.
pub open spec fn step_at(index: int) -> Asset {
    if index < 6 {
        Asset::Mesh(
            if index == 0 {
                MeshKey::Cube
            } else if index == 1 {
                MeshKey::Plane
            } else if index == 2 {
                MeshKey::Sphere
            } else if index == 3 {
                MeshKey::CubePlain
            } else if index == 4 {
                MeshKey::PlanePlain
            } else {
                MeshKey::SpherePlain
            },
        )
    } else if index < 11 {
        Asset::Material(
            if index == 6 {
                MaterialKey::Gold
            } else if index == 7 {
                MaterialKey::Copper
            } else if index == 8 {
                MaterialKey::Glossy
            } else if index == 9 {
                MaterialKey::Clay
            } else {
                MaterialKey::Neon
            },
        )
    } else if index < 21 {
        Asset::Material(
            if (index - 11) % 2 == 0 {
                MaterialKey::Metal(((index - 11) / 2) as usize)
            } else {
                MaterialKey::Dielectric(((index - 11) / 2) as usize)
            },
        )
    } else if index == 21 {
        Asset::Texture(TextureKey::ProcAlbedo)
    } else if index == 22 {
        Asset::Texture(TextureKey::ProcNormal)
    } else if index == 23 {
        Asset::Texture(TextureKey::ProcMetalRough)
    } else if index == 24 {
        Asset::Material(MaterialKey::Textured)
    } else if index == 25 {
        Asset::Texture(TextureKey::ScorchAlbedo)
    } else if index == 26 {
        Asset::Texture(TextureKey::ScorchNormal)
    } else if index == 27 {
        Asset::Texture(TextureKey::ScorchRough)
    } else if index == 28 {
        Asset::Texture(TextureKey::LeafAlbedo)
    } else if index == 29 {
        Asset::Material(MaterialKey::Foliage)
    } else if index == 30 {
        Asset::Texture(TextureKey::RockAlbedo)
    } else if index == 31 {
        Asset::Texture(TextureKey::RockNormal)
    } else if index == 32 {
        Asset::Texture(TextureKey::RockRough)
    } else if index == 33 {
        Asset::Texture(TextureKey::RockHeight)
    } else if index == 34 {
        Asset::Material(MaterialKey::Rock)
    } else if index == 35 {
        Asset::Material(MaterialKey::Stone)
    } else if index == 36 {
        Asset::Material(MaterialKey::Ember)
    } else if index == 37 {
        Asset::Texture(TextureKey::BrickAlbedo)
    } else if index == 38 {
        Asset::Texture(TextureKey::BrickNormal)
    } else if index == 39 {
        Asset::Texture(TextureKey::BrickHeight)
    } else if index == 40 {
        Asset::Material(MaterialKey::Brick)
    } else if index == 41 {
        Asset::Material(MaterialKey::BrickFlat)
    } else if index == 42 {
        Asset::Material(MaterialKey::Ground)
    } else if index == 43 {
        Asset::Material(MaterialKey::Glass)
    } else if index == 44 {
        Asset::Material(MaterialKey::Clearcoat)
    } else if index == 45 {
        Asset::Material(MaterialKey::Velvet)
    } else if index == 46 {
        Asset::Material(MaterialKey::Brushed)
    } else if index == 47 {
        Asset::Material(MaterialKey::Crystal)
    } else if index == 48 {
        Asset::Material(MaterialKey::Frosted)
    } else if index == 49 {
        Asset::Material(MaterialKey::Marble)
    } else {
        Asset::Material(MaterialKey::Wax)
    }
}

/// The step that loads an asset.
pub open spec fn step_of(asset: Asset) -> int {
    match asset {
        Asset::Mesh(key) => match key {
            MeshKey::Cube => 0,
            MeshKey::Plane => 1,
            MeshKey::Sphere => 2,
            MeshKey::CubePlain => 3,
            MeshKey::PlanePlain => 4,
            MeshKey::SpherePlain => 5,
        },
        Asset::Texture(key) => match key {
            TextureKey::ProcAlbedo => 21,
            TextureKey::ProcNormal => 22,
            TextureKey::ProcMetalRough => 23,
            TextureKey::ScorchAlbedo => 25,
            TextureKey::ScorchNormal => 26,
            TextureKey::ScorchRough => 27,
            TextureKey::LeafAlbedo => 28,
            TextureKey::RockAlbedo => 30,
            TextureKey::RockNormal => 31,
            TextureKey::RockRough => 32,
            TextureKey::RockHeight => 33,
            TextureKey::BrickAlbedo => 37,
            TextureKey::BrickNormal => 38,
            TextureKey::BrickHeight => 39,
        },
        Asset::Material(key) => match key {
            MaterialKey::Gold => 6,
            MaterialKey::Copper => 7,
            MaterialKey::Glossy => 8,
            MaterialKey::Clay => 9,
            MaterialKey::Neon => 10,
            MaterialKey::Metal(step) => 11 + 2 * step,
            MaterialKey::Dielectric(step) => 12 + 2 * step,
            MaterialKey::Textured => 24,
            MaterialKey::Foliage => 29,
            MaterialKey::Rock => 34,
            MaterialKey::Stone => 35,
            MaterialKey::Ember => 36,
            MaterialKey::Brick => 40,
            MaterialKey::BrickFlat => 41,
            MaterialKey::Ground => 42,
            MaterialKey::Glass => 43,
            MaterialKey::Clearcoat => 44,
            MaterialKey::Velvet => 45,
            MaterialKey::Brushed => 46,
            MaterialKey::Crystal => 47,
            MaterialKey::Frosted => 48,
            MaterialKey::Marble => 49,
            MaterialKey::Wax => 50,
        },
    }
}

/// Whether an asset is one of the library's: a sphere of the sweep has to have a
/// place in its row.
pub open spec fn in_library(asset: Asset) -> bool {
    match asset {
        Asset::Material(MaterialKey::Metal(step)) => step < SWEEP,
        Asset::Material(MaterialKey::Dielectric(step)) => step < SWEEP,
        _ => true,
    }
}

/// How a material of the library blends.
pub open spec fn blend_of(key: MaterialKey) -> BlendMode {
    match key {
        MaterialKey::Foliage => BlendMode::Masked,
        MaterialKey::Glass => BlendMode::Blend,
        MaterialKey::Crystal | MaterialKey::Frosted => BlendMode::Transmissive,
        _ => BlendMode::Opaque,
    }
}

/// A material with the base lobe alone.
pub open spec fn plain_of(base_color: Color, metallic: u32, roughness: u32) -> Authored {
    Authored {
        base_color,
        metallic,
        roughness,
        alpha: None,
        reflectance: None,
        emissive: None,
        clearcoat: None,
        clearcoat_roughness: None,
        sheen_color: None,
        sheen_roughness: None,
        anisotropy: None,
        transmission: None,
        ior: None,
        thickness: None,
        attenuation_color: None,
        attenuation_distance: None,
        subsurface_color: None,
        subsurface_radius: None,
        subsurface_forward_scatter: None,
        alpha_cutoff: None,
        parallax_depth: None,
    }
}

/// What each material of the library is authored with.
pub open spec fn authored_of(key: MaterialKey) -> Authored {
    match key {
        MaterialKey::Gold => plain_of(Color { r: 10_000, g: 8400, b: 4000 }, 10_000, 1800),
        MaterialKey::Copper => plain_of(Color { r: 9500, g: 6400, b: 5400 }, 10_000, 4500),
        MaterialKey::Glossy => Authored {
            reflectance: Some(7000),
            ..plain_of(Color { r: 9000, g: 9000, b: 9500 }, 0, 1200)
        },
        MaterialKey::Clay => plain_of(Color { r: 8000, g: 8000, b: 8000 }, 0, 8500),
        MaterialKey::Neon => Authored {
            reflectance: Some(0),
            emissive: Some(Color { r: 6_000_000, g: 6_000_000, b: 6_000_000 }),
            ..plain_of(Color { r: 4000, g: 4000, b: 4000 }, 0, 0)
        },
        MaterialKey::Metal(step) => plain_of(
            Color { r: 9500, g: 9300, b: 8800 },
            10_000,
            (step * 10_000 / (SWEEP - 1)) as u32,
        ),
        MaterialKey::Dielectric(step) => Authored {
            reflectance: Some(5000),
            ..plain_of(Color { r: 5000, g: 5000, b: 5000 }, 0, (step * 10_000 / (SWEEP - 1)) as u32)
        },
        MaterialKey::Textured => plain_of(
            Color { r: 10_000, g: 10_000, b: 10_000 },
            10_000,
            10_000,
        ),
        MaterialKey::Foliage => Authored {
            thickness: Some(4),
            subsurface_color: Some(Color { r: 2800, g: 5500, b: 1200 }),
            subsurface_radius: Some(Color { r: 100, g: 140, b: 40 }),
            alpha_cutoff: Some(5000),
            ..plain_of(Color { r: 10_000, g: 10_000, b: 10_000 }, 0, 6000)
        },
        MaterialKey::Rock => Authored {
            parallax_depth: Some(300),
            ..plain_of(Color { r: 10_000, g: 10_000, b: 10_000 }, 0, 10_000)
        },
        MaterialKey::Stone => plain_of(Color { r: 8600, g: 8400, b: 8000 }, 0, 10_000),
        MaterialKey::Ember => Authored {
            emissive: Some(Color { r: 26_000_000, g: 9_000_000, b: 2_600_000 }),
            ..plain_of(Color { r: 2500, g: 1000, b: 500 }, 0, 9000)
        },
        MaterialKey::Brick => Authored {
            parallax_depth: Some(WALL_DEPTH),
            ..plain_of(Color { r: 10_000, g: 10_000, b: 10_000 }, 0, 8500)
        },
        MaterialKey::BrickFlat => plain_of(Color { r: 10_000, g: 10_000, b: 10_000 }, 0, 8500),
        MaterialKey::Ground => plain_of(Color { r: 7000, g: 7000, b: 7000 }, 0, 9000),
        MaterialKey::Glass => Authored {
            alpha: Some(3500),
            reflectance: Some(9000),
            ..plain_of(Color { r: 6000, g: 8500, b: 9000 }, 0, 500)
        },
        MaterialKey::Clearcoat => Authored {
            clearcoat: Some(10_000),
            clearcoat_roughness: Some(300),
            ..plain_of(Color { r: 5500, g: 500, b: 800 }, 0, 6000)
        },
        MaterialKey::Velvet => Authored {
            sheen_color: Some(Color { r: 7000, g: 2500, b: 4500 }),
            sheen_roughness: Some(2500),
            ..plain_of(Color { r: 1400, g: 300, b: 1000 }, 0, 9500)
        },
        MaterialKey::Brushed => Authored {
            anisotropy: Some(8500),
            ..plain_of(Color { r: 9100, g: 9200, b: 9400 }, 10_000, 3500)
        },
        MaterialKey::Crystal => Authored {
            transmission: Some(10_000),
            ior: Some(15_200),
            thickness: Some(9000),
            attenuation_color: Some(Color { r: 7200, g: 9400, b: 8200 }),
            attenuation_distance: Some(15_000),
            ..plain_of(Color { r: 10_000, g: 10_000, b: 10_000 }, 0, 500)
        },
        MaterialKey::Frosted => Authored {
            transmission: Some(10_000),
            ior: Some(14_500),
            thickness: Some(6000),
            ..plain_of(Color { r: 10_000, g: 10_000, b: 10_000 }, 0, 4500)
        },
        MaterialKey::Marble => Authored {
            thickness: Some(6000),
            subsurface_color: Some(Color { r: 9200, g: 8000, b: 7200 }),
            subsurface_radius: Some(Color { r: 120, g: 60, b: 40 }),
            ..plain_of(Color { r: 8600, g: 8300, b: 7800 }, 0, 2200)
        },
        MaterialKey::Wax => Authored {
            thickness: Some(30),
            subsurface_color: Some(Color { r: 10_000, g: 7200, b: 4200 }),
            subsurface_radius: Some(Color { r: 100, g: 60, b: 40 }),
            subsurface_forward_scatter: Some(80_000),
            ..plain_of(Color { r: 9300, g: 8600, b: 7200 }, 0, 3500)
        },
    }
}

/// The maps a material of the library samples.
pub open spec fn maps_of(key: MaterialKey) -> MaterialMaps {
    let none = MaterialMaps { albedo: None, normal: None, metallic_roughness: None, height: None };
    match key {
        MaterialKey::Textured => MaterialMaps {
            albedo: Some(TextureKey::ProcAlbedo),
            normal: Some(TextureKey::ProcNormal),
            metallic_roughness: Some(TextureKey::ProcMetalRough),
            height: None,
        },
        MaterialKey::Foliage => MaterialMaps { albedo: Some(TextureKey::LeafAlbedo), ..none },
        MaterialKey::Rock => MaterialMaps {
            albedo: Some(TextureKey::RockAlbedo),
            normal: Some(TextureKey::RockNormal),
            metallic_roughness: Some(TextureKey::RockRough),
            height: Some(TextureKey::RockHeight),
        },
        MaterialKey::Stone => MaterialMaps {
            albedo: Some(TextureKey::RockAlbedo),
            normal: Some(TextureKey::RockNormal),
            metallic_roughness: Some(TextureKey::RockRough),
            height: None,
        },
        MaterialKey::Brick => MaterialMaps {
            albedo: Some(TextureKey::BrickAlbedo),
            normal: Some(TextureKey::BrickNormal),
            metallic_roughness: None,
            height: Some(TextureKey::BrickHeight),
        },
        MaterialKey::BrickFlat => MaterialMaps {
            albedo: Some(TextureKey::BrickAlbedo),
            normal: Some(TextureKey::BrickNormal),
            metallic_roughness: None,
            height: None,
        },
        _ => none,
    }
}

/// Whether a texture holds colour, and so is decoded to linear when sampled.
pub open spec fn srgb_of(key: TextureKey) -> bool {
    match key {
        TextureKey::ProcAlbedo
        | TextureKey::ScorchAlbedo
        | TextureKey::LeafAlbedo
        | TextureKey::RockAlbedo
        | TextureKey::BrickAlbedo => true,
        _ => false,
    }
}

/// One map of the masonry panel: every one of them of the same blocks.
pub open spec fn masonry_of(layer: Layer) -> TextureSource {
    TextureSource::Masonry {
        size: WALL,
        columns: 8,
        rows: 4,
        tile: WALL_TILE,
        depth: WALL_DEPTH,
        layer,
    }
}

pub open spec fn source_of(key: TextureKey) -> TextureSource {
    match key {
        TextureKey::ProcAlbedo => TextureSource::Checkerboard {
            size: MAP,
            checks: 8,
            first: (220, 60, 50),
            second: (240, 240, 245),
        },
        TextureKey::ProcNormal => TextureSource::Bumps {
            size: MAP,
            frequency: 60_000,
            strength: 15_000,
        },
        TextureKey::ProcMetalRough => TextureSource::MetallicRoughness { size: MAP },
        TextureKey::ScorchAlbedo => TextureSource::Scorch { size: MAP, layer: Layer::Albedo },
        TextureKey::ScorchNormal => TextureSource::Scorch { size: MAP, layer: Layer::Normal },
        TextureKey::ScorchRough => TextureSource::Scorch {
            size: MAP,
            layer: Layer::MetallicRoughness,
        },
        TextureKey::LeafAlbedo => TextureSource::Leaf { size: MAP },
        TextureKey::RockAlbedo => TextureSource::RockFile { layer: Layer::Albedo },
        TextureKey::RockNormal => TextureSource::RockFile { layer: Layer::Normal },
        TextureKey::RockRough => TextureSource::RockFile { layer: Layer::MetallicRoughness },
        TextureKey::RockHeight => TextureSource::RockFile { layer: Layer::Height },
        TextureKey::BrickAlbedo => masonry_of(Layer::Albedo),
        TextureKey::BrickNormal => masonry_of(Layer::Normal),
        TextureKey::BrickHeight => masonry_of(Layer::Height),
    }
}

/// What a mesh is made of, and whether its vertices are left white.
pub open spec fn shape_of(key: MeshKey) -> (Shape, bool) {
    match key {
        MeshKey::Cube => (Shape::Cube, false),
        MeshKey::Plane => (Shape::Plane, false),
        MeshKey::Sphere => (Shape::Sphere { segments: 32, rings: 16 }, false),
        MeshKey::CubePlain => (Shape::Cube, true),
        MeshKey::PlanePlain => (Shape::Plane, true),
        MeshKey::SpherePlain => (Shape::Sphere { segments: 32, rings: 16 }, true),
    }
}

/// The roughness of a place in the sweep, in percent.
pub open spec fn percent_of(step: usize) -> nat {
    (step * 100 / (SWEEP - 1)) as nat
}

/// The name a material goes by.
pub open spec fn material_name_of(key: MaterialKey) -> Seq<char> {
    match key {
        MaterialKey::Gold => "gold"@,
        MaterialKey::Copper => "copper"@,
        MaterialKey::Glossy => "glossy"@,
        MaterialKey::Clay => "clay"@,
        MaterialKey::Neon => "neon"@,
        MaterialKey::Metal(step) => "metal_"@ + padded(written(percent_of(step), 10), 3),
        MaterialKey::Dielectric(step) => "dielectric_"@ + padded(written(percent_of(step), 10), 3),
        MaterialKey::Textured => "textured"@,
        MaterialKey::Foliage => "foliage"@,
        MaterialKey::Rock => "rock"@,
        MaterialKey::Stone => "stone"@,
        MaterialKey::Ember => "ember"@,
        MaterialKey::Brick => "brick"@,
        MaterialKey::BrickFlat => "brick_flat"@,
        MaterialKey::Ground => "ground"@,
        MaterialKey::Glass => "glass"@,
        MaterialKey::Clearcoat => "clearcoat"@,
        MaterialKey::Velvet => "velvet"@,
        MaterialKey::Brushed => "brushed"@,
        MaterialKey::Crystal => "crystal"@,
        MaterialKey::Frosted => "frosted"@,
        MaterialKey::Marble => "marble"@,
        MaterialKey::Wax => "wax"@,
    }
}

/// The name a mesh goes by.
pub open spec fn mesh_name_of(key: MeshKey) -> Seq<char> {
    match key {
        MeshKey::Cube => "cube"@,
        MeshKey::Plane => "plane"@,
        MeshKey::Sphere => "sphere"@,
        MeshKey::CubePlain => "cube_plain"@,
        MeshKey::PlanePlain => "plane_plain"@,
        MeshKey::SpherePlain => "sphere_plain"@,
    }
}

/// The name a texture goes by.
pub open spec fn texture_name_of(key: TextureKey) -> Seq<char> {
    match key {
        TextureKey::ProcAlbedo => "proc_albedo"@,
        TextureKey::ProcNormal => "proc_normal"@,
        TextureKey::ProcMetalRough => "proc_metal_rough"@,
        TextureKey::ScorchAlbedo => "scorch_albedo"@,
        TextureKey::ScorchNormal => "scorch_normal"@,
        TextureKey::ScorchRough => "scorch_rough"@,
        TextureKey::LeafAlbedo => "leaf_albedo"@,
        TextureKey::RockAlbedo => "rock_albedo"@,
        TextureKey::RockNormal => "rock_normal"@,
        TextureKey::RockRough => "rock_rough"@,
        TextureKey::RockHeight => "rock_height"@,
        TextureKey::BrickAlbedo => "brick_albedo"@,
        TextureKey::BrickNormal => "brick_normal"@,
        TextureKey::BrickHeight => "brick_height"@,
    }
}

impl MeshKey {
    pub fn name(self) -> (name: &'static str)
        ensures
            name@ == mesh_name_of(self),
    {
        match self {
            MeshKey::Cube => "cube",
            MeshKey::Plane => "plane",
            MeshKey::Sphere => "sphere",
            MeshKey::CubePlain => "cube_plain",
            MeshKey::PlanePlain => "plane_plain",
            MeshKey::SpherePlain => "sphere_plain",
        }
    }

    pub fn shape(self) -> (shape: (Shape, bool))
        ensures
            shape == shape_of(self),
    {
        match self {
            MeshKey::Cube => (Shape::Cube, false),
            MeshKey::Plane => (Shape::Plane, false),
            MeshKey::Sphere => (Shape::Sphere { segments: 32, rings: 16 }, false),
            MeshKey::CubePlain => (Shape::Cube, true),
            MeshKey::PlanePlain => (Shape::Plane, true),
            MeshKey::SpherePlain => (Shape::Sphere { segments: 32, rings: 16 }, true),
        }
    }
}

impl TextureKey {
    pub fn name(self) -> (name: &'static str)
        ensures
            name@ == texture_name_of(self),
    {
        match self {
            TextureKey::ProcAlbedo => "proc_albedo",
            TextureKey::ProcNormal => "proc_normal",
            TextureKey::ProcMetalRough => "proc_metal_rough",
            TextureKey::ScorchAlbedo => "scorch_albedo",
            TextureKey::ScorchNormal => "scorch_normal",
            TextureKey::ScorchRough => "scorch_rough",
            TextureKey::LeafAlbedo => "leaf_albedo",
            TextureKey::RockAlbedo => "rock_albedo",
            TextureKey::RockNormal => "rock_normal",
            TextureKey::RockRough => "rock_rough",
            TextureKey::RockHeight => "rock_height",
            TextureKey::BrickAlbedo => "brick_albedo",
            TextureKey::BrickNormal => "brick_normal",
            TextureKey::BrickHeight => "brick_height",
        }
    }

    pub fn srgb(self) -> (srgb: bool)
        ensures
            srgb == srgb_of(self),
    {
        match self {
            TextureKey::ProcAlbedo
            | TextureKey::ScorchAlbedo
            | TextureKey::LeafAlbedo
            | TextureKey::RockAlbedo
            | TextureKey::BrickAlbedo => true,
            _ => false,
        }
    }

    pub fn source(self) -> (source: TextureSource)
        ensures
            source == source_of(self),
    {
        match self {
            TextureKey::ProcAlbedo => TextureSource::Checkerboard {
                size: MAP,
                checks: 8,
                first: (220, 60, 50),
                second: (240, 240, 245),
            },
            TextureKey::ProcNormal => TextureSource::Bumps {
                size: MAP,
                frequency: 60_000,
                strength: 15_000,
            },
            TextureKey::ProcMetalRough => TextureSource::MetallicRoughness { size: MAP },
            TextureKey::ScorchAlbedo => TextureSource::Scorch { size: MAP, layer: Layer::Albedo },
            TextureKey::ScorchNormal => TextureSource::Scorch { size: MAP, layer: Layer::Normal },
            TextureKey::ScorchRough => TextureSource::Scorch {
                size: MAP,
                layer: Layer::MetallicRoughness,
            },
            TextureKey::LeafAlbedo => TextureSource::Leaf { size: MAP },
            TextureKey::RockAlbedo => TextureSource::RockFile { layer: Layer::Albedo },
            TextureKey::RockNormal => TextureSource::RockFile { layer: Layer::Normal },
            TextureKey::RockRough => TextureSource::RockFile { layer: Layer::MetallicRoughness },
            TextureKey::RockHeight => TextureSource::RockFile { layer: Layer::Height },
            TextureKey::BrickAlbedo => masonry(Layer::Albedo),
            TextureKey::BrickNormal => masonry(Layer::Normal),
            TextureKey::BrickHeight => masonry(Layer::Height),
        }
    }
}

fn masonry(layer: Layer) -> (source: TextureSource)
    ensures
        source == masonry_of(layer),
{
    TextureSource::Masonry {
        size: WALL,
        columns: 8,
        rows: 4,
        tile: WALL_TILE,
        depth: WALL_DEPTH,
        layer,
    }
}

fn plain(base_color: Color, metallic: u32, roughness: u32) -> (authored: Authored)
    ensures
        authored == plain_of(base_color, metallic, roughness),
{
    Authored {
        base_color,
        metallic,
        roughness,
        alpha: None,
        reflectance: None,
        emissive: None,
        clearcoat: None,
        clearcoat_roughness: None,
        sheen_color: None,
        sheen_roughness: None,
        anisotropy: None,
        transmission: None,
        ior: None,
        thickness: None,
        attenuation_color: None,
        attenuation_distance: None,
        subsurface_color: None,
        subsurface_radius: None,
        subsurface_forward_scatter: None,
        alpha_cutoff: None,
        parallax_depth: None,
    }
}

impl MaterialKey {
    pub fn name(self) -> (name: String)
        requires
            in_library(Asset::Material(self)),
        ensures
            name@ == material_name_of(self),
    {
        match self {
            MaterialKey::Gold => "gold".to_owned(),
            MaterialKey::Copper => "copper".to_owned(),
            MaterialKey::Glossy => "glossy".to_owned(),
            MaterialKey::Clay => "clay".to_owned(),
            MaterialKey::Neon => "neon".to_owned(),
            MaterialKey::Metal(step) => {
                let mut name: String = "metal_".to_owned();
                append_padded(&mut name, (step * 100 / (SWEEP - 1)) as u64, 10, 3);
                name
            },
            MaterialKey::Dielectric(step) => {
                let mut name: String = "dielectric_".to_owned();
                append_padded(&mut name, (step * 100 / (SWEEP - 1)) as u64, 10, 3);
                name
            },
            MaterialKey::Textured => "textured".to_owned(),
            MaterialKey::Foliage => "foliage".to_owned(),
            MaterialKey::Rock => "rock".to_owned(),
            MaterialKey::Stone => "stone".to_owned(),
            MaterialKey::Ember => "ember".to_owned(),
            MaterialKey::Brick => "brick".to_owned(),
            MaterialKey::BrickFlat => "brick_flat".to_owned(),
            MaterialKey::Ground => "ground".to_owned(),
            MaterialKey::Glass => "glass".to_owned(),
            MaterialKey::Clearcoat => "clearcoat".to_owned(),
            MaterialKey::Velvet => "velvet".to_owned(),
            MaterialKey::Brushed => "brushed".to_owned(),
            MaterialKey::Crystal => "crystal".to_owned(),
            MaterialKey::Frosted => "frosted".to_owned(),
            MaterialKey::Marble => "marble".to_owned(),
            MaterialKey::Wax => "wax".to_owned(),
        }
    }

    /// What the material is authored with.
    pub fn authored(self) -> (authored: Authored)
        requires
            in_library(Asset::Material(self)),
        ensures
            authored == authored_of(self),
    {
        match self {
            MaterialKey::Gold => plain(Color { r: 10_000, g: 8400, b: 4000 }, 10_000, 1800),
            MaterialKey::Copper => plain(Color { r: 9500, g: 6400, b: 5400 }, 10_000, 4500),
            MaterialKey::Glossy => Authored {
                reflectance: Some(7000),
                ..plain(Color { r: 9000, g: 9000, b: 9500 }, 0, 1200)
            },
            MaterialKey::Clay => plain(Color { r: 8000, g: 8000, b: 8000 }, 0, 8500),
            MaterialKey::Neon => Authored {
                reflectance: Some(0),
                emissive: Some(Color { r: 6_000_000, g: 6_000_000, b: 6_000_000 }),
                ..plain(Color { r: 4000, g: 4000, b: 4000 }, 0, 0)
            },
            MaterialKey::Metal(step) => plain(
                Color { r: 9500, g: 9300, b: 8800 },
                10_000,
                (step * 10_000 / (SWEEP - 1)) as u32,
            ),
            MaterialKey::Dielectric(step) => Authored {
                reflectance: Some(5000),
                ..plain(Color { r: 5000, g: 5000, b: 5000 }, 0, (step * 10_000 / (SWEEP - 1)) as u32)
            },
            MaterialKey::Textured => plain(Color { r: 10_000, g: 10_000, b: 10_000 }, 10_000, 10_000),
            MaterialKey::Foliage => Authored {
                thickness: Some(4),
                subsurface_color: Some(Color { r: 2800, g: 5500, b: 1200 }),
                subsurface_radius: Some(Color { r: 100, g: 140, b: 40 }),
                alpha_cutoff: Some(5000),
                ..plain(Color { r: 10_000, g: 10_000, b: 10_000 }, 0, 6000)
            },
            MaterialKey::Rock => Authored {
                parallax_depth: Some(300),
                ..plain(Color { r: 10_000, g: 10_000, b: 10_000 }, 0, 10_000)
            },
            MaterialKey::Stone => plain(Color { r: 8600, g: 8400, b: 8000 }, 0, 10_000),
            MaterialKey::Ember => Authored {
                emissive: Some(Color { r: 26_000_000, g: 9_000_000, b: 2_600_000 }),
                ..plain(Color { r: 2500, g: 1000, b: 500 }, 0, 9000)
            },
            MaterialKey::Brick => Authored {
                parallax_depth: Some(WALL_DEPTH),
                ..plain(Color { r: 10_000, g: 10_000, b: 10_000 }, 0, 8500)
            },
            MaterialKey::BrickFlat => plain(Color { r: 10_000, g: 10_000, b: 10_000 }, 0, 8500),
            MaterialKey::Ground => plain(Color { r: 7000, g: 7000, b: 7000 }, 0, 9000),
            MaterialKey::Glass => Authored {
                alpha: Some(3500),
                reflectance: Some(9000),
                ..plain(Color { r: 6000, g: 8500, b: 9000 }, 0, 500)
            },
            MaterialKey::Clearcoat => Authored {
                clearcoat: Some(10_000),
                clearcoat_roughness: Some(300),
                ..plain(Color { r: 5500, g: 500, b: 800 }, 0, 6000)
            },
            MaterialKey::Velvet => Authored {
                sheen_color: Some(Color { r: 7000, g: 2500, b: 4500 }),
                sheen_roughness: Some(2500),
                ..plain(Color { r: 1400, g: 300, b: 1000 }, 0, 9500)
            },
            MaterialKey::Brushed => Authored {
                anisotropy: Some(8500),
                ..plain(Color { r: 9100, g: 9200, b: 9400 }, 10_000, 3500)
            },
            MaterialKey::Crystal => Authored {
                transmission: Some(10_000),
                ior: Some(15_200),
                thickness: Some(9000),
                attenuation_color: Some(Color { r: 7200, g: 9400, b: 8200 }),
                attenuation_distance: Some(15_000),
                ..plain(Color { r: 10_000, g: 10_000, b: 10_000 }, 0, 500)
            },
            MaterialKey::Frosted => Authored {
                transmission: Some(10_000),
                ior: Some(14_500),
                thickness: Some(6000),
                ..plain(Color { r: 10_000, g: 10_000, b: 10_000 }, 0, 4500)
            },
            MaterialKey::Marble => Authored {
                thickness: Some(6000),
                subsurface_color: Some(Color { r: 9200, g: 8000, b: 7200 }),
                subsurface_radius: Some(Color { r: 120, g: 60, b: 40 }),
                ..plain(Color { r: 8600, g: 8300, b: 7800 }, 0, 2200)
            },
            MaterialKey::Wax => Authored {
                thickness: Some(30),
                subsurface_color: Some(Color { r: 10_000, g: 7200, b: 4200 }),
                subsurface_radius: Some(Color { r: 100, g: 60, b: 40 }),
                subsurface_forward_scatter: Some(80_000),
                ..plain(Color { r: 9300, g: 8600, b: 7200 }, 0, 3500)
            },
        }
    }

    pub fn blend(self) -> (blend: BlendMode)
        ensures
            blend == blend_of(self),
    {
        match self {
            MaterialKey::Foliage => BlendMode::Masked,
            MaterialKey::Glass => BlendMode::Blend,
            MaterialKey::Crystal | MaterialKey::Frosted => BlendMode::Transmissive,
            _ => BlendMode::Opaque,
        }
    }

    pub fn maps(self) -> (maps: MaterialMaps)
        ensures
            maps == maps_of(self),
    {
        match self {
            MaterialKey::Textured => MaterialMaps {
                albedo: Some(TextureKey::ProcAlbedo),
                normal: Some(TextureKey::ProcNormal),
                metallic_roughness: Some(TextureKey::ProcMetalRough),
                height: None,
            },
            MaterialKey::Foliage => MaterialMaps {
                albedo: Some(TextureKey::LeafAlbedo),
                normal: None,
                metallic_roughness: None,
                height: None,
            },
            MaterialKey::Rock => MaterialMaps {
                albedo: Some(TextureKey::RockAlbedo),
                normal: Some(TextureKey::RockNormal),
                metallic_roughness: Some(TextureKey::RockRough),
                height: Some(TextureKey::RockHeight),
            },
            MaterialKey::Stone => MaterialMaps {
                albedo: Some(TextureKey::RockAlbedo),
                normal: Some(TextureKey::RockNormal),
                metallic_roughness: Some(TextureKey::RockRough),
                height: None,
            },
            MaterialKey::Brick => MaterialMaps {
                albedo: Some(TextureKey::BrickAlbedo),
                normal: Some(TextureKey::BrickNormal),
                metallic_roughness: None,
                height: Some(TextureKey::BrickHeight),
            },
            MaterialKey::BrickFlat => MaterialMaps {
                albedo: Some(TextureKey::BrickAlbedo),
                normal: Some(TextureKey::BrickNormal),
                metallic_roughness: None,
                height: None,
            },
            _ => MaterialMaps {
                albedo: None,
                normal: None,
                metallic_roughness: None,
                height: None,
            },
        }
    }
}

/// What the library loads at one step.
pub fn step(index: usize) -> (asset: Asset)
    requires
        index < STEPS,
    ensures
        asset == step_at(index as int),
        in_library(asset),
{
    match index {
        0 => Asset::Mesh(MeshKey::Cube),
        1 => Asset::Mesh(MeshKey::Plane),
        2 => Asset::Mesh(MeshKey::Sphere),
        3 => Asset::Mesh(MeshKey::CubePlain),
        4 => Asset::Mesh(MeshKey::PlanePlain),
        5 => Asset::Mesh(MeshKey::SpherePlain),
        6 => Asset::Material(MaterialKey::Gold),
        7 => Asset::Material(MaterialKey::Copper),
        8 => Asset::Material(MaterialKey::Glossy),
        9 => Asset::Material(MaterialKey::Clay),
        10 => Asset::Material(MaterialKey::Neon),
        21 => Asset::Texture(TextureKey::ProcAlbedo),
        22 => Asset::Texture(TextureKey::ProcNormal),
        23 => Asset::Texture(TextureKey::ProcMetalRough),
        24 => Asset::Material(MaterialKey::Textured),
        25 => Asset::Texture(TextureKey::ScorchAlbedo),
        26 => Asset::Texture(TextureKey::ScorchNormal),
        27 => Asset::Texture(TextureKey::ScorchRough),
        28 => Asset::Texture(TextureKey::LeafAlbedo),
        29 => Asset::Material(MaterialKey::Foliage),
        30 => Asset::Texture(TextureKey::RockAlbedo),
        31 => Asset::Texture(TextureKey::RockNormal),
        32 => Asset::Texture(TextureKey::RockRough),
        33 => Asset::Texture(TextureKey::RockHeight),
        34 => Asset::Material(MaterialKey::Rock),
        35 => Asset::Material(MaterialKey::Stone),
        36 => Asset::Material(MaterialKey::Ember),
        37 => Asset::Texture(TextureKey::BrickAlbedo),
        38 => Asset::Texture(TextureKey::BrickNormal),
        39 => Asset::Texture(TextureKey::BrickHeight),
        40 => Asset::Material(MaterialKey::Brick),
        41 => Asset::Material(MaterialKey::BrickFlat),
        42 => Asset::Material(MaterialKey::Ground),
        43 => Asset::Material(MaterialKey::Glass),
        44 => Asset::Material(MaterialKey::Clearcoat),
        45 => Asset::Material(MaterialKey::Velvet),
        46 => Asset::Material(MaterialKey::Brushed),
        47 => Asset::Material(MaterialKey::Crystal),
        48 => Asset::Material(MaterialKey::Frosted),
        49 => Asset::Material(MaterialKey::Marble),
        50 => Asset::Material(MaterialKey::Wax),
        _ => if (index - 11) % 2 == 0 {
            Asset::Material(MaterialKey::Metal((index - 11) / 2))
        } else {
            Asset::Material(MaterialKey::Dielectric((index - 11) / 2))
        },
    }
}

/// An asset that was loaded, with the number it was given.
#[derive(Clone, Copy, Debug, PartialEq, Eq, Structural)]
pub struct Loaded {
    pub asset: Asset,
    pub handle: u32,
}

/// The number an asset was given, if it was loaded.
pub open spec fn handle_of(loaded: Seq<Loaded>, asset: Asset) -> Option<u32>
    decreases loaded.len(),
{
    if loaded.len() == 0 {
        None
    } else if loaded.last().asset == asset {
        Some(loaded.last().handle)
    } else {
        handle_of(loaded.drop_last(), asset)
    }
}

/// What has been loaded, and what the rest of the engine has to know about it.
#[derive(Debug)]
pub struct Assets {
    pub loaded: Vec<Loaded>,
    /// The meshes whose bounds the culler knows.
    pub bounded: Vec<MeshHandle>,
    /// How each material blends.
    pub blends: Vec<(MaterialHandle, BlendMode)>,
}

impl Assets {
    pub fn new() -> (assets: Self)
        ensures
            assets.loaded@.len() == 0,
            assets.bounded@.len() == 0,
            assets.blends@.len() == 0,
    {
        Assets { loaded: Vec::new(), bounded: Vec::new(), blends: Vec::new() }
    }

    /// The number an asset was given, if it was loaded.
    pub fn handle(&self, asset: Asset) -> (handle: Option<u32>)
        ensures
            handle == handle_of(self.loaded@, asset),
    {
        let mut i: usize = self.loaded.len();
        assert(self.loaded@.subrange(0, i as int) =~= self.loaded@);
        while i > 0
            invariant
                i <= self.loaded@.len(),
                handle_of(self.loaded@, asset) == handle_of(
                    self.loaded@.subrange(0, i as int),
                    asset,
                ),
            decreases i,
        {
            let ghost prefix = self.loaded@.subrange(0, i as int);
            assert(prefix.last() == self.loaded@[i - 1]);
            assert(prefix.drop_last() =~= self.loaded@.subrange(0, i - 1));
            if self.loaded[i - 1].asset == asset {
                return Some(self.loaded[i - 1].handle);
            }
            i = i - 1;
        }
        None
    }

    /// Register a mesh in both tables at once, so that one can never reach a draw
    /// list without the bounds the culler needs, where the device has them.
    pub fn load_mesh(&mut self, key: MeshKey, handle: MeshHandle, has_bounds: bool)
        ensures
            final(self).loaded@ == old(self).loaded@.push(
                Loaded { asset: Asset::Mesh(key), handle: handle.0 },
            ),
            final(self).bounded@ == (if has_bounds {
                old(self).bounded@.push(handle)
            } else {
                old(self).bounded@
            }),
            final(self).blends@ == old(self).blends@,
    {
        self.loaded.push(Loaded { asset: Asset::Mesh(key), handle: handle.0 });
        if has_bounds {
            self.bounded.push(handle);
        }
    }

    /// Register a material in both tables at once, so that one can never reach a
    /// draw list without the blend mode it is sorted by.
    pub fn load_material(&mut self, key: MaterialKey, handle: MaterialHandle)
        ensures
            final(self).loaded@ == old(self).loaded@.push(
                Loaded { asset: Asset::Material(key), handle: handle.0 },
            ),
            final(self).blends@ == old(self).blends@.push((handle, blend_of(key))),
            final(self).bounded@ == old(self).bounded@,
    {
        self.loaded.push(Loaded { asset: Asset::Material(key), handle: handle.0 });
        self.blends.push((handle, key.blend()));
    }

    /// Register a texture.
    pub fn insert_texture(&mut self, key: TextureKey, handle: TextureHandle)
        ensures
            final(self).loaded@ == old(self).loaded@.push(
                Loaded { asset: Asset::Texture(key), handle: handle.0 },
            ),
            final(self).blends@ == old(self).blends@,
            final(self).bounded@ == old(self).bounded@,
    {
        self.loaded.push(Loaded { asset: Asset::Texture(key), handle: handle.0 });
    }
}

/// The numbers of a material's maps.
pub open spec fn bound_maps(loaded: Seq<Loaded>, maps: MaterialMaps) -> BoundMaps {
    BoundMaps {
        albedo: bound_map(loaded, maps.albedo),
        normal: bound_map(loaded, maps.normal),
        metallic_roughness: bound_map(loaded, maps.metallic_roughness),
        height: bound_map(loaded, maps.height),
    }
}

pub open spec fn bound_map(loaded: Seq<Loaded>, map: Option<TextureKey>) -> Option<TextureHandle> {
    match map {
        Some(key) => match handle_of(loaded, Asset::Texture(key)) {
            Some(handle) => Some(TextureHandle(handle)),
            None => None,
        },
        None => None,
    }
}

/// The library, partly loaded.
#[derive(Debug)]
pub struct Library {
    pub next: usize,
    pub assets: Assets,
}

/// How the materials among what was loaded blend, by number and in order.
pub open spec fn blends_of(loaded: Seq<Loaded>) -> Seq<(MaterialHandle, BlendMode)>
    decreases loaded.len(),
{
    if loaded.len() == 0 {
        Seq::empty()
    } else {
        let rest = blends_of(loaded.drop_last());
        match loaded.last().asset {
            Asset::Material(key) => rest.push(
                (MaterialHandle(loaded.last().handle), blend_of(key)),
            ),
            _ => rest,
        }
    }
}

/// Whether a number is that of a mesh among what was loaded.
pub open spec fn is_mesh(loaded: Seq<Loaded>, handle: MeshHandle) -> bool {
    exists|i: int|
        0 <= i < loaded.len() && (#[trigger] loaded[i]).asset is Mesh && loaded[i].handle
            == handle.0
}

impl Library {
    /// What was loaded is what the steps so far load, in order; every material
    /// among it has its blend mode in the table, and only meshes among it have
    /// their bounds there.
    pub open spec fn wf(&self) -> bool {
        &&& self.next <= STEPS
        &&& self.assets.loaded@.len() == self.next
        &&& forall|i: int|
            0 <= i < self.next ==> (#[trigger] self.assets.loaded@[i]).asset == step_at(i)
        &&& self.assets.blends@ == blends_of(self.assets.loaded@)
        &&& forall|i: int|
            0 <= i < self.assets.bounded@.len() ==> is_mesh(
                self.assets.loaded@,
                #[trigger] self.assets.bounded@[i],
            )
    }

    pub fn new() -> (library: Self)
        ensures
            library.wf(),
            library.next == 0,
            library.assets.bounded@.len() == 0,
    {
        let assets = Assets::new();
        assert(assets.blends@ =~= blends_of(assets.loaded@));
        Library { next: 0, assets }
    }

    fn bind(&self, map: Option<TextureKey>) -> (handle: Option<TextureHandle>)
        ensures
            handle == bound_map(self.assets.loaded@, map),
    {
        match map {
            Some(key) => match self.assets.handle(Asset::Texture(key)) {
                Some(handle) => Some(TextureHandle(handle)),
                None => None,
            },
            None => None,
        }
    }

    /// What to load next, or `None` where everything is loaded.
    pub fn load_library(&self) -> (action: Option<LoadAction>)
        requires
            self.wf(),
        ensures
            action is None <==> self.next == STEPS,
            action is Some ==> action->0 == (match step_at(self.next as int) {
                Asset::Mesh(key) => LoadAction::Mesh(key),
                Asset::Texture(key) => LoadAction::Texture {
                    texture: key,
                    source: source_of(key),
                    srgb: srgb_of(key),
                },
                Asset::Material(key) => LoadAction::Material {
                    material: key,
                    authored: authored_of(key),
                    blend: blend_of(key),
                    maps: bound_maps(self.assets.loaded@, maps_of(key)),
                },
            }),
    {
        if self.next >= STEPS {
            return None;
        }
        Some(
            match step(self.next) {
                Asset::Mesh(key) => LoadAction::Mesh(key),
                Asset::Texture(key) => LoadAction::Texture {
                    texture: key,
                    source: key.source(),
                    srgb: key.srgb(),
                },
                Asset::Material(key) => {
                    let maps = key.maps();
                    LoadAction::Material {
                        material: key,
                        authored: key.authored(),
                        blend: key.blend(),
                        maps: BoundMaps {
                            albedo: self.bind(maps.albedo),
                            normal: self.bind(maps.normal),
                            metallic_roughness: self.bind(maps.metallic_roughness),
                            height: self.bind(maps.height),
                        },
                    }
                },
            },
        )
    }

    /// The number of a mesh, once everything is loaded.
    pub fn mesh(&self, key: MeshKey) -> (handle: MeshHandle)
        requires
            self.wf(),
            self.next == STEPS,
        ensures
            handle_of(self.assets.loaded@, Asset::Mesh(key)) == Some(handle.0),
    {
        proof {
            finished_library_is_complete(*self, Asset::Mesh(key));
        }
        MeshHandle(self.assets.handle(Asset::Mesh(key)).unwrap())
    }

    /// The number of a material, once everything is loaded.
    pub fn material(&self, key: MaterialKey) -> (handle: MaterialHandle)
        requires
            self.wf(),
            self.next == STEPS,
            in_library(Asset::Material(key)),
        ensures
            handle_of(self.assets.loaded@, Asset::Material(key)) == Some(handle.0),
    {
        proof {
            finished_library_is_complete(*self, Asset::Material(key));
        }
        MaterialHandle(self.assets.handle(Asset::Material(key)).unwrap())
    }

    /// The number of a texture, once everything is loaded.
    pub fn texture(&self, key: TextureKey) -> (handle: TextureHandle)
        requires
            self.wf(),
            self.next == STEPS,
        ensures
            handle_of(self.assets.loaded@, Asset::Texture(key)) == Some(handle.0),
    {
        proof {
            finished_library_is_complete(*self, Asset::Texture(key));
        }
        TextureHandle(self.assets.handle(Asset::Texture(key)).unwrap())
    }

    /// Take note of the number the device gave to what it just loaded, and for a
    /// mesh, whether it knows its bounds.
    pub fn loaded(&mut self, handle: u32, has_bounds: bool)
        requires
            old(self).wf(),
            old(self).next < STEPS,
        ensures
            final(self).wf(),
            final(self).next == old(self).next + 1,
            final(self).assets.loaded@ == old(self).assets.loaded@.push(
                Loaded { asset: step_at(old(self).next as int), handle },
            ),
            final(self).assets.bounded@ == (if step_at(old(self).next as int) is Mesh
                && has_bounds {
                old(self).assets.bounded@.push(MeshHandle(handle))
            } else {
                old(self).assets.bounded@
            }),
            final(self).assets.blends@ == (match step_at(old(self).next as int) {
                Asset::Material(key) => old(self).assets.blends@.push(
                    (MaterialHandle(handle), blend_of(key)),
                ),
                _ => old(self).assets.blends@,
            }),
    {
        match step(self.next) {
            Asset::Mesh(key) => {
                self.assets.load_mesh(key, MeshHandle(handle), has_bounds);
            },
            Asset::Texture(key) => {
                self.assets.insert_texture(key, TextureHandle(handle));
            },
            Asset::Material(key) => {
                self.assets.load_material(key, MaterialHandle(handle));
            },
        }
        self.next = self.next + 1;
        proof {
            let before = old(self).assets;
            let after = self.assets;
            assert(after.loaded@.drop_last() =~= before.loaded@);
            assert forall|i: int| 0 <= i < after.bounded@.len() implies is_mesh(
                after.loaded@,
                #[trigger] after.bounded@[i],
            ) by {
                if i < before.bounded@.len() {
                    assert(is_mesh(before.loaded@, before.bounded@[i]));
                    let j = choose|j: int|
                        0 <= j < before.loaded@.len() && (#[trigger] before.loaded@[j]).asset is Mesh
                            && before.loaded@[j].handle == before.bounded@[i].0;
                    assert(after.loaded@[j] == before.loaded@[j]);
                } else {
                    assert(after.loaded@[before.loaded@.len() as int].asset is Mesh);
                }
            }
        }
    }
}

proof fn handle_found(loaded: Seq<Loaded>, i: int)
    requires
        0 <= i < loaded.len(),
    ensures
        handle_of(loaded, loaded[i].asset) is Some,
    decreases loaded.len(),
{
    if loaded.last().asset != loaded[i].asset {
        handle_found(loaded.drop_last(), i);
    }
}

/// **Every asset is loaded exactly once.** Steps and assets are in one-to-one
/// correspondence.
pub proof fn each_asset_has_its_step(asset: Asset, index: int)
    ensures
        in_library(asset) ==> 0 <= step_of(asset) < STEPS && step_at(step_of(asset)) == asset,
        0 <= index < STEPS ==> in_library(step_at(index)) && step_of(step_at(index)) == index,
{
}

/// **A material's maps are loaded before it.**
pub proof fn maps_come_first(key: MaterialKey, texture: TextureKey)
    requires
        maps_of(key).albedo == Some(texture) || maps_of(key).normal == Some(texture) || maps_of(
            key,
        ).metallic_roughness == Some(texture) || maps_of(key).height == Some(texture),
    ensures
        step_of(Asset::Texture(texture)) < step_of(Asset::Material(key)),
{
}

/// **No material is bound to a missing map.** When the library asks for a
/// material to be loaded, each of its maps has been.
pub proof fn maps_are_bound(library: Library, key: MaterialKey)
    requires
        library.wf(),
        library.next < STEPS,
        step_at(library.next as int) == Asset::Material(key),
    ensures
        ({
            let maps = maps_of(key);
            let bound = bound_maps(library.assets.loaded@, maps);
            &&& maps.albedo is Some <==> bound.albedo is Some
            &&& maps.normal is Some <==> bound.normal is Some
            &&& maps.metallic_roughness is Some <==> bound.metallic_roughness is Some
            &&& maps.height is Some <==> bound.height is Some
        }),
{
    let maps = maps_of(key);
    each_asset_has_its_step(Asset::Material(key), library.next as int);
    if let Some(texture) = maps.albedo {
        map_is_bound(library, key, texture);
    }
    if let Some(texture) = maps.normal {
        map_is_bound(library, key, texture);
    }
    if let Some(texture) = maps.metallic_roughness {
        map_is_bound(library, key, texture);
    }
    if let Some(texture) = maps.height {
        map_is_bound(library, key, texture);
    }
}

proof fn map_is_bound(library: Library, key: MaterialKey, texture: TextureKey)
    requires
        library.wf(),
        library.next < STEPS,
        step_of(Asset::Material(key)) == library.next,
        maps_of(key).albedo == Some(texture) || maps_of(key).normal == Some(texture) || maps_of(
            key,
        ).metallic_roughness == Some(texture) || maps_of(key).height == Some(texture),
    ensures
        handle_of(library.assets.loaded@, Asset::Texture(texture)) is Some,
{
    maps_come_first(key, texture);
    let asset = Asset::Texture(texture);
    each_asset_has_its_step(asset, 0);
    let i = step_of(asset);
    assert(library.assets.loaded@[i].asset == step_at(i));
    handle_found(library.assets.loaded@, i);
}

/// **A scene finds everything it asks for.** Once everything is loaded, every
/// asset of the library has a number.
pub proof fn finished_library_is_complete(library: Library, asset: Asset)
    requires
        library.wf(),
        library.next == STEPS,
        in_library(asset),
    ensures
        handle_of(library.assets.loaded@, asset) is Some,
{
    each_asset_has_its_step(asset, 0);
    let i = step_of(asset);
    assert(library.assets.loaded@[i].asset == step_at(i));
    handle_found(library.assets.loaded@, i);
}

/// **No material lacks its blend mode.** Whatever has been loaded so far, each
/// material among it can be sorted into its queue: one in no table would draw as an
/// opaque wall.
pub proof fn no_material_lacks_its_blend(library: Library, i: int, key: MaterialKey)
    requires
        library.wf(),
        0 <= i < library.assets.loaded@.len(),
        library.assets.loaded@[i].asset == Asset::Material(key),
    ensures
        library.assets.blends@.contains(
            (MaterialHandle(library.assets.loaded@[i].handle), blend_of(key)),
        ),
{
    blend_is_listed(library.assets.loaded@, i, key);
}

proof fn blend_is_listed(loaded: Seq<Loaded>, i: int, key: MaterialKey)
    requires
        0 <= i < loaded.len(),
        loaded[i].asset == Asset::Material(key),
    ensures
        blends_of(loaded).contains((MaterialHandle(loaded[i].handle), blend_of(key))),
    decreases loaded.len(),
{
    let entry = (MaterialHandle(loaded[i].handle), blend_of(key));
    let all = blends_of(loaded);
    let rest = blends_of(loaded.drop_last());
    if i == loaded.len() - 1 {
        assert(all[rest.len() as int] == entry);
    } else {
        blend_is_listed(loaded.drop_last(), i, key);
        let k = choose|k: int| 0 <= k < rest.len() && rest[k] == entry;
        assert(all[k] == entry);
    }
}

/// **The two walls differ in the height map and nothing else**: what the march
/// reads is all that separates them.
pub proof fn only_the_march_separates_the_walls()
    ensures
        (MaterialMaps { height: None, ..maps_of(MaterialKey::Brick) }) == maps_of(
            MaterialKey::BrickFlat,
        ),
        maps_of(MaterialKey::Brick).height is Some,
        (Authored { parallax_depth: None, ..authored_of(MaterialKey::Brick) }) == authored_of(
            MaterialKey::BrickFlat,
        ),
        blend_of(MaterialKey::Brick) == blend_of(MaterialKey::BrickFlat),
        (MaterialMaps { height: None, ..maps_of(MaterialKey::Rock) }) == maps_of(
            MaterialKey::Stone,
        ),
{
}

/// **A march goes as deep as its maps were drawn.** The masonry is drawn, lit and
/// marched at one depth, over one tile.
pub proof fn one_depth_for_the_masonry(layer: Layer)
    ensures
        source_of(TextureKey::BrickAlbedo) == masonry_of(Layer::Albedo),
        source_of(TextureKey::BrickNormal) == masonry_of(Layer::Normal),
        source_of(TextureKey::BrickHeight) == masonry_of(Layer::Height),
        masonry_of(layer)->depth == authored_of(MaterialKey::Brick).parallax_depth->0,
        masonry_of(layer)->tile == WALL_TILE,
{
}

/// **A height map is marched and a march has a height map.**
pub proof fn height_goes_with_depth(key: MaterialKey)
    ensures
        maps_of(key).height is Some <==> authored_of(key).parallax_depth is Some,
{
}

/// **Each lobe shows alone.** A material switches on at most one of the extra
/// lobes: coat, sheen, anisotropy, transmission, scattering.
pub proof fn lobes_show_alone(key: MaterialKey)
    ensures
        ({
            let lobes = authored_of(key);
            let coat: int = if lobes.clearcoat is Some { 1 } else { 0 };
            let sheen: int = if lobes.sheen_color is Some { 1 } else { 0 };
            let streak: int = if lobes.anisotropy is Some { 1 } else { 0 };
            let through: int = if lobes.transmission is Some { 1 } else { 0 };
            let under: int = if lobes.subsurface_color is Some { 1 } else { 0 };
            coat + sheen + streak + through + under <= 1
        }),
        authored_of(key).transmission is Some <==> blend_of(key) == BlendMode::Transmissive,
        authored_of(key).alpha is Some <==> blend_of(key) == BlendMode::Blend,
        authored_of(key).alpha_cutoff is Some <==> blend_of(key) == BlendMode::Masked,
{
}

/// What a texture shows of its picture, and which picture that is.
pub open spec fn shows(key: TextureKey, layer: Layer) -> bool {
    match source_of(key) {
        TextureSource::Checkerboard { .. } | TextureSource::Leaf { .. } => layer is Albedo,
        TextureSource::Bumps { .. } => layer is Normal,
        TextureSource::MetallicRoughness { .. } => layer is MetallicRoughness,
        TextureSource::Scorch { layer: drawn, .. } => layer == drawn,
        TextureSource::RockFile { layer: drawn } => layer == drawn,
        TextureSource::Masonry { layer: drawn, .. } => layer == drawn,
    }
}

/// **A material samples each map as what it is.** What it takes for colour is a
/// picture's colour, what it takes for a normal its normals, and so with the other
/// two; and no material without colour has any map.
pub proof fn maps_show_what_they_are_taken_for(key: MaterialKey)
    ensures
        ({
            let maps = maps_of(key);
            &&& maps.albedo matches Some(map) ==> shows(map, Layer::Albedo)
            &&& maps.normal matches Some(map) ==> shows(map, Layer::Normal)
            &&& maps.metallic_roughness matches Some(map) ==> shows(map, Layer::MetallicRoughness)
            &&& maps.height matches Some(map) ==> shows(map, Layer::Height)
            &&& maps.albedo is None ==> maps.normal is None && maps.metallic_roughness is None
                && maps.height is None
        }),
{
}

/// **Colour is decoded and nothing else is.** A texture is read as sRGB exactly where
/// it shows a picture's colour; and every texture shows exactly one layer.
pub proof fn colour_is_decoded(key: TextureKey, one: Layer, other: Layer)
    ensures
        srgb_of(key) <==> shows(key, Layer::Albedo),
        shows(key, one) && shows(key, other) ==> one == other,
{
}

/// **The maps of one picture are of one picture.** What a material samples is drawn
/// alike, at one size, or comes from one file.
pub proof fn maps_are_of_one_picture(key: MaterialKey, one: TextureKey, other: TextureKey)
    requires
        maps_of(key).albedo == Some(one),
        maps_of(key).normal == Some(other) || maps_of(key).metallic_roughness == Some(other)
            || maps_of(key).height == Some(other),
    ensures
        match (source_of(one), source_of(other)) {
            (
                TextureSource::Checkerboard { size, .. },
                TextureSource::Bumps { size: across, .. },
            ) => size == across,
            (
                TextureSource::Checkerboard { size, .. },
                TextureSource::MetallicRoughness { size: across },
            ) => size == across,
            (TextureSource::RockFile { .. }, TextureSource::RockFile { .. }) => true,
            (
                TextureSource::Masonry { size, columns, rows, tile, depth, .. },
                TextureSource::Masonry {
                    size: across,
                    columns: of_columns,
                    rows: of_rows,
                    tile: of_tile,
                    depth: of_depth,
                    ..
                },
            ) => size == across && columns == of_columns && rows == of_rows && tile == of_tile
                && depth == of_depth,
            _ => false,
        },
{
}

/// **The sweep rises evenly from smooth to rough.** Its two rows differ in what they
/// are made of and agree in roughness; a row keeps everything but its roughness.
pub proof fn the_sweep_rises_evenly(step: usize)
    requires
        step < SWEEP,
    ensures
        ({
            let metal = authored_of(MaterialKey::Metal(step));
            let dielectric = authored_of(MaterialKey::Dielectric(step));
            &&& metal.roughness == dielectric.roughness
            &&& (SWEEP - 1) * metal.roughness == step * 10_000
            &&& metal.roughness == 100 * percent_of(step)
            &&& metal.metallic == 10_000
            &&& dielectric.metallic == 0
            &&& (Authored { roughness: 0, ..metal }) == authored_of(MaterialKey::Metal(0))
            &&& (Authored { roughness: 0, ..dielectric }) == authored_of(MaterialKey::Dielectric(0))
            &&& dielectric.base_color.r == dielectric.base_color.g == dielectric.base_color.b
            &&& dielectric.reflectance is Some
        }),
{
}

/// **A material is metal or it is not.** Gold, copper, the brushed sample and the
/// metals of the sweep are; the textured one leaves it, with roughness, to its map;
/// nothing else is. What is drawn from a picture adds no tint of its own.
pub proof fn metals_are_metal(key: MaterialKey)
    ensures
        ({
            let authored = authored_of(key);
            let full: u32 = 10_000;
            &&& authored.metallic == full <==> key is Gold || key is Copper || key is Brushed
                || key is Metal || key is Textured
            &&& authored.metallic != full ==> authored.metallic == 0
            &&& key is Textured ==> authored.roughness == full
            &&& maps_of(key).albedo is Some && !(key is Stone) ==> authored.base_color == (Color {
                r: full,
                g: full,
                b: full,
            })
            &&& maps_of(key).metallic_roughness is Some ==> authored.roughness == full
            &&& authored.emissive is Some <==> key is Neon || key is Ember
            &&& authored.subsurface_color is Some <==> authored.subsurface_radius is Some
            &&& authored.clearcoat is Some <==> authored.clearcoat_roughness is Some
            &&& authored.sheen_color is Some <==> authored.sheen_roughness is Some
            &&& authored.attenuation_color is Some <==> authored.attenuation_distance is Some
            &&& authored.transmission is Some <==> authored.ior is Some
            &&& authored.thickness is Some <==> authored.transmission is Some
                || authored.subsurface_color is Some
        }),
{
}

/// **A plain mesh is its namesake with white vertices.**
pub proof fn plain_meshes_are_white(key: MeshKey)
    ensures
        shape_of(key).1 <==> key is CubePlain || key is PlanePlain || key is SpherePlain,
        shape_of(MeshKey::CubePlain).0 == shape_of(MeshKey::Cube).0,
        shape_of(MeshKey::PlanePlain).0 == shape_of(MeshKey::Plane).0,
        shape_of(MeshKey::SpherePlain).0 == shape_of(MeshKey::Sphere).0,
        key is Cube || key is CubePlain <==> shape_of(key).0 is Cube,
        key is Plane || key is PlanePlain <==> shape_of(key).0 is Plane,
        shape_of(key).0 matches Shape::Sphere { segments, rings } ==> segments == 2 * rings,
{
}

/// **An asset's number is the one it was given.** What is found for an asset is the
/// number of an entry of it; where there is none, nothing is found.
pub proof fn numbers_are_their_assets(loaded: Seq<Loaded>, asset: Asset)
    ensures
        handle_of(loaded, asset) matches Some(handle) ==> exists|i: int|
            0 <= i < loaded.len() && (#[trigger] loaded[i]).asset == asset && loaded[i].handle
                == handle,
        handle_of(loaded, asset) is None ==> forall|i: int|
            0 <= i < loaded.len() ==> (#[trigger] loaded[i]).asset != asset,
    decreases loaded.len(),
{
    if loaded.len() > 0 {
        let rest = loaded.drop_last();
        numbers_are_their_assets(rest, asset);
        if loaded.last().asset == asset {
            assert(loaded[loaded.len() - 1].asset == asset);
        } else if let Some(handle) = handle_of(rest, asset) {
            let i = choose|i: int|
                0 <= i < rest.len() && (#[trigger] rest[i]).asset == asset && rest[i].handle
                    == handle;
            assert(loaded[i] == rest[i]);
        } else {
            assert forall|i: int| 0 <= i < loaded.len() implies (#[trigger] loaded[i]).asset
                != asset by {
                if i < rest.len() {
                    assert(rest[i].asset != asset);
                }
            }
        }
    }
}

/// **Each map is bound to its own number.**
pub proof fn maps_are_bound_to_their_own(loaded: Seq<Loaded>, maps: MaterialMaps)
    ensures
        ({
            let bound = bound_maps(loaded, maps);
            let number = |map: Option<TextureKey>, handle: Option<TextureHandle>|
                {
                    &&& map is None ==> handle is None
                    &&& map is Some ==> (handle is Some <==> handle_of(
                        loaded,
                        Asset::Texture(map->0),
                    ) is Some)
                    &&& map is Some && handle is Some ==> Some((handle->0).0) == handle_of(
                        loaded,
                        Asset::Texture(map->0),
                    )
                };
            &&& number(maps.albedo, bound.albedo)
            &&& number(maps.normal, bound.normal)
            &&& number(maps.metallic_roughness, bound.metallic_roughness)
            &&& number(maps.height, bound.height)
        }),
{
}

/// **A texture is named for its picture and its layer, and a plain mesh for the mesh
/// it is.**
pub proof fn names_say_what_things_are(key: TextureKey)
    ensures
        srgb_of(key) ==> exists|picture: Seq<char>| texture_name_of(key) == #[trigger] (picture
            + "_albedo"@),
        shows(key, Layer::Normal) ==> exists|picture: Seq<char>|
            texture_name_of(key) == #[trigger] (picture + "_normal"@),
        shows(key, Layer::Height) ==> exists|picture: Seq<char>|
            texture_name_of(key) == #[trigger] (picture + "_height"@),
        mesh_name_of(MeshKey::CubePlain) == mesh_name_of(MeshKey::Cube) + "_plain"@,
        mesh_name_of(MeshKey::PlanePlain) == mesh_name_of(MeshKey::Plane) + "_plain"@,
        mesh_name_of(MeshKey::SpherePlain) == mesh_name_of(MeshKey::Sphere) + "_plain"@,
        material_name_of(MaterialKey::BrickFlat) == material_name_of(MaterialKey::Brick)
            + "_flat"@,
{
    reveal_strlit("_albedo");
    reveal_strlit("_normal");
    reveal_strlit("_height");
    reveal_strlit("_plain");
    reveal_strlit("_flat");
    reveal_strlit("cube");
    reveal_strlit("plane");
    reveal_strlit("sphere");
    reveal_strlit("cube_plain");
    reveal_strlit("plane_plain");
    reveal_strlit("sphere_plain");
    reveal_strlit("brick");
    reveal_strlit("brick_flat");
    assert("cube_plain"@ =~= "cube"@ + "_plain"@);
    assert("plane_plain"@ =~= "plane"@ + "_plain"@);
    assert("sphere_plain"@ =~= "sphere"@ + "_plain"@);
    assert("brick_flat"@ =~= "brick"@ + "_flat"@);
    reveal_strlit("proc_albedo");
    reveal_strlit("scorch_albedo");
    reveal_strlit("leaf_albedo");
    reveal_strlit("rock_albedo");
    reveal_strlit("brick_albedo");
    reveal_strlit("proc_normal");
    reveal_strlit("scorch_normal");
    reveal_strlit("rock_normal");
    reveal_strlit("brick_normal");
    reveal_strlit("rock_height");
    reveal_strlit("brick_height");
    assert("proc_albedo"@ =~= seq!['p', 'r', 'o', 'c'] + "_albedo"@);
    assert("scorch_albedo"@ =~= seq!['s', 'c', 'o', 'r', 'c', 'h'] + "_albedo"@);
    assert("leaf_albedo"@ =~= seq!['l', 'e', 'a', 'f'] + "_albedo"@);
    assert("rock_albedo"@ =~= seq!['r', 'o', 'c', 'k'] + "_albedo"@);
    assert("brick_albedo"@ =~= "brick"@ + "_albedo"@);
    assert("proc_normal"@ =~= seq!['p', 'r', 'o', 'c'] + "_normal"@);
    assert("scorch_normal"@ =~= seq!['s', 'c', 'o', 'r', 'c', 'h'] + "_normal"@);
    assert("rock_normal"@ =~= seq!['r', 'o', 'c', 'k'] + "_normal"@);
    assert("brick_normal"@ =~= "brick"@ + "_normal"@);
    assert("rock_height"@ =~= seq!['r', 'o', 'c', 'k'] + "_height"@);
    assert("brick_height"@ =~= "brick"@ + "_height"@);
}

/// **The samples run from polished to rough.** A glow has no surface to speak of; glass
/// and crystal are smoother than gloss, gloss than gold, and so on to cloth and what
/// leaves its roughness to a map.
pub proof fn samples_run_from_polished_to_rough(key: MaterialKey)
    requires
        !(key is Metal || key is Dielectric),
    ensures
        ({
            let roughness = authored_of(key).roughness;
            &&& roughness == 0 <==> key is Neon
            &&& roughness == 500 <==> key is Glass || key is Crystal
            &&& roughness == 1200 <==> key is Glossy
            &&& roughness == 1800 <==> key is Gold
            &&& roughness == 2200 <==> key is Marble
            &&& roughness == 3500 <==> key is Brushed || key is Wax
            &&& roughness == 4500 <==> key is Copper || key is Frosted
            &&& roughness == 6000 <==> key is Foliage || key is Clearcoat
            &&& roughness == 8500 <==> key is Clay || key is Brick || key is BrickFlat
            &&& roughness == 9000 <==> key is Ground || key is Ember
            &&& roughness == 9500 <==> key is Velvet
            &&& roughness == 10_000 <==> key is Textured || key is Rock || key is Stone
        }),
{
}

/// **What is clear or drawn is white, clay and ground are grey, and the rest have their
/// tints**: metals and stone warm, the brushed sample and gloss cold, glass towards
/// blue, paint and velvet towards red.
pub proof fn samples_have_their_tints(key: MaterialKey)
    ensures
        ({
            let tint = authored_of(key).base_color;
            let is = |r: u32, g: u32, b: u32| tint == Color { r, g, b };
            let drawn = maps_of(key).albedo is Some && !(key is Stone);
            &&& is(10_000, 10_000, 10_000) <==> drawn || blend_of(key) is Transmissive
            &&& is(4000, 4000, 4000) <==> key is Neon
            &&& is(5000, 5000, 5000) <==> key is Dielectric
            &&& is(7000, 7000, 7000) <==> key is Ground
            &&& is(8000, 8000, 8000) <==> key is Clay
            &&& is(10_000, 8400, 4000) <==> key is Gold
            &&& is(9500, 6400, 5400) <==> key is Copper
            &&& is(9500, 9300, 8800) <==> key is Metal
            &&& is(9300, 8600, 7200) <==> key is Wax
            &&& is(8600, 8400, 8000) <==> key is Stone
            &&& is(8600, 8300, 7800) <==> key is Marble
            &&& is(2500, 1000, 500) <==> key is Ember
            &&& is(9100, 9200, 9400) <==> key is Brushed
            &&& is(9000, 9000, 9500) <==> key is Glossy
            &&& is(6000, 8500, 9000) <==> key is Glass
            &&& is(5500, 500, 800) <==> key is Clearcoat
            &&& is(1400, 300, 1000) <==> key is Velvet
        }),
{
}

/// **Every lobe is as strong as its sample shows it.** A coat and a transmission are
/// whole; a glow is of one colour, or of embers; what light goes into has a depth of its
/// own, in metres, and scatters red the furthest but in a leaf, which passes green.
pub proof fn lobes_are_as_strong_as_they_show(key: MaterialKey)
    ensures
        ({
            let a = authored_of(key);
            &&& a.reflectance == (if key is Neon {
                Some(0u32)
            } else if key is Dielectric {
                Some(5000u32)
            } else if key is Glossy {
                Some(7000u32)
            } else if key is Glass {
                Some(9000u32)
            } else {
                None
            })
            &&& a.alpha is Some ==> a.alpha == Some(3500u32)
            &&& a.alpha_cutoff is Some ==> a.alpha_cutoff == Some(5000u32)
            &&& a.clearcoat is Some ==> key is Clearcoat && a.clearcoat == Some(10_000u32)
                && a.clearcoat_roughness == Some(300u32)
            &&& a.sheen_color is Some ==> key is Velvet && a.sheen_roughness == Some(2500u32)
                && a.sheen_color == Some(Color { r: 7000, g: 2500, b: 4500 })
            &&& a.anisotropy is Some <==> key is Brushed
            &&& a.anisotropy is Some ==> a.anisotropy == Some(8500u32)
            &&& a.transmission is Some ==> a.transmission == Some(10_000u32)
            &&& key is Clearcoat ==> a.clearcoat is Some
            &&& key is Velvet ==> a.sheen_color is Some
            &&& a.ior == (if key is Crystal {
                Some(15_200u32)
            } else if key is Frosted {
                Some(14_500u32)
            } else {
                None
            })
            &&& a.emissive == (if key is Neon {
                Some(Color { r: 6_000_000, g: 6_000_000, b: 6_000_000 })
            } else if key is Ember {
                Some(Color { r: 26_000_000, g: 9_000_000, b: 2_600_000 })
            } else {
                None
            })
            &&& a.thickness matches Some(depth) ==> {
                &&& depth == 4 <==> key is Foliage
                &&& depth == 30 <==> key is Wax
                &&& depth == 6000 <==> key is Frosted || key is Marble
                &&& depth == 9000 <==> key is Crystal
            }
            &&& a.attenuation_color is Some ==> key is Crystal && a.attenuation_distance == Some(
                15_000u32,
            ) && a.attenuation_color == Some(Color { r: 7200, g: 9400, b: 8200 })
            &&& key is Crystal ==> a.attenuation_color is Some
            &&& a.subsurface_radius matches Some(radius) ==> {
                &&& radius.b == 40
                &&& key is Foliage <==> radius == (Color { r: 100, g: 140, b: 40 })
                &&& key is Marble <==> radius == (Color { r: 120, g: 60, b: 40 })
                &&& key is Wax <==> radius == (Color { r: 100, g: 60, b: 40 })
            }
            &&& a.subsurface_color matches Some(tint) ==> {
                &&& key is Foliage <==> tint == (Color { r: 2800, g: 5500, b: 1200 })
                &&& key is Marble <==> tint == (Color { r: 9200, g: 8000, b: 7200 })
                &&& key is Wax <==> tint == (Color { r: 10_000, g: 7200, b: 4200 })
            }
            &&& a.subsurface_forward_scatter == (if key is Wax {
                Some(80_000u32)
            } else {
                None
            })
            &&& key is Foliage || key is Marble || key is Wax <==> a.subsurface_color is Some
            &&& a.parallax_depth == (if key is Rock {
                Some(300u32)
            } else if key is Brick {
                Some(500u32)
            } else {
                None
            })
        }),
{
}

/// **The drawn maps are drawn as they tile.** All but the masonry are of one size; the
/// board and the wall have eight across, the wall half as many courses, each block
/// twice as wide as high on its tile.
pub proof fn drawn_maps_are_drawn_as_they_tile(key: TextureKey)
    ensures
        match source_of(key) {
            TextureSource::Checkerboard { size, checks, first, second } => size == MAP && checks == 8
                && first == (220u8, 60u8, 50u8) && second == (240u8, 240u8, 245u8),
            TextureSource::Bumps { size, frequency, strength } => size == MAP && frequency == 60_000
                && strength == 15_000,
            TextureSource::MetallicRoughness { size } => size == MAP,
            TextureSource::Scorch { size, .. } => size == MAP,
            TextureSource::Leaf { size } => size == MAP,
            TextureSource::RockFile { .. } => true,
            TextureSource::Masonry { size, columns, rows, tile, depth, .. } => size == WALL
                && columns == 8 && rows == 4 && tile == WALL_TILE && depth == WALL_DEPTH,
        },
        WALL_TILE.0 == 2 * WALL_TILE.1,
        key is ScorchAlbedo || key is ScorchNormal || key is ScorchRough <==> source_of(
            key,
        ) is Scorch,
        key is RockAlbedo || key is RockNormal || key is RockRough || key is RockHeight
            <==> source_of(key) is RockFile,
        key is LeafAlbedo <==> source_of(key) is Leaf,
        key is ScorchNormal || key is RockNormal || key is BrickNormal || key is ProcNormal <==> shows(
            key,
            Layer::Normal,
        ),
        key is RockHeight || key is BrickHeight <==> shows(key, Layer::Height),
        key is ScorchRough || key is RockRough || key is ProcMetalRough <==> shows(
            key,
            Layer::MetallicRoughness,
        ),
{
}

/// **No two materials go by one name.**
pub proof fn materials_have_names_of_their_own(one: MaterialKey, other: MaterialKey)
    requires
        one != other,
        !(one is Metal || one is Dielectric),
        !(other is Metal || other is Dielectric),
    ensures
        material_name_of(one) != material_name_of(other),
{
    let first = name_mark(one);
    let second = name_mark(other);
    assert(first != second);
}

proof fn name_mark(key: MaterialKey) -> (mark: (int, char, char))
    requires
        !(key is Metal || key is Dielectric),
    ensures
        mark.0 == material_name_of(key).len(),
        mark.1 == material_name_of(key)[0],
        mark.2 == material_name_of(key)[1],
        mark == (match key {
            MaterialKey::Gold => (4int, 'g', 'o'),
            MaterialKey::Copper => (6int, 'c', 'o'),
            MaterialKey::Glossy => (6int, 'g', 'l'),
            MaterialKey::Clay => (4int, 'c', 'l'),
            MaterialKey::Neon => (4int, 'n', 'e'),
            MaterialKey::Textured => (8int, 't', 'e'),
            MaterialKey::Foliage => (7int, 'f', 'o'),
            MaterialKey::Rock => (4int, 'r', 'o'),
            MaterialKey::Stone => (5int, 's', 't'),
            MaterialKey::Ember => (5int, 'e', 'm'),
            MaterialKey::Brick => (5int, 'b', 'r'),
            MaterialKey::BrickFlat => (10int, 'b', 'r'),
            MaterialKey::Ground => (6int, 'g', 'r'),
            MaterialKey::Glass => (5int, 'g', 'l'),
            MaterialKey::Clearcoat => (9int, 'c', 'l'),
            MaterialKey::Velvet => (6int, 'v', 'e'),
            MaterialKey::Brushed => (7int, 'b', 'r'),
            MaterialKey::Crystal => (7int, 'c', 'r'),
            MaterialKey::Frosted => (7int, 'f', 'r'),
            MaterialKey::Marble => (6int, 'm', 'a'),
            MaterialKey::Wax => (3int, 'w', 'a'),
            _ => (0int, ' ', ' '),
        }),
{
    reveal_strlit("gold");
    reveal_strlit("copper");
    reveal_strlit("glossy");
    reveal_strlit("clay");
    reveal_strlit("neon");
    reveal_strlit("textured");
    reveal_strlit("foliage");
    reveal_strlit("rock");
    reveal_strlit("stone");
    reveal_strlit("ember");
    reveal_strlit("brick");
    reveal_strlit("brick_flat");
    reveal_strlit("ground");
    reveal_strlit("glass");
    reveal_strlit("clearcoat");
    reveal_strlit("velvet");
    reveal_strlit("brushed");
    reveal_strlit("crystal");
    reveal_strlit("frosted");
    reveal_strlit("marble");
    reveal_strlit("wax");
    let name = material_name_of(key);
    (name.len() as int, name[0], name[1])
}

} // verus!
