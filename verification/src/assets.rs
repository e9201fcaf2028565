//! The tables behind the handles that scenes hold, and what a new entry makes
//! stale.

use vstd::prelude::*;

verus! {

#[derive(Clone, Copy, Debug, PartialEq, Eq, Structural)]
pub struct MeshHandle(pub u32);

#[derive(Clone, Copy, Debug, PartialEq, Eq, Structural)]
pub struct MaterialHandle(pub u32);

#[derive(Clone, Copy, Debug, PartialEq, Eq, Structural)]
pub struct TextureHandle(pub u32);

/// How a texture's texels are encoded.
#[derive(Clone, Copy, Debug, PartialEq, Eq, Structural)]
pub enum TextureFormat {
    /// Colour maps: decoded to linear when sampled.
    Rgba8Srgb,
    /// Data maps: linear already.
    Rgba8Unorm,
}

/// What a texture was loaded as.
#[derive(Clone, Copy, Debug, PartialEq, Eq, Structural)]
pub struct LoadedTexture {
    pub handle: TextureHandle,
    /// The format to upload it in, or `None` where there is no room: the handle
    /// is then the white default's, and nothing is uploaded.
    pub upload: Option<TextureFormat>,
}

/// What is built from the tables and kept until one of them changes. `true` is
/// up to date.
#[derive(Clone, Copy, Debug, PartialEq, Eq, Structural)]
pub struct Derived {
    pub material_buffer: bool,
    pub material_set: bool,
    pub texture_set: bool,
    pub prepass_material_set: bool,
    pub prepass_texture_set: bool,
    pub shadow_material_set: bool,
    pub shadow_texture_set: bool,
}

/// How much has been loaded.
#[derive(Clone, Copy, Debug, PartialEq, Eq, Structural)]
pub struct Tables {
    pub meshes: usize,
    pub materials: usize,
    pub textures: usize,
    /// How many textures the shaders' sampler array holds.
    pub max_textures: usize,
    pub derived: Derived,
}

impl Tables {
    /// The default material and the two default textures are always there:
    /// texture zero is white, and texture one a flat normal map.
    pub open spec fn wf(&self) -> bool {
        &&& self.materials >= 1
        &&& self.textures >= 2
        &&& self.meshes <= u32::MAX
        &&& self.materials <= u32::MAX
        &&& self.textures <= u32::MAX
    }

    pub fn new(max_textures: usize) -> (tables: Self)
        ensures
            tables.wf(),
            tables == (Tables {
                meshes: 0,
                materials: 1,
                textures: 2,
                max_textures,
                derived: Derived {
                    material_buffer: false,
                    material_set: false,
                    texture_set: false,
                    prepass_material_set: false,
                    prepass_texture_set: false,
                    shadow_material_set: false,
                    shadow_texture_set: false,
                },
            }),
    {
        Tables {
            meshes: 0,
            materials: 1,
            textures: 2,
            max_textures,
            derived: Derived {
                material_buffer: false,
                material_set: false,
                texture_set: false,
                prepass_material_set: false,
                prepass_texture_set: false,
                shadow_material_set: false,
                shadow_texture_set: false,
            },
        }
    }

    /// Number the mesh that was just uploaded.
    pub fn load_mesh(&mut self) -> (handle: MeshHandle)
        requires
            old(self).wf(),
            old(self).meshes < u32::MAX,
        ensures
            final(self).wf(),
            handle.0 == old(self).meshes,
            *final(self) == (Tables { meshes: (old(self).meshes + 1) as usize, ..*old(self) }),
    {
        let handle = MeshHandle(self.meshes as u32);
        self.meshes = self.meshes + 1;
        handle
    }

    /// Number a new material. Everything built from the material table is stale.
    pub fn load_material(&mut self) -> (handle: MaterialHandle)
        requires
            old(self).wf(),
            old(self).materials < u32::MAX,
        ensures
            final(self).wf(),
            handle.0 == old(self).materials,
            *final(self) == (Tables {
                materials: (old(self).materials + 1) as usize,
                derived: Derived {
                    material_buffer: false,
                    material_set: false,
                    prepass_material_set: false,
                    shadow_material_set: false,
                    ..old(self).derived
                },
                ..*old(self)
            }),
    {
        let handle = MaterialHandle(self.materials as u32);
        self.materials = self.materials + 1;
        self.derived.material_buffer = false;
        self.derived.material_set = false;
        self.derived.prepass_material_set = false;
        self.derived.shadow_material_set = false;
        handle
    }

    /// Number a new texture, unless the sampler array is full: the white default
    /// then stands in for it, since the GPU could not sample a slot past the end.
    pub fn load_texture(&mut self, srgb: bool) -> (loaded: LoadedTexture)
        requires
            old(self).wf(),
            old(self).textures < u32::MAX,
        ensures
            final(self).wf(),
            old(self).textures >= old(self).max_textures ==> {
                &&& loaded == (LoadedTexture { handle: TextureHandle(0), upload: None })
                &&& *final(self) == *old(self)
            },
            old(self).textures < old(self).max_textures ==> {
                &&& loaded.handle.0 == old(self).textures
                &&& loaded.upload == Some(
                    if srgb {
                        TextureFormat::Rgba8Srgb
                    } else {
                        TextureFormat::Rgba8Unorm
                    },
                )
                &&& *final(self) == (Tables {
                    textures: (old(self).textures + 1) as usize,
                    derived: Derived {
                        texture_set: false,
                        prepass_texture_set: false,
                        shadow_texture_set: false,
                        ..old(self).derived
                    },
                    ..*old(self)
                })
            },
    {
        if self.textures >= self.max_textures {
            return LoadedTexture { handle: TextureHandle(0), upload: None };
        }
        let format = if srgb {
            TextureFormat::Rgba8Srgb
        } else {
            TextureFormat::Rgba8Unorm
        };
        let handle = TextureHandle(self.textures as u32);
        self.textures = self.textures + 1;
        self.derived.texture_set = false;
        self.derived.prepass_texture_set = false;
        self.derived.shadow_texture_set = false;
        LoadedTexture { handle, upload: Some(format) }
    }

    /// What has to be built again before a frame records. Everything is up to
    /// date afterwards.
    pub fn refresh(&mut self) -> (stale: Derived)
        requires
            old(self).wf(),
        ensures
            final(self).wf(),
            *final(self) == (Tables { derived: final(self).derived, ..*old(self) }),
            final(self).derived == (Derived {
                material_buffer: true,
                material_set: true,
                texture_set: true,
                prepass_material_set: true,
                prepass_texture_set: true,
                shadow_material_set: true,
                shadow_texture_set: true,
            }),
            stale == (Derived {
                material_buffer: !old(self).derived.material_buffer,
                material_set: !old(self).derived.material_set,
                texture_set: !old(self).derived.texture_set,
                prepass_material_set: !old(self).derived.prepass_material_set,
                prepass_texture_set: !old(self).derived.prepass_texture_set,
                shadow_material_set: !old(self).derived.shadow_material_set,
                shadow_texture_set: !old(self).derived.shadow_texture_set,
            }),
    {
        let stale = Derived {
            material_buffer: !self.derived.material_buffer,
            material_set: !self.derived.material_set,
            texture_set: !self.derived.texture_set,
            prepass_material_set: !self.derived.prepass_material_set,
            prepass_texture_set: !self.derived.prepass_texture_set,
            shadow_material_set: !self.derived.shadow_material_set,
            shadow_texture_set: !self.derived.shadow_texture_set,
        };
        self.derived = Derived {
            material_buffer: true,
            material_set: true,
            texture_set: true,
            prepass_material_set: true,
            prepass_texture_set: true,
            shadow_material_set: true,
            shadow_texture_set: true,
        };
        stale
    }
}

/// The texture each slot of a sampler array is filled with: its own, or the white
/// default where there is none, so that no descriptor is left unwritten.
pub fn texture_slots(slots: usize, textures: usize) -> (filled: Vec<usize>)
    ensures
        filled@.len() == slots,
        forall|i: int|
            0 <= i < slots ==> #[trigger] filled@[i] == (if i < textures {
                i
            } else {
                0
            }),
{
    let mut filled: Vec<usize> = Vec::new();
    let mut slot: usize = 0;
    while slot < slots
        invariant
            slot <= slots,
            filled@.len() == slot,
            forall|i: int|
                0 <= i < slot ==> #[trigger] filled@[i] == (if i < textures {
                    i
                } else {
                    0
                }),
        decreases slots - slot,
    {
        filled.push(
            if slot < textures {
                slot
            } else {
                0
            },
        );
        slot = slot + 1;
    }
    filled
}

/// **Every texture handle can be sampled.** The handle of a loaded texture is
/// below the sampler array's length, as long as that holds the two defaults, and
/// names a texture that is there.
pub proof fn handles_can_be_sampled(before: Tables, after: Tables, loaded: LoadedTexture)
    requires
        before.wf(),
        before.max_textures >= 2,
        before.textures >= before.max_textures ==> loaded.handle == TextureHandle(0) && after
            == before,
        before.textures < before.max_textures ==> loaded.handle.0 == before.textures
            && after.textures == before.textures + 1 && after.max_textures == before.max_textures,
    ensures
        loaded.handle.0 < after.max_textures,
        loaded.handle.0 < after.textures,
{
}

} // verus!
