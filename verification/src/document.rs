use vstd::prelude::*;

verus! {

/// Two 32-bit components, each carried as a raw IEEE-754 bit pattern.
///
/// The loader never computes with these values, it only moves them from the
/// source document into GPU-ready records, so it stores the bits themselves
/// and leaves their floating-point reading to the host that uploads them.
#[derive(Clone, Copy, Debug, PartialEq, Eq, Structural)]
pub struct Vec2Bits {
    pub x: u32,
    pub y: u32,
}

/// Three 32-bit components, each carried as a raw IEEE-754 bit pattern.
#[derive(Clone, Copy, Debug, PartialEq, Eq, Structural)]
pub struct Vec3Bits {
    pub x: u32,
    pub y: u32,
    pub z: u32,
}

/// Four 32-bit components, each carried as a raw IEEE-754 bit pattern.
#[derive(Clone, Copy, Debug, PartialEq, Eq, Structural)]
pub struct Vec4Bits {
    pub x: u32,
    pub y: u32,
    pub z: u32,
    pub w: u32,
}

/// Where a buffer of the source document keeps its bytes.
#[derive(Debug)]
pub enum BufferSource {
    /// A URI; only plain file paths are supported, `data:` URIs are rejected.
    Uri(String),
    /// A binary chunk embedded in the document itself; always rejected.
    Bin,
}

/// One buffer declaration of the source document: its source and the byte
/// length the document declares for it.
#[derive(Debug)]
pub struct BufferDesc {
    pub source: BufferSource,
    pub length: usize,
}

/// A view into a loaded buffer: `length` bytes of buffer `buffer`, starting
/// at byte `offset`.
#[derive(Clone, Copy, Debug, PartialEq, Eq, Structural)]
pub struct ViewDesc {
    pub buffer: usize,
    pub offset: usize,
    pub length: usize,
}

/// Where an image of the source document keeps its pixels.
#[derive(Debug)]
pub enum TextureSource {
    /// An image file, named relative to the document's base directory.
    Uri(String),
    /// Pixels embedded in a buffer view; always rejected.
    View,
}

/// One material of the source document, reduced to what the builder reads:
/// the scalar and vector factors (as raw float bits) and the five texture
/// slots.  A slot holds `None` where the document declares no texture.
#[derive(Debug)]
pub struct MaterialDesc {
    pub base_color_factor: Vec4Bits,
    pub metallic_factor: u32,
    pub roughness_factor: u32,
    pub emissive_factor: Vec3Bits,
    pub base_color_texture: Option<TextureSource>,
    pub metallic_roughness_texture: Option<TextureSource>,
    pub normal_texture: Option<TextureSource>,
    pub occlusion_texture: Option<TextureSource>,
    pub emissive_texture: Option<TextureSource>,
}

/// One primitive of a source mesh: its decoded vertex attribute streams, its
/// decoded index stream, and the document index of its material.  A stream
/// holds `None` where the document declares no such attribute; `material`
/// holds `None` where the primitive uses the document's default material.
#[derive(Debug)]
pub struct PrimitiveDesc {
    pub positions: Option<Vec<Vec3Bits>>,
    pub normals: Option<Vec<Vec3Bits>>,
    pub tangents: Option<Vec<Vec4Bits>>,
    pub tex_coords: Option<Vec<Vec2Bits>>,
    pub indices: Option<Vec<u32>>,
    pub material: Option<usize>,
}

/// One mesh of the source document: its stable index within the document's
/// mesh collection and its primitives.
#[derive(Debug)]
pub struct MeshDesc {
    pub index: usize,
    pub primitives: Vec<PrimitiveDesc>,
}

} // verus!
