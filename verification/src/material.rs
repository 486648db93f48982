use vstd::prelude::*;

use crate::document::{MaterialDesc, TextureSource, Vec3Bits, Vec4Bits};
use crate::error::Error;
use crate::texture::{is_image_descriptor, load_gltf_texture, TextureBuildDescriptor};

verus! {

/// The byte size of the emissive-factor uniform buffer: three 32-bit
/// components.
pub const EMISSIVE_FACTOR_BUFFER_SIZE: u64 = 12;

/// The scalar and vector factors of a material, as raw IEEE-754 bit
/// patterns, in the fixed order the shader-side uniform layout expects:
/// 4-component albedo tint, metallic factor, roughness factor.
#[derive(Clone, Copy, Debug, PartialEq, Eq, Structural)]
pub struct MaterialFactors {
    pub albedo: Vec4Bits,
    pub metallic: u32,
    pub roughness: u32,
}

/// The small uniform buffer the host must create and fill for a material:
/// `size` bytes holding the 3-component emissive factor, read by the
/// fragment stage as a shader-read-only resource.
#[derive(Clone, Copy, Debug, PartialEq, Eq, Structural)]
pub struct EmissiveFactorBuffer {
    pub size: u64,
    pub emissive_factor: Vec3Bits,
}

/// Everything one material slot owns: the factors, the five texture build
/// descriptors (albedo, normal, metallic-roughness, occlusion, emissive) and
/// the emissive-factor uniform buffer description.  All five textures and
/// the buffer are uploaded by the host into one shared shader-sampling
/// access state.
#[derive(Debug)]
pub struct MaterialData {
    pub factors: MaterialFactors,
    pub albedo: TextureBuildDescriptor,
    pub normal: TextureBuildDescriptor,
    pub metallic_roughness: TextureBuildDescriptor,
    pub ao: TextureBuildDescriptor,
    pub emissive: TextureBuildDescriptor,
    pub emissive_factor_buffer: EmissiveFactorBuffer,
}

/// A material the builder can build: the four required texture slots are
/// filled with file-backed images, and the optional emissive slot, if
/// filled, is file-backed too.
pub open spec fn material_supported(m: MaterialDesc) -> bool {
    &&& m.base_color_texture matches Some(t) && t is Uri
    &&& m.metallic_roughness_texture matches Some(t) && t is Uri
    &&& m.normal_texture matches Some(t) && t is Uri
    &&& m.occlusion_texture matches Some(t) && t is Uri
    &&& (m.emissive_texture matches Some(t) ==> t is Uri)
}

/// The error reported for a material that cannot be built: the first
/// missing or embedded texture slot, judged in build order (albedo,
/// metallic-roughness, normal, occlusion, emissive).
pub open spec fn material_error(m: MaterialDesc) -> Error {
    if m.base_color_texture is None {
        Error::MissingBaseColorTexture
    } else if !(m.base_color_texture->0 is Uri) {
        Error::UnsupportedEmbeddedImage
    } else if m.metallic_roughness_texture is None {
        Error::MissingMetallicRoughnessTexture
    } else if !(m.metallic_roughness_texture->0 is Uri) {
        Error::UnsupportedEmbeddedImage
    } else if m.normal_texture is None {
        Error::MissingNormalTexture
    } else if !(m.normal_texture->0 is Uri) {
        Error::UnsupportedEmbeddedImage
    } else if m.occlusion_texture is None {
        Error::MissingOcclusionTexture
    } else if !(m.occlusion_texture->0 is Uri) {
        Error::UnsupportedEmbeddedImage
    } else {
        Error::UnsupportedEmbeddedImage
    }
}

/// `out` is exactly the material data that building `m` under `base_dir`
/// with mip policy `generate_mips` yields: the factors copied from the
/// document, the four required slots decoded with their fixed color spaces
/// (albedo sRGB, the data slots linear), the emissive slot decoded as sRGB
/// when present and substituted by a solid black one-pixel sRGB placeholder
/// when absent, and the emissive-factor uniform buffer description.
pub open spec fn is_built_material(
    m: MaterialDesc,
    base_dir: Seq<char>,
    generate_mips: bool,
    out: MaterialData,
) -> bool {
    &&& out.factors == (MaterialFactors {
        albedo: m.base_color_factor,
        metallic: m.metallic_factor,
        roughness: m.roughness_factor,
    })
    &&& is_image_descriptor(out.albedo, base_dir, m.base_color_texture->0->0@, true, generate_mips)
    &&& is_image_descriptor(
        out.metallic_roughness,
        base_dir,
        m.metallic_roughness_texture->0->0@,
        false,
        generate_mips,
    )
    &&& is_image_descriptor(out.normal, base_dir, m.normal_texture->0->0@, false, generate_mips)
    &&& is_image_descriptor(out.ao, base_dir, m.occlusion_texture->0->0@, false, generate_mips)
    &&& (match m.emissive_texture {
        Some(t) => is_image_descriptor(out.emissive, base_dir, t->0@, true, generate_mips),
        None => out.emissive == (TextureBuildDescriptor::SolidPixel {
            red: 0,
            green: 0,
            blue: 0,
            srgb: true,
        }),
    })
    &&& out.emissive_factor_buffer == (EmissiveFactorBuffer {
        size: EMISSIVE_FACTOR_BUFFER_SIZE,
        emissive_factor: m.emissive_factor,
    })
}

/// Build one material: extract the factors and resolve the texture slots
/// into build descriptors.  The four slots albedo, metallic-roughness,
/// normal and occlusion are required — a material lacking one of them is a
/// hard failure, never a silent default.  Only the emissive slot may be
/// absent; it is then substituted by a solid black one-pixel sRGB
/// placeholder, the sole default substitution in this builder.
pub fn build_material(material: &MaterialDesc, base_dir: &str, generate_mips: bool) -> (r: Result<
    MaterialData,
    Error,
>)
    ensures
        r is Ok <==> material_supported(*material),
        r matches Ok(d) ==> is_built_material(*material, base_dir@, generate_mips, d),
        r matches Err(e) ==> e == material_error(*material),
{
    let factors = MaterialFactors {
        albedo: material.base_color_factor,
        metallic: material.metallic_factor,
        roughness: material.roughness_factor,
    };
    let albedo = match &material.base_color_texture {
        Some(t) => match load_gltf_texture(base_dir, t, true, generate_mips) {
            Ok(d) => d,
            Err(e) => return Err(e),
        },
        None => return Err(Error::MissingBaseColorTexture),
    };
    let metallic_roughness = match &material.metallic_roughness_texture {
        Some(t) => match load_gltf_texture(base_dir, t, false, generate_mips) {
            Ok(d) => d,
            Err(e) => return Err(e),
        },
        None => return Err(Error::MissingMetallicRoughnessTexture),
    };
    let normal = match &material.normal_texture {
        Some(t) => match load_gltf_texture(base_dir, t, false, generate_mips) {
            Ok(d) => d,
            Err(e) => return Err(e),
        },
        None => return Err(Error::MissingNormalTexture),
    };
    let ao = match &material.occlusion_texture {
        Some(t) => match load_gltf_texture(base_dir, t, false, generate_mips) {
            Ok(d) => d,
            Err(e) => return Err(e),
        },
        None => return Err(Error::MissingOcclusionTexture),
    };
    let emissive = match &material.emissive_texture {
        Some(t) => match load_gltf_texture(base_dir, t, true, generate_mips) {
            Ok(d) => d,
            Err(e) => return Err(e),
        },
        None => TextureBuildDescriptor::SolidPixel { red: 0, green: 0, blue: 0, srgb: true },
    };
    let emissive_factor_buffer = EmissiveFactorBuffer {
        size: EMISSIVE_FACTOR_BUFFER_SIZE,
        emissive_factor: material.emissive_factor,
    };
    Ok(
        MaterialData {
            factors,
            albedo,
            normal,
            metallic_roughness,
            ao,
            emissive,
            emissive_factor_buffer,
        },
    )
}

/// The materials of one loaded scene, owned by their arena slots.
#[derive(Debug)]
pub struct MaterialStorage(pub Vec<MaterialData>);

/// A handle addressing one material slot.
pub type MaterialHandle = usize;

} // verus!
