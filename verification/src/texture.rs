use vstd::prelude::*;

use crate::document::TextureSource;
use crate::error::Error;

verus! {

/// A GPU-upload-ready description of a texture.
///
/// The loader stops at this descriptor: decoding the image file and creating
/// the device resource are the host's job, performed after the whole mesh has
/// been ingested.
#[derive(Debug, PartialEq, Eq)]
pub enum TextureBuildDescriptor {
    /// Decode the image file named `uri`, relative to `base_dir`.  `srgb`
    /// selects sRGB decoding (color data) over linear (unorm) decoding, and
    /// `generate_mips` requests a full mip chain.
    FromImage { base_dir: String, uri: String, srgb: bool, generate_mips: bool },
    /// A solid one-by-one pixel of the given 8-bit color, sRGB when `srgb`.
    SolidPixel { red: u8, green: u8, blue: u8, srgb: bool },
}

/// Holds exactly when `d` instructs the host to decode the image file `uri`
/// under `base_dir` with the given color-space and mip policy.
pub open spec fn is_image_descriptor(
    d: TextureBuildDescriptor,
    base_dir: Seq<char>,
    uri: Seq<char>,
    srgb: bool,
    generate_mips: bool,
) -> bool {
    &&& d matches TextureBuildDescriptor::FromImage {
        base_dir: d_base,
        uri: d_uri,
        srgb: d_srgb,
        generate_mips: d_mips,
    }
    &&& d_base@ == base_dir
    &&& d_uri@ == uri
    &&& d_srgb == srgb
    &&& d_mips == generate_mips
}

/// Resolve one texture reference of the source document into a build
/// descriptor.  Only file-path image sources are supported: an image kept in
/// a buffer view is rejected.  `srgb` must be chosen by the caller from the
/// slot the texture fills (color slots decode as sRGB, data slots as linear);
/// it is never inferred.
pub fn load_gltf_texture(
    base_dir: &str,
    texture: &TextureSource,
    srgb: bool,
    generate_mips: bool,
) -> (r: Result<TextureBuildDescriptor, Error>)
    ensures
        r is Ok <==> *texture is Uri,
        r matches Ok(d) ==> is_image_descriptor(d, base_dir@, texture->0@, srgb, generate_mips),
        r matches Err(e) ==> e == Error::UnsupportedEmbeddedImage,
{
    match texture {
        TextureSource::Uri(uri) => Ok(TextureBuildDescriptor::FromImage {
            base_dir: base_dir.to_string(),
            uri: uri.clone(),
            srgb,
            generate_mips,
        }),
        TextureSource::View => Err(Error::UnsupportedEmbeddedImage),
    }
}

} // verus!
