use vstd::prelude::*;

verus! {

/// Why an ingest step failed.
///
/// Every fallible entry point of this crate reports one of these variants;
/// each names the unsupported source, the missing datum, or the buffer whose
/// integrity check failed.  There is no silent fallback anywhere except the
/// emissive placeholder substitution documented on the material builder.
#[derive(Clone, Copy, Debug, PartialEq, Eq, Structural)]
pub enum Error {
    /// A buffer carries its bytes in a `data:` URI; such sources are unsupported.
    UnsupportedDataUri,
    /// A buffer points at a binary chunk embedded in the document; unsupported.
    UnsupportedBinaryBuffer,
    /// An image lives in a buffer view instead of an external file; unsupported.
    UnsupportedEmbeddedImage,
    /// A primitive references the document's default (indexless) material; unsupported.
    UnsupportedDefaultMaterial,
    /// A primitive has no index stream.
    MissingIndices,
    /// A primitive has no position stream.
    MissingPositions,
    /// A primitive has no normal stream.
    MissingNormals,
    /// A primitive has no tangent stream.
    MissingTangents,
    /// A primitive has no texture-coordinate stream.
    MissingTexCoords,
    /// A material has no base-color (albedo) texture.
    MissingBaseColorTexture,
    /// A material has no metallic-roughness texture.
    MissingMetallicRoughnessTexture,
    /// A material has no normal texture.
    MissingNormalTexture,
    /// A material has no occlusion texture.
    MissingOcclusionTexture,
    /// The buffer at this document index loaded fewer bytes than it declares.
    ShortBuffer(usize),
}

} // verus!
