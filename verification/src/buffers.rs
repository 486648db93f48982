use vstd::prelude::*;
use vstd::slice::slice_subrange;

use crate::document::{BufferDesc, BufferSource, ViewDesc};
use crate::error::Error;

verus! {

/// The raw bytes of every buffer of one source document, indexed by the
/// document's own buffer index.  Once built the blobs are immutable; callers
/// read them through [`GltfBuffers::buffer`] and [`GltfBuffers::view`].
pub struct GltfBuffers(pub Vec<Vec<u8>>);

/// Holds exactly when `uri` begins with the five characters `data:`, the
/// scheme of an embedded-data URI.
pub open spec fn is_data_uri(uri: Seq<char>) -> bool {
    &&& uri.len() >= 5
    &&& uri[0] == 'd'
    &&& uri[1] == 'a'
    &&& uri[2] == 't'
    &&& uri[3] == 'a'
    &&& uri[4] == ':'
}

/// Relies on `str::starts_with`: returns true exactly when the string's
/// character sequence begins with the prefix `data:`.
#[verifier::external_body]
fn has_data_uri_scheme(uri: &String) -> (r: bool)
    ensures
        r == is_data_uri(uri@),
{
    uri.starts_with("data:")
}

/// A buffer source the cache can load: a URI that is not a `data:` URI.
pub open spec fn buffer_source_supported(b: BufferDesc) -> bool {
    &&& b.source matches BufferSource::Uri(uri)
    &&& !is_data_uri(uri@)
}

/// The bytes `data` satisfy buffer declaration `b`: the source is supported
/// and at least the declared number of bytes was loaded.
pub open spec fn buffer_ok(b: BufferDesc, data: Seq<u8>) -> bool {
    &&& buffer_source_supported(b)
    &&& data.len() >= b.length
}

/// The error reported for buffer `i` when its declaration `b` or its loaded
/// bytes `data` are not acceptable.  The source is judged before the length,
/// as the cache does.
pub open spec fn buffer_error(b: BufferDesc, data: Seq<u8>, i: int) -> Error {
    match b.source {
        BufferSource::Uri(uri) => {
            if is_data_uri(uri@) {
                Error::UnsupportedDataUri
            } else {
                Error::ShortBuffer(i as usize)
            }
        },
        BufferSource::Bin => Error::UnsupportedBinaryBuffer,
    }
}

impl GltfBuffers {
    /// Build the buffer cache for one document from its buffer declarations
    /// and the blobs the host read for them, one per declaration in document
    /// order (the entry for a rejected source may be empty, it is never
    /// inspected).  Each declaration must name a plain-file URI — embedded
    /// (`data:` URI or binary-chunk) sources are rejected — and each blob
    /// must be at least as long as its declared length; a shorter blob is an
    /// integrity error.  The first offending buffer, in document order,
    /// decides the error.
    pub fn load_from_gltf(buffers: &Vec<BufferDesc>, loaded: Vec<Vec<u8>>) -> (r: Result<
        GltfBuffers,
        Error,
    >)
        requires
            loaded@.len() == buffers@.len(),
        ensures
            r is Ok <==> (forall|i: int|
                0 <= i < buffers@.len() ==> buffer_ok(#[trigger] buffers@[i], loaded@[i]@)),
            r matches Ok(g) ==> g.0@ == loaded@,
            r matches Err(e) ==> exists|i: int|
                {
                    &&& 0 <= i < buffers@.len()
                    &&& !buffer_ok(#[trigger] buffers@[i], loaded@[i]@)
                    &&& forall|k: int| 0 <= k < i ==> buffer_ok(#[trigger] buffers@[k], loaded@[k]@)
                    &&& e == buffer_error(buffers@[i], loaded@[i]@, i)
                },
    {
        let n = buffers.len();
        let mut i: usize = 0;
        while i < n
            invariant
                n == buffers@.len(),
                loaded@.len() == buffers@.len(),
                i <= n,
                forall|k: int| 0 <= k < i ==> buffer_ok(#[trigger] buffers@[k], loaded@[k]@),
            decreases n - i,
        {
            let b = &buffers[i];
            match &b.source {
                BufferSource::Uri(uri) => {
                    if has_data_uri_scheme(uri) {
                        return Err(Error::UnsupportedDataUri);
                    }
                },
                BufferSource::Bin => {
                    return Err(Error::UnsupportedBinaryBuffer);
                },
            }
            if loaded[i].len() < b.length {
                return Err(Error::ShortBuffer(i));
            }
            i += 1;
        }
        Ok(GltfBuffers(loaded))
    }

    /// Obtain the contents of a loaded buffer; `None` exactly when the
    /// document index is out of range.
    pub fn buffer(&self, index: usize) -> (r: Option<&Vec<u8>>)
        ensures
            r is Some <==> index < self.0@.len(),
            r matches Some(data) ==> data == &self.0[index as int],
    {
        if index < self.0.len() {
            Some(&self.0[index])
        } else {
            None
        }
    }

    /// Obtain the contents of a loaded buffer view: the declared range of
    /// bytes of the declared buffer.  `None` exactly when the buffer index is
    /// out of range or the range does not lie within the loaded buffer.
    pub fn view(&self, view: &ViewDesc) -> (r: Option<&[u8]>)
        ensures
            r is Some <==> view.buffer < self.0@.len() && view.offset + view.length
                <= self.0@[view.buffer as int]@.len(),
            r matches Some(data) ==> data@ == self.0@[view.buffer as int]@.subrange(
                view.offset as int,
                view.offset + view.length,
            ),
    {
        match self.buffer(view.buffer) {
            Some(data) => {
                if view.offset <= data.len() && view.length <= data.len() - view.offset {
                    Some(slice_subrange(data.as_slice(), view.offset, view.offset + view.length))
                } else {
                    None
                }
            },
            None => None,
        }
    }
}

} // verus!
