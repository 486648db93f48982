use vstd::prelude::*;

use std::collections::HashMap;

use crate::document::{MaterialDesc, MeshDesc, PrimitiveDesc, Vec2Bits, Vec3Bits, Vec4Bits};
use crate::error::Error;
use crate::material::{
    build_material, is_built_material, material_error, material_supported, MaterialData,
    MaterialHandle,
};

verus! {

/// A handle addressing one mesh slot.
pub type MeshHandle = usize;

/// A handle addressing one primitive slot.
pub type PrimitiveHandle = usize;

/// One interleaved vertex record: position, normal, tangent and one texture
/// coordinate channel, each component a raw IEEE-754 bit pattern.
#[derive(Clone, Copy, Debug, PartialEq, Eq, Structural)]
pub struct PosNormTangTex {
    pub position: Vec3Bits,
    pub normal: Vec3Bits,
    pub tangent: Vec4Bits,
    pub tex_coord: Vec2Bits,
}

/// The GPU mesh payload of one primitive, ready for the host to upload: the
/// interleaved vertex records and the index stream.
#[derive(Debug)]
pub struct MeshPayload {
    pub vertices: Vec<PosNormTangTex>,
    pub indices: Vec<u32>,
}

/// One drawable batch: its mesh payload, a back-reference to the mesh that
/// owns it, and the handle of its (deduplicated) material.
#[derive(Debug)]
pub struct Primitive {
    pub mesh_data: MeshPayload,
    pub mesh_handle: MeshHandle,
    pub mat: MaterialHandle,
}

/// The primitives of one loaded scene, owned by their arena slots.
#[derive(Debug, Default)]
pub struct PrimitiveStorage(pub Vec<Primitive>);

/// An ordered sequence of primitive handles plus the instance bound the
/// renderer reserves for this mesh; a mesh owns no GPU resources itself.
#[derive(Debug, Default)]
pub struct Mesh {
    pub primitives: Vec<PrimitiveHandle>,
    pub max_instances: u16,
}

/// The meshes of one loaded scene, owned by their arena slots.
#[derive(Debug, Default)]
pub struct MeshStorage(pub Vec<Mesh>);

/// Names scene meshes by the asset they were loaded from.
#[derive(Debug, Default)]
pub struct MeshHandleMap(pub HashMap<String, MeshHandle>);

/// Every required stream of a primitive is present: the index stream and
/// the four vertex attribute streams.
pub open spec fn streams_present(p: PrimitiveDesc) -> bool {
    &&& p.indices is Some
    &&& p.positions is Some
    &&& p.normals is Some
    &&& p.tangents is Some
    &&& p.tex_coords is Some
}

/// The error naming the first absent stream, in the order the loader reads
/// them: indices, positions, normals, tangents, texture coordinates.
pub open spec fn stream_error(p: PrimitiveDesc) -> Error {
    if p.indices is None {
        Error::MissingIndices
    } else if p.positions is None {
        Error::MissingPositions
    } else if p.normals is None {
        Error::MissingNormals
    } else if p.tangents is None {
        Error::MissingTangents
    } else {
        Error::MissingTexCoords
    }
}

/// The number of vertex records interleaving yields: the length of the
/// shortest of the four attribute streams.
pub open spec fn interleaved_len(
    positions: Seq<Vec3Bits>,
    normals: Seq<Vec3Bits>,
    tangents: Seq<Vec4Bits>,
    tex_coords: Seq<Vec2Bits>,
) -> int {
    vstd::math::min(
        vstd::math::min(positions.len() as int, normals.len() as int),
        vstd::math::min(tangents.len() as int, tex_coords.len() as int),
    )
}

/// The interleaving of four attribute streams into vertex records: record
/// `k` carries element `k` of every stream, and the record count is the
/// shortest stream's length.
pub open spec fn interleaved(
    positions: Seq<Vec3Bits>,
    normals: Seq<Vec3Bits>,
    tangents: Seq<Vec4Bits>,
    tex_coords: Seq<Vec2Bits>,
) -> Seq<PosNormTangTex> {
    Seq::new(
        interleaved_len(positions, normals, tangents, tex_coords) as nat,
        |k: int| PosNormTangTex {
            position: positions[k],
            normal: normals[k],
            tangent: tangents[k],
            tex_coord: tex_coords[k],
        },
    )
}

/// Interleave the four attribute streams of a primitive into one vertex
/// record stream, truncated to the shortest input.
pub fn interleave_streams(
    positions: &Vec<Vec3Bits>,
    normals: &Vec<Vec3Bits>,
    tangents: &Vec<Vec4Bits>,
    tex_coords: &Vec<Vec2Bits>,
) -> (r: Vec<PosNormTangTex>)
    ensures
        r@ == interleaved(positions@, normals@, tangents@, tex_coords@),
{
    let mut count = positions.len();
    if normals.len() < count {
        count = normals.len();
    }
    if tangents.len() < count {
        count = tangents.len();
    }
    if tex_coords.len() < count {
        count = tex_coords.len();
    }
    let mut out: Vec<PosNormTangTex> = Vec::new();
    let mut k: usize = 0;
    while k < count
        invariant
            count == interleaved_len(positions@, normals@, tangents@, tex_coords@),
            k <= count,
            out@.len() == k,
            forall|i: int|
                0 <= i < k ==> #[trigger] out@[i] == interleaved(
                    positions@,
                    normals@,
                    tangents@,
                    tex_coords@,
                )[i],
        decreases count - k,
    {
        out.push(
            PosNormTangTex {
                position: positions[k],
                normal: normals[k],
                tangent: tangents[k],
                tex_coord: tex_coords[k],
            },
        );
        k += 1;
    }
    proof {
        assert(out@ =~= interleaved(positions@, normals@, tangents@, tex_coords@));
    }
    out
}

/// A primitive the loader can ingest against the given material arena: all
/// required streams are present, it names a material (not the document's
/// default), and that material's slot is already populated or its
/// description can be built.
pub open spec fn prim_ok(
    p: PrimitiveDesc,
    materials: Seq<MaterialDesc>,
    material_slots: Seq<Option<MaterialData>>,
    base_mat: int,
) -> bool {
    &&& streams_present(p)
    &&& p.material matches Some(m) && (material_slots[base_mat + m] is Some
        || material_supported(materials[m as int]))
}

/// The error reported for a primitive that cannot be ingested: an absent
/// stream first, then the default-material rejection, then the error of its
/// unbuildable material.
pub open spec fn prim_error(p: PrimitiveDesc, materials: Seq<MaterialDesc>) -> Error {
    if !streams_present(p) {
        stream_error(p)
    } else if p.material is None {
        Error::UnsupportedDefaultMaterial
    } else {
        material_error(materials[p.material->0 as int])
    }
}

/// Every primitive of `mesh` can be ingested against the given material
/// arena; loading the mesh into an empty slot succeeds exactly when this
/// holds.
pub open spec fn prims_loadable(
    mesh: MeshDesc,
    materials: Seq<MaterialDesc>,
    material_slots: Seq<Option<MaterialData>>,
    base_mat: int,
) -> bool {
    forall|j: int|
        0 <= j < mesh.primitives@.len() ==> prim_ok(
            #[trigger] mesh.primitives@[j],
            materials,
            material_slots,
            base_mat,
        )
}

/// Some primitive among the first `up_to` of `mesh` resolves its material
/// index to arena slot `k` under base offset `base_mat`.
pub open spec fn prefix_references_material(
    mesh: MeshDesc,
    base_mat: int,
    k: int,
    up_to: int,
) -> bool {
    exists|j: int|
        {
            &&& 0 <= j < up_to
            &&& (#[trigger] mesh.primitives@[j]).material matches Some(m) && k == base_mat + m
        }
}

/// Some primitive of `mesh` resolves its material index to arena slot `k`
/// under base offset `base_mat`.
pub open spec fn mesh_references_material(mesh: MeshDesc, base_mat: int, k: int) -> bool {
    prefix_references_material(mesh, base_mat, k, mesh.primitives@.len() as int)
}

/// `out` is exactly the primitive that ingesting `p` for the mesh at handle
/// `mesh_idx` yields: the interleaved payload, the back-reference to its
/// mesh, and the material handle computed from the base offset.
pub open spec fn is_built_primitive(
    p: PrimitiveDesc,
    mesh_idx: int,
    base_mat: int,
    out: Primitive,
) -> bool {
    &&& out.mesh_handle == mesh_idx
    &&& p.material matches Some(m) && out.mat == base_mat + m
    &&& out.mesh_data.indices@ == p.indices->0@
    &&& out.mesh_data.vertices@ == interleaved(
        p.positions->0@,
        p.normals->0@,
        p.tangents->0@,
        p.tex_coords->0@,
    )
}

/// The full contract of [`load_gltf_mesh`]: how one call relates the arenas
/// before the call (`ms0`, `ps0`, `ss0`: material, primitive and mesh slots)
/// to the arenas after it (`ms1`, `ps1`, `ss1`) and to its result, under the
/// two base handle offsets `base_mesh` and `base_mat`.
pub open spec fn load_outcome(
    mesh: MeshDesc,
    materials: Seq<MaterialDesc>,
    base_dir: Seq<char>,
    generate_mips: bool,
    max_instances: u16,
    base_mesh: int,
    base_mat: int,
    ms0: Seq<Option<MaterialData>>,
    ps0: Seq<Option<Primitive>>,
    ss0: Seq<Option<Mesh>>,
    ms1: Seq<Option<MaterialData>>,
    ps1: Seq<Option<Primitive>>,
    ss1: Seq<Option<Mesh>>,
    r: Result<MeshHandle, Error>,
) -> bool {
    // The returned handle is always the base offset plus the source index.
    &&& (r matches Ok(h) ==> h == base_mesh + mesh.index)
    // An already populated mesh slot makes the call an idempotent no-op.
    &&& (ss0[base_mesh + mesh.index] is Some ==> {
        &&& r is Ok
        &&& ss1 == ss0
        &&& ps1 == ps0
        &&& ms1 == ms0
    })
    // Into an empty slot, the load succeeds exactly when every primitive can
    // be ingested against the material arena as it stood before the call.
    &&& (ss0[base_mesh + mesh.index] is None ==> (r is Ok <==> prims_loadable(
        mesh,
        materials,
        ms0,
        base_mat,
    )))
    // A populated material slot is never rebuilt or overwritten, and a slot
    // is newly populated only for a material this mesh references, with
    // exactly the data the material builder yields for it.
    &&& ms1.len() == ms0.len()
    &&& (forall|k: int| 0 <= k < ms0.len() && ms0[k] is Some ==> #[trigger] ms1[k] == ms0[k])
    &&& (forall|k: int|
        0 <= k < ms0.len() && ms0[k] is None && (#[trigger] ms1[k]) is Some ==> {
            &&& mesh_references_material(mesh, base_mat, k)
            &&& material_supported(materials[k - base_mat])
            &&& is_built_material(materials[k - base_mat], base_dir, generate_mips, ms1[k]->0)
        })
    // The primitive arena only grows, keeps its old slots, and every appended
    // slot holds the primitive built from this mesh's primitive in order.
    &&& ps1.len() >= ps0.len()
    &&& (forall|i: int| 0 <= i < ps0.len() ==> #[trigger] ps1[i] == ps0[i])
    &&& (forall|i: int|
        ps0.len() <= i < ps1.len() ==> {
            &&& (#[trigger] ps1[i]) matches Some(pr) && is_built_primitive(
                mesh.primitives@[i - ps0.len()],
                base_mesh + mesh.index,
                base_mat,
                pr,
            )
        })
    // A fresh, successful load appends every primitive, fills the mesh slot
    // with their handles in order, leaves every other mesh slot alone, and
    // leaves every referenced material slot populated.
    &&& (ss0[base_mesh + mesh.index] is None && r is Ok ==> {
        &&& ps1.len() == ps0.len() + mesh.primitives@.len()
        &&& ss1.len() == ss0.len()
        &&& (forall|k: int|
            0 <= k < ss1.len() && k != base_mesh + mesh.index ==> #[trigger] ss1[k] == ss0[k])
        &&& ss1[base_mesh + mesh.index] matches Some(me) && {
            &&& me.max_instances == max_instances
            &&& me.primitives@.len() == mesh.primitives@.len()
            &&& (forall|j: int|
                0 <= j < me.primitives@.len() ==> #[trigger] me.primitives@[j] == ps0.len() + j)
        }
        &&& (forall|j: int|
            0 <= j < mesh.primitives@.len() ==> ((#[trigger] mesh.primitives@[j]).material
                matches Some(m) ==> ms1[base_mat + m] is Some))
    })
    // A failed load names the first primitive that cannot be ingested, leaves
    // the mesh arena untouched, and appends exactly the primitives before it.
    &&& (r matches Err(e) ==> {
        &&& ss0[base_mesh + mesh.index] is None
        &&& ss1 == ss0
        &&& exists|j: int|
            {
                &&& 0 <= j < mesh.primitives@.len()
                &&& !prim_ok(#[trigger] mesh.primitives@[j], materials, ms0, base_mat)
                &&& (forall|i: int|
                    0 <= i < j ==> prim_ok(#[trigger] mesh.primitives@[i], materials, ms0, base_mat))
                &&& e == prim_error(mesh.primitives@[j], materials)
                &&& ps1.len() == ps0.len() + j
            }
    })
}

/// Load one source mesh into the arenas and return its handle,
/// `base_mesh_index + mesh.index`.
///
/// If the mesh's slot is already populated the call is an idempotent no-op:
/// it returns the same handle and changes nothing.  Otherwise every
/// primitive is ingested in order: its streams are interleaved into a GPU
/// payload, its material slot (`base_material_index` plus the document's
/// material index) is populated by the material builder exactly where still
/// empty — a populated slot is never rebuilt or overwritten — and the
/// primitive is appended to the primitive arena.  The mesh slot is filled
/// last, with the appended primitives' handles in order.
///
/// Any failing primitive aborts the whole load with its error; the mesh
/// slot is then left unpopulated, while primitives and materials ingested
/// before the failing primitive remain in the arenas, as the no-rollback
/// policy of this loader leaves discarding a failed batch to the arenas'
/// owner.
pub fn load_gltf_mesh(
    mesh: &MeshDesc,
    max_instances: u16,
    generate_mips: bool,
    base_dir: &str,
    materials: &Vec<MaterialDesc>,
    base_mesh_index: usize,
    base_material_index: usize,
    material_storage: &mut Vec<Option<MaterialData>>,
    primitive_storage: &mut Vec<Option<Primitive>>,
    mesh_storage: &mut Vec<Option<Mesh>>,
) -> (r: Result<MeshHandle, Error>)
    requires
        base_mesh_index + mesh.index < old(mesh_storage).len(),
        old(mesh_storage)@[base_mesh_index + mesh.index] is None ==> forall|j: int|
            0 <= j < mesh.primitives@.len() ==> ((#[trigger] mesh.primitives@[j]).material matches
                Some(m) ==> m < materials@.len() && base_material_index + m < old(
                material_storage,
            ).len()),
    ensures
        load_outcome(
            *mesh,
            materials@,
            base_dir@,
            generate_mips,
            max_instances,
            base_mesh_index as int,
            base_material_index as int,
            old(material_storage)@,
            old(primitive_storage)@,
            old(mesh_storage)@,
            final(material_storage)@,
            final(primitive_storage)@,
            final(mesh_storage)@,
            r,
        ),
{
    let mesh_idx = base_mesh_index + mesh.index;
    if mesh_storage[mesh_idx].is_some() {
        return Ok(mesh_idx);
    }
    let mut primitives: Vec<PrimitiveHandle> = Vec::new();
    let n = mesh.primitives.len();
    let mut pi: usize = 0;
    while pi < n
        invariant
            n == mesh.primitives@.len(),
            pi <= n,
            mesh_idx == base_mesh_index + mesh.index,
            mesh_idx < old(mesh_storage)@.len(),
            old(mesh_storage)@[mesh_idx as int] is None,
            mesh_storage@ == old(mesh_storage)@,
            forall|j: int|
                0 <= j < n ==> ((#[trigger] mesh.primitives@[j]).material matches Some(m) ==> m
                    < materials@.len() && base_material_index + m < old(material_storage).len()),
            forall|i: int|
                0 <= i < pi ==> prim_ok(
                    #[trigger] mesh.primitives@[i],
                    materials@,
                    old(material_storage)@,
                    base_material_index as int,
                ),
            primitive_storage@.len() == old(primitive_storage)@.len() + pi,
            forall|i: int|
                0 <= i < old(primitive_storage)@.len() ==> #[trigger] primitive_storage@[i] == old(
                    primitive_storage,
                )@[i],
            forall|i: int|
                old(primitive_storage)@.len() <= i < primitive_storage@.len() ==> {
                    &&& (#[trigger] primitive_storage@[i]) matches Some(pr) && is_built_primitive(
                        mesh.primitives@[i - old(primitive_storage)@.len()],
                        mesh_idx as int,
                        base_material_index as int,
                        pr,
                    )
                },
            primitives@.len() == pi,
            forall|i: int|
                0 <= i < pi ==> #[trigger] primitives@[i] == old(primitive_storage)@.len() + i,
            material_storage@.len() == old(material_storage)@.len(),
            forall|k: int|
                0 <= k < old(material_storage)@.len() && old(material_storage)@[k] is Some
                    ==> #[trigger] material_storage@[k] == old(material_storage)@[k],
            forall|k: int|
                0 <= k < old(material_storage)@.len() && old(material_storage)@[k] is None && (
                #[trigger] material_storage@[k]) is Some ==> {
                    &&& prefix_references_material(*mesh, base_material_index as int, k, pi as int)
                    &&& material_supported(materials@[k - base_material_index])
                    &&& is_built_material(
                        materials@[k - base_material_index],
                        base_dir@,
                        generate_mips,
                        material_storage@[k]->0,
                    )
                },
            forall|i: int|
                0 <= i < pi ==> ((#[trigger] mesh.primitives@[i]).material matches Some(m)
                    ==> material_storage@[base_material_index + m] is Some),
        decreases n - pi,
    {
        let p = &mesh.primitives[pi];
        let indices = match &p.indices {
            Some(v) => v,
            None => {
                return Err(Error::MissingIndices);
            },
        };
        let positions = match &p.positions {
            Some(v) => v,
            None => {
                return Err(Error::MissingPositions);
            },
        };
        let normals = match &p.normals {
            Some(v) => v,
            None => {
                return Err(Error::MissingNormals);
            },
        };
        let tangents = match &p.tangents {
            Some(v) => v,
            None => {
                return Err(Error::MissingTangents);
            },
        };
        let tex_coords = match &p.tex_coords {
            Some(v) => v,
            None => {
                return Err(Error::MissingTexCoords);
            },
        };
        let vertices = interleave_streams(positions, normals, tangents, tex_coords);
        let mat_source_index = match p.material {
            Some(m) => m,
            None => {
                return Err(Error::UnsupportedDefaultMaterial);
            },
        };
        let mat_idx = base_material_index + mat_source_index;
        if material_storage[mat_idx].is_none() {
            let data = match build_material(&materials[mat_source_index], base_dir, generate_mips) {
                Ok(d) => d,
                Err(e) => {
                    return Err(e);
                },
            };
            material_storage[mat_idx] = Some(data);
        }
        let payload = MeshPayload { vertices, indices: indices.clone() };
        primitive_storage.push(
            Some(Primitive { mesh_data: payload, mesh_handle: mesh_idx, mat: mat_idx }),
        );
        primitives.push(primitive_storage.len() - 1);
        pi += 1;
    }
    mesh_storage[mesh_idx] = Some(Mesh { primitives, max_instances });
    Ok(mesh_idx)
}


/// Law: a successful load of the mesh at source index `i` under base offset
/// `K` returns handle `K + i`, whatever the arenas held.
pub proof fn lemma_handle_offset(
    mesh: MeshDesc,
    materials: Seq<MaterialDesc>,
    base_dir: Seq<char>,
    generate_mips: bool,
    max_instances: u16,
    base_mesh: int,
    base_mat: int,
    ms0: Seq<Option<MaterialData>>,
    ps0: Seq<Option<Primitive>>,
    ss0: Seq<Option<Mesh>>,
    ms1: Seq<Option<MaterialData>>,
    ps1: Seq<Option<Primitive>>,
    ss1: Seq<Option<Mesh>>,
    r: Result<MeshHandle, Error>,
)
    requires
        load_outcome(
            mesh,
            materials,
            base_dir,
            generate_mips,
            max_instances,
            base_mesh,
            base_mat,
            ms0,
            ps0,
            ss0,
            ms1,
            ps1,
            ss1,
            r,
        ),
        r is Ok,
    ensures
        r matches Ok(h) && h == base_mesh + mesh.index,
{
}

/// Law: loading a mesh twice against the same arenas is idempotent — once
/// the first call has succeeded, the second returns the very same handle and
/// leaves all three arenas exactly as the first left them, performing no
/// further build work.
pub proof fn lemma_load_idempotent(
    mesh: MeshDesc,
    materials: Seq<MaterialDesc>,
    base_dir: Seq<char>,
    generate_mips: bool,
    max_instances: u16,
    base_mesh: int,
    base_mat: int,
    ms0: Seq<Option<MaterialData>>,
    ps0: Seq<Option<Primitive>>,
    ss0: Seq<Option<Mesh>>,
    ms1: Seq<Option<MaterialData>>,
    ps1: Seq<Option<Primitive>>,
    ss1: Seq<Option<Mesh>>,
    h: MeshHandle,
    ms2: Seq<Option<MaterialData>>,
    ps2: Seq<Option<Primitive>>,
    ss2: Seq<Option<Mesh>>,
    r2: Result<MeshHandle, Error>,
)
    requires
        load_outcome(
            mesh,
            materials,
            base_dir,
            generate_mips,
            max_instances,
            base_mesh,
            base_mat,
            ms0,
            ps0,
            ss0,
            ms1,
            ps1,
            ss1,
            Ok(h),
        ),
        load_outcome(
            mesh,
            materials,
            base_dir,
            generate_mips,
            max_instances,
            base_mesh,
            base_mat,
            ms1,
            ps1,
            ss1,
            ms2,
            ps2,
            ss2,
            r2,
        ),
    ensures
        r2 == Ok::<MeshHandle, Error>(h),
        ms2 == ms1,
        ps2 == ps1,
        ss2 == ss1,
{
    assert(ss1[base_mesh + mesh.index] is Some);
}

/// Law: when every primitive of a mesh references the same material index, a
/// fresh successful load populates exactly one new material slot — the
/// shared one — and every appended primitive holds that slot's handle.
pub proof fn lemma_material_dedup(
    mesh: MeshDesc,
    materials: Seq<MaterialDesc>,
    base_dir: Seq<char>,
    generate_mips: bool,
    max_instances: u16,
    base_mesh: int,
    base_mat: int,
    ms0: Seq<Option<MaterialData>>,
    ps0: Seq<Option<Primitive>>,
    ss0: Seq<Option<Mesh>>,
    ms1: Seq<Option<MaterialData>>,
    ps1: Seq<Option<Primitive>>,
    ss1: Seq<Option<Mesh>>,
    h: MeshHandle,
    m: usize,
)
    requires
        load_outcome(
            mesh,
            materials,
            base_dir,
            generate_mips,
            max_instances,
            base_mesh,
            base_mat,
            ms0,
            ps0,
            ss0,
            ms1,
            ps1,
            ss1,
            Ok(h),
        ),
        ss0[base_mesh + mesh.index] is None,
        mesh.primitives@.len() > 0,
        forall|j: int|
            0 <= j < mesh.primitives@.len() ==> (#[trigger] mesh.primitives@[j]).material == Some(
                m,
            ),
    ensures
        ms1[base_mat + m] is Some,
        forall|k: int|
            0 <= k < ms0.len() && k != base_mat + m ==> #[trigger] ms1[k] == ms0[k],
        forall|i: int|
            ps0.len() <= i < ps1.len() ==> {
                &&& (#[trigger] ps1[i]) matches Some(pr) && pr.mat == base_mat + m
            },
{
    assert(mesh.primitives@[0].material == Some(m));
    assert(ms1[base_mat + m] is Some);
    assert forall|k: int| 0 <= k < ms0.len() && k != base_mat + m implies #[trigger] ms1[k]
        == ms0[k] by {
        if ms0[k] is None && ms1[k] is Some {
            assert(mesh_references_material(mesh, base_mat, k));
            let j = choose|j: int|
                {
                    &&& 0 <= j < mesh.primitives@.len()
                    &&& (#[trigger] mesh.primitives@[j]).material matches Some(mm) && k == base_mat
                        + mm
                };
            assert(mesh.primitives@[j].material == Some(m));
        }
    }
    assert forall|i: int| ps0.len() <= i < ps1.len() implies (#[trigger] ps1[i]) matches Some(pr)
        && pr.mat == base_mat + m by {
        assert(mesh.primitives@[i - ps0.len()].material == Some(m));
    }
}

/// Law: a mesh whose first primitive lacks a required stream is rejected
/// with the error naming the first absent stream, and the load mutates
/// neither the primitive arena nor the mesh arena.
pub proof fn lemma_missing_stream_rejected(
    mesh: MeshDesc,
    materials: Seq<MaterialDesc>,
    base_dir: Seq<char>,
    generate_mips: bool,
    max_instances: u16,
    base_mesh: int,
    base_mat: int,
    ms0: Seq<Option<MaterialData>>,
    ps0: Seq<Option<Primitive>>,
    ss0: Seq<Option<Mesh>>,
    ms1: Seq<Option<MaterialData>>,
    ps1: Seq<Option<Primitive>>,
    ss1: Seq<Option<Mesh>>,
    r: Result<MeshHandle, Error>,
)
    requires
        load_outcome(
            mesh,
            materials,
            base_dir,
            generate_mips,
            max_instances,
            base_mesh,
            base_mat,
            ms0,
            ps0,
            ss0,
            ms1,
            ps1,
            ss1,
            r,
        ),
        ss0[base_mesh + mesh.index] is None,
        mesh.primitives@.len() > 0,
        !streams_present(mesh.primitives@[0]),
    ensures
        r == Err::<MeshHandle, Error>(stream_error(mesh.primitives@[0])),
        ps1 == ps0,
        ss1 == ss0,
{
    assert(!prim_ok(mesh.primitives@[0], materials, ms0, base_mat));
    assert(!prims_loadable(mesh, materials, ms0, base_mat));
    let e = r->Err_0;
    let j = choose|j: int|
        {
            &&& 0 <= j < mesh.primitives@.len()
            &&& !prim_ok(#[trigger] mesh.primitives@[j], materials, ms0, base_mat)
            &&& (forall|i: int|
                0 <= i < j ==> prim_ok(#[trigger] mesh.primitives@[i], materials, ms0, base_mat))
            &&& e == prim_error(mesh.primitives@[j], materials)
            &&& ps1.len() == ps0.len() + j
        };
    assert(j == 0);
    assert(ps1 =~= ps0);
}

} // verus!
