use gltf_ingest::document::{
    MaterialDesc, MeshDesc, PrimitiveDesc, TextureSource, Vec2Bits, Vec3Bits, Vec4Bits,
};
use gltf_ingest::error::Error;
use gltf_ingest::material::MaterialData;
use gltf_ingest::mesh::{interleave_streams, load_gltf_mesh, Mesh, Primitive};

fn v3(x: u32, y: u32, z: u32) -> Vec3Bits {
    Vec3Bits { x, y, z }
}

fn v4(x: u32, y: u32, z: u32, w: u32) -> Vec4Bits {
    Vec4Bits { x, y, z, w }
}

fn v2(x: u32, y: u32) -> Vec2Bits {
    Vec2Bits { x, y }
}

fn tex(uri: &str) -> Option<TextureSource> {
    Some(TextureSource::Uri(uri.to_string()))
}

fn material(uri_prefix: &str) -> MaterialDesc {
    MaterialDesc {
        base_color_factor: v4(0, 0, 0, 0),
        metallic_factor: 0,
        roughness_factor: 0,
        emissive_factor: v3(0, 0, 0),
        base_color_texture: tex(&format!("{uri_prefix}_albedo.png")),
        metallic_roughness_texture: tex(&format!("{uri_prefix}_mr.png")),
        normal_texture: tex(&format!("{uri_prefix}_normal.png")),
        occlusion_texture: tex(&format!("{uri_prefix}_ao.png")),
        emissive_texture: None,
    }
}

fn primitive(material: Option<usize>, len: usize) -> PrimitiveDesc {
    PrimitiveDesc {
        positions: Some(vec![v3(1, 2, 3); len]),
        normals: Some(vec![v3(4, 5, 6); len]),
        tangents: Some(vec![v4(7, 8, 9, 10); len]),
        tex_coords: Some(vec![v2(11, 12); len]),
        indices: Some((0..len as u32).collect()),
        material,
    }
}

fn empty_arenas(
    materials: usize,
    meshes: usize,
) -> (Vec<Option<MaterialData>>, Vec<Option<Primitive>>, Vec<Option<Mesh>>) {
    let mut material_arena = Vec::new();
    material_arena.resize_with(materials, || None);
    let mut mesh_arena = Vec::new();
    mesh_arena.resize_with(meshes, || None);
    (material_arena, Vec::new(), mesh_arena)
}

#[test]
fn interleaving_truncates_to_shortest_stream() {
    let positions = vec![v3(1, 1, 1), v3(2, 2, 2), v3(3, 3, 3)];
    let normals = vec![v3(4, 4, 4), v3(5, 5, 5)];
    let tangents = vec![v4(6, 6, 6, 6), v4(7, 7, 7, 7)];
    let tex_coords = vec![v2(8, 8), v2(9, 9)];
    let records = interleave_streams(&positions, &normals, &tangents, &tex_coords);
    assert_eq!(records.len(), 2);
    assert_eq!(records[0].position, v3(1, 1, 1));
    assert_eq!(records[0].normal, v3(4, 4, 4));
    assert_eq!(records[0].tangent, v4(6, 6, 6, 6));
    assert_eq!(records[0].tex_coord, v2(8, 8));
    assert_eq!(records[1].position, v3(2, 2, 2));
}

#[test]
fn scenario_two_primitives_share_one_material() {
    // A document with 2 meshes; the second mesh's 2 primitives both reference
    // material index 0; base offsets are 0.
    let materials = vec![material("m0")];
    let mesh = MeshDesc { index: 1, primitives: vec![primitive(Some(0), 3), primitive(Some(0), 2)] };
    let (mut material_arena, mut primitive_arena, mut mesh_arena) = empty_arenas(1, 2);
    let handle = load_gltf_mesh(
        &mesh,
        64,
        false,
        "assets",
        &materials,
        0,
        0,
        &mut material_arena,
        &mut primitive_arena,
        &mut mesh_arena,
    )
    .unwrap();
    assert_eq!(handle, 1);
    let loaded = mesh_arena[1].as_ref().unwrap();
    assert_eq!(loaded.primitives, vec![0, 1]);
    assert_eq!(loaded.max_instances, 64);
    assert!(mesh_arena[0].is_none());
    assert!(material_arena[0].is_some());
    assert_eq!(primitive_arena.len(), 2);
    for slot in &primitive_arena {
        let p = slot.as_ref().unwrap();
        assert_eq!(p.mat, 0);
        assert_eq!(p.mesh_handle, 1);
    }
    assert_eq!(primitive_arena[0].as_ref().unwrap().mesh_data.vertices.len(), 3);
    assert_eq!(primitive_arena[0].as_ref().unwrap().mesh_data.indices, vec![0, 1, 2]);
    assert_eq!(primitive_arena[1].as_ref().unwrap().mesh_data.vertices.len(), 2);
}

#[test]
fn reloading_a_mesh_is_idempotent() {
    let materials = vec![material("m0")];
    let mesh = MeshDesc { index: 0, primitives: vec![primitive(Some(0), 2)] };
    let (mut material_arena, mut primitive_arena, mut mesh_arena) = empty_arenas(1, 1);
    let first = load_gltf_mesh(
        &mesh,
        8,
        true,
        "assets",
        &materials,
        0,
        0,
        &mut material_arena,
        &mut primitive_arena,
        &mut mesh_arena,
    )
    .unwrap();
    assert_eq!(primitive_arena.len(), 1);
    let second = load_gltf_mesh(
        &mesh,
        8,
        true,
        "assets",
        &materials,
        0,
        0,
        &mut material_arena,
        &mut primitive_arena,
        &mut mesh_arena,
    )
    .unwrap();
    assert_eq!(first, second);
    // No additional primitive, material or mesh work happened.
    assert_eq!(primitive_arena.len(), 1);
    assert!(material_arena[0].is_some());
    assert_eq!(mesh_arena[0].as_ref().unwrap().primitives, vec![0]);
}

#[test]
fn handles_are_base_plus_source_index() {
    let materials = vec![material("m0")];
    let mesh = MeshDesc { index: 3, primitives: vec![primitive(Some(0), 1)] };
    let (mut material_arena, mut primitive_arena, mut mesh_arena) = empty_arenas(10, 12);
    let handle = load_gltf_mesh(
        &mesh,
        1,
        false,
        "assets",
        &materials,
        5,
        7,
        &mut material_arena,
        &mut primitive_arena,
        &mut mesh_arena,
    )
    .unwrap();
    assert_eq!(handle, 5 + 3);
    assert!(mesh_arena[8].is_some());
    assert!(material_arena[7].is_some());
    assert_eq!(primitive_arena[0].as_ref().unwrap().mat, 7);
}

#[test]
fn missing_tangents_rejects_and_leaves_primitive_arena_untouched() {
    let materials = vec![material("m0")];
    let mut bad = primitive(Some(0), 2);
    bad.tangents = None;
    let mesh = MeshDesc { index: 0, primitives: vec![bad] };
    let (mut material_arena, mut primitive_arena, mut mesh_arena) = empty_arenas(1, 1);
    let r = load_gltf_mesh(
        &mesh,
        1,
        false,
        "assets",
        &materials,
        0,
        0,
        &mut material_arena,
        &mut primitive_arena,
        &mut mesh_arena,
    );
    assert_eq!(r.err(), Some(Error::MissingTangents));
    assert!(primitive_arena.is_empty());
    assert!(mesh_arena[0].is_none());
    assert!(material_arena[0].is_none());
}

#[test]
fn each_missing_stream_is_named() {
    let materials = vec![material("m0")];
    let cases: Vec<(fn(&mut PrimitiveDesc), Error)> = vec![
        (|p| p.indices = None, Error::MissingIndices),
        (|p| p.positions = None, Error::MissingPositions),
        (|p| p.normals = None, Error::MissingNormals),
        (|p| p.tangents = None, Error::MissingTangents),
        (|p| p.tex_coords = None, Error::MissingTexCoords),
    ];
    for (strip, expected) in cases {
        let mut bad = primitive(Some(0), 1);
        strip(&mut bad);
        let mesh = MeshDesc { index: 0, primitives: vec![bad] };
        let (mut material_arena, mut primitive_arena, mut mesh_arena) = empty_arenas(1, 1);
        let r = load_gltf_mesh(
            &mesh,
            1,
            false,
            "assets",
            &materials,
            0,
            0,
            &mut material_arena,
            &mut primitive_arena,
            &mut mesh_arena,
        );
        assert_eq!(r.err(), Some(expected));
    }
}

#[test]
fn default_material_is_rejected() {
    let materials = vec![material("m0")];
    let mesh = MeshDesc { index: 0, primitives: vec![primitive(None, 1)] };
    let (mut material_arena, mut primitive_arena, mut mesh_arena) = empty_arenas(1, 1);
    let r = load_gltf_mesh(
        &mesh,
        1,
        false,
        "assets",
        &materials,
        0,
        0,
        &mut material_arena,
        &mut primitive_arena,
        &mut mesh_arena,
    );
    assert_eq!(r.err(), Some(Error::UnsupportedDefaultMaterial));
}

#[test]
fn unbuildable_material_aborts_after_earlier_primitives() {
    let mut broken = material("m0");
    broken.occlusion_texture = None;
    let materials = vec![material("good"), broken];
    let mesh =
        MeshDesc { index: 0, primitives: vec![primitive(Some(0), 1), primitive(Some(1), 1)] };
    let (mut material_arena, mut primitive_arena, mut mesh_arena) = empty_arenas(2, 1);
    let r = load_gltf_mesh(
        &mesh,
        1,
        false,
        "assets",
        &materials,
        0,
        0,
        &mut material_arena,
        &mut primitive_arena,
        &mut mesh_arena,
    );
    assert_eq!(r.err(), Some(Error::MissingOcclusionTexture));
    // The mesh slot stays unpopulated; the first primitive and its material
    // remain, as the documented no-rollback policy leaves them.
    assert!(mesh_arena[0].is_none());
    assert_eq!(primitive_arena.len(), 1);
    assert!(material_arena[0].is_some());
    assert!(material_arena[1].is_none());
}

#[test]
fn populated_material_slot_is_never_rebuilt() {
    // Slot 0 is already populated: the loader must skip the builder even
    // though the material description itself is unbuildable.
    let mut broken = material("m0");
    broken.base_color_texture = None;
    let materials = vec![broken];
    let mesh = MeshDesc { index: 0, primitives: vec![primitive(Some(0), 1)] };
    let (mut material_arena, mut primitive_arena, mut mesh_arena) = empty_arenas(1, 1);
    let seeded = gltf_ingest::material::build_material(&material("seed"), "assets", false).unwrap();
    material_arena[0] = Some(seeded);
    let r = load_gltf_mesh(
        &mesh,
        1,
        false,
        "assets",
        &materials,
        0,
        0,
        &mut material_arena,
        &mut primitive_arena,
        &mut mesh_arena,
    );
    assert!(r.is_ok());
    assert_eq!(primitive_arena.len(), 1);
}
