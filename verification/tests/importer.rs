use cobalt::fixed::Vec3Fx;
use cobalt::importer::{
    detect_format, import_object, mesh_from_primitive, source_axes, tangents_of_primitive,
    ImportError, ModelFormat, RawPrimitive, SourceAxes, TextureFiles,
};
use cobalt::material::{MaterialDesc, RawMaterial};
use cobalt::scene::SceneGraph;

fn prim(name: &str) -> RawPrimitive {
    RawPrimitive {
        name: String::from(name),
        positions: vec![0, 0, 0, 2_000_000, 0, 0, 0, 2_000_000, 0],
        normals: Vec::new(),
        texcoords: Vec::new(),
        tangents: Vec::new(),
        indices: vec![0, 1, 2],
        material_index: None,
    }
}

fn raw_material(diffuse_path: &[u8]) -> RawMaterial {
    RawMaterial {
        name: String::from("paint"),
        ambient: Vec3Fx { x: 0, y: 0, z: 0 },
        diffuse: Vec3Fx { x: 500_000, y: 0, z: 0 },
        specular: Vec3Fx { x: 0, y: 0, z: 0 },
        illumination_model: Some(2),
        dissolve: 1_000_000,
        shininess: 32_000_000,
        ambient_texture: Vec::new(),
        diffuse_texture: diffuse_path.to_vec(),
        specular_texture: Vec::new(),
    }
}

fn no_files() -> TextureFiles {
    TextureFiles { ambient: None, diffuse: None, specular: None }
}

#[test]
fn format_detection_by_extension() {
    assert_eq!(detect_format(&b"models/car.obj".to_vec()), Ok(ModelFormat::Obj));
    assert_eq!(detect_format(&b"models/car.gltf".to_vec()), Ok(ModelFormat::Gltf));
    assert_eq!(detect_format(&b"models/car.glb".to_vec()), Ok(ModelFormat::Gltf));
    assert_eq!(
        detect_format(&b"models/car.stl".to_vec()),
        Err(ImportError::UnsupportedFormat)
    );
    assert_eq!(detect_format(&b"obj".to_vec()), Err(ImportError::UnsupportedFormat));
    assert!(matches!(source_axes(ModelFormat::Obj), SourceAxes::YUp));
    assert!(matches!(source_axes(ModelFormat::Gltf), SourceAxes::ZUp));
}

#[test]
fn mesh_carries_interleaved_vertices_and_sphere() {
    let p = prim("tri");
    let m = mesh_from_primitive(SourceAxes::YUp, &p, MaterialDesc::default())
        .expect("valid primitive")
        .expect("non-empty primitive");
    assert_eq!(m.name, "tri");
    assert_eq!(m.vertex_data.len(), 24);
    // First vertex: position (0,0,0), zero-filled normal and texcoords.
    assert_eq!(&m.vertex_data[0..8], &[0, 0, 0, 0, 0, 0, 0, 0]);
    // Second vertex starts with its position.
    assert_eq!(&m.vertex_data[8..11], &[2_000_000, 0, 0]);
    assert_eq!(m.indices, vec![0, 1, 2]);
    assert_eq!(m.element_count, 3);
    assert!(m.show && !m.highlight);
    // Centroid of the triangle corners.
    assert_eq!(
        m.bounding_sphere.center,
        Vec3Fx { x: 666_666, y: 666_666, z: 0 }
    );
}

#[test]
fn axis_conversion_swaps_and_negates_consistently() {
    let mut p = prim("tri");
    p.positions = vec![1_000_000, 2_000_000, 3_000_000];
    p.normals = vec![4_000_000, 5_000_000, 6_000_000];
    p.indices = Vec::new();
    let m = mesh_from_primitive(SourceAxes::ZUp, &p, MaterialDesc::default())
        .expect("valid")
        .expect("non-empty");
    // (x, y, z) becomes (x, -z, y) for positions and normals alike.
    assert_eq!(&m.vertex_data[0..3], &[1_000_000, -3_000_000, 2_000_000]);
    assert_eq!(&m.vertex_data[3..6], &[4_000_000, -6_000_000, 5_000_000]);
}

#[test]
fn out_of_range_index_is_malformed() {
    let mut p = prim("tri");
    p.indices = vec![0, 1, 3];
    let r = mesh_from_primitive(SourceAxes::YUp, &p, MaterialDesc::default());
    assert_eq!(r.err(), Some(ImportError::MalformedGeometry));
}

#[test]
fn ragged_index_count_is_malformed() {
    let mut p = prim("tri");
    p.indices = vec![0, 1];
    let r = mesh_from_primitive(SourceAxes::YUp, &p, MaterialDesc::default());
    assert_eq!(r.err(), Some(ImportError::MalformedGeometry));
}

#[test]
fn mismatched_attribute_stream_is_malformed() {
    let mut p = prim("tri");
    p.normals = vec![0, 0];
    let r = mesh_from_primitive(SourceAxes::YUp, &p, MaterialDesc::default());
    assert_eq!(r.err(), Some(ImportError::MalformedGeometry));
}

#[test]
fn empty_primitive_yields_no_mesh() {
    let mut p = prim("ghostly");
    p.positions = Vec::new();
    p.indices = Vec::new();
    let r = mesh_from_primitive(SourceAxes::YUp, &p, MaterialDesc::default());
    assert!(r.expect("empty is legal").is_none());
}

#[test]
fn malformed_primitive_aborts_whole_import() {
    let mut bad = prim("bad");
    bad.indices = vec![7, 7, 7];
    let prims = vec![prim("good"), bad];
    let r = import_object(
        String::from("car"),
        SourceAxes::YUp,
        &prims,
        Vec::new(),
        &Vec::new(),
    );
    assert_eq!(r.err(), Some(ImportError::MalformedGeometry));
}

#[test]
fn import_skips_empty_primitives() {
    let mut empty = prim("empty");
    empty.positions = Vec::new();
    empty.indices = Vec::new();
    let prims = vec![prim("first"), empty, prim("third")];
    let obj = import_object(
        String::from("car"),
        SourceAxes::YUp,
        &prims,
        Vec::new(),
        &Vec::new(),
    )
    .expect("import succeeds");
    assert_eq!(obj.meshes.len(), 2);
    assert_eq!(obj.meshes[0].name, "first");
    assert_eq!(obj.meshes[1].name, "third");
}

#[test]
fn import_resolves_materials_by_index() {
    let mut p = prim("tri");
    p.material_index = Some(0);
    let prims = vec![p];
    let materials = vec![raw_material(b"")];
    let files = vec![no_files()];
    let obj = import_object(String::from("car"), SourceAxes::YUp, &prims, materials, &files)
        .expect("import succeeds");
    let m = &obj.meshes[0];
    assert_eq!(m.material_id, 0);
    assert_eq!(m.mat_desc.diffuse_color, Vec3Fx { x: 500_000, y: 0, z: 0 });
    assert_eq!(obj.materials.len(), 1);
}

#[test]
fn missing_material_reference_uses_default() {
    let prims = vec![prim("tri")];
    let obj = import_object(
        String::from("car"),
        SourceAxes::YUp,
        &prims,
        Vec::new(),
        &Vec::new(),
    )
    .expect("import succeeds");
    assert_eq!(
        obj.meshes[0].mat_desc.diffuse_color,
        Vec3Fx { x: 800_000, y: 800_000, z: 800_000 }
    );
}

#[test]
fn failed_texture_decode_still_imports_object() {
    let mut p = prim("tri");
    p.material_index = Some(0);
    let prims = vec![p];
    let materials = vec![raw_material(b"skin.png")];
    let files = vec![TextureFiles {
        ambient: None,
        diffuse: Some(vec![9, 9, 9, 9]),
        specular: None,
    }];
    let obj = import_object(String::from("car"), SourceAxes::YUp, &prims, materials, &files)
        .expect("import still succeeds");
    assert!(obj.meshes[0].mat_desc.diffuse_map.is_none());
    assert_eq!(obj.meshes[0].mat_desc.diffuse_color, Vec3Fx { x: 500_000, y: 0, z: 0 });
}

#[test]
fn end_to_end_import_and_delete_keeps_ids() {
    let prims = vec![prim("hull"), prim("mast")];
    let obj = import_object(
        String::from("ship"),
        SourceAxes::YUp,
        &prims,
        Vec::new(),
        &Vec::new(),
    )
    .expect("import succeeds");
    let mut graph = SceneGraph::new();
    graph.add_object(obj);
    assert_eq!(graph.objs.len(), 1);
    assert_eq!(graph.objs[0].meshes.len(), 2);
    let first_id = graph.objs[0].meshes[0].mesh_id;
    let second_id = graph.objs[0].meshes[1].mesh_id;
    assert!(second_id > first_id);
    assert!(graph.delete_mesh(0, 0).is_ok());
    assert_eq!(graph.objs[0].meshes.len(), 1);
    assert_eq!(graph.objs[0].meshes[0].mesh_id, second_id);
}

#[test]
fn oversized_coordinates_clamp_into_the_box() {
    let mut p = prim("huge");
    p.positions = vec![i64::MAX, i64::MIN, 5_000_000_000_000];
    p.indices = Vec::new();
    let m = mesh_from_primitive(SourceAxes::YUp, &p, MaterialDesc::default())
        .expect("valid")
        .expect("non-empty");
    assert_eq!(&m.vertex_data[0..3], &[4_000_000_000_000, -4_000_000_000_000, 4_000_000_000_000]);
}

#[test]
fn absent_tangents_default_to_unit() {
    let p = prim("tri");
    let t = tangents_of_primitive(SourceAxes::YUp, &p);
    assert_eq!(t.len(), 12);
    assert!(t.iter().all(|v| *v == 1_000_000));
}

#[test]
fn tangents_convert_like_positions() {
    let mut p = prim("tri");
    p.positions = vec![0, 0, 0];
    p.indices = Vec::new();
    p.tangents = vec![1_000_000, 2_000_000, 3_000_000, -1_000_000];
    let t = tangents_of_primitive(SourceAxes::ZUp, &p);
    // The spatial part swaps like a position; the handedness component is kept.
    assert_eq!(t, vec![1_000_000, -3_000_000, 2_000_000, -1_000_000]);
}
