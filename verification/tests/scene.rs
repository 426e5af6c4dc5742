use cobalt::bounding::BoundingSphere;
use cobalt::fixed::Vec3Fx;
use cobalt::material::MaterialDesc;
use cobalt::scene::{Mat4Fx, MeshDesc, ObjDesc, SceneError, SceneGraph};

fn mesh(name: &str) -> MeshDesc {
    MeshDesc {
        name: String::from(name),
        mesh_id: 0,
        vertex_data: vec![0; 8],
        indices: vec![0, 0, 0],
        element_count: 3,
        model_matrix: Mat4Fx::identity(),
        material_id: 0,
        mat_desc: MaterialDesc::default(),
        show: true,
        highlight: false,
        bounding_sphere: BoundingSphere { center: Vec3Fx { x: 0, y: 0, z: 0 }, radius: 0 },
    }
}

fn object(name: &str, meshes: Vec<MeshDesc>) -> ObjDesc {
    ObjDesc { name: String::from(name), meshes, materials: Vec::new() }
}

#[test]
fn ids_are_assigned_monotonically() {
    let mut graph = SceneGraph::new();
    graph.add_object(object("car", vec![mesh("body"), mesh("wheel")]));
    graph.add_object(object("tree", vec![mesh("trunk")]));
    assert_eq!(graph.objs[0].meshes[0].mesh_id, 1);
    assert_eq!(graph.objs[0].meshes[1].mesh_id, 2);
    assert_eq!(graph.objs[1].meshes[0].mesh_id, 3);
    assert_eq!(graph.next_id, 4);
}

#[test]
fn delete_mesh_removes_exactly_one() {
    let mut graph = SceneGraph::new();
    graph.add_object(object("car", vec![mesh("body"), mesh("wheel")]));
    graph.add_object(object("tree", vec![mesh("trunk")]));
    let r = graph.delete_mesh(0, 0);
    assert!(r.is_ok());
    assert_eq!(graph.objs[0].meshes.len(), 1);
    assert_eq!(graph.objs[0].meshes[0].name, "wheel");
    // The other object is untouched and ids are not reassigned.
    assert_eq!(graph.objs[1].meshes.len(), 1);
    assert_eq!(graph.objs[0].meshes[0].mesh_id, 2);
    assert_eq!(graph.objs[1].meshes[0].mesh_id, 3);
}

#[test]
fn delete_mesh_on_invalid_index_changes_nothing() {
    let mut graph = SceneGraph::new();
    graph.add_object(object("car", vec![mesh("body"), mesh("wheel")]));
    let r = graph.delete_mesh(1, 0);
    assert_eq!(r, Err(SceneError::IndexOutOfRange));
    assert_eq!(graph.objs.len(), 1);
    assert_eq!(graph.objs[0].meshes.len(), 2);
    let r2 = graph.delete_mesh(0, 2);
    assert_eq!(r2, Err(SceneError::IndexOutOfRange));
    assert_eq!(graph.objs[0].meshes.len(), 2);
    assert_eq!(graph.next_id, 3);
}

#[test]
fn delete_object_removes_whole_object() {
    let mut graph = SceneGraph::new();
    graph.add_object(object("car", vec![mesh("body")]));
    graph.add_object(object("tree", vec![mesh("trunk")]));
    assert!(graph.delete_object(0).is_ok());
    assert_eq!(graph.objs.len(), 1);
    assert_eq!(graph.objs[0].name, "tree");
    assert_eq!(graph.delete_object(5), Err(SceneError::IndexOutOfRange));
    assert_eq!(graph.objs.len(), 1);
}

#[test]
fn ids_survive_deletion_and_are_never_reused() {
    let mut graph = SceneGraph::new();
    graph.add_object(object("car", vec![mesh("body"), mesh("wheel")]));
    assert!(graph.delete_mesh(0, 0).is_ok());
    graph.add_object(object("tree", vec![mesh("trunk")]));
    // The deleted id 1 is never handed out again.
    assert_eq!(graph.objs[0].meshes[0].mesh_id, 2);
    assert_eq!(graph.objs[1].meshes[0].mesh_id, 3);
}

#[test]
fn visibility_and_highlight_flags_toggle_in_place() {
    let mut graph = SceneGraph::new();
    graph.add_object(object("car", vec![mesh("body"), mesh("wheel")]));
    assert!(graph.set_visibility(2, false));
    assert!(graph.set_highlight(1, true));
    assert!(graph.objs[0].meshes[0].show);
    assert!(graph.objs[0].meshes[0].highlight);
    assert!(!graph.objs[0].meshes[1].show);
    assert!(!graph.objs[0].meshes[1].highlight);
    // A missing id changes nothing and says so.
    assert!(!graph.set_visibility(99, true));
    assert!(!graph.objs[0].meshes[1].show);
}

#[test]
fn find_mesh_scans_by_id() {
    let mut graph = SceneGraph::new();
    graph.add_object(object("car", vec![mesh("body"), mesh("wheel")]));
    graph.add_object(object("tree", vec![mesh("trunk")]));
    let found = graph.find_mesh(3).expect("id 3 exists");
    assert_eq!(found.name, "trunk");
    assert_eq!(found.mesh_id, 3);
    assert!(graph.find_mesh(99).is_none());
}

#[test]
fn identity_transform_has_unit_diagonal() {
    let m = Mat4Fx::identity();
    for i in 0..16 {
        assert_eq!(m.m[i], if i % 5 == 0 { 1_000_000 } else { 0 });
    }
}
