use vulkan_engine::mesh::MeshData;
use vulkan_engine::vertex::MyVertex;

fn point(v: &MyVertex) -> [i64; 3] {
    [v.position[0] as i64, v.position[1] as i64, v.position[2] as i64]
}

fn diff(a: [i64; 3], b: [i64; 3]) -> [i64; 3] {
    [a[0] - b[0], a[1] - b[1], a[2] - b[2]]
}

fn cross(a: [i64; 3], b: [i64; 3]) -> [i64; 3] {
    [a[1] * b[2] - a[2] * b[1], a[2] * b[0] - a[0] * b[2], a[0] * b[1] - a[1] * b[0]]
}

fn dot(a: [i64; 3], b: [i64; 3]) -> i64 {
    a[0] * b[0] + a[1] * b[1] + a[2] * b[2]
}

#[test]
fn vertex_new_keeps_coordinates() {
    let v = MyVertex::new(-1, 2, 3);
    assert_eq!(v.position, [-1, 2, 3]);
}

#[test]
fn cube_has_eight_corners_in_order() {
    let mesh = MeshData::create_cube();
    let expected = [
        [-1, -1, 1], [1, -1, 1], [1, 1, 1], [-1, 1, 1],
        [-1, -1, -1], [1, -1, -1], [1, 1, -1], [-1, 1, -1],
    ];
    assert_eq!(mesh.vertices.len(), 8);
    for (v, e) in mesh.vertices.iter().zip(expected.iter()) {
        assert_eq!(v.position, *e);
    }
}

#[test]
fn cube_indices_are_twelve_triangles() {
    let mesh = MeshData::create_cube();
    let expected: Vec<u32> = vec![
        0, 1, 2, 2, 3, 0, 1, 5, 6, 6, 2, 1, 7, 6, 5, 5, 4, 7, 4, 0, 3, 3, 7, 4, 4, 5, 1, 1, 0, 4,
        3, 2, 6, 6, 7, 3,
    ];
    assert_eq!(mesh.indices, expected);
}

#[test]
fn cube_index_count_is_36() {
    let mesh = MeshData::create_cube();
    assert_eq!(mesh.index_count(), 36);
}

#[test]
fn index_count_of_empty_mesh_is_zero() {
    let mesh = MeshData { vertices: vec![], indices: vec![] };
    assert_eq!(mesh.index_count(), 0);
}

#[test]
fn cube_indices_name_existing_vertices() {
    let mesh = MeshData::create_cube();
    assert_eq!(mesh.indices.len() % 3, 0);
    assert!(mesh.indices.iter().all(|&i| (i as usize) < mesh.vertices.len()));
}

#[test]
fn cube_triangles_face_outward() {
    let mesh = MeshData::create_cube();
    for t in mesh.indices.chunks(3) {
        let c0 = point(&mesh.vertices[t[0] as usize]);
        let c1 = point(&mesh.vertices[t[1] as usize]);
        let c2 = point(&mesh.vertices[t[2] as usize]);
        let normal = cross(diff(c1, c0), diff(c2, c0));
        assert!(dot(normal, c0) > 0);
    }
}

#[test]
fn cube_surface_is_closed() {
    let mesh = MeshData::create_cube();
    let mut edges = Vec::new();
    for t in mesh.indices.chunks(3) {
        edges.push((t[0], t[1]));
        edges.push((t[1], t[2]));
        edges.push((t[2], t[0]));
    }
    for &(a, b) in &edges {
        assert!(edges.contains(&(b, a)));
    }
}
