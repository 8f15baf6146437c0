use sandbox_render::mesh::{Mesh, Vertex};

fn cross(a: [i64; 3], b: [i64; 3]) -> [i64; 3] {
    [
        a[1] * b[2] - a[2] * b[1],
        a[2] * b[0] - a[0] * b[2],
        a[0] * b[1] - a[1] * b[0],
    ]
}

fn sub(a: &Vertex, b: &Vertex) -> [i64; 3] {
    [
        (a.pos[0] - b.pos[0]) as i64,
        (a.pos[1] - b.pos[1]) as i64,
        (a.pos[2] - b.pos[2]) as i64,
    ]
}

#[test]
fn cube_has_24_vertices_and_36_indices() {
    let mut m = Mesh::new(vec![], vec![]);
    m.generate_cube();
    assert_eq!(m.vertices.len(), 24);
    assert_eq!(m.indices.len(), 36);
    assert!(m.indices.iter().all(|&i| i < 24));
    assert_eq!(m.index_len(), 36);
}

#[test]
fn cube_faces_wind_outward_and_share_diagonal() {
    let mut m = Mesh::new(vec![], vec![]);
    m.generate_cube();
    for f in 0..6 {
        let face = &m.indices[6 * f..6 * f + 6];
        assert_eq!(face[0], face[5]);
        assert_eq!(face[2], face[3]);
        for t in 0..2 {
            let a = &m.vertices[face[3 * t] as usize];
            let b = &m.vertices[face[3 * t + 1] as usize];
            let c = &m.vertices[face[3 * t + 2] as usize];
            let n = cross(sub(b, a), sub(c, a));
            let d = n[0] * a.normal[0] as i64 + n[1] * a.normal[1] as i64 + n[2] * a.normal[2] as i64;
            assert!(d > 0, "face {f} triangle {t}");
        }
    }
}

#[test]
fn cube_first_vertex() {
    let mut m = Mesh::new(vec![], vec![]);
    m.generate_cube();
    assert_eq!(
        m.vertices[0],
        Vertex {
            pos: [-1, -1, 1, 1],
            color: [1, 1, 1, 1],
            normal: [0, 0, 1, 1],
            tex_coords: [0, 0],
            denom: 1,
        }
    );
    assert_eq!(m.vertices[23].pos, [1, -1, -1, 1]);
    assert_eq!(m.vertices[23].normal, [0, -1, 0, 1]);
    assert_eq!(&m.indices[..6], &[0, 1, 2, 2, 3, 0]);
    assert_eq!(&m.indices[30..], &[20, 21, 22, 22, 23, 20]);
}

#[test]
fn cube_appends_to_existing_geometry() {
    let mut m = Mesh::new(vec![], vec![]);
    m.generate_cube();
    m.generate_cube();
    assert_eq!(m.vertices.len(), 48);
    assert_eq!(m.indices.len(), 72);
    assert_eq!(&m.indices[36..42], &[0, 1, 2, 2, 3, 0]);
}

#[test]
fn plane_counts() {
    for r in [1u32, 2, 3, 7] {
        let mut m = Mesh::new(vec![], vec![]);
        m.generate_plane(r);
        let side = (r + 1) as usize;
        assert_eq!(m.vertices.len(), side * side);
        assert_eq!(m.indices.len(), 6 * (r * r) as usize);
        assert!(m.indices.iter().all(|&i| (i as usize) < side * side));
    }
}

#[test]
fn plane_resolution_zero_is_one_vertex() {
    let mut m = Mesh::new(vec![], vec![]);
    m.generate_plane(0);
    assert_eq!(m.vertices.len(), 1);
    assert!(m.indices.is_empty());
    assert_eq!(m.vertices[0].pos, [0, 0, 0, 1]);
    assert_eq!(m.vertices[0].denom, 1);
}

#[test]
fn plane_resolution_one_layout() {
    let mut m = Mesh::new(vec![], vec![]);
    m.generate_plane(1);
    assert_eq!(m.indices, vec![0, 2, 1, 2, 3, 1]);
    assert_eq!(m.vertices[1].pos, [0, 1, 0, 1]);
    assert_eq!(m.vertices[2].pos, [1, 0, 0, 1]);
    assert_eq!(m.vertices[2].tex_coords, [1, 0]);
    assert_eq!(m.vertices[3].normal, [0, 0, 1, 1]);
}

#[test]
fn plane_resolution_two_vertex_and_cell() {
    let mut m = Mesh::new(vec![], vec![]);
    m.generate_plane(2);
    // vertex 5 is grid point (1, 2) over denominator 2
    assert_eq!(m.vertices[5].pos, [1, 2, 0, 2]);
    assert_eq!(m.vertices[5].tex_coords, [1, 2]);
    assert_eq!(m.vertices[5].denom, 2);
    // cell (x, y) = (0, 1) is the second cell
    assert_eq!(&m.indices[6..12], &[3, 6, 4, 6, 7, 4]);
}
