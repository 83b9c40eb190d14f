use raymarcher::mesh::{
    new_fullscreen_quad, Mesh, Vertex, FRONT_FACE_CLOCKWISE, VERTEX_STRIDE, VERTEX_WORDS,
};
use raymarcher::scalar::Float32;

fn wrap(x: f32) -> Float32 {
    Float32::from_bits(x.to_bits())
}

fn position(v: &Vertex) -> [f32; 2] {
    [f32::from_bits(v.position[0].to_bits()), f32::from_bits(v.position[1].to_bits())]
}

#[test]
fn quad_has_four_corners_and_two_triangles() {
    let m = new_fullscreen_quad();
    assert_eq!(m.vertices.len(), 4);
    assert_eq!(m.indices, vec![0, 1, 2, 2, 3, 0]);
    assert_eq!(m.num_indices(), 6);
    let corners: Vec<[f32; 2]> = m.vertices.iter().map(position).collect();
    assert_eq!(corners, vec![[1.0, 1.0], [1.0, -1.0], [-1.0, -1.0], [-1.0, 1.0]]);
    assert!(m.is_well_formed());
}

#[test]
fn quad_triangles_run_clockwise() {
    assert!(FRONT_FACE_CLOCKWISE);
    let m = new_fullscreen_quad();
    for t in m.indices.chunks(3) {
        let a = position(&m.vertices[t[0] as usize]);
        let b = position(&m.vertices[t[1] as usize]);
        let c = position(&m.vertices[t[2] as usize]);
        let area2 = (b[0] - a[0]) * (c[1] - a[1]) - (b[1] - a[1]) * (c[0] - a[0]);
        assert_eq!(area2, -4.0);
    }
}

#[test]
fn vertex_layout() {
    assert_eq!(VERTEX_STRIDE, 8);
    assert_eq!(VERTEX_WORDS, 2);
    assert_eq!(VERTEX_STRIDE as usize, std::mem::size_of::<[f32; 2]>());
    let v = Vertex::new(wrap(0.5), wrap(-2.0));
    assert_eq!(position(&v), [0.5, -2.0]);
}

#[test]
fn quad_vertex_bytes() {
    let m = new_fullscreen_quad();
    let raw: [[f32; 2]; 4] = [[1.0, 1.0], [1.0, -1.0], [-1.0, -1.0], [-1.0, 1.0]];
    let want: &[u8] = bytemuck::cast_slice(&raw);
    let got = m.vertex_bytes();
    assert_eq!(got.len(), 32);
    assert_eq!(got.as_slice(), want);
}

#[test]
fn quad_index_bytes() {
    let m = new_fullscreen_quad();
    let mut want: Vec<u8> = Vec::new();
    for i in [0u16, 1, 2, 2, 3, 0] {
        want.extend_from_slice(&i.to_ne_bytes());
    }
    let got = m.index_bytes();
    assert_eq!(got.len(), 12);
    assert_eq!(got, want);
}

#[test]
fn index_bytes_keep_both_bytes_of_an_index() {
    let m = Mesh::new(Vec::new(), vec![0x0102, 0xfffe, 0x8000]);
    let mut want: Vec<u8> = Vec::new();
    for i in [0x0102u16, 0xfffe, 0x8000] {
        want.extend_from_slice(&i.to_ne_bytes());
    }
    assert_eq!(m.index_bytes(), want);
}

#[test]
fn empty_mesh() {
    let m = Mesh::new(Vec::new(), Vec::new());
    assert!(m.is_well_formed());
    assert_eq!(m.num_indices(), 0);
    assert!(m.vertex_bytes().is_empty());
    assert!(m.index_bytes().is_empty());
}

#[test]
fn an_index_past_the_vertices_is_ill_formed() {
    let v = vec![Vertex::new(wrap(0.0), wrap(0.0)); 3];
    assert!(Mesh::new(v.clone(), vec![0, 1, 2]).is_well_formed());
    assert!(!Mesh::new(v.clone(), vec![0, 1, 3]).is_well_formed());
    assert!(!Mesh::new(v, vec![3, 1, 2]).is_well_formed());
}

#[test]
fn a_broken_triangle_is_ill_formed() {
    let v = vec![Vertex::new(wrap(0.0), wrap(0.0)); 3];
    assert!(!Mesh::new(v.clone(), vec![0, 1]).is_well_formed());
    assert!(!Mesh::new(v, vec![0, 1, 2, 0]).is_well_formed());
}
