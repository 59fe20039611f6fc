use shape_batch::Color;
use shape_batch::Quat;
use shape_batch::Rect;
use shape_batch::ShapeBatch;
use shape_batch::Uv;
use shape_batch::Vec2;
use shape_batch::Vec3;
use shape_batch::Vertex;

fn b(x: f32) -> u32 {
    x.to_bits()
}

fn v3(x: f32, y: f32, z: f32) -> Vec3 {
    Vec3 { x: b(x), y: b(y), z: b(z) }
}

fn f(c: u32) -> f32 {
    f32::from_bits(c)
}

fn white() -> Color {
    Color { r: b(1.0), g: b(1.0), b: b(1.0), a: b(1.0) }
}

fn uv(u: f32, v: f32) -> Uv {
    Uv { u: b(u), v: b(v) }
}

fn vertex(x: f32, y: f32, z: f32) -> Vertex {
    Vertex { pos: v3(x, y, z), color: white(), uv: uv(0.0, 0.0) }
}

#[test]
fn default_batch_is_empty() {
    let batch = ShapeBatch::default();
    assert_eq!(batch.vertices.len(), 0);
    assert_eq!(batch.indices.len(), 0);
    assert_eq!(batch.index_id_counter, 0);
}

#[test]
fn add_triangle_appends_in_order() {
    let mut batch = ShapeBatch::default();
    let a = vertex(0.0, 0.0, 0.0);
    let bb = vertex(1.0, 0.0, 0.0);
    let c = vertex(0.0, 1.0, 0.0);
    batch.add_triangle([a, bb, c]);
    assert_eq!(batch.vertices, vec![a, bb, c]);
    assert_eq!(batch.indices, vec![0, 1, 2]);
    assert_eq!(batch.index_id_counter, 3);
    let d = vertex(5.0, 6.0, 7.0);
    batch.add_triangle([d, a, bb]);
    assert_eq!(batch.vertices[3..].to_vec(), vec![d, a, bb]);
    assert_eq!(batch.indices[3..].to_vec(), vec![3, 4, 5]);
    assert_eq!(batch.index_id_counter, 6);
}

#[test]
fn counter_matches_vertex_count_after_mixed_adds() {
    let mut batch = ShapeBatch::default();
    batch.add_triangle([vertex(0.0, 0.0, 0.0), vertex(1.0, 0.0, 0.0), vertex(0.0, 1.0, 0.0)]);
    batch.add_2d_square(v3(0.0, 0.0, 0.0), b(2.0), b(2.0), white());
    batch.add_square(v3(1.0, 2.0, 3.0), v3(0.0, 1.0, 0.0), v3(0.0, 0.0, 1.0), b(2.0), b(2.0), white());
    let rect = Rect { center: Vec2 { x: b(1.0), y: b(1.0) }, size: Vec2 { x: b(4.0), y: b(2.0) } };
    batch.add_rect(&rect, white());
    batch.add_cube(v3(0.0, 0.0, 0.0), Quat { x: b(0.0), y: b(0.0), z: b(0.0), w: b(1.0) }, v3(2.0, 2.0, 2.0), white());
    assert_eq!(batch.index_id_counter as usize, batch.vertices.len());
    assert_eq!(batch.vertices.len(), 3 + 4 + 4 + 4 + 24);
    assert_eq!(batch.indices.len(), 3 + 6 + 6 + 6 + 36);
    for &i in &batch.indices {
        assert!((i as usize) < batch.vertices.len());
    }
}

#[test]
fn add_2d_square_unit_quad() {
    let mut batch = ShapeBatch::default();
    batch.add_2d_square(v3(0.0, 0.0, 0.0), b(2.0), b(2.0), white());
    let expected = [
        (v3(-1.0, -1.0, 0.0), uv(0.0, 0.0)),
        (v3(1.0, -1.0, 0.0), uv(1.0, 0.0)),
        (v3(-1.0, 1.0, 0.0), uv(0.0, 1.0)),
        (v3(1.0, 1.0, 0.0), uv(1.0, 1.0)),
    ];
    assert_eq!(batch.vertices.len(), 4);
    for (got, (pos, tex)) in batch.vertices.iter().zip(expected.iter()) {
        assert_eq!(got.pos, *pos);
        assert_eq!(got.uv, *tex);
        assert_eq!(got.color, white());
    }
    assert_eq!(batch.indices, vec![0, 1, 2, 2, 1, 3]);
    assert_eq!(batch.index_id_counter, 4);
}

#[test]
fn add_rect_matches_2d_square() {
    let rect = Rect { center: Vec2 { x: b(3.0), y: b(4.0) }, size: Vec2 { x: b(2.0), y: b(6.0) } };
    let mut via_rect = ShapeBatch::default();
    via_rect.add_rect(&rect, white());
    let mut via_square = ShapeBatch::default();
    via_square.add_2d_square(v3(3.0, 4.0, 0.0), b(2.0), b(6.0), white());
    assert_eq!(via_rect.vertices, via_square.vertices);
    assert_eq!(via_rect.indices, via_square.indices);
    assert_eq!(via_rect.vertices[0].pos, v3(2.0, 1.0, 0.0));
}

#[test]
fn add_square_oriented_corners_and_winding() {
    let mut batch = ShapeBatch::default();
    // right = normalize(up x normal) = normalize((2, 0, 0)) = (1, 0, 0);
    // offsets are right * (w / 2) = (2, 0, 0) and up * (h / 2) = (0, 1, 0).
    batch.add_square(v3(10.0, 20.0, 30.0), v3(0.0, 2.0, 0.0), v3(0.0, 0.0, 1.0), b(4.0), b(1.0), white());
    let expected = [
        (v3(8.0, 19.0, 30.0), uv(0.0, 0.0)),
        (v3(12.0, 19.0, 30.0), uv(1.0, 0.0)),
        (v3(8.0, 21.0, 30.0), uv(0.0, 1.0)),
        (v3(12.0, 21.0, 30.0), uv(1.0, 1.0)),
    ];
    for (got, (pos, tex)) in batch.vertices.iter().zip(expected.iter()) {
        assert_eq!(got.pos, *pos);
        assert_eq!(got.uv, *tex);
    }
    assert_eq!(batch.indices, vec![0, 2, 1, 1, 2, 3]);
    assert_eq!(batch.index_id_counter, 4);
}

#[test]
fn add_cube_identity_faces() {
    let mut batch = ShapeBatch::default();
    let identity = Quat { x: b(0.0), y: b(0.0), z: b(0.0), w: b(1.0) };
    batch.add_cube(v3(0.0, 0.0, 0.0), identity, v3(2.0, 2.0, 2.0), white());
    assert_eq!(batch.vertices.len(), 24);
    assert_eq!(batch.indices.len(), 36);
    assert_eq!(batch.index_id_counter, 24);
    let expected: [[f32; 3]; 24] = [
        [1.0, -1.0, 1.0], [1.0, -1.0, -1.0], [1.0, 1.0, 1.0], [1.0, 1.0, -1.0],
        [-1.0, -1.0, -1.0], [-1.0, -1.0, 1.0], [-1.0, 1.0, -1.0], [-1.0, 1.0, 1.0],
        [1.0, 1.0, -1.0], [-1.0, 1.0, -1.0], [1.0, 1.0, 1.0], [-1.0, 1.0, 1.0],
        [-1.0, -1.0, -1.0], [1.0, -1.0, -1.0], [-1.0, -1.0, 1.0], [1.0, -1.0, 1.0],
        [-1.0, -1.0, 1.0], [1.0, -1.0, 1.0], [-1.0, 1.0, 1.0], [1.0, 1.0, 1.0],
        [1.0, -1.0, -1.0], [-1.0, -1.0, -1.0], [1.0, 1.0, -1.0], [-1.0, 1.0, -1.0],
    ];
    for (got, want) in batch.vertices.iter().zip(expected.iter()) {
        assert!(f(got.pos.x).is_finite());
        assert!(f(got.pos.y).is_finite());
        assert!(f(got.pos.z).is_finite());
        assert_eq!(got.pos, v3(want[0], want[1], want[2]));
    }
    // Each face's four vertices lie on the corresponding cube face plane.
    for k in 0..4 {
        assert_eq!(f(batch.vertices[k].pos.x), 1.0);
        assert_eq!(f(batch.vertices[4 + k].pos.x), -1.0);
        assert_eq!(f(batch.vertices[8 + k].pos.y), 1.0);
        assert_eq!(f(batch.vertices[12 + k].pos.y), -1.0);
        assert_eq!(f(batch.vertices[16 + k].pos.z), 1.0);
        assert_eq!(f(batch.vertices[20 + k].pos.z), -1.0);
    }
    let mut expected_indices: Vec<u32> = Vec::new();
    for face in 0..6u32 {
        let c = face * 4;
        expected_indices.extend_from_slice(&[c, c + 2, c + 1, c + 1, c + 2, c + 3]);
    }
    assert_eq!(batch.indices, expected_indices);
}

#[test]
fn add_cube_rotated_quarter_turn() {
    let mut batch = ShapeBatch::default();
    let half = std::f32::consts::FRAC_1_SQRT_2;
    let quarter_z = Quat { x: b(0.0), y: b(0.0), z: b(half), w: b(half) };
    batch.add_cube(v3(0.0, 0.0, 0.0), quarter_z, v3(2.0, 2.0, 2.0), white());
    // A quarter turn about Z sends (x, y, z) to (-y, x, z).
    let first_identity = [1.0f32, -1.0, 1.0];
    let want = [-first_identity[1], first_identity[0], first_identity[2]];
    let got = batch.vertices[0].pos;
    assert!((f(got.x) - want[0]).abs() < 1e-5);
    assert!((f(got.y) - want[1]).abs() < 1e-5);
    assert!((f(got.z) - want[2]).abs() < 1e-5);
}

#[test]
fn degenerate_square_is_silent() {
    let mut batch = ShapeBatch::default();
    // `up` parallel to `normal`: the cross product is zero and the
    // corners are not finite, but nothing fails.
    batch.add_square(v3(0.0, 0.0, 0.0), v3(0.0, 1.0, 0.0), v3(0.0, 3.0, 0.0), b(2.0), b(2.0), white());
    assert_eq!(batch.vertices.len(), 4);
    assert_eq!(batch.indices.len(), 6);
    let p: Vec<[f32; 3]> = batch
        .vertices
        .iter()
        .map(|v| [f(v.pos.x), f(v.pos.y), f(v.pos.z)])
        .collect();
    let e1 = [p[1][0] - p[0][0], p[1][1] - p[0][1], p[1][2] - p[0][2]];
    let e2 = [p[2][0] - p[0][0], p[2][1] - p[0][1], p[2][2] - p[0][2]];
    let cross = [
        e1[1] * e2[2] - e1[2] * e2[1],
        e1[2] * e2[0] - e1[0] * e2[2],
        e1[0] * e2[1] - e1[1] * e2[0],
    ];
    let area_sq = cross[0] * cross[0] + cross[1] * cross[1] + cross[2] * cross[2];
    assert!(!(area_sq > 0.0));
}

#[test]
fn zero_size_square_is_collinear() {
    let mut batch = ShapeBatch::default();
    batch.add_square(v3(5.0, 6.0, 7.0), v3(0.0, 1.0, 0.0), v3(0.0, 0.0, 1.0), b(0.0), b(0.0), white());
    assert_eq!(batch.vertices.len(), 4);
    for v in &batch.vertices {
        assert_eq!(v.pos, v3(5.0, 6.0, 7.0));
    }
    let e1 = [0.0f32, 0.0, 0.0];
    let e2 = [0.0f32, 0.0, 0.0];
    let cross = [
        e1[1] * e2[2] - e1[2] * e2[1],
        e1[2] * e2[0] - e1[0] * e2[2],
        e1[0] * e2[1] - e1[1] * e2[0],
    ];
    assert_eq!(cross, [0.0, 0.0, 0.0]);
}

#[test]
fn from_vec_fills_defaults() {
    let full = Vertex::from_vec(v3(1.0, 2.0, 3.0), Some(Color { r: b(0.5), g: b(0.25), b: b(0.75), a: b(1.0) }), Some(uv(0.5, 0.5)));
    assert_eq!(full.color.r, b(0.5));
    assert_eq!(full.uv, uv(0.5, 0.5));
    let bare = Vertex::from_vec(v3(1.0, 2.0, 3.0), None, None);
    assert_eq!(bare.pos, v3(1.0, 2.0, 3.0));
    assert_eq!(bare.color, white());
    assert_eq!(bare.uv, uv(0.0, 0.0));
    let built = Vertex::new(v3(9.0, 8.0, 7.0), white(), uv(1.0, 0.0));
    assert_eq!(built.pos, v3(9.0, 8.0, 7.0));
}

#[test]
fn add_square_matches_direct_glam_arithmetic() {
    let up = glam::Vec3::new(1.5, -2.25, 0.5);
    let normal = glam::Vec3::new(-0.75, 3.0, 2.0);
    let center = glam::Vec3::new(0.1, 0.2, 0.3);
    let (w, h) = (3.7f32, 1.3f32);
    let right = up.cross(normal).normalize();
    let rw = right * (w / 2.0);
    let uh = up * (h / 2.0);
    let expect = [center - rw - uh, center + rw - uh, center - rw + uh, center + rw + uh];
    let mut batch = ShapeBatch::default();
    batch.add_square(
        v3(0.1, 0.2, 0.3),
        v3(1.5, -2.25, 0.5),
        v3(-0.75, 3.0, 2.0),
        b(3.7),
        b(1.3),
        white(),
    );
    for (got, want) in batch.vertices.iter().zip(expect.iter()) {
        assert_eq!(got.pos, v3(want.x, want.y, want.z));
    }
}
