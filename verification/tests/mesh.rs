use cube_engine::graphics::mesh::{
    make_unit_cube_vertices_and_indices, pack_vertices, Vertex, COLOR_OFFSET, CUBE_INDEX_COUNT,
    CUBE_VERTEX_COUNT, POSITION_OFFSET, VERTEX_STRIDE, WORDS_PER_VERTEX,
};
use cube_engine::scalar::Vec3;

fn mesh_floats(v: Vec3) -> [f32; 3] {
    [f32::from_bits(v.x.bits), f32::from_bits(v.y.bits), f32::from_bits(v.z.bits)]
}

fn mesh_position(v: &Vertex) -> glam::Vec3 {
    glam::Vec3::from_array(mesh_floats(v.pos))
}

#[test]
fn cube_has_eight_vertices_and_thirty_six_indices() {
    let (vertices, indices) = make_unit_cube_vertices_and_indices();
    assert_eq!(vertices.len(), 8);
    assert_eq!(indices.len(), 36);
    assert_eq!(vertices.len(), CUBE_VERTEX_COUNT);
    assert_eq!(indices.len(), CUBE_INDEX_COUNT);
    assert!(indices.iter().all(|&i| i < 8));
}

#[test]
fn cube_vertices_are_the_corners_in_order() {
    let (vertices, _) = make_unit_cube_vertices_and_indices();
    let expected: [([f32; 3], [f32; 3]); 8] = [
        ([-0.5, -0.5, 0.5], [1.0, 0.0, 0.0]),
        ([0.5, -0.5, 0.5], [1.0, 0.0, 0.0]),
        ([0.5, 0.5, 0.5], [1.0, 0.0, 0.0]),
        ([-0.5, 0.5, 0.5], [1.0, 0.0, 0.0]),
        ([-0.5, -0.5, -0.5], [0.0, 1.0, 0.0]),
        ([0.5, -0.5, -0.5], [0.0, 1.0, 0.0]),
        ([0.5, 0.5, -0.5], [0.0, 1.0, 0.0]),
        ([-0.5, 0.5, -0.5], [0.0, 1.0, 0.0]),
    ];
    for (vertex, (pos, color)) in vertices.iter().zip(expected.iter()) {
        assert_eq!(mesh_floats(vertex.pos), *pos);
        assert_eq!(mesh_floats(vertex.color), *color);
    }
}

#[test]
fn cube_indices_are_the_six_faces_in_order() {
    let (_, indices) = make_unit_cube_vertices_and_indices();
    let expected: [u16; 36] = [
        0, 1, 2, 0, 2, 3, // front
        1, 5, 6, 1, 6, 2, // right
        5, 4, 7, 5, 7, 6, // back
        4, 0, 3, 4, 3, 7, // left
        3, 2, 6, 3, 6, 7, // top
        4, 5, 1, 4, 1, 0, // bottom
    ];
    assert_eq!(indices, expected.to_vec());
}

#[test]
fn cube_is_centred_and_of_unit_size() {
    let (vertices, _) = make_unit_cube_vertices_and_indices();
    let mut sum = glam::Vec3::ZERO;
    let mut low = glam::Vec3::splat(f32::MAX);
    let mut high = glam::Vec3::splat(f32::MIN);
    for vertex in &vertices {
        let p = mesh_position(vertex);
        sum += p;
        low = low.min(p);
        high = high.max(p);
    }
    assert_eq!(sum, glam::Vec3::ZERO);
    assert_eq!(high - low, glam::Vec3::ONE);
}

#[test]
fn every_triangle_winds_outward() {
    let (vertices, indices) = make_unit_cube_vertices_and_indices();
    assert_eq!(indices.len() / 3, 12);
    for triangle in indices.chunks(3) {
        let a = mesh_position(&vertices[triangle[0] as usize]);
        let b = mesh_position(&vertices[triangle[1] as usize]);
        let c = mesh_position(&vertices[triangle[2] as usize]);
        let normal = (b - a).cross(c - a);
        assert!(normal.dot(a + b + c) > 0.0, "triangle {:?} faces inward", triangle);
    }
}

#[test]
fn every_face_has_two_triangles_in_its_plane() {
    let (vertices, indices) = make_unit_cube_vertices_and_indices();
    let outward = [
        glam::Vec3::Z,
        glam::Vec3::X,
        glam::Vec3::NEG_Z,
        glam::Vec3::NEG_X,
        glam::Vec3::Y,
        glam::Vec3::NEG_Y,
    ];
    for (face, six) in indices.chunks(6).enumerate() {
        let mut corners: Vec<u16> = six.to_vec();
        corners.sort();
        corners.dedup();
        assert_eq!(corners.len(), 4, "face {} does not span four corners", face);
        for &i in six {
            let p = mesh_position(&vertices[i as usize]);
            assert_eq!(p.dot(outward[face]), 0.5, "corner {} is off face {}", i, face);
        }
    }
}

#[test]
fn packed_vertices_follow_the_layout() {
    let (vertices, _) = make_unit_cube_vertices_and_indices();
    let words = pack_vertices(&vertices);
    assert_eq!(words.len(), vertices.len() * WORDS_PER_VERTEX);
    assert_eq!(words.len() * 4, vertices.len() * VERTEX_STRIDE as usize);
    assert_eq!(VERTEX_STRIDE, 24);
    assert_eq!(POSITION_OFFSET, 0);
    assert_eq!(COLOR_OFFSET, 12);
    for (i, vertex) in vertices.iter().enumerate() {
        let at = i * VERTEX_STRIDE as usize;
        let pos = (at + POSITION_OFFSET as usize) / 4;
        let color = (at + COLOR_OFFSET as usize) / 4;
        assert_eq!(words[pos..pos + 3], [vertex.pos.x.bits, vertex.pos.y.bits, vertex.pos.z.bits]);
        assert_eq!(
            words[color..color + 3],
            [vertex.color.x.bits, vertex.color.y.bits, vertex.color.z.bits]
        );
    }
    // vertex 5 is (0.5, -0.5, -0.5), green
    assert_eq!(
        words[30..36],
        [0x3F00_0000, 0xBF00_0000, 0xBF00_0000, 0x0000_0000, 0x3F80_0000, 0x0000_0000]
    );
}

#[test]
fn packing_no_vertices_gives_no_words() {
    assert!(pack_vertices(&Vec::new()).is_empty());
}
