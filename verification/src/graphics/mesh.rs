//! The one mesh the renderer draws: a unit cube centred on the origin.

use vstd::prelude::*;
use crate::scalar::{Scalar, Vec3, HALF_BITS, NEG_HALF_BITS, ONE_BITS, ZERO_BITS};

verus! {

/// One vertex as the vertex stage consumes it: position, then colour.
#[derive(Clone, Copy, Debug, PartialEq, Eq, Structural)]
pub struct Vertex {
    pub pos: Vec3,
    pub color: Vec3,
}

/// Number of vertices of the cube.
pub const CUBE_VERTEX_COUNT: usize = 8;

/// Number of indices of the cube: six faces of two triangles each.
pub const CUBE_INDEX_COUNT: usize = 36;

impl Vertex {
    /// Every coordinate of the position is `0.5` or `-0.5`.
    pub open spec fn on_unit_cube(self) -> bool {
        &&& self.pos.x.magnitude_bits() == HALF_BITS
        &&& self.pos.y.magnitude_bits() == HALF_BITS
        &&& self.pos.z.magnitude_bits() == HALF_BITS
    }

    /// The position in half units along `axis` (0 = x, 1 = y, 2 = z). For a
    /// vertex on the unit cube this is `1` or `-1`.
    pub open spec fn corner(self, axis: int) -> int {
        if axis == 0 {
            self.pos.x.sign()
        } else if axis == 1 {
            self.pos.y.sign()
        } else {
            self.pos.z.sign()
        }
    }
}

/// `0.5` where `positive`, `-0.5` otherwise.
pub open spec fn half(positive: bool) -> Scalar {
    if positive {
        Scalar { bits: HALF_BITS }
    } else {
        Scalar { bits: NEG_HALF_BITS }
    }
}

/// Vertex `i` of the cube. The first four vertices are the front face
/// (`z = 0.5`, red), the last four the back face (`z = -0.5`, green); within
/// each face they run counter-clockwise seen from the front, starting at
/// the lower left.
pub open spec fn cube_vertex(i: int) -> Vertex {
    let k = i % 4;
    let front = i < 4;
    Vertex {
        pos: Vec3 { x: half(k == 1 || k == 2), y: half(k == 2 || k == 3), z: half(front) },
        color: Vec3 {
            x: Scalar { bits: if front { ONE_BITS } else { ZERO_BITS } },
            y: Scalar { bits: if front { ZERO_BITS } else { ONE_BITS } },
            z: Scalar { bits: ZERO_BITS },
        },
    }
}

/// The eight vertices of the cube.
pub open spec fn cube_vertices() -> Seq<Vertex> {
    Seq::new(8, |i: int| cube_vertex(i))
}

/// The index list: faces in the order front, right, back, left, top,
/// bottom, two triangles each.
pub open spec fn cube_indices() -> Seq<u16> {
    seq![
        0u16, 1, 2, 0, 2, 3,
        1, 5, 6, 1, 6, 2,
        5, 4, 7, 5, 7, 6,
        4, 0, 3, 4, 3, 7,
        3, 2, 6, 3, 6, 7,
        4, 5, 1, 4, 1, 0,
    ]
}

/// The axis that face `face` is perpendicular to (0 = x, 1 = y, 2 = z).
pub open spec fn face_axis(face: int) -> int {
    if face == 0 || face == 2 {
        2
    } else if face == 1 || face == 3 {
        0
    } else {
        1
    }
}

/// The side of the origin that face `face` lies on: `1` or `-1`.
pub open spec fn face_side(face: int) -> int {
    if face == 0 || face == 1 || face == 4 {
        1
    } else {
        -1
    }
}

/// Component `axis` of the cross product `(b - a) x (c - a)`, in half units.
pub open spec fn normal(a: Vertex, b: Vertex, c: Vertex, axis: int) -> int {
    let j = (axis + 1) % 3;
    let k = (axis + 2) % 3;
    (b.corner(j) - a.corner(j)) * (c.corner(k) - a.corner(k)) - (b.corner(k) - a.corner(k)) * (
    c.corner(j) - a.corner(j))
}

/// Triangle `t` of an index list lies in the plane of `face` and winds
/// counter-clockwise seen from outside: its normal is parallel to the
/// face's axis and points away from the origin.
pub open spec fn triangle_faces_out(
    vertices: Seq<Vertex>,
    indices: Seq<u16>,
    t: int,
    face: int,
) -> bool {
    let a = vertices[indices[3 * t] as int];
    let b = vertices[indices[3 * t + 1] as int];
    let c = vertices[indices[3 * t + 2] as int];
    let axis = face_axis(face);
    let side = face_side(face);
    &&& a.corner(axis) == side && b.corner(axis) == side && c.corner(axis) == side
    &&& normal(a, b, c, axis) * side > 0
    &&& normal(a, b, c, (axis + 1) % 3) == 0
    &&& normal(a, b, c, (axis + 2) % 3) == 0
}

/// The two triangles of `face` share their first corner and the diagonal,
/// and between them touch four different vertices.
pub open spec fn face_is_quad(indices: Seq<u16>, face: int) -> bool {
    let i = 6 * face;
    &&& indices[i] == indices[i + 3]
    &&& indices[i + 2] == indices[i + 4]
    &&& indices[i] != indices[i + 1]
    &&& indices[i] != indices[i + 2]
    &&& indices[i] != indices[i + 5]
    &&& indices[i + 1] != indices[i + 2]
    &&& indices[i + 1] != indices[i + 5]
    &&& indices[i + 2] != indices[i + 5]
}

/// What makes a vertex and index list a correctly wound cube: eight
/// vertices on the unit cube, thirty-six in-range indices, and for each of
/// the six faces two outward-facing triangles that together span the face.
pub open spec fn is_wound_cube(vertices: Seq<Vertex>, indices: Seq<u16>) -> bool {
    &&& vertices.len() == 8
    &&& indices.len() == 36
    &&& forall|v: int| 0 <= v < 8 ==> (#[trigger] vertices[v]).on_unit_cube()
    &&& forall|i: int| 0 <= i < 36 ==> #[trigger] indices[i] < 8
    &&& forall|face: int|
        0 <= face < 6 ==> {
            &&& #[trigger] triangle_faces_out(vertices, indices, 2 * face, face)
            &&& triangle_faces_out(vertices, indices, 2 * face + 1, face)
            &&& face_is_quad(indices, face)
        }
}

/// The signs of cube vertex `i` along the three axes.
proof fn lemma_cube_corner(i: int)
    requires
        0 <= i < 8,
    ensures
        cube_vertex(i).on_unit_cube(),
        cube_vertex(i).corner(0) == (if i % 4 == 1 || i % 4 == 2 { 1int } else { -1 }),
        cube_vertex(i).corner(1) == (if i % 4 == 2 || i % 4 == 3 { 1int } else { -1 }),
        cube_vertex(i).corner(2) == (if i < 4 { 1int } else { -1 }),
{
}

/// The product of two coordinate differences, each of which is `-2`, `0`
/// or `2`, written without multiplication.
spec fn difference_product(x: int, y: int) -> int {
    if x == 0 || y == 0 {
        0
    } else if x == y {
        4
    } else {
        -4
    }
}

proof fn lemma_difference_product(x: int, y: int)
    requires
        x == -2 || x == 0 || x == 2,
        y == -2 || y == 0 || y == 2,
    ensures
        x * y == difference_product(x, y),
{
    if x == 0 {
        assert(x * y == 0) by (nonlinear_arith)
            requires
                x == 0,
        ;
    } else if x == 2 {
        assert(x * y == 2 * y) by (nonlinear_arith)
            requires
                x == 2,
        ;
    } else {
        assert(x * y == -2 * y) by (nonlinear_arith)
            requires
                x == -2,
        ;
    }
}

/// The cross product of any three vertices, with the products tabulated.
proof fn lemma_normal(a: Vertex, b: Vertex, c: Vertex, axis: int)
    requires
        0 <= axis < 3,
    ensures
        normal(a, b, c, axis) == {
            let j = (axis + 1) % 3;
            let k = (axis + 2) % 3;
            difference_product(b.corner(j) - a.corner(j), c.corner(k) - a.corner(k))
                - difference_product(b.corner(k) - a.corner(k), c.corner(j) - a.corner(j))
        },
{
    let j = (axis + 1) % 3;
    let k = (axis + 2) % 3;
    lemma_difference_product(b.corner(j) - a.corner(j), c.corner(k) - a.corner(k));
    lemma_difference_product(b.corner(k) - a.corner(k), c.corner(j) - a.corner(j));
}

/// One triangle of the cube's own data faces outward on its face.
proof fn lemma_cube_triangle(t: int, face: int)
    requires
        0 <= face < 6,
        t == 2 * face || t == 2 * face + 1,
    ensures
        triangle_faces_out(cube_vertices(), cube_indices(), t, face),
{
    let vertices = cube_vertices();
    let indices = cube_indices();
    let ia = indices[3 * t] as int;
    let ib = indices[3 * t + 1] as int;
    let ic = indices[3 * t + 2] as int;
    assert(0 <= ia < 8 && 0 <= ib < 8 && 0 <= ic < 8);
    let a = vertices[ia];
    let b = vertices[ib];
    let c = vertices[ic];
    lemma_cube_corner(ia);
    lemma_cube_corner(ib);
    lemma_cube_corner(ic);
    lemma_normal(a, b, c, 0);
    lemma_normal(a, b, c, 1);
    lemma_normal(a, b, c, 2);
}

/// One face of the cube's own data: both triangles face outward and span
/// the face.
proof fn lemma_cube_face(face: int)
    requires
        0 <= face < 6,
    ensures
        triangle_faces_out(cube_vertices(), cube_indices(), 2 * face, face),
        triangle_faces_out(cube_vertices(), cube_indices(), 2 * face + 1, face),
        face_is_quad(cube_indices(), face),
{
    lemma_cube_triangle(2 * face, face);
    lemma_cube_triangle(2 * face + 1, face);
}

/// The cube's own data is a correctly wound cube.
pub proof fn lemma_cube_is_wound()
    ensures
        is_wound_cube(cube_vertices(), cube_indices()),
{
    let vertices = cube_vertices();
    let indices = cube_indices();
    assert forall|v: int| 0 <= v < 8 implies (#[trigger] vertices[v]).on_unit_cube() by {
        lemma_cube_corner(v);
    }
    assert forall|face: int| 0 <= face < 6 implies {
        &&& #[trigger] triangle_faces_out(vertices, indices, 2 * face, face)
        &&& triangle_faces_out(vertices, indices, 2 * face + 1, face)
        &&& face_is_quad(indices, face)
    } by {
        lemma_cube_face(face);
    }
}

/// Builds the cube on the CPU: its vertices and its index list.
pub fn make_unit_cube_vertices_and_indices() -> (mesh: (Vec<Vertex>, Vec<u16>))
    ensures
        mesh.0@ == cube_vertices(),
        mesh.1@ == cube_indices(),
        is_wound_cube(mesh.0@, mesh.1@),
{
    let p = Scalar { bits: HALF_BITS };
    let n = Scalar { bits: NEG_HALF_BITS };
    let one = Scalar { bits: ONE_BITS };
    let zero = Scalar { bits: ZERO_BITS };
    let red = Vec3 { x: one, y: zero, z: zero };
    let green = Vec3 { x: zero, y: one, z: zero };
    let vertices = vec![
        Vertex { pos: Vec3 { x: n, y: n, z: p }, color: red },
        Vertex { pos: Vec3 { x: p, y: n, z: p }, color: red },
        Vertex { pos: Vec3 { x: p, y: p, z: p }, color: red },
        Vertex { pos: Vec3 { x: n, y: p, z: p }, color: red },
        Vertex { pos: Vec3 { x: n, y: n, z: n }, color: green },
        Vertex { pos: Vec3 { x: p, y: n, z: n }, color: green },
        Vertex { pos: Vec3 { x: p, y: p, z: n }, color: green },
        Vertex { pos: Vec3 { x: n, y: p, z: n }, color: green },
    ];
    let indices = vec![
        0u16, 1, 2, 0, 2, 3,
        1, 5, 6, 1, 6, 2,
        5, 4, 7, 5, 7, 6,
        4, 0, 3, 4, 3, 7,
        3, 2, 6, 3, 6, 7,
        4, 5, 1, 4, 1, 0,
    ];
    proof {
        assert(vertices@ =~= cube_vertices());
        assert(indices@ =~= cube_indices());
        lemma_cube_is_wound();
    }
    (vertices, indices)
}

/// Number of 32-bit words one vertex takes in the vertex buffer.
pub const WORDS_PER_VERTEX: usize = 6;

/// Bytes from one vertex to the next in the vertex buffer.
pub const VERTEX_STRIDE: u64 = 24;

/// Byte offset of the position within a vertex; the vertex stage reads
/// three scalars there.
pub const POSITION_OFFSET: u64 = 0;

/// Byte offset of the colour within a vertex; the vertex stage reads three
/// scalars there.
pub const COLOR_OFFSET: u64 = 12;

/// The vertex stage's input location of the position.
pub const POSITION_LOCATION: u32 = 0;

/// The vertex stage's input location of the colour.
pub const COLOR_LOCATION: u32 = 1;

/// Word `k` of a vertex as it lies in the vertex buffer: the position's
/// three coordinates, then the colour's three channels.
pub open spec fn vertex_word(vertex: Vertex, k: int) -> u32 {
    if k == 0 {
        vertex.pos.x.bits
    } else if k == 1 {
        vertex.pos.y.bits
    } else if k == 2 {
        vertex.pos.z.bits
    } else if k == 3 {
        vertex.color.x.bits
    } else if k == 4 {
        vertex.color.y.bits
    } else {
        vertex.color.z.bits
    }
}

/// The words of a vertex list, vertex after vertex.
pub open spec fn vertex_words(vertices: Seq<Vertex>) -> Seq<u32> {
    Seq::new(6 * vertices.len(), |j: int| vertex_word(vertices[j / 6], j % 6))
}

/// Lays a vertex list out as the words of a vertex buffer.
pub fn pack_vertices(vertices: &Vec<Vertex>) -> (words: Vec<u32>)
    ensures
        words@ == vertex_words(vertices@),
{
    let mut words: Vec<u32> = Vec::new();
    let mut i: usize = 0;
    while i < vertices.len()
        invariant
            i <= vertices.len(),
            words@ == vertex_words(vertices@.take(i as int)),
        decreases vertices.len() - i,
    {
        let vertex = vertices[i];
        words.push(vertex.pos.x.bits);
        words.push(vertex.pos.y.bits);
        words.push(vertex.pos.z.bits);
        words.push(vertex.color.x.bits);
        words.push(vertex.color.y.bits);
        words.push(vertex.color.z.bits);
        i += 1;
        assert(words@ =~= vertex_words(vertices@.take(i as int)));
    }
    assert(vertices@.take(vertices.len() as int) == vertices@);
    words
}

/// The stride and the two attribute offsets agree with the packed words:
/// vertex `i` starts `VERTEX_STRIDE` bytes after vertex `i - 1`, its
/// position is the three words at `POSITION_OFFSET` and its colour the
/// three words at `COLOR_OFFSET`.
pub proof fn lemma_vertex_layout(vertices: Seq<Vertex>, i: int)
    requires
        0 <= i < vertices.len(),
    ensures
        vertex_words(vertices).len() * 4 == vertices.len() * VERTEX_STRIDE,
        vertex_words(vertices)[(i * VERTEX_STRIDE + POSITION_OFFSET) / 4] == vertices[i].pos.x.bits,
        vertex_words(vertices)[(i * VERTEX_STRIDE + POSITION_OFFSET) / 4 + 1]
            == vertices[i].pos.y.bits,
        vertex_words(vertices)[(i * VERTEX_STRIDE + POSITION_OFFSET) / 4 + 2]
            == vertices[i].pos.z.bits,
        vertex_words(vertices)[(i * VERTEX_STRIDE + COLOR_OFFSET) / 4] == vertices[i].color.x.bits,
        vertex_words(vertices)[(i * VERTEX_STRIDE + COLOR_OFFSET) / 4 + 1]
            == vertices[i].color.y.bits,
        vertex_words(vertices)[(i * VERTEX_STRIDE + COLOR_OFFSET) / 4 + 2]
            == vertices[i].color.z.bits,
{
}

} // verus!
