//! The static mesh: a cube with a ridge roof, standing on a square floor.
//!
//! The mesh is fixed data. Its vertices and its triangle list are stated once
//! as mathematical sequences ([`mesh_vertices`], [`mesh_indices`]); the
//! executable providers return exactly those, and the laws at the end of the
//! file are proved about them.

use vstd::prelude::*;

verus! {

/// Number of vertices in the mesh.
pub const VERTEX_COUNT: usize = 14;

/// Number of entries in the index list: sixteen triangles.
pub const INDEX_COUNT: usize = 48;

/// One corner of the mesh, laid out as the vertex buffer holds it.
///
/// `a_pos` is a homogeneous position, `a_tex_coord` the coordinate the vertex
/// is mapped to within the texture.
#[derive(Clone, Copy, Debug, PartialEq, Eq)]
pub struct Vertex {
    pub a_pos: [i8; 4],
    pub a_tex_coord: [i8; 2],
}

/// What a vertex is, mathematically: a homogeneous position `(x, y, z, w)`
/// and a texture coordinate `(u, v)`.
pub ghost struct VertexModel {
    pub pos: (int, int, int, int),
    pub tex: (int, int),
}

/// The model of the point `(x, y, z)` with texture coordinate `(u, v)`: its
/// homogeneous coordinate is 1.
pub open spec fn point(x: int, y: int, z: int, u: int, v: int) -> VertexModel {
    VertexModel { pos: (x, y, z, 1), tex: (u, v) }
}

impl View for Vertex {
    type V = VertexModel;

    open spec fn view(&self) -> VertexModel {
        VertexModel {
            pos: (
                self.a_pos[0] as int,
                self.a_pos[1] as int,
                self.a_pos[2] as int,
                self.a_pos[3] as int,
            ),
            tex: (self.a_tex_coord[0] as int, self.a_tex_coord[1] as int),
        }
    }
}

impl Vertex {
    /// The vertex at `pos`, extended by the homogeneous coordinate 1, with
    /// texture coordinate `tc`.
    pub fn new(pos: [i8; 3], tc: [i8; 2]) -> (v: Vertex)
        ensures
            v@ == point(pos[0] as int, pos[1] as int, pos[2] as int, tc[0] as int, tc[1] as int),
            v.a_tex_coord == tc,
    {
        Vertex { a_pos: [pos[0], pos[1], pos[2], 1], a_tex_coord: tc }
    }
}

/// The models of a sequence of vertices, in order.
pub open spec fn models(vertices: Seq<Vertex>) -> Seq<VertexModel> {
    vertices.map_values(|v: Vertex| v@)
}

/// The fourteen vertices of the mesh: the cube's bottom and top faces, the two
/// ends of the roof ridge, and the four corners of the floor.
pub open spec fn mesh_vertices() -> Seq<VertexModel> {
    seq![
        // bottom
        point(-1, -1, -1, 0, 0),
        point(-1, -1, 1, 0, 0),
        point(1, -1, 1, 0, 0),
        point(1, -1, -1, 0, 0),
        // top
        point(-1, 1, -1, 0, 0),
        point(-1, 1, 1, 0, 0),
        point(1, 1, 1, 0, 0),
        point(1, 1, -1, 0, 0),
        // roof
        point(0, 2, 1, 1, 1),
        point(0, 2, -1, 1, 1),
        // floor
        point(-20, -1, 20, 1, 0),
        point(20, -1, 20, 1, 0),
        point(20, -1, -20, 1, 0),
        point(-20, -1, -20, 1, 0),
    ]
}

/// The triangle list of the mesh: every three entries name the corners of one
/// triangle by their position in [`mesh_vertices`].
pub open spec fn mesh_indices() -> Seq<u16> {
    seq![
        // roof left
        5u16, 8, 9, 5, 4, 9,
        // roof right
        7, 6, 9, 6, 8, 9,
        // roof sides
        4, 7, 9, 5, 8, 6,
        // right
        2, 6, 7, 2, 7, 3,
        // left
        1, 5, 4, 4, 1, 0,
        // front
        0, 3, 7, 4, 7, 0,
        // back
        1, 2, 6, 1, 5, 6,
        // floor
        10, 13, 12, 10, 11, 12,
    ]
}

/// Whether `indices` is a triangle list over `vertex_count` vertices: its
/// length is a multiple of three and every entry names an existing vertex.
pub open spec fn is_triangle_list(indices: Seq<u16>, vertex_count: nat) -> bool {
    &&& indices.len() % 3 == 0
    &&& forall|i: int| 0 <= i < indices.len() ==> (#[trigger] indices[i] as nat) < vertex_count
}

/// The vertex buffer's contents.
pub fn vertex_data() -> (data: Vec<Vertex>)
    ensures
        models(data@) == mesh_vertices(),
        data@.len() == VERTEX_COUNT,
{
    let data = vec![
        // bottom
        Vertex::new([-1, -1, -1], [0, 0]),
        Vertex::new([-1, -1, 1], [0, 0]),
        Vertex::new([1, -1, 1], [0, 0]),
        Vertex::new([1, -1, -1], [0, 0]),
        // top
        Vertex::new([-1, 1, -1], [0, 0]),
        Vertex::new([-1, 1, 1], [0, 0]),
        Vertex::new([1, 1, 1], [0, 0]),
        Vertex::new([1, 1, -1], [0, 0]),
        // roof
        Vertex::new([0, 2, 1], [1, 1]),
        Vertex::new([0, 2, -1], [1, 1]),
        // floor
        Vertex::new([-20, -1, 20], [1, 0]),
        Vertex::new([20, -1, 20], [1, 0]),
        Vertex::new([20, -1, -20], [1, 0]),
        Vertex::new([-20, -1, -20], [1, 0]),
    ];
    assert(models(data@) =~= mesh_vertices());
    data
}

/// The index buffer's contents.
pub fn index_data() -> (data: Vec<u16>)
    ensures
        data@ == mesh_indices(),
        data@.len() == INDEX_COUNT,
        is_triangle_list(data@, VERTEX_COUNT as nat),
{
    let data: Vec<u16> = vec![
        // roof left
        5, 8, 9, 5, 4, 9,
        // roof right
        7, 6, 9, 6, 8, 9,
        // roof sides
        4, 7, 9, 5, 8, 6,
        // right
        2, 6, 7, 2, 7, 3,
        // left
        1, 5, 4, 4, 1, 0,
        // front
        0, 3, 7, 4, 7, 0,
        // back
        1, 2, 6, 1, 5, 6,
        // floor
        10, 13, 12, 10, 11, 12,
    ];
    assert(data@ =~= mesh_indices());
    proof {
        lemma_mesh_is_triangle_list();
    }
    data
}

/// The index list is a valid triangle list over the mesh's vertices: its
/// length is a multiple of three, and every index is below the vertex count.
pub proof fn lemma_mesh_is_triangle_list()
    ensures
        mesh_vertices().len() == VERTEX_COUNT,
        mesh_indices().len() == INDEX_COUNT,
        is_triangle_list(mesh_indices(), mesh_vertices().len()),
{
}

/// Every vertex of the mesh is a point: its homogeneous coordinate is 1.
pub proof fn lemma_mesh_vertices_are_points()
    ensures
        forall|i: int|
            0 <= i < mesh_vertices().len() ==> (#[trigger] mesh_vertices()[i]).pos.3 == 1,
{
}

/// Whether the corners of the `t`-th triangle of `indices` are three
/// different vertices.
pub open spec fn has_distinct_corners(indices: Seq<u16>, t: int) -> bool {
    let a = indices[3 * t];
    let b = indices[3 * t + 1];
    let c = indices[3 * t + 2];
    a != b && b != c && a != c
}

/// No triangle of the mesh is degenerate: its three corners are three
/// different vertices.
pub proof fn lemma_mesh_triangles_have_distinct_corners()
    ensures
        forall|t: int|
            0 <= t < mesh_indices().len() / 3 ==> #[trigger] has_distinct_corners(
                mesh_indices(),
                t,
            ),
{
    assert forall|t: int| 0 <= t < mesh_indices().len() / 3 implies #[trigger] has_distinct_corners(
        mesh_indices(),
        t,
    ) by {
        assert(0 <= t < 16);
    }
}

} // verus!
