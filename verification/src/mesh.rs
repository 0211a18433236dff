use vstd::prelude::*;
use crate::vertex::MyVertex;

verus! {

/// The difference `a - b` of two lattice points.
pub open spec fn point_diff(a: (int, int, int), b: (int, int, int)) -> (int, int, int) {
    (a.0 - b.0, a.1 - b.1, a.2 - b.2)
}

/// The cross product `a x b`.
pub open spec fn cross(a: (int, int, int), b: (int, int, int)) -> (int, int, int) {
    (a.1 * b.2 - a.2 * b.1, a.2 * b.0 - a.0 * b.2, a.0 * b.1 - a.1 * b.0)
}

/// The dot product `a . b`.
pub open spec fn dot(a: (int, int, int), b: (int, int, int)) -> int {
    a.0 * b.0 + a.1 * b.1 + a.2 * b.2
}

/// The position that follows `p` around its triangle: corners 0, 1, 2 of a
/// triangle are followed by 1, 2, 0.
pub open spec fn next_in_triangle(p: int) -> int {
    if p % 3 == 2 { p - 2 } else { p + 1 }
}

/// The eight corners of the cube of side 1 centred on the origin, in half units.
pub open spec fn cube_corners() -> Seq<(int, int, int)> {
    seq![
        (-1, -1, 1), (1, -1, 1), (1, 1, 1), (-1, 1, 1),
        (-1, -1, -1), (1, -1, -1), (1, 1, -1), (-1, 1, -1),
    ]
}

/// The cube's twelve triangles, two for each face, in the order front, right,
/// back, left, bottom, top.
pub open spec fn cube_indices() -> Seq<u32> {
    seq![
        0, 1, 2, 2, 3, 0,
        1, 5, 6, 6, 2, 1,
        7, 6, 5, 5, 4, 7,
        4, 0, 3, 3, 7, 4,
        4, 5, 1, 1, 0, 4,
        3, 2, 6, 6, 7, 3,
    ]
}

/// Geometry uploaded to the GPU: vertices, and triangles given as triples of
/// indices into the vertices.
pub struct MeshData {
    pub vertices: Vec<MyVertex>,
    pub indices: Vec<u32>,
}

impl MeshData {
    /// The position of vertex `i`.
    pub open spec fn corner(&self, i: int) -> (int, int, int) {
        self.vertices@[i].point()
    }

    /// The indices form whole triangles and each names an existing vertex.
    pub open spec fn well_formed(&self) -> bool {
        &&& self.indices@.len() % 3 == 0
        &&& forall|p: int| 0 <= p < self.indices@.len() ==> #[trigger] self.indices@[p] < self.vertices@.len()
    }

    /// How many triangles the indices describe.
    pub open spec fn triangle_count(&self) -> int {
        (self.indices@.len() / 3) as int
    }

    /// Corner `k` (0, 1 or 2) of triangle `t`.
    pub open spec fn triangle_corner(&self, t: int, k: int) -> (int, int, int) {
        self.corner(self.indices@[3 * t + k] as int)
    }

    /// The normal of triangle `t` by the right-hand rule: it points to the side
    /// from which the corners are seen counter-clockwise.
    pub open spec fn triangle_normal(&self, t: int) -> (int, int, int) {
        cross(
            point_diff(self.triangle_corner(t, 1), self.triangle_corner(t, 0)),
            point_diff(self.triangle_corner(t, 2), self.triangle_corner(t, 0)),
        )
    }

    /// Every triangle is seen counter-clockwise from outside: its normal points
    /// away from the origin, which lies inside the (convex) mesh.
    pub open spec fn faces_outward(&self) -> bool {
        forall|t: int| 0 <= t < self.triangle_count()
            ==> dot(#[trigger] self.triangle_normal(t), self.triangle_corner(t, 0)) > 0
    }

    /// The directed edge that starts at index position `p` and runs to the next
    /// corner of the same triangle.
    pub open spec fn edge(&self, p: int) -> (u32, u32) {
        (self.indices@[p], self.indices@[next_in_triangle(p)])
    }

    /// Some edge of the mesh runs the edge at index position `p` backwards.
    pub open spec fn has_reverse_edge(&self, p: int) -> bool {
        exists|q: int|
            0 <= q < self.indices@.len() && #[trigger] self.edge(q) == (self.edge(p).1, self.edge(p).0)
    }

    /// The triangles close up into a surface without holes, consistently
    /// oriented: each edge is also walked in the opposite direction by a
    /// neighbouring triangle.
    pub open spec fn closed(&self) -> bool {
        forall|p: int| 0 <= p < self.indices@.len() ==> #[trigger] self.has_reverse_edge(p)
    }

    /// A unit cube centred on the origin: eight corners and twelve triangles.
    pub fn create_cube() -> (mesh: Self)
        ensures
            mesh.vertices@.len() == 8,
            forall|i: int| 0 <= i < 8 ==> #[trigger] mesh.corner(i) == cube_corners()[i],
            mesh.indices@ == cube_indices(),
            mesh.well_formed(),
            mesh.faces_outward(),
            mesh.closed(),
    {
        let vertices = vec![
            MyVertex::new(-1, -1, 1),  // 0: front bottom left
            MyVertex::new(1, -1, 1),  // 1: front bottom right
            MyVertex::new(1, 1, 1),  // 2: front top right
            MyVertex::new(-1, 1, 1),  // 3: front top left
            MyVertex::new(-1, -1, -1),  // 4: back bottom left
            MyVertex::new(1, -1, -1),  // 5: back bottom right
            MyVertex::new(1, 1, -1),  // 6: back top right
            MyVertex::new(-1, 1, -1),  // 7: back top left
        ];
        let indices: Vec<u32> = vec![
            0, 1, 2, 2, 3, 0,  // front
            1, 5, 6, 6, 2, 1,  // right
            7, 6, 5, 5, 4, 7,  // back
            4, 0, 3, 3, 7, 4,  // left
            4, 5, 1, 1, 0, 4,  // bottom
            3, 2, 6, 6, 7, 3,  // top
        ];
        let mesh = MeshData { vertices, indices };
        assert(mesh.indices@ =~= cube_indices());
        proof {
            lemma_cube_faces_outward(&mesh);
            lemma_cube_closed(&mesh);
        }
        mesh
    }

    /// The number of indices to draw, as the draw call takes it.
    pub fn index_count(&self) -> (count: u32)
        ensures
            count == self.indices@.len() as u32,
    {
        self.indices.len() as u32
    }
}

/// The cube's layout, as `create_cube` builds it.
pub open spec fn is_cube_layout(mesh: &MeshData) -> bool {
    &&& mesh.vertices@.len() == 8
    &&& forall|i: int| 0 <= i < 8 ==> #[trigger] mesh.corner(i) == cube_corners()[i]
    &&& mesh.indices@ == cube_indices()
}

#[verifier::nonlinear]
proof fn lemma_cube_triangle_outward(mesh: &MeshData, t: int)
    requires
        is_cube_layout(mesh),
        0 <= t < 12,
    ensures
        dot(mesh.triangle_normal(t), mesh.triangle_corner(t, 0)) > 0,
{
    let s = cube_indices();
    if t == 0 {
        assert(s[0] == 0 && s[1] == 1 && s[2] == 2);
    } else if t == 1 {
        assert(s[3] == 2 && s[4] == 3 && s[5] == 0);
    } else if t == 2 {
        assert(s[6] == 1 && s[7] == 5 && s[8] == 6);
    } else if t == 3 {
        assert(s[9] == 6 && s[10] == 2 && s[11] == 1);
    } else if t == 4 {
        assert(s[12] == 7 && s[13] == 6 && s[14] == 5);
    } else if t == 5 {
        assert(s[15] == 5 && s[16] == 4 && s[17] == 7);
    } else if t == 6 {
        assert(s[18] == 4 && s[19] == 0 && s[20] == 3);
    } else if t == 7 {
        assert(s[21] == 3 && s[22] == 7 && s[23] == 4);
    } else if t == 8 {
        assert(s[24] == 4 && s[25] == 5 && s[26] == 1);
    } else if t == 9 {
        assert(s[27] == 1 && s[28] == 0 && s[29] == 4);
    } else if t == 10 {
        assert(s[30] == 3 && s[31] == 2 && s[32] == 6);
    } else if t == 11 {
        assert(s[33] == 6 && s[34] == 7 && s[35] == 3);
    }
}

proof fn lemma_cube_faces_outward(mesh: &MeshData)
    requires
        is_cube_layout(mesh),
    ensures
        mesh.faces_outward(),
{
    assert forall|t: int| 0 <= t < mesh.triangle_count() implies dot(
        #[trigger] mesh.triangle_normal(t),
        mesh.triangle_corner(t, 0),
    ) > 0 by {
        lemma_cube_triangle_outward(mesh, t);
    }
}

/// For each index position of the cube, the position whose edge runs the
/// other way.
spec fn cube_edge_twins() -> Seq<int> {
    seq![27, 10, 5, 30, 19, 2, 25, 13, 11, 31, 1, 8, 33, 7, 17, 24, 22, 14, 28, 4, 23, 34, 16, 20, 15, 6, 29, 0, 18, 26, 3, 9, 35, 12, 21, 32]
}

proof fn lemma_cube_edge_twin(mesh: &MeshData, p: int)
    requires
        is_cube_layout(mesh),
        0 <= p < 36,
    ensures
        0 <= cube_edge_twins()[p] < 36,
        mesh.edge(cube_edge_twins()[p]) == (mesh.edge(p).1, mesh.edge(p).0),
{
    let s = cube_indices();
    let w = cube_edge_twins();
    if p == 0 {
        assert(w[0] == 27 && s[0] == 0 && s[1] == 1 && s[27] == 1 && s[28] == 0);
    } else if p == 1 {
        assert(w[1] == 10 && s[1] == 1 && s[2] == 2 && s[10] == 2 && s[11] == 1);
    } else if p == 2 {
        assert(w[2] == 5 && s[2] == 2 && s[0] == 0 && s[5] == 0 && s[3] == 2);
    } else if p == 3 {
        assert(w[3] == 30 && s[3] == 2 && s[4] == 3 && s[30] == 3 && s[31] == 2);
    } else if p == 4 {
        assert(w[4] == 19 && s[4] == 3 && s[5] == 0 && s[19] == 0 && s[20] == 3);
    } else if p == 5 {
        assert(w[5] == 2 && s[5] == 0 && s[3] == 2 && s[2] == 2 && s[0] == 0);
    } else if p == 6 {
        assert(w[6] == 25 && s[6] == 1 && s[7] == 5 && s[25] == 5 && s[26] == 1);
    } else if p == 7 {
        assert(w[7] == 13 && s[7] == 5 && s[8] == 6 && s[13] == 6 && s[14] == 5);
    } else if p == 8 {
        assert(w[8] == 11 && s[8] == 6 && s[6] == 1 && s[11] == 1 && s[9] == 6);
    } else if p == 9 {
        assert(w[9] == 31 && s[9] == 6 && s[10] == 2 && s[31] == 2 && s[32] == 6);
    } else if p == 10 {
        assert(w[10] == 1 && s[10] == 2 && s[11] == 1 && s[1] == 1 && s[2] == 2);
    } else if p == 11 {
        assert(w[11] == 8 && s[11] == 1 && s[9] == 6 && s[8] == 6 && s[6] == 1);
    } else if p == 12 {
        assert(w[12] == 33 && s[12] == 7 && s[13] == 6 && s[33] == 6 && s[34] == 7);
    } else if p == 13 {
        assert(w[13] == 7 && s[13] == 6 && s[14] == 5 && s[7] == 5 && s[8] == 6);
    } else if p == 14 {
        assert(w[14] == 17 && s[14] == 5 && s[12] == 7 && s[17] == 7 && s[15] == 5);
    } else if p == 15 {
        assert(w[15] == 24 && s[15] == 5 && s[16] == 4 && s[24] == 4 && s[25] == 5);
    } else if p == 16 {
        assert(w[16] == 22 && s[16] == 4 && s[17] == 7 && s[22] == 7 && s[23] == 4);
    } else if p == 17 {
        assert(w[17] == 14 && s[17] == 7 && s[15] == 5 && s[14] == 5 && s[12] == 7);
    } else if p == 18 {
        assert(w[18] == 28 && s[18] == 4 && s[19] == 0 && s[28] == 0 && s[29] == 4);
    } else if p == 19 {
        assert(w[19] == 4 && s[19] == 0 && s[20] == 3 && s[4] == 3 && s[5] == 0);
    } else if p == 20 {
        assert(w[20] == 23 && s[20] == 3 && s[18] == 4 && s[23] == 4 && s[21] == 3);
    } else if p == 21 {
        assert(w[21] == 34 && s[21] == 3 && s[22] == 7 && s[34] == 7 && s[35] == 3);
    } else if p == 22 {
        assert(w[22] == 16 && s[22] == 7 && s[23] == 4 && s[16] == 4 && s[17] == 7);
    } else if p == 23 {
        assert(w[23] == 20 && s[23] == 4 && s[21] == 3 && s[20] == 3 && s[18] == 4);
    } else if p == 24 {
        assert(w[24] == 15 && s[24] == 4 && s[25] == 5 && s[15] == 5 && s[16] == 4);
    } else if p == 25 {
        assert(w[25] == 6 && s[25] == 5 && s[26] == 1 && s[6] == 1 && s[7] == 5);
    } else if p == 26 {
        assert(w[26] == 29 && s[26] == 1 && s[24] == 4 && s[29] == 4 && s[27] == 1);
    } else if p == 27 {
        assert(w[27] == 0 && s[27] == 1 && s[28] == 0 && s[0] == 0 && s[1] == 1);
    } else if p == 28 {
        assert(w[28] == 18 && s[28] == 0 && s[29] == 4 && s[18] == 4 && s[19] == 0);
    } else if p == 29 {
        assert(w[29] == 26 && s[29] == 4 && s[27] == 1 && s[26] == 1 && s[24] == 4);
    } else if p == 30 {
        assert(w[30] == 3 && s[30] == 3 && s[31] == 2 && s[3] == 2 && s[4] == 3);
    } else if p == 31 {
        assert(w[31] == 9 && s[31] == 2 && s[32] == 6 && s[9] == 6 && s[10] == 2);
    } else if p == 32 {
        assert(w[32] == 35 && s[32] == 6 && s[30] == 3 && s[35] == 3 && s[33] == 6);
    } else if p == 33 {
        assert(w[33] == 12 && s[33] == 6 && s[34] == 7 && s[12] == 7 && s[13] == 6);
    } else if p == 34 {
        assert(w[34] == 21 && s[34] == 7 && s[35] == 3 && s[21] == 3 && s[22] == 7);
    } else if p == 35 {
        assert(w[35] == 32 && s[35] == 3 && s[33] == 6 && s[32] == 6 && s[30] == 3);
    }
}

proof fn lemma_cube_closed(mesh: &MeshData)
    requires
        is_cube_layout(mesh),
    ensures
        mesh.closed(),
{
    assert forall|p: int| 0 <= p < mesh.indices@.len() implies #[trigger] mesh.has_reverse_edge(p) by {
        lemma_cube_edge_twin(mesh, p);
        let q = cube_edge_twins()[p];
        assert(mesh.edge(q) == (mesh.edge(p).1, mesh.edge(p).0));
    }
}

} // verus!
