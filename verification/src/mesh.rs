//! Indexed triangle meshes with one fill colour, built from ordered points.
//!
//! The mesh is generic in the type of a point: the builders never look inside
//! one, they only count the points and keep them in order.

use crate::color::Color;
use crate::topology::{
    fan_triangles, flat_indices, indices_in_range, lemma_flat_indices_round_trip, max_vertices,
    quad_strip_indices, strip_triangles, triangle_fan_indices, triangles_of,
    well_formed_indices, Triangle,
};
use vstd::prelude::*;
use vstd::slice::slice_to_vec;

verus! {

/// A vertex of a mesh: where it is and how it is coloured.
pub struct ColoredVertex<P> {
    pub position: P,
    pub color: Color,
}

/// What a mesh is, as plain data: the vertex positions in order, the one
/// colour that every vertex has, and the index buffer.
pub struct MeshView<P> {
    pub positions: Seq<P>,
    pub color: Color,
    pub indices: Seq<u32>,
}

impl<P> MeshView<P> {
    /// Number of vertices.
    pub open spec fn vertex_count(self) -> nat {
        self.positions.len()
    }

    /// The colour of each vertex: the fill colour, once per vertex.
    pub open spec fn colors(self) -> Seq<Color> {
        Seq::new(self.positions.len(), |i: int| self.color)
    }

    /// The vertex buffer: each position with its colour.
    pub open spec fn vertices(self) -> Seq<ColoredVertex<P>> {
        Seq::new(
            self.positions.len(),
            |i: int| ColoredVertex { position: self.positions[i], color: self.color },
        )
    }

    /// The triangles that the index buffer lists.
    pub open spec fn triangles(self) -> Seq<Triangle> {
        triangles_of(self.indices)
    }

    /// The index buffer holds whole triangles only, and every index names a
    /// vertex of this mesh.
    pub open spec fn wf(self) -> bool {
        well_formed_indices(self.indices, self.positions.len())
    }
}

/// A vertex buffer with one fill colour and an index buffer of triangles.
///
/// Every value of this type is well formed: the length of its index buffer is
/// a multiple of three and each index is less than the number of vertices.
pub struct IndexedMesh<P> {
    positions: Vec<P>,
    color: Color,
    indices: Vec<u32>,
}

impl<P> View for IndexedMesh<P> {
    type V = MeshView<P>;

    closed spec fn view(&self) -> MeshView<P> {
        MeshView { positions: self.positions@, color: self.color, indices: self.indices@ }
    }
}

impl<P> IndexedMesh<P> {
    #[verifier::type_invariant]
    spec fn inv(self) -> bool {
        well_formed_indices(self.indices@, self.positions@.len())
    }

    /// Number of vertices.
    pub fn vertex_count(&self) -> (n: usize)
        ensures
            n == self@.vertex_count(),
    {
        self.positions.len()
    }

    /// Number of triangles.
    pub fn triangle_count(&self) -> (n: usize)
        ensures
            n == self@.triangles().len(),
            3 * n == self@.indices.len(),
    {
        proof {
            use_type_invariant(self);
        }
        self.indices.len() / 3
    }

    /// The vertex positions, in the order in which they were given.
    pub fn positions(&self) -> (positions: &Vec<P>)
        ensures
            positions@ == self@.positions,
    {
        &self.positions
    }

    /// The index buffer, three indices per triangle.
    pub fn indices(&self) -> (indices: &Vec<u32>)
        ensures
            indices@ == self@.indices,
            self@.wf(),
    {
        proof {
            use_type_invariant(self);
        }
        &self.indices
    }

    /// The fill colour.
    pub fn color(&self) -> (color: Color)
        ensures
            color == self@.color,
    {
        self.color
    }

    /// The colour buffer: the fill colour, once per vertex.
    pub fn vertex_colors(&self) -> (colors: Vec<Color>)
        ensures
            colors@ == self@.colors(),
    {
        let n: usize = self.positions.len();
        let mut colors: Vec<Color> = Vec::new();
        let mut i: usize = 0;
        while i < n
            invariant
                n == self.positions@.len(),
                0 <= i <= n,
                colors@ == Seq::new(i as nat, |k: int| self.color),
            decreases n - i,
        {
            colors.push(self.color);
            i += 1;
            assert(colors@ =~= Seq::new(i as nat, |k: int| self.color));
        }
        colors
    }

    /// Triangle number `t`, counted from 0. Its three corners are vertices of
    /// this mesh.
    pub fn triangle(&self, t: usize) -> (triangle: Triangle)
        requires
            t < self@.triangles().len(),
        ensures
            triangle == self@.triangles()[t as int],
            triangle.a < self@.vertex_count(),
            triangle.b < self@.vertex_count(),
            triangle.c < self@.vertex_count(),
    {
        proof {
            use_type_invariant(self);
            assert(self@.triangles().len() == self.indices@.len() / 3);
            assert(self.indices@.len() == self.indices.len());
        }
        let base: usize = 3 * t;
        Triangle { a: self.indices[base], b: self.indices[base + 1], c: self.indices[base + 2] }
    }

    /// The three buffers of the mesh: positions, one colour per vertex, and
    /// indices.
    pub fn into_buffers(self) -> (buffers: (Vec<P>, Vec<Color>, Vec<u32>))
        ensures
            buffers.0@ == self@.positions,
            buffers.1@ == self@.colors(),
            buffers.2@ == self@.indices,
            well_formed_indices(buffers.2@, buffers.0@.len()),
            buffers.1@.len() == buffers.0@.len(),
    {
        proof {
            use_type_invariant(&self);
        }
        let colors = self.vertex_colors();
        (self.positions, colors, self.indices)
    }
}

impl<P: Copy> IndexedMesh<P> {
    /// Vertex number `i`, counted from 0.
    pub fn vertex(&self, i: usize) -> (vertex: ColoredVertex<P>)
        requires
            i < self@.vertex_count(),
        ensures
            vertex == self@.vertices()[i as int],
    {
        ColoredVertex { position: self.positions[i], color: self.color }
    }
}

/// Builds the triangle fan over `points`: the first point is the apex that
/// all triangles share, and for each `i` from 1 to `n - 2` the triangle
/// `(0, i, i + 1)` is listed, where `n` is the number of points. Fewer than
/// three points give a mesh with these points and no triangle. Every vertex
/// has the colour `color`.
pub fn create_triangle_fan<P: Copy>(points: &[P], color: Color) -> (mesh: IndexedMesh<P>)
    requires
        points@.len() <= max_vertices(),
    ensures
        mesh@.positions == points@,
        mesh@.color == color,
        mesh@.indices == flat_indices(fan_triangles(points@.len())),
        mesh@.triangles() == fan_triangles(points@.len()),
        mesh@.wf(),
        points@.len() >= 3 ==> mesh@.triangles().len() == points@.len() - 2,
        points@.len() < 3 ==> mesh@.triangles().len() == 0,
        forall|t: int|
            0 <= t < mesh@.triangles().len() ==> {
                let tri = #[trigger] mesh@.triangles()[t];
                tri.a == 0 && 1 <= tri.b < tri.c <= points@.len() - 1
            },
{
    let indices = triangle_fan_indices(points.len());
    let positions = slice_to_vec(points);
    proof {
        lemma_flat_indices_round_trip(fan_triangles(points@.len()));
    }
    IndexedMesh { positions, color, indices }
}

/// Builds the quad strip over `points`, which are read as pairs: the points
/// at even places run along one rail, those at odd places along the other.
/// For each `i` from 0 to `k - 2`, where `k` is the number of complete pairs,
/// and with `s = 2 * i`, the triangles `(s, s + 1, s + 2)` and
/// `(s + 1, s + 2, s + 3)` are listed. Fewer than two complete pairs give a
/// mesh with no triangle. With an odd number of points the last point is kept
/// as a vertex and is in no triangle. Every vertex has the colour `color`.
pub fn create_quad_strip<P: Copy>(points: &[P], color: Color) -> (mesh: IndexedMesh<P>)
    requires
        points@.len() <= max_vertices(),
    ensures
        mesh@.positions == points@,
        mesh@.color == color,
        mesh@.indices == flat_indices(strip_triangles(points@.len())),
        mesh@.triangles() == strip_triangles(points@.len()),
        mesh@.wf(),
        points@.len() / 2 >= 2 ==> mesh@.triangles().len() == 2 * (points@.len() / 2 - 1),
        points@.len() / 2 < 2 ==> mesh@.triangles().len() == 0,
        indices_in_range(mesh@.indices, 2 * (points@.len() / 2)),
{
    let indices = quad_strip_indices(points.len());
    let positions = slice_to_vec(points);
    proof {
        lemma_flat_indices_round_trip(strip_triangles(points@.len()));
    }
    IndexedMesh { positions, color, indices }
}

} // verus!
