//! Triangle topologies over an ordered list of vertices.
//!
//! A topology is a rule that turns the positions `0, 1, .., n - 1` of a vertex
//! buffer into triangles. Two rules are offered: the *fan*, in which every
//! triangle shares vertex 0, and the *quad strip*, in which the vertices are
//! read as pairs on two rails and every two neighbouring pairs span a quad of
//! two triangles.

use vstd::prelude::*;

verus! {

/// One triangle of an index buffer: three positions in a vertex buffer.
#[derive(Clone, Copy, Debug, PartialEq, Eq, Structural)]
pub struct Triangle {
    pub a: u32,
    pub b: u32,
    pub c: u32,
}

/// The largest number of vertices whose positions all fit a `u32` index.
pub open spec fn max_vertices() -> nat {
    0x1_0000_0000
}

/// The index buffer that lists the corners of `triangles` one after another.
pub open spec fn flat_indices(triangles: Seq<Triangle>) -> Seq<u32> {
    Seq::new(
        3 * triangles.len(),
        |k: int|
            if k % 3 == 0 {
                triangles[k / 3].a
            } else if k % 3 == 1 {
                triangles[k / 3].b
            } else {
                triangles[k / 3].c
            },
    )
}

/// The triangles that an index buffer lists, three indices each. A tail of
/// one or two indices belongs to no triangle.
pub open spec fn triangles_of(indices: Seq<u32>) -> Seq<Triangle> {
    Seq::new(
        indices.len() / 3,
        |t: int| Triangle { a: indices[3 * t], b: indices[3 * t + 1], c: indices[3 * t + 2] },
    )
}

/// Every index names one of `vertex_count` vertices.
pub open spec fn indices_in_range(indices: Seq<u32>, vertex_count: nat) -> bool {
    forall|k: int| 0 <= k < indices.len() ==> (#[trigger] indices[k]) < vertex_count
}

/// An index buffer for `vertex_count` vertices: whole triangles only, and no
/// index past the end of the vertex buffer.
pub open spec fn well_formed_indices(indices: Seq<u32>, vertex_count: nat) -> bool {
    &&& indices.len() % 3 == 0
    &&& indices_in_range(indices, vertex_count)
}

/// Number of triangles in the fan over `n` vertices.
pub open spec fn fan_triangle_count(n: nat) -> nat {
    if n >= 3 {
        (n - 2) as nat
    } else {
        0
    }
}

/// Triangle number `t` of a fan, counted from 0: the apex and two
/// neighbouring rim vertices.
pub open spec fn fan_triangle(t: int) -> Triangle {
    Triangle { a: 0, b: (t + 1) as u32, c: (t + 2) as u32 }
}

/// The fan over `n` vertices. Fewer than three vertices span no triangle.
pub open spec fn fan_triangles(n: nat) -> Seq<Triangle> {
    Seq::new(fan_triangle_count(n), |t: int| fan_triangle(t))
}

/// Number of quads in the strip over `n` vertices: one less than the number
/// of complete pairs. A vertex left over after the last pair is not counted.
pub open spec fn strip_quad_count(n: nat) -> nat {
    if n / 2 >= 2 {
        (n / 2 - 1) as nat
    } else {
        0
    }
}

/// Number of triangles in the strip over `n` vertices.
pub open spec fn strip_triangle_count(n: nat) -> nat {
    2 * strip_quad_count(n)
}

/// Triangle number `j` of a quad strip, counted from 0. Quad `i = j / 2`
/// starts at vertex `s = 2 * i`; its first triangle is `(s, s + 1, s + 2)`,
/// its second `(s + 1, s + 2, s + 3)`.
pub open spec fn strip_triangle(j: int) -> Triangle {
    let s = 2 * (j / 2);
    if j % 2 == 0 {
        Triangle { a: s as u32, b: (s + 1) as u32, c: (s + 2) as u32 }
    } else {
        Triangle { a: (s + 1) as u32, b: (s + 2) as u32, c: (s + 3) as u32 }
    }
}

/// The quad strip over `n` vertices. Fewer than two complete pairs span no
/// triangle.
pub open spec fn strip_triangles(n: nat) -> Seq<Triangle> {
    Seq::new(strip_triangle_count(n), |j: int| strip_triangle(j))
}

/// Listing triangles in an index buffer loses nothing: the buffer holds whole
/// triangles only, and reading it back gives the same triangles.
pub proof fn lemma_flat_indices_round_trip(triangles: Seq<Triangle>)
    ensures
        flat_indices(triangles).len() == 3 * triangles.len(),
        flat_indices(triangles).len() % 3 == 0,
        triangles_of(flat_indices(triangles)) == triangles,
{
    assert(triangles_of(flat_indices(triangles)) =~= triangles);
}

/// The shape of a fan: over `n >= 3` vertices it has `n - 2` triangles, and
/// each one joins vertex 0 to two rim vertices, the second greater than the
/// first, both between 1 and `n - 1`. Over fewer vertices it has none.
pub proof fn lemma_fan_shape(n: nat)
    requires
        n <= max_vertices(),
    ensures
        n >= 3 ==> fan_triangles(n).len() == n - 2,
        n < 3 ==> fan_triangles(n).len() == 0,
        forall|t: int|
            0 <= t < fan_triangles(n).len() ==> {
                let tri = #[trigger] fan_triangles(n)[t];
                tri.a == 0 && 1 <= tri.b < tri.c <= n - 1 && tri.b == t + 1 && tri.c == t + 2
            },
        well_formed_indices(flat_indices(fan_triangles(n)), n),
{
}

/// The shape of a quad strip: over `n` vertices with `n / 2 >= 2` complete
/// pairs it has `2 * (n / 2 - 1)` triangles, triangle `j` joins the vertices
/// `j`, `j + 1` and `j + 2`, and no index reaches `2 * (n / 2)`. Over fewer
/// than two pairs it has none.
pub proof fn lemma_strip_shape(n: nat)
    requires
        n <= max_vertices(),
    ensures
        n / 2 >= 2 ==> strip_triangles(n).len() == 2 * (n / 2 - 1),
        n / 2 < 2 ==> strip_triangles(n).len() == 0,
        forall|j: int|
            0 <= j < strip_triangles(n).len() ==> {
                let tri = #[trigger] strip_triangles(n)[j];
                tri.a == j && tri.b == j + 1 && tri.c == j + 2 && tri.c < 2 * (n / 2)
            },
        indices_in_range(flat_indices(strip_triangles(n)), 2 * (n / 2)),
        well_formed_indices(flat_indices(strip_triangles(n)), n),
{
}

/// The index buffer of the triangle fan over `n` vertices: for each rim
/// vertex `i` from 1 to `n - 2`, the triangle `(0, i, i + 1)`. With fewer
/// than three vertices the buffer is empty.
pub fn triangle_fan_indices(n: usize) -> (indices: Vec<u32>)
    requires
        n <= max_vertices(),
    ensures
        indices@ == flat_indices(fan_triangles(n as nat)),
        well_formed_indices(indices@, n as nat),
        n >= 3 ==> indices@.len() == 3 * (n - 2),
        n < 3 ==> indices@.len() == 0,
{
    let mut indices: Vec<u32> = Vec::new();
    if n < 3 {
        proof {
            lemma_fan_shape(n as nat);
        }
        return indices;
    }
    let mut i: usize = 1;
    while i < n - 1
        invariant
            3 <= n <= max_vertices(),
            1 <= i <= n - 1,
            indices@ == flat_indices(fan_triangles((i + 1) as nat)),
        decreases n - 1 - i,
    {
        indices.push(0);
        indices.push(i as u32);
        indices.push((i + 1) as u32);
        i += 1;
        assert(indices@ =~= flat_indices(fan_triangles((i + 1) as nat)));
    }
    proof {
        lemma_fan_shape(n as nat);
    }
    indices
}

/// The index buffer of the quad strip over `n` vertices: for each quad `i`
/// from 0 to `n / 2 - 2`, with `s = 2 * i`, the triangles `(s, s + 1, s + 2)`
/// and `(s + 1, s + 2, s + 3)`. With fewer than four vertices the buffer is
/// empty; with an odd `n` the last vertex is in no triangle.
pub fn quad_strip_indices(n: usize) -> (indices: Vec<u32>)
    requires
        n <= max_vertices(),
    ensures
        indices@ == flat_indices(strip_triangles(n as nat)),
        well_formed_indices(indices@, n as nat),
        indices_in_range(indices@, 2 * (n as nat / 2)),
        n / 2 >= 2 ==> indices@.len() == 6 * (n / 2 - 1),
        n / 2 < 2 ==> indices@.len() == 0,
{
    let mut indices: Vec<u32> = Vec::new();
    let pairs: usize = n / 2;
    if pairs < 2 {
        proof {
            lemma_strip_shape(n as nat);
        }
        return indices;
    }
    let mut i: usize = 0;
    while i < pairs - 1
        invariant
            n <= max_vertices(),
            pairs == n / 2,
            2 <= pairs,
            0 <= i <= pairs - 1,
            indices@ == flat_indices(strip_triangles((2 * (i + 1)) as nat)),
        decreases pairs - 1 - i,
    {
        let start: usize = i * 2;
        indices.push(start as u32);
        indices.push((start + 1) as u32);
        indices.push((start + 2) as u32);
        indices.push((start + 1) as u32);
        indices.push((start + 2) as u32);
        indices.push((start + 3) as u32);
        i += 1;
        assert(indices@ =~= flat_indices(strip_triangles((2 * (i + 1)) as nat)));
    }
    proof {
        assert(strip_triangles((2 * pairs) as nat) =~= strip_triangles(n as nat));
        lemma_strip_shape(n as nat);
    }
    indices
}

} // verus!
