//! The vertex grid that a parametric sweep enumerates.
//!
//! Every generated surface walks two nested angular subdivisions: an outer
//! sweep of `outer_steps` steps and an inner sweep of `inner_steps` steps,
//! both inclusive of their end step so that the seam row of vertices is
//! deliberately duplicated. The vertices are laid out row-major: vertex
//! `k` belongs to outer step `k / (inner_steps + 1)` and inner step
//! `k % (inner_steps + 1)`. Triangle index buffers rely on exactly this
//! layout.

use vstd::arithmetic::div_mod::lemma_fundamental_div_mod_converse;
use vstd::prelude::*;

verus! {

/// One vertex of a parametric sweep, identified by its step along the outer
/// sweep and its step along the inner sweep.
#[derive(Debug, Clone, Copy, PartialEq, Eq, Structural)]
pub struct GridPoint {
    /// Step along the outer sweep (ring number).
    pub outer: u32,
    /// Step along the inner sweep (position within the ring).
    pub inner: u32,
}

/// The number of vertices a sweep with `outer_steps` by `inner_steps`
/// subdivisions enumerates, the duplicated seam rows included.
pub open spec fn sweep_vertex_count(outer_steps: int, inner_steps: int) -> int {
    (outer_steps + 1) * (inner_steps + 1)
}

/// Holds when `v` addresses a vertex of a sweep with `outer_steps` by
/// `inner_steps` subdivisions.
pub open spec fn index_within(v: i16, outer_steps: int, inner_steps: int) -> bool {
    0 <= v as int && (v as int) < sweep_vertex_count(outer_steps, inner_steps)
}

/// Holds when `s` is the row-major vertex grid of a sweep with
/// `outer_steps` by `inner_steps` subdivisions, seam rows included.
pub open spec fn is_vertex_grid(outer_steps: int, inner_steps: int, s: Seq<GridPoint>) -> bool {
    &&& s.len() == (outer_steps + 1) * (inner_steps + 1)
    &&& forall|k: int|
        0 <= k < s.len() ==> #[trigger] s[k] == (GridPoint {
            outer: (k / (inner_steps + 1)) as u32,
            inner: (k % (inner_steps + 1)) as u32,
        })
}

/// The outer-sweep coordinate of the vertex that index `v` addresses in the
/// row-major grid of a sweep with `inner_steps` inner subdivisions.
pub open spec fn vertex_outer(v: int, inner_steps: int) -> int {
    v / (inner_steps + 1)
}

/// The inner-sweep coordinate of the vertex that index `v` addresses in the
/// row-major grid of a sweep with `inner_steps` inner subdivisions.
pub open spec fn vertex_inner(v: int, inner_steps: int) -> int {
    v % (inner_steps + 1)
}

/// The orientation of the triangle with vertex indices `(a, b, d)` in the
/// parameter plane of a sweep with `inner_steps` inner subdivisions: the z
/// component of the cross product of its two edge vectors, taken in (outer,
/// inner) grid coordinates. Its sign tells the triangle's winding in the
/// parameter plane.
pub open spec fn triangle_orientation(a: int, b: int, d: int, inner_steps: int) -> int {
    let edge1_outer = vertex_outer(b, inner_steps) - vertex_outer(a, inner_steps);
    let edge1_inner = vertex_inner(b, inner_steps) - vertex_inner(a, inner_steps);
    let edge2_outer = vertex_outer(d, inner_steps) - vertex_outer(a, inner_steps);
    let edge2_inner = vertex_inner(d, inner_steps) - vertex_inner(a, inner_steps);
    edge1_outer * edge2_inner - edge1_inner * edge2_outer
}

/// Enumerates the vertices of a sweep with `outer_steps` by `inner_steps`
/// subdivisions, in the row-major order in which the generators emit vertex
/// attributes: the whole inner ring of outer step 0 first, then the ring of
/// outer step 1, and so on up to and including the seam ring `outer_steps`.
///
/// The bound of 0x8000 vertices keeps every vertex addressable by a 16-bit
/// signed triangle index.
pub fn vertex_grid(outer_steps: u32, inner_steps: u32) -> (r: Vec<GridPoint>)
    requires
        (outer_steps + 1) * (inner_steps + 1) <= 0x8000,
    ensures
        is_vertex_grid(outer_steps as int, inner_steps as int, r@),
{
    let ghost o = outer_steps as int;
    let ghost i = inner_steps as int;
    proof {
        assert(o + 1 <= 0x8000 && i + 1 <= 0x8000) by (nonlinear_arith)
            requires
                0 <= o,
                0 <= i,
                (o + 1) * (i + 1) <= 0x8000,
        ;
    }
    let mut r: Vec<GridPoint> = Vec::new();
    let rows = outer_steps + 1;
    let cols = inner_steps + 1;
    proof {
        assert(0int * (i + 1) == 0) by (nonlinear_arith);
    }
    for oi in 0..rows
        invariant
            rows == o + 1,
            cols == i + 1,
            (o + 1) * (i + 1) <= 0x8000,
            r@.len() == oi * (i + 1),
            forall|k: int|
                0 <= k < r@.len() ==> #[trigger] r@[k] == (GridPoint {
                    outer: (k / (i + 1)) as u32,
                    inner: (k % (i + 1)) as u32,
                }),
    {
        for ii in 0..cols
            invariant
                rows == o + 1,
                cols == i + 1,
                oi < rows,
                (o + 1) * (i + 1) <= 0x8000,
                r@.len() == oi * (i + 1) + ii,
                forall|k: int|
                    0 <= k < r@.len() ==> #[trigger] r@[k] == (GridPoint {
                        outer: (k / (i + 1)) as u32,
                        inner: (k % (i + 1)) as u32,
                    }),
        {
            proof {
                lemma_fundamental_div_mod_converse(
                    oi as int * (i + 1) + ii as int,
                    i + 1,
                    oi as int,
                    ii as int,
                );
            }
            r.push(GridPoint { outer: oi, inner: ii });
        }
        proof {
            assert(oi as int * (i + 1) + (i + 1) == (oi + 1) * (i + 1)) by (nonlinear_arith);
        }
    }
    r
}

/// The vertex grid of a sweep is fully determined by its two subdivision
/// counts: any two grids of the same sweep are equal. Together with the
/// exact contracts of the generators this is the determinism guarantee for
/// the enumeration of vertices.
pub proof fn lemma_vertex_grid_deterministic(
    outer_steps: int,
    inner_steps: int,
    s1: Seq<GridPoint>,
    s2: Seq<GridPoint>,
)
    requires
        is_vertex_grid(outer_steps, inner_steps, s1),
        is_vertex_grid(outer_steps, inner_steps, s2),
    ensures
        s1 == s2,
{
    assert(s1 =~= s2);
}

} // verus!
