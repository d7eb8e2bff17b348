//! Triangle indexing for the sphere.
//!
//! A sphere is swept pole-to-pole by `row` polar subdivisions (the outer
//! sweep of the vertex grid) and around its axis by `column` azimuthal
//! subdivisions (the inner sweep, seam column duplicated). The
//! triangulation mirrors the torus scheme with a stride of `column + 1`,
//! but splits each quad along the other diagonal order:
//!
//! ```text
//!   base = (column + 1) * i + ii
//!   triangles: (base, base + 1, base + column + 2)
//!              (base, base + column + 2, base + column + 1)
//! ```
//!
//! The quads at the two poles are degenerate (their pole-side edge has zero
//! length once evaluated); that is accepted, not an error.

use crate::arrays::Vec3;
use crate::grid::index_within;
use crate::grid::is_vertex_grid;
use crate::grid::sweep_vertex_count;
use crate::grid::triangle_orientation;
use crate::grid::vertex_inner;
use crate::grid::vertex_outer;
use vstd::arithmetic::div_mod::lemma_div_pos_is_pos;
use vstd::arithmetic::div_mod::lemma_fundamental_div_mod;
use vstd::arithmetic::div_mod::lemma_fundamental_div_mod_converse;
use vstd::arithmetic::div_mod::lemma_mod_bound;
use vstd::prelude::*;

verus! {

/// The value at position `m` of the flat sphere index buffer (three entries
/// per triangle, six per quad), for a sphere with `row` by `column`
/// subdivisions.
pub open spec fn sphere_index_at(row: int, column: int, m: int) -> int {
    let q = m / 6;
    let j = m % 6;
    let i = q / column;
    let ii = q % column;
    let base = (column + 1) * i + ii;
    if j == 0 {
        base
    } else if j == 1 {
        base + 1
    } else if j == 2 {
        base + column + 2
    } else if j == 3 {
        base
    } else if j == 4 {
        base + column + 2
    } else {
        base + column + 1
    }
}

/// Holds when `s` is exactly the flat triangle index buffer of a sphere
/// with `row` by `column` subdivisions: two triangles for each of the
/// `row * column` quads, in sweep order.
pub open spec fn is_sphere_index_seq(row: int, column: int, s: Seq<i16>) -> bool {
    &&& s.len() == 6 * row * column
    &&& forall|m: int|
        0 <= m < s.len() ==> #[trigger] s[m] as int == sphere_index_at(row, column, m)
}

/// Builds the flat triangle index buffer of a sphere with `row` polar and
/// `column` azimuthal subdivisions.
///
/// Every emitted index addresses a vertex of the corresponding
/// `vertex_grid(row, column)`, and the buffer holds exactly
/// `2 * row * column` triangles. The bound of 0x8000 vertices is the
/// unchecked precondition of the mesh family: it keeps every index
/// representable as a 16-bit signed integer.
pub fn sphere_indexes(row: usize, column: usize) -> (r: Vec3<i16>)
    requires
        (row + 1) * (column + 1) <= 0x8000,
    ensures
        is_sphere_index_seq(row as int, column as int, r@),
        forall|m: int|
            0 <= m < r@.len() ==> index_within(#[trigger] r@[m], row as int, column as int),
{
    let ghost t = row as int;
    let ghost c = column as int;
    let mut r: Vec3<i16> = Vec3::new();
    proof {
        assert(0int * c == 0 && 6 * (0int * c) == 0) by (nonlinear_arith);
    }
    for i in 0..row
        invariant
            t == row,
            c == column,
            (t + 1) * (c + 1) <= 0x8000,
            r@.len() == 6 * (i * c),
            forall|m: int|
                0 <= m < r@.len() ==> #[trigger] r@[m] as int == sphere_index_at(t, c, m),
            forall|m: int| 0 <= m < r@.len() ==> index_within(#[trigger] r@[m], t, c),
    {
        for ii in 0..column
            invariant
                t == row,
                c == column,
                i < row,
                (t + 1) * (c + 1) <= 0x8000,
                r@.len() == 6 * (i * c + ii),
                forall|m: int|
                    0 <= m < r@.len() ==> #[trigger] r@[m] as int == sphere_index_at(t, c, m),
                forall|m: int|
                    0 <= m < r@.len() ==> index_within(#[trigger] r@[m], t, c),
        {
            proof {
                assert((c + 1) * (i as int) + (ii as int) + c + 2 <= (t + 1) * (c + 1)
                    - 1) by (nonlinear_arith)
                    requires
                        0 <= i as int,
                        (i as int) < t,
                        0 <= ii as int,
                        (ii as int) < c,
                ;
            }
            let base: usize = (column + 1) * i + ii;
            let first = base as i16;
            let second = (base + 1) as i16;
            let third = (base + column + 2) as i16;
            let fourth = (base + column + 1) as i16;
            let ghost q = i as int * c + ii as int;
            proof {
                lemma_fundamental_div_mod_converse(q, c, i as int, ii as int);
                lemma_fundamental_div_mod_converse(6 * q, 6, q, 0);
                lemma_fundamental_div_mod_converse(6 * q + 1, 6, q, 1);
                lemma_fundamental_div_mod_converse(6 * q + 2, 6, q, 2);
                lemma_fundamental_div_mod_converse(6 * q + 3, 6, q, 3);
                lemma_fundamental_div_mod_converse(6 * q + 4, 6, q, 4);
                lemma_fundamental_div_mod_converse(6 * q + 5, 6, q, 5);
            }
            r.push_3(first, second, third);
            r.push_3(first, third, fourth);
        }
        proof {
            assert(6 * (i as int * c + c) == 6 * ((i + 1) * c)) by (nonlinear_arith);
        }
    }
    proof {
        assert(6 * (t * c) == 6 * t * c) by (nonlinear_arith);
    }
    r
}

/// The sphere index buffer is fully determined by the two subdivision
/// counts: two buffers generated for the same sphere are identical. This is
/// the determinism guarantee for the triangulation.
pub proof fn lemma_sphere_indexes_deterministic(row: int, column: int, s1: Seq<i16>, s2: Seq<i16>)
    requires
        is_sphere_index_seq(row, column, s1),
        is_sphere_index_seq(row, column, s2),
    ensures
        s1 == s2,
{
    assert(s1 =~= s2);
}

/// Every index of the sphere buffer addresses a vertex that the sphere
/// vertex grid actually holds: the index buffer and the attribute arrays
/// generated from the grid are consistent.
pub proof fn lemma_sphere_indexes_address_grid(
    row: usize,
    column: usize,
    s: Seq<i16>,
    g: Seq<crate::grid::GridPoint>,
)
    requires
        is_sphere_index_seq(row as int, column as int, s),
        is_vertex_grid(row as int, column as int, g),
        forall|m: int|
            0 <= m < s.len() ==> index_within(#[trigger] s[m], row as int, column as int),
    ensures
        forall|m: int| 0 <= m < s.len() ==> 0 <= (#[trigger] s[m] as int) && s[m] < g.len(),
{
}

/// Every triangle the sphere triangulation emits has the same winding: its
/// orientation in the (polar, azimuth) parameter plane is -1 — opposite in
/// sign to the torus triangles because the polar sweep runs pole to pole
/// where the torus tube sweep runs a full circle. A triangulation that
/// flipped any triangle would break this.
pub proof fn lemma_sphere_winding(row: int, column: int, n: int)
    requires
        1 <= row,
        1 <= column,
        0 <= n,
        n < 2 * row * column,
    ensures
        triangle_orientation(
            sphere_index_at(row, column, 3 * n),
            sphere_index_at(row, column, 3 * n + 1),
            sphere_index_at(row, column, 3 * n + 2),
            column,
        ) == -1,
{
    let t = row;
    let c = column;
    let k = n / 2;
    let j = n % 2;
    lemma_fundamental_div_mod(n, 2);
    lemma_mod_bound(n, 2);
    assert(2 * (t * c) == 2 * t * c) by (nonlinear_arith);
    assert(k < t * c);
    let ti = k / c;
    let ci = k % c;
    lemma_fundamental_div_mod(k, c);
    lemma_mod_bound(k, c);
    lemma_div_pos_is_pos(k, c);
    assert(ti < t) by (nonlinear_arith)
        requires
            k == c * ti + ci,
            0 <= ci,
            k < t * c,
            0 < c,
    ;
    let base = (c + 1) * ti + ci;
    assert(base == ti * (c + 1) + ci) by (nonlinear_arith)
        requires
            base == (c + 1) * ti + ci,
    ;
    assert(base + c + 1 == (ti + 1) * (c + 1) + ci) by (nonlinear_arith)
        requires
            base == (c + 1) * ti + ci,
    ;
    lemma_fundamental_div_mod_converse(6 * k + 3 * j, 6, k, 3 * j);
    lemma_fundamental_div_mod_converse(6 * k + 3 * j + 1, 6, k, 3 * j + 1);
    lemma_fundamental_div_mod_converse(6 * k + 3 * j + 2, 6, k, 3 * j + 2);
    assert(3 * n == 6 * k + 3 * j);
    lemma_fundamental_div_mod_converse(base, c + 1, ti, ci);
    lemma_fundamental_div_mod_converse(base + 1, c + 1, ti, ci + 1);
    lemma_fundamental_div_mod_converse(base + c + 1, c + 1, ti + 1, ci);
    lemma_fundamental_div_mod_converse(base + c + 2, c + 1, ti + 1, ci + 1);
    let a = sphere_index_at(t, c, 3 * n);
    let b = sphere_index_at(t, c, 3 * n + 1);
    let d = sphere_index_at(t, c, 3 * n + 2);
    if j == 0 {
        assert(a == base && b == base + 1 && d == base + c + 2);
        assert(triangle_orientation(a, b, d, c) == -1) by (nonlinear_arith)
            requires
                vertex_outer(a, c) == ti,
                vertex_inner(a, c) == ci,
                vertex_outer(b, c) == ti,
                vertex_inner(b, c) == ci + 1,
                vertex_outer(d, c) == ti + 1,
                vertex_inner(d, c) == ci + 1,
        ;
    } else {
        assert(a == base && b == base + c + 2 && d == base + c + 1);
        assert(triangle_orientation(a, b, d, c) == -1) by (nonlinear_arith)
            requires
                vertex_outer(a, c) == ti,
                vertex_inner(a, c) == ci,
                vertex_outer(b, c) == ti + 1,
                vertex_inner(b, c) == ci + 1,
                vertex_outer(d, c) == ti + 1,
                vertex_inner(d, c) == ci,
        ;
    }
}

} // verus!
