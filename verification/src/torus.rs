//! Triangle indexing for the torus.
//!
//! A torus is swept by `tube_steps` subdivisions around the tube's circular
//! cross-section (the outer sweep of the vertex grid) and `core_steps`
//! subdivisions around the core ring (the inner sweep). One quad is emitted
//! per step pair — the seam vertex rows are duplicated precisely so that no
//! wraparound quad is needed — and each quad is split into two triangles
//! along its diagonal:
//!
//! ```text
//!   top_right = base          top_left = base + 1
//!   bottom_right = base + core_steps + 1
//!   bottom_left = base + core_steps + 2
//!   triangles: (top_right, bottom_right, top_left)
//!              (bottom_right, bottom_left, top_left)
//! ```
//!
//! where `base = (core_steps + 1) * tube_i + core_i` addresses the quad's
//! first corner in the row-major vertex grid.

use crate::arrays::Vec3;
use crate::grid::index_within;
use crate::grid::is_vertex_grid;
use crate::grid::sweep_vertex_count;
use crate::grid::triangle_orientation;
use crate::grid::vertex_inner;
use crate::grid::vertex_outer;
use vstd::arithmetic::div_mod::lemma_div_pos_is_pos;
use vstd::arithmetic::div_mod::lemma_fundamental_div_mod;
use vstd::arithmetic::div_mod::lemma_fundamental_div_mod_converse;
use vstd::arithmetic::div_mod::lemma_mod_bound;
use vstd::prelude::*;

verus! {

/// The value at position `m` of the flat torus index buffer (three entries
/// per triangle, six per quad), for a torus with `tube_steps` by
/// `core_steps` subdivisions.
pub open spec fn torus_index_at(tube_steps: int, core_steps: int, m: int) -> int {
    let q = m / 6;
    let j = m % 6;
    let ti = q / core_steps;
    let ci = q % core_steps;
    let base = (core_steps + 1) * ti + ci;
    if j == 0 {
        base
    } else if j == 1 {
        base + core_steps + 1
    } else if j == 2 {
        base + 1
    } else if j == 3 {
        base + core_steps + 1
    } else if j == 4 {
        base + core_steps + 2
    } else {
        base + 1
    }
}

/// Holds when `s` is exactly the flat triangle index buffer of a torus with
/// `tube_steps` by `core_steps` subdivisions: two triangles for each of the
/// `tube_steps * core_steps` quads, in sweep order.
pub open spec fn is_torus_index_seq(tube_steps: int, core_steps: int, s: Seq<i16>) -> bool {
    &&& s.len() == 6 * tube_steps * core_steps
    &&& forall|m: int|
        0 <= m < s.len() ==> #[trigger] s[m] as int == torus_index_at(tube_steps, core_steps, m)
}

/// Builds the flat triangle index buffer of a torus with `tube_steps` by
/// `core_steps` subdivisions of its two angular sweeps.
///
/// Every emitted index addresses a vertex of the corresponding
/// `vertex_grid(tube_steps, core_steps)`, and the buffer holds exactly
/// `2 * tube_steps * core_steps` triangles. The bound of 0x8000 vertices is
/// the unchecked precondition of the mesh family: it keeps every index
/// representable as a 16-bit signed integer.
pub fn torus_indexes(tube_steps: u32, core_steps: u32) -> (r: Vec3<i16>)
    requires
        (tube_steps + 1) * (core_steps + 1) <= 0x8000,
    ensures
        is_torus_index_seq(tube_steps as int, core_steps as int, r@),
        forall|m: int|
            0 <= m < r@.len() ==> index_within(#[trigger] r@[m], tube_steps as int, core_steps as int),
{
    let ghost t = tube_steps as int;
    let ghost c = core_steps as int;
    let mut r: Vec3<i16> = Vec3::new();
    proof {
        assert(0int * c == 0 && 6 * (0int * c) == 0) by (nonlinear_arith);
    }
    for tube_i in 0..tube_steps
        invariant
            t == tube_steps,
            c == core_steps,
            (t + 1) * (c + 1) <= 0x8000,
            r@.len() == 6 * (tube_i * c),
            forall|m: int|
                0 <= m < r@.len() ==> #[trigger] r@[m] as int == torus_index_at(t, c, m),
            forall|m: int| 0 <= m < r@.len() ==> index_within(#[trigger] r@[m], t, c),
    {
        for core_i in 0..core_steps
            invariant
                t == tube_steps,
                c == core_steps,
                tube_i < tube_steps,
                (t + 1) * (c + 1) <= 0x8000,
                r@.len() == 6 * (tube_i * c + core_i),
                forall|m: int|
                    0 <= m < r@.len() ==> #[trigger] r@[m] as int == torus_index_at(t, c, m),
                forall|m: int|
                    0 <= m < r@.len() ==> index_within(#[trigger] r@[m], t, c),
        {
            proof {
                assert((c + 1) * (tube_i as int) + (core_i as int) + c + 2 <= (t + 1) * (c + 1)
                    - 1) by (nonlinear_arith)
                    requires
                        0 <= tube_i as int,
                        (tube_i as int) < t,
                        0 <= core_i as int,
                        (core_i as int) < c,
                ;
            }
            let base: u32 = (core_steps + 1) * tube_i + core_i;
            let top_right = base as i16;
            let top_left = (base + 1) as i16;
            let bottom_right = (base + core_steps + 1) as i16;
            let bottom_left = (base + core_steps + 2) as i16;
            let ghost q = tube_i as int * c + core_i as int;
            proof {
                lemma_fundamental_div_mod_converse(q, c, tube_i as int, core_i as int);
                lemma_fundamental_div_mod_converse(6 * q, 6, q, 0);
                lemma_fundamental_div_mod_converse(6 * q + 1, 6, q, 1);
                lemma_fundamental_div_mod_converse(6 * q + 2, 6, q, 2);
                lemma_fundamental_div_mod_converse(6 * q + 3, 6, q, 3);
                lemma_fundamental_div_mod_converse(6 * q + 4, 6, q, 4);
                lemma_fundamental_div_mod_converse(6 * q + 5, 6, q, 5);
            }
            r.push_3(top_right, bottom_right, top_left);
            r.push_3(bottom_right, bottom_left, top_left);
        }
        proof {
            assert(6 * (tube_i as int * c + c) == 6 * ((tube_i + 1) * c)) by (nonlinear_arith);
        }
    }
    proof {
        assert(6 * (t * c) == 6 * t * c) by (nonlinear_arith);
    }
    r
}

/// The torus index buffer is fully determined by the two subdivision
/// counts: two buffers generated for the same torus are identical. This is
/// the determinism guarantee for the triangulation.
pub proof fn lemma_torus_indexes_deterministic(
    tube_steps: int,
    core_steps: int,
    s1: Seq<i16>,
    s2: Seq<i16>,
)
    requires
        is_torus_index_seq(tube_steps, core_steps, s1),
        is_torus_index_seq(tube_steps, core_steps, s2),
    ensures
        s1 == s2,
{
    assert(s1 =~= s2);
}

/// Every triangle the torus triangulation emits has the same winding: its
/// orientation in the (tube, core) parameter plane is +1. A triangulation
/// that flipped any triangle — and with it the face shown under backface
/// culling — would break this.
pub proof fn lemma_torus_winding(tube_steps: int, core_steps: int, n: int)
    requires
        1 <= tube_steps,
        1 <= core_steps,
        0 <= n,
        n < 2 * tube_steps * core_steps,
    ensures
        triangle_orientation(
            torus_index_at(tube_steps, core_steps, 3 * n),
            torus_index_at(tube_steps, core_steps, 3 * n + 1),
            torus_index_at(tube_steps, core_steps, 3 * n + 2),
            core_steps,
        ) == 1,
{
    let t = tube_steps;
    let c = core_steps;
    let k = n / 2;
    let j = n % 2;
    lemma_fundamental_div_mod(n, 2);
    lemma_mod_bound(n, 2);
    assert(2 * (t * c) == 2 * t * c) by (nonlinear_arith);
    assert(k < t * c);
    let ti = k / c;
    let ci = k % c;
    lemma_fundamental_div_mod(k, c);
    lemma_mod_bound(k, c);
    lemma_div_pos_is_pos(k, c);
    assert(ti < t) by (nonlinear_arith)
        requires
            k == c * ti + ci,
            0 <= ci,
            k < t * c,
            0 < c,
    ;
    let base = (c + 1) * ti + ci;
    assert(base == ti * (c + 1) + ci) by (nonlinear_arith)
        requires
            base == (c + 1) * ti + ci,
    ;
    assert(base + c + 1 == (ti + 1) * (c + 1) + ci) by (nonlinear_arith)
        requires
            base == (c + 1) * ti + ci,
    ;
    lemma_fundamental_div_mod_converse(6 * k + 3 * j, 6, k, 3 * j);
    lemma_fundamental_div_mod_converse(6 * k + 3 * j + 1, 6, k, 3 * j + 1);
    lemma_fundamental_div_mod_converse(6 * k + 3 * j + 2, 6, k, 3 * j + 2);
    assert(3 * n == 6 * k + 3 * j);
    lemma_fundamental_div_mod_converse(base, c + 1, ti, ci);
    lemma_fundamental_div_mod_converse(base + 1, c + 1, ti, ci + 1);
    lemma_fundamental_div_mod_converse(base + c + 1, c + 1, ti + 1, ci);
    lemma_fundamental_div_mod_converse(base + c + 2, c + 1, ti + 1, ci + 1);
    let a = torus_index_at(t, c, 3 * n);
    let b = torus_index_at(t, c, 3 * n + 1);
    let d = torus_index_at(t, c, 3 * n + 2);
    if j == 0 {
        assert(a == base && b == base + c + 1 && d == base + 1);
        assert(triangle_orientation(a, b, d, c) == 1) by (nonlinear_arith)
            requires
                vertex_outer(a, c) == ti,
                vertex_inner(a, c) == ci,
                vertex_outer(b, c) == ti + 1,
                vertex_inner(b, c) == ci,
                vertex_outer(d, c) == ti,
                vertex_inner(d, c) == ci + 1,
        ;
    } else {
        assert(a == base + c + 1 && b == base + c + 2 && d == base + 1);
        assert(triangle_orientation(a, b, d, c) == 1) by (nonlinear_arith)
            requires
                vertex_outer(a, c) == ti + 1,
                vertex_inner(a, c) == ci,
                vertex_outer(b, c) == ti + 1,
                vertex_inner(b, c) == ci + 1,
                vertex_outer(d, c) == ti,
                vertex_inner(d, c) == ci + 1,
        ;
    }
}

/// The triangulation of the classic reference sweep, written exactly as
/// that regression pattern states it: the outer loop walks `row` ring
/// steps, the inner loop `column` steps, and quad `(i, ii)` starts at
/// `r = (column + 1) * i + ii` and emits the triangles
/// `(r, r + column + 1, r + 1)` and `(r + column + 1, r + column + 2, r + 1)`.
pub open spec fn reference_torus_index_at(row: int, column: int, m: int) -> int {
    let quad = m / 6;
    let j = m % 6;
    let i = quad / column;
    let ii = quad % column;
    let r = (column + 1) * i + ii;
    if j == 0 {
        r
    } else if j == 1 {
        r + column + 1
    } else if j == 2 {
        r + 1
    } else if j == 3 {
        r + column + 1
    } else if j == 4 {
        r + column + 2
    } else {
        r + 1
    }
}

/// Cross-check against the reference sweep: the torus triangulation agrees
/// entry-for-entry with the reference pattern in which `row` takes the role
/// of the tube sweep and `column` the role of the core sweep. A swap of the
/// two parameters' roles in the triangulation would break this.
pub proof fn lemma_torus_indexes_match_reference(tube_steps: int, core_steps: int, m: int)
    ensures
        torus_index_at(tube_steps, core_steps, m) == reference_torus_index_at(
            tube_steps,
            core_steps,
            m,
        ),
{
}

/// Every index of the torus buffer addresses a vertex that the torus vertex
/// grid actually holds: the index buffer and the attribute arrays generated
/// from the grid are consistent.
pub proof fn lemma_torus_indexes_address_grid(
    tube_steps: u32,
    core_steps: u32,
    s: Seq<i16>,
    g: Seq<crate::grid::GridPoint>,
)
    requires
        is_torus_index_seq(tube_steps as int, core_steps as int, s),
        is_vertex_grid(tube_steps as int, core_steps as int, g),
        forall|m: int|
            0 <= m < s.len() ==> index_within(#[trigger] s[m], tube_steps as int, core_steps as int),
    ensures
        forall|m: int| 0 <= m < s.len() ==> 0 <= (#[trigger] s[m] as int) && s[m] < g.len(),
{
}

} // verus!
