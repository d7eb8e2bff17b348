//! The flat rectangle: four corners, one quad, two triangles.
//!
//! The corners are emitted in the order top-left, top-right, bottom-left,
//! bottom-right, at `(±width/2, ±height/2, 0)`. The rectangle is flat in
//! the xy plane, so every integer ingredient of the mesh — the corner sign
//! pattern, the triangle indices, and the texture-coordinate corners that
//! `rect_with_texture` aligns to the same four positions — is fixed, and is
//! generated here; scaling the signs by the half extents is left to the
//! evaluation layer.

use crate::arrays::Vec3;
use vstd::prelude::*;

verus! {

/// The corner sign pattern of the rectangle, one `(x, y, z)` triple per
/// corner in emission order: top-left `(-1, 1, 0)`, top-right `(1, 1, 0)`,
/// bottom-left `(-1, -1, 0)`, bottom-right `(1, -1, 0)`. Corner positions
/// are these signs scaled by `(width / 2, height / 2, 0)`.
pub fn rect_corner_signs() -> (r: Vec3<i16>)
    ensures
        r@ == seq![-1i16, 1i16, 0i16, 1i16, 1i16, 0i16, -1i16, -1i16, 0i16, 1i16, -1i16, 0i16],
{
    let mut r: Vec3<i16> = Vec3::new();
    r.push_3(-1, 1, 0);
    r.push_3(1, 1, 0);
    r.push_3(-1, -1, 0);
    r.push_3(1, -1, 0);
    proof {
        assert(r@ =~= seq![
            -1i16,
            1i16,
            0i16,
            1i16,
            1i16,
            0i16,
            -1i16,
            -1i16,
            0i16,
            1i16,
            -1i16,
            0i16,
        ]);
    }
    r
}

/// The flat triangle index buffer of the rectangle: the two triangles
/// `(0, 1, 2)` and `(1, 3, 2)`, which between them reference each of the
/// four corners.
pub fn rect_indexes() -> (r: Vec3<i16>)
    ensures
        r@ == seq![0i16, 1i16, 2i16, 1i16, 3i16, 2i16],
{
    let mut r: Vec3<i16> = Vec3::new();
    r.push_3(0, 1, 2);
    r.push_3(1, 3, 2);
    proof {
        assert(r@ =~= seq![0i16, 1i16, 2i16, 1i16, 3i16, 2i16]);
    }
    r
}

/// The texture coordinates of the rectangle, one `(u, v)` pair per corner,
/// aligned corner-for-corner with `rect_corner_signs`: `(0, 0)` at the
/// top-left, `(1, 0)` at the top-right, `(0, 1)` at the bottom-left and
/// `(1, 1)` at the bottom-right.
pub fn rect_tex_coords() -> (r: Vec<u8>)
    ensures
        r@ == seq![0u8, 0u8, 1u8, 0u8, 0u8, 1u8, 1u8, 1u8],
{
    let mut r: Vec<u8> = Vec::new();
    r.push(0);
    r.push(0);
    r.push(1);
    r.push(0);
    r.push(0);
    r.push(1);
    r.push(1);
    r.push(1);
    proof {
        assert(r@ =~= seq![0u8, 0u8, 1u8, 0u8, 0u8, 1u8, 1u8, 1u8]);
    }
    r
}

} // verus!
