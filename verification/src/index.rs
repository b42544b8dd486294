//! Linear addressing of a W×H×D grid.
//!
//! A voxel at `(x, y, z)` lives at linear index `x + y·W + z·W·H`; decoding
//! goes through the remainder against one XY slice.  The two directions are
//! proved inverse to each other, which is what makes a grid fill write each
//! slot exactly once.

use vstd::prelude::*;

use vstd::arithmetic::div_mod::{
    lemma_fundamental_div_mod, lemma_fundamental_div_mod_converse, lemma_mod_bound,
};

verus! {

/// The linear slot of voxel `(x, y, z)` in a grid that is `w` wide and `h` high.
pub open spec fn linear_index(x: int, y: int, z: int, w: int, h: int) -> int {
    x + y * w + z * (w * h)
}

/// The x coordinate encoded in linear slot `i`.
pub open spec fn index_x(i: int, w: int, h: int) -> int {
    (i % (w * h)) % w
}

/// The y coordinate encoded in linear slot `i`.
pub open spec fn index_y(i: int, w: int, h: int) -> int {
    (i % (w * h)) / w
}

/// The z coordinate encoded in linear slot `i`.
pub open spec fn index_z(i: int, w: int, h: int) -> int {
    i / (w * h)
}

/// In-range coordinates map to an in-range linear slot.
pub proof fn lemma_linear_index_bound(x: int, y: int, z: int, w: int, h: int, d: int)
    requires
        0 <= x < w,
        0 <= y < h,
        0 <= z < d,
    ensures
        0 <= linear_index(x, y, z, w, h) < w * h * d,
{
    assert(0 <= x + y * w + z * (w * h) < w * h * d) by (nonlinear_arith)
        requires
            0 <= x < w,
            0 <= y < h,
            0 <= z < d,
    ;
}

/// Encoding in-range coordinates and decoding again recovers the coordinates.
pub proof fn lemma_index_encode(x: int, y: int, z: int, w: int, h: int, d: int)
    requires
        0 <= x < w,
        0 <= y < h,
        0 <= z < d,
    ensures
        index_x(linear_index(x, y, z, w, h), w, h) == x,
        index_y(linear_index(x, y, z, w, h), w, h) == y,
        index_z(linear_index(x, y, z, w, h), w, h) == z,
{
    let s = w * h;
    let r = x + y * w;
    let i = linear_index(x, y, z, w, h);
    assert(0 <= r < s && s > 0) by (nonlinear_arith)
        requires
            0 <= x < w,
            0 <= y < h,
            r == x + y * w,
            s == w * h,
    ;
    assert(i == z * s + r);
    lemma_fundamental_div_mod_converse(i, s, z, r);
    assert(r == y * w + x);
    lemma_fundamental_div_mod_converse(r, w, y, x);
}

/// Decoding an in-range linear slot yields in-range coordinates that encode
/// back to the same slot.
pub proof fn lemma_index_decode(i: int, w: int, h: int, d: int)
    requires
        0 < w,
        0 < h,
        0 < d,
        0 <= i < w * h * d,
    ensures
        0 <= index_x(i, w, h) < w,
        0 <= index_y(i, w, h) < h,
        0 <= index_z(i, w, h) < d,
        linear_index(index_x(i, w, h), index_y(i, w, h), index_z(i, w, h), w, h) == i,
{
    let s = w * h;
    assert(s > 0) by (nonlinear_arith)
        requires
            0 < w,
            0 < h,
            s == w * h,
    ;
    lemma_fundamental_div_mod(i, s);
    lemma_mod_bound(i, s);
    let z = i / s;
    let r = i % s;
    assert(i == s * z + r);
    assert(0 <= z < d) by (nonlinear_arith)
        requires
            i == s * z + r,
            0 <= r < s,
            0 <= i < s * d,
            s > 0,
    ;
    lemma_fundamental_div_mod(r, w);
    lemma_mod_bound(r, w);
    let y = r / w;
    let x = r % w;
    assert(r == w * y + x);
    assert(0 <= y < h) by (nonlinear_arith)
        requires
            r == w * y + x,
            0 <= x < w,
            0 <= r < s,
            s == w * h,
            w > 0,
    ;
    assert(linear_index(x, y, z, w, h) == i) by (nonlinear_arith)
        requires
            i == s * z + r,
            r == w * y + x,
            s == w * h,
    ;
}

} // verus!
