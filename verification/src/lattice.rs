//! Seamless lattice wrapping and the wrapped-cell hashes used by the noise
//! kernels.
//!
//! A sampler at integer frequency `p` reduces every lattice cell into
//! `[0, p)` per axis with the Euclidean (always-non-negative) remainder
//! before hashing it, so cells one period apart hash identically and the
//! noise tiles.  The tiling lemmas at the bottom state exactly that.

use vstd::prelude::*;

use crate::hash::{hash_ivec2, hash_ivec3, lattice_hash_2d, lattice_hash_3d, mix3};
use crate::random::hash::{mix4, pcg_33, pcg_44};
use crate::vecs::{IVec2, IVec3, UVec3, UVec4};

use vstd::arithmetic::div_mod::{
    lemma_fundamental_div_mod, lemma_fundamental_div_mod_converse, lemma_mod_bound,
    lemma_mod_multiples_vanish,
};

verus! {

/// Euclidean remainder of a signed coordinate against a positive period:
/// the unique representative of `v` in `[0, p)` modulo `p`.
pub fn wrap_euclid(v: i32, p: i32) -> (r: i32)
    requires
        p > 0,
    ensures
        r == v as int % p as int,
        0 <= r < p,
{
    proof {
        lemma_mod_bound(v as int, p as int);
    }
    if v >= 0 {
        let r = (v as u32) % (p as u32);
        r as i32
    } else {
        let n64: i64 = -(v as i64);
        let n: u32 = n64 as u32;
        let m = n % (p as u32);
        proof {
            lemma_fundamental_div_mod(n as int, p as int);
            let q = n as int / p as int;
            if m == 0 {
                assert(v as int == (-q) * (p as int) + 0) by (nonlinear_arith)
                    requires
                        n as int == (p as int) * q + m,
                        m == 0,
                        v as int == -(n as int),
                ;
                lemma_fundamental_div_mod_converse(v as int, p as int, -q, 0);
            } else {
                assert(v as int == (-q - 1) * (p as int) + (p - m)) by (nonlinear_arith)
                    requires
                        n as int == (p as int) * q + m,
                        v as int == -(n as int),
                ;
                lemma_fundamental_div_mod_converse(v as int, p as int, -q - 1, p - m);
            }
        }
        if m == 0 {
            0
        } else {
            (p as u32 - m) as i32
        }
    }
}

/// A 3D cell wrapped into `[0, p)` on every axis.
pub open spec fn wrap_cell_3d_spec(v: IVec3, p: int) -> IVec3 {
    IVec3 {
        x: (v.x as int % p) as i32,
        y: (v.y as int % p) as i32,
        z: (v.z as int % p) as i32,
    }
}

/// A 2D cell wrapped into `[0, p)` on both axes.
pub open spec fn wrap_cell_2d_spec(v: IVec2, p: int) -> IVec2 {
    IVec2 { x: (v.x as int % p) as i32, y: (v.y as int % p) as i32 }
}

/// Wrap a 3D lattice cell into the period, axis by axis.
pub fn wrap_cell_3d(v: IVec3, p: i32) -> (r: IVec3)
    requires
        p > 0,
    ensures
        r == wrap_cell_3d_spec(v, p as int),
        0 <= r.x < p,
        0 <= r.y < p,
        0 <= r.z < p,
{
    IVec3 { x: wrap_euclid(v.x, p), y: wrap_euclid(v.y, p), z: wrap_euclid(v.z, p) }
}

/// Wrap a 2D lattice cell into the period, axis by axis.
pub fn wrap_cell_2d(v: IVec2, p: i32) -> (r: IVec2)
    requires
        p > 0,
    ensures
        r == wrap_cell_2d_spec(v, p as int),
        0 <= r.x < p,
        0 <= r.y < p,
{
    IVec2 { x: wrap_euclid(v.x, p), y: wrap_euclid(v.y, p) }
}

/// The gradient-corner hash of a 3D cell: wrap, hash, keep the low nibble,
/// and shift by the seed.  The nibble selects the corner gradient.
pub open spec fn gradient_hash_3d_spec(cell: IVec3, p: int, seed: u32) -> u32 {
    (lattice_hash_3d(wrap_cell_3d_spec(cell, p)) & 15u32).wrapping_add(seed)
}

/// The gradient-corner hash of a 2D cell.
pub open spec fn gradient_hash_2d_spec(cell: IVec2, p: int, seed: u32) -> u32 {
    (lattice_hash_2d(wrap_cell_2d_spec(cell, p)) & 15u32).wrapping_add(seed)
}

/// The feature-point hash of a 3D cell: wrap, hash, and shift by the seed.
/// It seeds the pseudorandom feature point of cellular noise.
pub open spec fn feature_hash_3d_spec(cell: IVec3, p: int, seed: u32) -> u32 {
    lattice_hash_3d(wrap_cell_3d_spec(cell, p)).wrapping_add(seed)
}

/// The feature-point hash of a 2D cell.
pub open spec fn feature_hash_2d_spec(cell: IVec2, p: int, seed: u32) -> u32 {
    lattice_hash_2d(wrap_cell_2d_spec(cell, p)).wrapping_add(seed)
}

/// The cell-strength hash of a 3D cell: wrap, then mix the three wrapped
/// components and the seed into four pseudorandom words (offset and strength).
pub open spec fn cell_hash_3d_spec(cell: IVec3, p: int, seed: u32) -> UVec4 {
    let w = wrap_cell_3d_spec(cell, p);
    mix4(UVec4 { x: w.x as u32, y: w.y as u32, z: w.z as u32, w: seed })
}

/// The cell-strength hash of a 2D cell: three pseudorandom words from the
/// two wrapped components and the seed.
pub open spec fn cell_hash_2d_spec(cell: IVec2, p: int, seed: u32) -> UVec3 {
    let w = wrap_cell_2d_spec(cell, p);
    mix3(UVec3 { x: w.x as u32, y: w.y as u32, z: seed })
}

/// Gradient-corner hash (`gradient_hash_3d_spec`), executable form.
pub fn gradient_hash_3d(cell: IVec3, p: i32, seed: u32) -> (r: u32)
    requires
        p > 0,
    ensures
        r == gradient_hash_3d_spec(cell, p as int, seed),
{
    (hash_ivec3(wrap_cell_3d(cell, p)) & 15u32).wrapping_add(seed)
}

/// Gradient-corner hash (`gradient_hash_2d_spec`), executable form.
pub fn gradient_hash_2d(cell: IVec2, p: i32, seed: u32) -> (r: u32)
    requires
        p > 0,
    ensures
        r == gradient_hash_2d_spec(cell, p as int, seed),
{
    (hash_ivec2(wrap_cell_2d(cell, p)) & 15u32).wrapping_add(seed)
}

/// Feature-point hash (`feature_hash_3d_spec`), executable form.
pub fn feature_hash_3d(cell: IVec3, p: i32, seed: u32) -> (r: u32)
    requires
        p > 0,
    ensures
        r == feature_hash_3d_spec(cell, p as int, seed),
{
    hash_ivec3(wrap_cell_3d(cell, p)).wrapping_add(seed)
}

/// Feature-point hash (`feature_hash_2d_spec`), executable form.
pub fn feature_hash_2d(cell: IVec2, p: i32, seed: u32) -> (r: u32)
    requires
        p > 0,
    ensures
        r == feature_hash_2d_spec(cell, p as int, seed),
{
    hash_ivec2(wrap_cell_2d(cell, p)).wrapping_add(seed)
}

/// Cell-strength hash (`cell_hash_3d_spec`), executable form.
pub fn cell_hash_3d(cell: IVec3, p: i32, seed: u32) -> (r: UVec4)
    requires
        p > 0,
    ensures
        r == cell_hash_3d_spec(cell, p as int, seed),
{
    let w = wrap_cell_3d(cell, p);
    pcg_44(UVec4 { x: w.x as u32, y: w.y as u32, z: w.z as u32, w: seed })
}

/// Cell-strength hash (`cell_hash_2d_spec`), executable form.
pub fn cell_hash_2d(cell: IVec2, p: i32, seed: u32) -> (r: UVec3)
    requires
        p > 0,
    ensures
        r == cell_hash_2d_spec(cell, p as int, seed),
{
    let w = wrap_cell_2d(cell, p);
    pcg_33(UVec3 { x: w.x as u32, y: w.y as u32, z: seed })
}

/// Moving a coordinate by a whole period does not change its wrapped value.
pub proof fn lemma_wrap_periodic(v: int, p: int)
    requires
        p > 0,
    ensures
        (v + p) % p == v % p,
        (v - p) % p == v % p,
{
    lemma_mod_multiples_vanish(1, v, p);
    lemma_mod_multiples_vanish(-1, v, p);
}

/// Whether `b` is `a` moved by zero or one whole period `p`.
pub open spec fn shifted_by_period(a: int, b: int, p: int) -> bool {
    b == a || b == a + p || b == a - p
}

/// Moving a 3D cell by one whole period along any set of axes leaves the
/// wrapped cell unchanged.
pub proof fn lemma_wrap_cell_3d_periodic(cell: IVec3, shifted: IVec3, p: int)
    requires
        p > 0,
        shifted_by_period(cell.x as int, shifted.x as int, p),
        shifted_by_period(cell.y as int, shifted.y as int, p),
        shifted_by_period(cell.z as int, shifted.z as int, p),
    ensures
        wrap_cell_3d_spec(shifted, p) == wrap_cell_3d_spec(cell, p),
{
    lemma_wrap_periodic(cell.x as int, p);
    lemma_wrap_periodic(cell.y as int, p);
    lemma_wrap_periodic(cell.z as int, p);
}

/// Moving a 2D cell by one whole period along any set of axes leaves the
/// wrapped cell unchanged.
pub proof fn lemma_wrap_cell_2d_periodic(cell: IVec2, shifted: IVec2, p: int)
    requires
        p > 0,
        shifted_by_period(cell.x as int, shifted.x as int, p),
        shifted_by_period(cell.y as int, shifted.y as int, p),
    ensures
        wrap_cell_2d_spec(shifted, p) == wrap_cell_2d_spec(cell, p),
{
    lemma_wrap_periodic(cell.x as int, p);
    lemma_wrap_periodic(cell.y as int, p);
}

/// Gradient noise tiles: the corner hash behind every gradient is unchanged
/// when the cell moves by one whole period along any axis, for every seed.
pub proof fn lemma_gradient_hash_3d_tiles(cell: IVec3, shifted: IVec3, p: int, seed: u32)
    requires
        p > 0,
        shifted_by_period(cell.x as int, shifted.x as int, p),
        shifted_by_period(cell.y as int, shifted.y as int, p),
        shifted_by_period(cell.z as int, shifted.z as int, p),
    ensures
        gradient_hash_3d_spec(shifted, p, seed) == gradient_hash_3d_spec(cell, p, seed),
{
    lemma_wrap_cell_3d_periodic(cell, shifted, p);
}

/// Cellular noise tiles: the feature-point hash of a cell is unchanged when
/// the cell moves by one whole period along any axis, for every seed.
pub proof fn lemma_feature_hash_3d_tiles(cell: IVec3, shifted: IVec3, p: int, seed: u32)
    requires
        p > 0,
        shifted_by_period(cell.x as int, shifted.x as int, p),
        shifted_by_period(cell.y as int, shifted.y as int, p),
        shifted_by_period(cell.z as int, shifted.z as int, p),
    ensures
        feature_hash_3d_spec(shifted, p, seed) == feature_hash_3d_spec(cell, p, seed),
{
    lemma_wrap_cell_3d_periodic(cell, shifted, p);
}

} // verus!
