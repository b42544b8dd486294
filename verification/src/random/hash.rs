//! PCG word mixers over one to four lanes.
//!
//! `pcg_11` and `pcg_33` are the single- and triple-lane mixers of the hash
//! engine; `pcg_44` extends the same scheme to four lanes, and the folding
//! variants reduce several lanes to a single word by chaining `mix1`.

use vstd::prelude::*;

use crate::hash::{mix1, mix3};
use crate::vecs::{UVec3, UVec4};

verus! {

/// Fold three lanes into one word by chaining the single-word mixer.
pub open spec fn mix3_fold(v: UVec3) -> u32 {
    mix1(v.x.wrapping_add(mix1(v.y.wrapping_add(mix1(v.z)))))
}

/// Fold four lanes into one word by chaining the single-word mixer.
pub open spec fn mix4_fold(v: UVec4) -> u32 {
    mix1(v.x.wrapping_add(mix1(v.y.wrapping_add(mix1(v.z.wrapping_add(mix1(v.w)))))))
}

/// Four-lane mix: an LCG step per lane, then two rounds of pairwise lane
/// products with an xorshift in between (`mix4` of the hash engine).
pub open spec fn mix4(v: UVec4) -> UVec4 {
    let x0 = v.x.wrapping_mul(1664525u32).wrapping_add(1013904223u32);
    let y0 = v.y.wrapping_mul(1664525u32).wrapping_add(1013904223u32);
    let z0 = v.z.wrapping_mul(1664525u32).wrapping_add(1013904223u32);
    let w0 = v.w.wrapping_mul(1664525u32).wrapping_add(1013904223u32);
    let x1 = x0.wrapping_add(y0.wrapping_mul(w0));
    let y1 = y0.wrapping_add(z0.wrapping_mul(x1));
    let z1 = z0.wrapping_add(x1.wrapping_mul(y1));
    let w1 = w0.wrapping_add(y1.wrapping_mul(z1));
    let x2 = x1 ^ (x1 >> 16u32);
    let y2 = y1 ^ (y1 >> 16u32);
    let z2 = z1 ^ (z1 >> 16u32);
    let w2 = w1 ^ (w1 >> 16u32);
    let x3 = x2.wrapping_add(y2.wrapping_mul(w2));
    let y3 = y2.wrapping_add(z2.wrapping_mul(x3));
    let z3 = z2.wrapping_add(x3.wrapping_mul(y3));
    let w3 = w2.wrapping_add(y3.wrapping_mul(z3));
    UVec4 { x: x3, y: y3, z: z3, w: w3 }
}

/// Single-word avalanche mix (`mix1`), executable form.
pub fn pcg_11(v: u32) -> (r: u32)
    ensures
        r == mix1(v),
{
    let state = v.wrapping_mul(747796405u32).wrapping_add(2891336453u32);
    let shift = (state >> 28u32).wrapping_add(4u32);
    assert((state >> 28u32) < 16u32) by (bit_vector);
    let word = ((state >> shift) ^ state).wrapping_mul(277803737u32);
    (word >> 22u32) ^ word
}

/// Fold three lanes into one word (`mix3_fold`), executable form.
pub fn pcg_31(v: UVec3) -> (r: u32)
    ensures
        r == mix3_fold(v),
{
    pcg_11(v.x.wrapping_add(pcg_11(v.y.wrapping_add(pcg_11(v.z)))))
}

/// Three-lane mix (`mix3`), executable form.
pub fn pcg_33(v: UVec3) -> (r: UVec3)
    ensures
        r == mix3(v),
{
    crate::hash::pcg_3d(v)
}

/// Fold four lanes into one word (`mix4_fold`), executable form.
pub fn pcg_41(v: UVec4) -> (r: u32)
    ensures
        r == mix4_fold(v),
{
    pcg_11(v.x.wrapping_add(pcg_11(v.y.wrapping_add(pcg_11(v.z.wrapping_add(pcg_11(v.w)))))))
}

/// Four-lane mix (`mix4`), executable form.
pub fn pcg_44(v: UVec4) -> (r: UVec4)
    ensures
        r == mix4(v),
{
    let x0 = v.x.wrapping_mul(1664525u32).wrapping_add(1013904223u32);
    let y0 = v.y.wrapping_mul(1664525u32).wrapping_add(1013904223u32);
    let z0 = v.z.wrapping_mul(1664525u32).wrapping_add(1013904223u32);
    let w0 = v.w.wrapping_mul(1664525u32).wrapping_add(1013904223u32);
    let x1 = x0.wrapping_add(y0.wrapping_mul(w0));
    let y1 = y0.wrapping_add(z0.wrapping_mul(x1));
    let z1 = z0.wrapping_add(x1.wrapping_mul(y1));
    let w1 = w0.wrapping_add(y1.wrapping_mul(z1));
    let x2 = x1 ^ (x1 >> 16u32);
    let y2 = y1 ^ (y1 >> 16u32);
    let z2 = z1 ^ (z1 >> 16u32);
    let w2 = w1 ^ (w1 >> 16u32);
    let x3 = x2.wrapping_add(y2.wrapping_mul(w2));
    let y3 = y2.wrapping_add(z2.wrapping_mul(x3));
    let z3 = z2.wrapping_add(x3.wrapping_mul(y3));
    let w3 = w2.wrapping_add(y3.wrapping_mul(z3));
    UVec4 { x: x3, y: y3, z: z3, w: w3 }
}

} // verus!
