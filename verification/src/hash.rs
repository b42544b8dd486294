//! The lattice hash engine: PCG-style avalanche mixers turning lattice
//! coordinates and seeds into pseudorandom 32-bit words.
//!
//! Every mixer is a total function of its input, specified bit-exactly by a
//! spec function of the same shape, so two evaluations on the same input are
//! provably identical and noise built on top of them is reproducible.

use vstd::prelude::*;

use crate::index::{lemma_linear_index_bound, linear_index};
use crate::vecs::{IVec2, IVec3, UVec2, UVec3};

verus! {

/// Single-word avalanche mix: a multiply-add state step followed by a
/// variable xorshift and a final multiply-xorshift scramble.
pub open spec fn mix1(v: u32) -> u32 {
    let state = v.wrapping_mul(747796405u32).wrapping_add(2891336453u32);
    let word = ((state >> (state >> 28u32).wrapping_add(4u32)) ^ state).wrapping_mul(277803737u32);
    (word >> 22u32) ^ word
}

/// Single-word avalanche mix (`mix1`), executable form.
pub fn pcg_1d(v: u32) -> (r: u32)
    ensures
        r == mix1(v),
{
    let state = v.wrapping_mul(747796405u32).wrapping_add(2891336453u32);
    let shift = (state >> 28u32).wrapping_add(4u32);
    assert((state >> 28u32) < 16u32) by (bit_vector);
    let word = ((state >> shift) ^ state).wrapping_mul(277803737u32);
    (word >> 22u32) ^ word
}

/// Hashing is deterministic: any two results of the single-word mixer on
/// the same input are equal, so repeated evaluation of a seeded sampler
/// reproduces its output bit for bit.
pub proof fn lemma_mix1_deterministic(v: u32, r1: u32, r2: u32)
    requires
        r1 == mix1(v),
        r2 == mix1(v),
    ensures
        r1 == r2,
{
}

/// The lattice-coordinate hash is deterministic: any two results on the
/// same coordinate are equal.
pub proof fn lemma_lattice_hash_3d_deterministic(v: IVec3, r1: u32, r2: u32)
    requires
        r1 == lattice_hash_3d(v),
        r2 == lattice_hash_3d(v),
    ensures
        r1 == r2,
{
}

/// Two-lane mix: an LCG step per lane, then two rounds of cross-lane
/// feedback and xorshift so each output lane depends on both input lanes.
pub open spec fn mix2(v: UVec2) -> UVec2 {
    let x0 = v.x.wrapping_mul(1664525u32).wrapping_add(1013904223u32);
    let y0 = v.y.wrapping_mul(1664525u32).wrapping_add(1013904223u32);
    let x1 = x0.wrapping_add(y0.wrapping_mul(1664525u32));
    let y1 = y0.wrapping_add(x1.wrapping_mul(1664525u32));
    let x2 = x1 ^ (x1 >> 16u32);
    let y2 = y1 ^ (y1 >> 16u32);
    let x3 = x2.wrapping_add(y2.wrapping_mul(1664525u32));
    let y3 = y2.wrapping_add(x3.wrapping_mul(1664525u32));
    UVec2 { x: x3 ^ (x3 >> 16u32), y: y3 ^ (y3 >> 16u32) }
}

/// Two-lane mix (`mix2`), executable form.
pub fn pcg_2d(v: UVec2) -> (r: UVec2)
    ensures
        r == mix2(v),
{
    let x0 = v.x.wrapping_mul(1664525u32).wrapping_add(1013904223u32);
    let y0 = v.y.wrapping_mul(1664525u32).wrapping_add(1013904223u32);
    let x1 = x0.wrapping_add(y0.wrapping_mul(1664525u32));
    let y1 = y0.wrapping_add(x1.wrapping_mul(1664525u32));
    let x2 = x1 ^ (x1 >> 16u32);
    let y2 = y1 ^ (y1 >> 16u32);
    let x3 = x2.wrapping_add(y2.wrapping_mul(1664525u32));
    let y3 = y2.wrapping_add(x3.wrapping_mul(1664525u32));
    UVec2 { x: x3 ^ (x3 >> 16u32), y: y3 ^ (y3 >> 16u32) }
}

/// Three-lane mix: an LCG step per lane, then two rounds of pairwise lane
/// products and an xorshift in between (`mix3` of the hash engine).
pub open spec fn mix3(v: UVec3) -> UVec3 {
    let x0 = v.x.wrapping_mul(1664525u32).wrapping_add(1013904223u32);
    let y0 = v.y.wrapping_mul(1664525u32).wrapping_add(1013904223u32);
    let z0 = v.z.wrapping_mul(1664525u32).wrapping_add(1013904223u32);
    let x1 = x0.wrapping_add(y0.wrapping_mul(z0));
    let y1 = y0.wrapping_add(z0.wrapping_mul(x1));
    let z1 = z0.wrapping_add(x1.wrapping_mul(y1));
    let x2 = x1 ^ (x1 >> 16u32);
    let y2 = y1 ^ (y1 >> 16u32);
    let z2 = z1 ^ (z1 >> 16u32);
    let x3 = x2.wrapping_add(y2.wrapping_mul(z2));
    let y3 = y2.wrapping_add(z2.wrapping_mul(x3));
    let z3 = z2.wrapping_add(x3.wrapping_mul(y3));
    UVec3 { x: x3, y: y3, z: z3 }
}

/// Three-lane mix (`mix3`), executable form.
pub fn pcg_3d(v: UVec3) -> (r: UVec3)
    ensures
        r == mix3(v),
{
    let x0 = v.x.wrapping_mul(1664525u32).wrapping_add(1013904223u32);
    let y0 = v.y.wrapping_mul(1664525u32).wrapping_add(1013904223u32);
    let z0 = v.z.wrapping_mul(1664525u32).wrapping_add(1013904223u32);
    let x1 = x0.wrapping_add(y0.wrapping_mul(z0));
    let y1 = y0.wrapping_add(z0.wrapping_mul(x1));
    let z1 = z0.wrapping_add(x1.wrapping_mul(y1));
    let x2 = x1 ^ (x1 >> 16u32);
    let y2 = y1 ^ (y1 >> 16u32);
    let z2 = z1 ^ (z1 >> 16u32);
    let x3 = x2.wrapping_add(y2.wrapping_mul(z2));
    let y3 = y2.wrapping_add(z2.wrapping_mul(x3));
    let z3 = z2.wrapping_add(x3.wrapping_mul(y3));
    UVec3 { x: x3, y: y3, z: z3 }
}

/// Lane salts that split one hash word into two independent component words.
pub open spec fn rand_words_2d_spec(v: u32) -> UVec2 {
    UVec2 { x: mix1(v ^ 0xA53C9A1Fu32), y: mix1(v ^ 0xC2B2AE35u32) }
}

/// Lane salts that split one hash word into three independent component words.
pub open spec fn rand_words_3d_spec(v: u32) -> UVec3 {
    UVec3 {
        x: mix1(v ^ 0xA53C9A1Fu32),
        y: mix1(v ^ 0xC2B2AE35u32),
        z: mix1(v ^ 0x27D4EB2Fu32),
    }
}

/// The two pseudorandom component words behind a random 2-vector: the input
/// word is salted per lane and remixed, so the lanes decorrelate.
pub fn rand_words_2d(v: u32) -> (r: UVec2)
    ensures
        r == rand_words_2d_spec(v),
{
    UVec2 { x: pcg_1d(v ^ 0xA53C9A1Fu32), y: pcg_1d(v ^ 0xC2B2AE35u32) }
}

/// The three pseudorandom component words behind a random 3-vector.
pub fn rand_words_3d(v: u32) -> (r: UVec3)
    ensures
        r == rand_words_3d_spec(v),
{
    UVec3 {
        x: pcg_1d(v ^ 0xA53C9A1Fu32),
        y: pcg_1d(v ^ 0xC2B2AE35u32),
        z: pcg_1d(v ^ 0x27D4EB2Fu32),
    }
}

/// The per-voxel seed is the voxel's linear slot in the grid.
pub fn per_pixel_seed(xyz: UVec3, size: UVec3) -> (r: u32)
    requires
        xyz.x < size.x,
        xyz.y < size.y,
        xyz.z < size.z,
        size.x * size.y * size.z <= u32::MAX,
    ensures
        r == linear_index(xyz.x as int, xyz.y as int, xyz.z as int, size.x as int, size.y as int),
        r < size.x * size.y * size.z,
{
    proof {
        lemma_linear_index_bound(
            xyz.x as int,
            xyz.y as int,
            xyz.z as int,
            size.x as int,
            size.y as int,
            size.z as int,
        );
        assert(xyz.y * size.x <= linear_index(
            xyz.x as int,
            xyz.y as int,
            xyz.z as int,
            size.x as int,
            size.y as int,
        )) by (nonlinear_arith)
            requires
                xyz.z >= 0,
                size.x > 0,
                size.y > 0,
                xyz.x >= 0,
        ;
        assert(size.x * size.y * size.z <= u32::MAX);
        assert(size.x * size.y <= size.x * size.y * size.z) by (nonlinear_arith)
            requires
                size.z >= 1,
                size.x >= 0,
                size.y >= 0,
        ;
        assert(xyz.z * (size.x * size.y) <= linear_index(
            xyz.x as int,
            xyz.y as int,
            xyz.z as int,
            size.x as int,
            size.y as int,
        )) by (nonlinear_arith)
            requires
                xyz.y >= 0,
                xyz.x >= 0,
                size.x > 0,
        ;
    }
    xyz.x + xyz.y * size.x + xyz.z * (size.x * size.y)
}

/// One round of the coordinate-folding hash: fold one component into the
/// accumulator with golden-ratio and shift feedback.
pub open spec fn fold_component(h: u32, c: u32) -> u32 {
    h ^ c.wrapping_add(0x9E3779B9u32).wrapping_add(h << 6u32).wrapping_add(h >> 2u32)
}

/// The final avalanche scramble shared by the coordinate hashes.
pub open spec fn final_scramble(h: u32) -> u32 {
    let a = h ^ (h >> 16u32);
    let b = a.wrapping_mul(0x85EBCA6Bu32);
    let c = b ^ (b >> 13u32);
    let d = c.wrapping_mul(0xC2B2AE35u32);
    d ^ (d >> 16u32)
}

/// Hash of a signed 3D lattice coordinate: components are reinterpreted as
/// unsigned words, folded in order, then scrambled.
pub open spec fn lattice_hash_3d(v: IVec3) -> u32 {
    let h0 = 0xDEADBEEFu32;
    let h1 = fold_component(h0, v.x as u32);
    let h2 = fold_component(h1, v.y as u32);
    let h3 = fold_component(h2, v.z as u32);
    final_scramble(h3)
}

/// Hash of a signed 2D lattice coordinate.
pub open spec fn lattice_hash_2d(v: IVec2) -> u32 {
    let h0 = 0xDEADBEEFu32;
    let h1 = fold_component(h0, v.x as u32);
    let h2 = fold_component(h1, v.y as u32);
    final_scramble(h2)
}

/// Hash of a signed 3D lattice coordinate (`lattice_hash_3d`), executable form.
pub fn hash_ivec3(v: IVec3) -> (r: u32)
    ensures
        r == lattice_hash_3d(v),
{
    #[verifier::truncate]
    let x = v.x as u32;
    #[verifier::truncate]
    let y = v.y as u32;
    #[verifier::truncate]
    let z = v.z as u32;

    let mut h = 0xDEADBEEFu32;
    h = h ^ x.wrapping_add(0x9E3779B9u32).wrapping_add(h << 6u32).wrapping_add(h >> 2u32);
    h = h ^ y.wrapping_add(0x9E3779B9u32).wrapping_add(h << 6u32).wrapping_add(h >> 2u32);
    h = h ^ z.wrapping_add(0x9E3779B9u32).wrapping_add(h << 6u32).wrapping_add(h >> 2u32);

    h = h ^ (h >> 16u32);
    h = h.wrapping_mul(0x85EBCA6Bu32);
    h = h ^ (h >> 13u32);
    h = h.wrapping_mul(0xC2B2AE35u32);
    h = h ^ (h >> 16u32);

    h
}

/// Hash of a signed 2D lattice coordinate (`lattice_hash_2d`), executable form.
pub fn hash_ivec2(v: IVec2) -> (r: u32)
    ensures
        r == lattice_hash_2d(v),
{
    #[verifier::truncate]
    let x = v.x as u32;
    #[verifier::truncate]
    let y = v.y as u32;

    let mut h = 0xDEADBEEFu32;
    h = h ^ x.wrapping_add(0x9E3779B9u32).wrapping_add(h << 6u32).wrapping_add(h >> 2u32);
    h = h ^ y.wrapping_add(0x9E3779B9u32).wrapping_add(h << 6u32).wrapping_add(h >> 2u32);

    h = h ^ (h >> 16u32);
    h = h.wrapping_mul(0x85EBCA6Bu32);
    h = h ^ (h >> 13u32);
    h = h.wrapping_mul(0xC2B2AE35u32);
    h = h ^ (h >> 16u32);

    h
}

} // verus!
