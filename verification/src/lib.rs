//! Deterministic noise-texture substrate: integer lattice hashing, seamless
//! cell wrapping, linear-index grid addressing, and byte-pixel grid buffers.
//!
//! Floating-point noise kernels built on top of this substrate live outside
//! the verified core; everything here is exact integer and byte arithmetic,
//! specified down to the bit so that noise output is reproducible.

pub mod vecs;

pub mod index;

pub mod hash;

pub mod random;

pub mod lattice;

pub mod noisetex;

pub mod image;
