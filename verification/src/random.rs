//! Pseudorandom word generation from lattice inputs.

pub mod hash;
