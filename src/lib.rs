//! Integer core of a seeded gradient-noise engine: the shuffled permutation
//! table, lattice hashing, the gradient set, simplex corner ordering and the
//! octave schedule. Floating-point sampling is built on top of these items.

pub mod permutation;
pub mod simplex;
pub mod gradient;
pub mod lattice;
pub mod octaves;
