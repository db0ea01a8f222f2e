//! Verified core of a 2D Ising model simulator: a spin lattice with periodic
//! boundary conditions, a precomputed integer acceptance-probability table,
//! and a Metropolis single-spin-flip sweep driven by a deterministic
//! pseudo-random source.
//!
//! The sweep dynamics are specified exactly: the final lattice of a run is a
//! mathematical function of the initial lattice, the random-source state, the
//! acceptance table, and the step count, so seeded runs are reproducible by
//! contract. Only the acceptance thresholds themselves — real exponentials of
//! the inverse temperature — are computed outside and validated on the way
//! in.

pub mod lattice;
pub mod rng;
pub mod sim;
pub mod table;
