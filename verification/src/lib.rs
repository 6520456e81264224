//! Particle bookkeeping for a 2D particle system: a column store of particles
//! and its compaction, spawner decisions, and the extraction of particles and
//! materials into render batches.
//!
//! Scalar particle data (positions, velocities, colors, ...) is generic: the
//! library moves it around but never computes with it.
pub mod store;
pub mod compaction;
pub mod timer;
pub mod spawner;
pub mod extract;
pub mod materials;
pub mod pipeline;
