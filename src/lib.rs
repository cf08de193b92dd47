//! Verified core of a particle simulation: the countdown timers that pace
//! spawners, the spawner registry with its stable handles, the per-frame
//! emission decisions, the order-preserving cull of faded particles, and the
//! colour sampling of new particles.
//!
//! The floating-point physics (positions, velocities, sizes and the countdown
//! values themselves) is kept by the host side; it hands this crate the outcome
//! of each comparison and applies the actions this crate returns.

pub mod cull;
pub mod random;
pub mod registry;
pub mod spawner;
pub mod timer;

pub use cull::retain_marked;
pub use random::random_color;
pub use registry::{HandleNotFound, SpawnerRegistry};
pub use spawner::{Emission, Emitter, EmitterView};
pub use timer::{TimeAction, Timer, TimerView};
