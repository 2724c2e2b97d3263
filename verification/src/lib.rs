//! Core of a real-time N-body gravitational simulation.
//!
//! The library keeps every quantity in signed fixed-point arithmetic
//! (micro-units, see [`fixed::SCALE`]) so that the whole per-frame state
//! machine — the pairwise gravitational field solver, the edge-triggered
//! input controller and the camera/view state machine — is verified exactly.
//! The rigid-body engine that integrates velocities and resolves collisions
//! is an external collaborator: the library mirrors the engine-owned state it
//! needs (positions, masses, accumulated external forces) as plain values and
//! tells its caller which forces to hand to the engine each tick.

pub mod body;
pub mod clock;
pub mod fixed;
pub mod input;
pub mod particle;
pub mod physics;
pub mod render;
pub mod simulation;
pub mod state;
pub mod trig;
pub mod vec2;
