//! The CPU side of a small real-time rendering engine: an entity store, a
//! one-system scheduler, the cube mesh, and the renderer's decisions about
//! what to upload and in which order to issue GPU commands.

pub mod ecs;
pub mod engine;
pub mod graphics;
pub mod scalar;
