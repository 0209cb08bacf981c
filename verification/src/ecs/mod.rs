//! Entities, their components, and the systems that advance them.

pub mod components;
pub mod resources;
pub mod schedule;
pub mod setup;
pub mod systems;
pub mod world;

pub use components::{CubeMeshTag, SpinY, Transform3D};
pub use resources::DeltaTime;
pub use schedule::{Schedule, System};
pub use setup::example_setup_world;
pub use systems::{spin_system_3d, SpinMath};
pub use world::{Bundle, Entity, World};
