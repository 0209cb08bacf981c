//! The renderer's CPU side: what to upload and which commands to issue.

pub mod bytes;
pub mod camera;
pub mod commands;
pub mod graphics;
pub mod mesh;
pub mod view;

pub use camera::CameraParams;
pub use commands::DrawCommand;
pub use graphics::{GpuProbe, Graphics, InitFault};
pub use view::ViewMath;
