//! The GPU commands of one frame, as plain values for the host to carry
//! out in order.

use vstd::prelude::*;
use crate::scalar::Mat4;

verus! {

/// A colour as four double-precision bit patterns.
#[derive(Clone, Copy, Debug, PartialEq, Eq, Structural)]
pub struct ClearColor {
    pub r: u64,
    pub g: u64,
    pub b: u64,
    pub a: u64,
}

/// Bit pattern of the double `0.05`.
pub const CLEAR_RED_BITS: u64 = 0x3FA9_9999_9999_999A;

/// Bit pattern of the double `0.05`.
pub const CLEAR_GREEN_BITS: u64 = 0x3FA9_9999_9999_999A;

/// Bit pattern of the double `0.08`.
pub const CLEAR_BLUE_BITS: u64 = 0x3FB4_7AE1_47AE_147B;

/// Bit pattern of the double `1.0`.
pub const CLEAR_ALPHA_BITS: u64 = 0x3FF0_0000_0000_0000;

/// The dark colour every frame is cleared to.
pub open spec fn clear_color() -> ClearColor {
    ClearColor {
        r: CLEAR_RED_BITS,
        g: CLEAR_GREEN_BITS,
        b: CLEAR_BLUE_BITS,
        a: CLEAR_ALPHA_BITS,
    }
}

/// One step of drawing a frame.
#[derive(Clone, Copy, Debug, PartialEq, Eq)]
pub enum DrawCommand {
    /// Acquire the next presentable texture of the surface and open a
    /// command encoder for it.
    AcquireFrame,
    /// Begin the render pass, clearing the target to `clear`. There is no
    /// depth buffer.
    BeginPass { clear: ClearColor },
    /// Bind the render pipeline.
    SetPipeline,
    /// Bind the whole cube vertex buffer to `slot`.
    SetVertexBuffer { slot: u32 },
    /// Bind the whole cube index buffer, as 16-bit indices.
    SetIndexBuffer,
    /// Overwrite the uniform buffer, from its start, with `mvp`.
    WriteUniform { mvp: Mat4 },
    /// Bind the uniform bind group at `index`.
    SetBindGroup { index: u32 },
    /// Draw `index_count` indices starting at `first_index`, and
    /// `instances` instances starting at the first.
    DrawIndexed { first_index: u32, index_count: u32, base_vertex: i32, instances: u32 },
    /// End the render pass.
    EndPass,
    /// Submit the encoded commands to the queue.
    Submit,
    /// Present the acquired texture.
    Present,
}

} // verus!
