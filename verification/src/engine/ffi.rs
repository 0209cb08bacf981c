//! The operations a host drives the engine with, over a handle that may
//! be absent. The host releases an engine by dropping its handle.

use vstd::prelude::*;
use crate::ecs::resources::DeltaTime;
use crate::ecs::schedule::System;
use crate::ecs::setup::example_cube;
use crate::ecs::systems::SpinMath;
use crate::engine::{framed, Engine};
use crate::graphics::commands::DrawCommand;
use crate::graphics::graphics::{at_least_one, init_fault, GpuProbe};
use crate::graphics::view::ViewMath;
use crate::scalar::{Mat4, Quat, Scalar, Vec3, ZERO_BITS};

verus! {

/// Makes an engine for a surface of `width` by `height` pixels. The host
/// gets a handle exactly when the renderer could be brought up, and no
/// handle otherwise.
pub fn engine_init(width: u32, height: u32, probe: GpuProbe) -> (handle: Option<Box<Engine>>)
    ensures
        handle is Some <==> init_fault(probe) is None,
        handle matches Some(engine) ==> {
            &&& engine@.world.entities == seq![example_cube()]
            &&& engine@.world.delta_time == Some(DeltaTime(Scalar { bits: ZERO_BITS }))
            &&& engine@.schedule == seq![System::Spin]
            &&& engine@.graphics.is_ready()
            &&& engine@.graphics.surface_config.width == at_least_one(width)
            &&& engine@.graphics.surface_config.height == at_least_one(height)
        },
{
    match Engine::new(width, height, probe) {
        Ok(engine) => Some(Box::new(engine)),
        Err(_) => None,
    }
}

/// Advances the engine behind `handle` by one frame and returns the
/// commands that draw it. Without an engine nothing happens and there is
/// nothing to draw.
pub fn engine_frame<T, Y, C, R, P, L, M, X>(
    handle: Option<&mut Engine>,
    dt_seconds: Scalar,
    spin: &SpinMath<T, Y, C>,
    view: &ViewMath<R, P, L, M, X>,
) -> (plan: Vec<DrawCommand>) where
    T: Fn(Scalar, Scalar) -> Scalar,
    Y: Fn(Scalar) -> Quat,
    C: Fn(Quat, Quat) -> Quat,
    R: Fn(u32, u32) -> Scalar,
    P: Fn(Scalar, Scalar, Scalar, Scalar) -> Mat4,
    L: Fn(Vec3, Vec3, Vec3) -> Mat4,
    M: Fn(Vec3, Quat, Vec3) -> Mat4,
    X: Fn(Mat4, Mat4) -> Mat4,

    requires
        spin.total(),
        view.total(),
    ensures
        match handle {
            Some(engine) => framed(
                spin.turning(),
                view.showing(),
                dt_seconds,
                engine@,
                final(engine)@,
                plan@,
            ),
            None => plan@.len() == 0,
        },
{
    match handle {
        Some(engine) => engine.frame(dt_seconds, spin, view),
        None => Vec::new(),
    }
}

} // verus!
