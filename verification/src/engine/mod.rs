//! The engine: the store, the schedule and the renderer, advanced together
//! one frame at a time.

pub mod ffi;

use vstd::prelude::*;
use crate::ecs::components::Transform3D;
use crate::ecs::resources::DeltaTime;
use crate::ecs::schedule::{lemma_run_turns_only, ran, Schedule, System};
use crate::ecs::setup::{example_cube, example_setup_world};
use crate::ecs::world::{lemma_tagged_after_turning, tagged, World, WorldView};
use crate::ecs::systems::SpinMath;
use crate::graphics::camera::CameraParams;
use crate::graphics::commands::DrawCommand;
use crate::graphics::graphics::{
    at_least_one,
    draws_all,
    init_fault,
    GpuProbe,
    Graphics,
    GraphicsView,
    InitFault,
};
use crate::graphics::view::ViewMath;
use crate::scalar::{Mat4, Quat, Scalar, Vec3, ZERO_BITS};

verus! {

/// What an engine holds.
pub struct EngineView {
    pub world: WorldView,
    pub schedule: Seq<System>,
    pub graphics: GraphicsView,
}

/// The game loop's state: the store, the schedule that advances it and the
/// renderer that draws it.
pub struct Engine {
    world: World,
    schedule: Schedule,
    graphics: Graphics,
}

impl View for Engine {
    type V = EngineView;

    closed spec fn view(&self) -> EngineView {
        EngineView { world: self.world@, schedule: self.schedule@, graphics: self.graphics@ }
    }
}

/// What one frame of `seconds` does to an engine, and the commands it
/// yields, where `turns` says which rotations a spin may lead to and
/// `shows` which matrices show a transform. First the delta time is set to
/// `seconds`. Then the schedule runs its systems against the store. Then
/// the renderer draws the store as the systems left it. Schedule and
/// renderer stay as they were.
pub open spec fn framed(
    turns: spec_fn(Scalar, Scalar, Quat, Quat) -> bool,
    shows: spec_fn(CameraParams, u32, u32, Transform3D, Mat4) -> bool,
    seconds: Scalar,
    before: EngineView,
    after: EngineView,
    plan: Seq<DrawCommand>,
) -> bool {
    &&& after.schedule == before.schedule
    &&& after.graphics == before.graphics
    &&& ran(
        turns,
        before.schedule,
        WorldView { entities: before.world.entities, delta_time: Some(DeltaTime(seconds)) },
        after.world,
    )
    &&& draws_all(shows, after.graphics, tagged(after.world.entities), plan)
}

/// A frame draws what was drawable when it began. It leaves every entity
/// as it was but for the rotation, and untouched if the entity does not
/// spin; and its commands hold one draw for each entity that carried the
/// cube tag and a transform before the frame, and no other.
pub proof fn lemma_frame_draws_the_tagged(
    turns: spec_fn(Scalar, Scalar, Quat, Quat) -> bool,
    shows: spec_fn(CameraParams, u32, u32, Transform3D, Mat4) -> bool,
    seconds: Scalar,
    before: EngineView,
    after: EngineView,
    plan: Seq<DrawCommand>,
)
    requires
        framed(turns, shows, seconds, before, after, plan),
    ensures
        after.world.entities.len() == before.world.entities.len(),
        after.world.delta_time == Some(DeltaTime(seconds)),
        forall|i: int|
            0 <= i < before.world.entities.len() ==> (
            #[trigger] before.world.entities[i]).turned_into(after.world.entities[i]),
        plan.len() == 8 + 3 * tagged(before.world.entities).len(),
        forall|j: int|
            0 <= j < tagged(before.world.entities).len() ==> (#[trigger] tagged(
                after.world.entities,
            )[j]).0 == tagged(before.world.entities)[j].0,
{
    let started = WorldView {
        entities: before.world.entities,
        delta_time: Some(DeltaTime(seconds)),
    };
    lemma_run_turns_only(turns, before.schedule, started, after.world);
    lemma_tagged_after_turning(before.world.entities, after.world.entities);
}

impl Engine {
    /// Builds the engine for a surface of `width` by `height` pixels: the
    /// starting scene, its schedule, and a renderer brought up from
    /// `probe`. Fails exactly when the renderer cannot be brought up, with
    /// the renderer's fault.
    pub fn new(width: u32, height: u32, probe: GpuProbe) -> (made: Result<Engine, InitFault>)
        ensures
            match init_fault(probe) {
                Some(fault) => made == Err::<Engine, InitFault>(fault),
                None => {
                    &&& made matches Ok(engine)
                    &&& engine@.world.entities == seq![example_cube()]
                    &&& engine@.world.delta_time == Some(DeltaTime(Scalar { bits: ZERO_BITS }))
                    &&& engine@.schedule == seq![System::Spin]
                    &&& engine@.graphics.is_ready()
                    &&& engine@.graphics.surface_config.width == at_least_one(width)
                    &&& engine@.graphics.surface_config.height == at_least_one(height)
                },
            },
    {
        let (world, schedule) = example_setup_world();
        match Graphics::new_from_layer(width, height, probe) {
            Ok(graphics) => Ok(Engine { world, schedule, graphics }),
            Err(fault) => Err(fault),
        }
    }

    /// The store.
    pub fn world(&self) -> (world: &World)
        ensures
            world@ == self@.world,
    {
        &self.world
    }

    /// The schedule.
    pub fn schedule(&self) -> (schedule: &Schedule)
        ensures
            schedule@ == self@.schedule,
    {
        &self.schedule
    }

    /// The renderer.
    pub fn graphics(&self) -> (graphics: &Graphics)
        ensures
            graphics@ == self@.graphics,
    {
        &self.graphics
    }

    /// Advances the engine by one frame of `dt_seconds` and returns the
    /// commands that draw it.
    pub fn frame<T, Y, C, R, P, L, M, X>(
        &mut self,
        dt_seconds: Scalar,
        spin: &SpinMath<T, Y, C>,
        view: &ViewMath<R, P, L, M, X>,
    ) -> (plan: Vec<DrawCommand>) where
        T: Fn(Scalar, Scalar) -> Scalar,
        Y: Fn(Scalar) -> Quat,
        C: Fn(Quat, Quat) -> Quat,
        R: Fn(u32, u32) -> Scalar,
        P: Fn(Scalar, Scalar, Scalar, Scalar) -> Mat4,
        L: Fn(Vec3, Vec3, Vec3) -> Mat4,
        M: Fn(Vec3, Quat, Vec3) -> Mat4,
        X: Fn(Mat4, Mat4) -> Mat4,

        requires
            spin.total(),
            view.total(),
        ensures
            framed(spin.turning(), view.showing(), dt_seconds, old(self)@, final(self)@, plan@),
    {
        self.world.insert_resource(DeltaTime(dt_seconds));
        self.schedule.run(&mut self.world, spin);
        self.graphics.draw_world(&self.world, view)
    }
}

} // verus!
