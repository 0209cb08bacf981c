//! The renderer: what it uploads once, and what it issues every frame.

use vstd::prelude::*;
use crate::ecs::components::Transform3D;
use crate::ecs::world::{tagged, Entity, World};
use crate::graphics::bytes::{is_short_image, is_word_image, shorts_to_bytes, words_to_bytes};
use crate::graphics::camera::{CameraParams, FAR_PLANE_BITS, NEAR_PLANE_BITS};
use crate::graphics::commands::{
    clear_color,
    ClearColor,
    DrawCommand,
    CLEAR_ALPHA_BITS,
    CLEAR_BLUE_BITS,
    CLEAR_GREEN_BITS,
    CLEAR_RED_BITS,
};
use crate::graphics::mesh::{
    cube_indices,
    cube_vertices,
    make_unit_cube_vertices_and_indices,
    pack_vertices,
    vertex_words,
    CUBE_INDEX_COUNT,
};
use crate::graphics::view::ViewMath;
use crate::scalar::{identity_words, Mat4, Quat, Scalar, Vec3};

verus! {

/// Size in bytes of the uniform buffer: one 4x4 matrix of scalars.
pub const UNIFORM_SIZE: u64 = 64;

/// Frames the presentation engine may queue ahead.
pub const FRAME_LATENCY: u32 = 2;

/// Index of the bind group that holds the uniform buffer.
pub const UNIFORM_GROUP: u32 = 0;

/// Binding of the uniform buffer within its group; the vertex stage reads
/// the matrix there.
pub const UNIFORM_BINDING: u32 = 0;

/// Slot the cube's vertex buffer is bound to.
pub const VERTEX_SLOT: u32 = 0;

/// Why the renderer could not be brought up. There is no fallback: a fault
/// ends initialization.
#[derive(Clone, Copy, Debug, PartialEq, Eq, Structural)]
pub enum InitFault {
    /// No GPU adapter suits the surface.
    NoAdapter,
    /// The adapter gave no device.
    DeviceCreation,
    /// The surface supports no colour format with the adapter, so it
    /// cannot be configured.
    SurfaceConfiguration,
}

/// How far the host got in acquiring the GPU for a surface.
#[derive(Clone, Copy, Debug, PartialEq, Eq, Structural)]
pub enum GpuProbe {
    /// No adapter was found.
    NoAdapter,
    /// An adapter was found, but it gave no device.
    NoDevice,
    /// Adapter, device and queue are there; the surface supports
    /// `surface_formats` colour formats with the adapter, in the
    /// adapter's order of preference.
    Device { surface_formats: usize },
}

/// How the surface is configured for presentation.
#[derive(Clone, Copy, Debug, PartialEq, Eq, Structural)]
pub struct SurfaceConfig {
    /// Width in pixels, at least 1.
    pub width: u32,
    /// Height in pixels, at least 1.
    pub height: u32,
    /// Which of the supported colour formats is used, by its place in the
    /// adapter's list.
    pub format: usize,
    /// Frames the presentation engine may queue ahead.
    pub desired_maximum_frame_latency: u32,
}

/// The fault that ends initialization after `probe`, if any: a missing
/// adapter, else a missing device, else a surface without a colour format.
pub open spec fn init_fault(probe: GpuProbe) -> Option<InitFault> {
    match probe {
        GpuProbe::NoAdapter => Some(InitFault::NoAdapter),
        GpuProbe::NoDevice => Some(InitFault::DeviceCreation),
        GpuProbe::Device { surface_formats } => if surface_formats == 0 {
            Some(InitFault::SurfaceConfiguration)
        } else {
            None
        },
    }
}

/// A surface dimension as it is configured: `pixels`, but never 0.
pub open spec fn at_least_one(pixels: u32) -> u32 {
    if pixels == 0 {
        1
    } else {
        pixels
    }
}

/// What a renderer holds on the CPU side.
pub struct GraphicsView {
    pub surface_config: SurfaceConfig,
    pub cube_vertex_data: Seq<u8>,
    pub cube_index_data: Seq<u8>,
    pub uniform_data: Seq<u8>,
    pub cube_index_count: u32,
    pub camera: CameraParams,
}

impl GraphicsView {
    /// The state every renderer is in: a surface of at least one pixel
    /// each way, the cube's vertices and indices and an identity matrix
    /// laid out as buffer contents, and the fixed camera.
    pub open spec fn is_ready(self) -> bool {
        &&& self.surface_config.width >= 1
        &&& self.surface_config.height >= 1
        &&& self.surface_config.format == 0
        &&& self.surface_config.desired_maximum_frame_latency == FRAME_LATENCY
        &&& is_word_image(self.cube_vertex_data, vertex_words(cube_vertices()))
        &&& is_short_image(self.cube_index_data, cube_indices())
        &&& is_word_image(self.uniform_data, identity_words())
        &&& self.cube_index_count == CUBE_INDEX_COUNT
        &&& self.camera == CameraParams::spec_fixed()
    }
}

/// The renderer's CPU side. A value of this type is a renderer that has
/// been initialized; there is no other state and no way back.
pub struct Graphics {
    surface_config: SurfaceConfig,
    cube_vertex_data: Vec<u8>,
    cube_index_data: Vec<u8>,
    uniform_data: Vec<u8>,
    cube_index_count: u32,
    camera: CameraParams,
}

impl View for Graphics {
    type V = GraphicsView;

    closed spec fn view(&self) -> GraphicsView {
        GraphicsView {
            surface_config: self.surface_config,
            cube_vertex_data: self.cube_vertex_data@,
            cube_index_data: self.cube_index_data@,
            uniform_data: self.uniform_data@,
            cube_index_count: self.cube_index_count,
            camera: self.camera,
        }
    }
}

/// The commands that open a frame's render pass and bind what every draw
/// of the pass shares.
pub open spec fn pass_prologue() -> Seq<DrawCommand> {
    seq![
        DrawCommand::AcquireFrame,
        DrawCommand::BeginPass { clear: clear_color() },
        DrawCommand::SetPipeline,
        DrawCommand::SetVertexBuffer { slot: VERTEX_SLOT },
        DrawCommand::SetIndexBuffer,
    ]
}

/// The commands that close the pass and show the frame.
pub open spec fn pass_epilogue() -> Seq<DrawCommand> {
    seq![DrawCommand::EndPass, DrawCommand::Submit, DrawCommand::Present]
}

/// The three commands that draw one entity, where `shows(camera, width,
/// height, transform, mvp)` says which matrices show a transform:
/// `commands` writes a matrix that shows the entity's transform through
/// the renderer's camera on its surface, binds the uniform group, and
/// draws all of the cube's indices once.
pub open spec fn draws_one(
    shows: spec_fn(CameraParams, u32, u32, Transform3D, Mat4) -> bool,
    graphics: GraphicsView,
    transform: Transform3D,
    commands: Seq<DrawCommand>,
) -> bool {
    &&& commands.len() == 3
    &&& commands[0] matches DrawCommand::WriteUniform { mvp } && shows(
        graphics.camera,
        graphics.surface_config.width,
        graphics.surface_config.height,
        transform,
        mvp,
    )
    &&& commands[1] == (DrawCommand::SetBindGroup { index: UNIFORM_GROUP })
    &&& commands[2] == (DrawCommand::DrawIndexed {
        first_index: 0,
        index_count: graphics.cube_index_count,
        base_vertex: 0,
        instances: 1,
    })
}

/// A frame's commands for the drawable entities `subjects`: the prologue,
/// then for each subject in order its three commands, then the epilogue.
pub open spec fn draws_all(
    shows: spec_fn(CameraParams, u32, u32, Transform3D, Mat4) -> bool,
    graphics: GraphicsView,
    subjects: Seq<(Entity, Transform3D)>,
    plan: Seq<DrawCommand>,
) -> bool {
    &&& plan.len() == 5 + 3 * subjects.len() + 3
    &&& plan.subrange(0, 5) == pass_prologue()
    &&& forall|j: int|
        0 <= j < subjects.len() ==> draws_one(
            shows,
            graphics,
            (#[trigger] subjects[j]).1,
            plan.subrange(5 + 3 * j, 8 + 3 * j),
        )
    &&& plan.subrange(plan.len() - 3, plan.len() as int) == pass_epilogue()
}

/// Every draw sees the write meant for it: in a frame's commands each
/// draw directly follows a binding of the uniform group, which directly
/// follows a write of the uniform buffer, and nothing is drawn or written
/// before the pass is begun and its pipeline and buffers are bound.
pub proof fn lemma_draw_follows_write(
    shows: spec_fn(CameraParams, u32, u32, Transform3D, Mat4) -> bool,
    graphics: GraphicsView,
    subjects: Seq<(Entity, Transform3D)>,
    plan: Seq<DrawCommand>,
    at: int,
)
    requires
        draws_all(shows, graphics, subjects, plan),
        0 <= at < plan.len(),
    ensures
        plan[at] is DrawIndexed ==> at >= 7 && plan[at - 1] is SetBindGroup && plan[at
            - 2] is WriteUniform,
        plan[at] is WriteUniform ==> 5 <= at < plan.len() - 5 && plan[at + 1] is SetBindGroup
            && plan[at + 2] is DrawIndexed,
        at < 5 ==> plan[at] == pass_prologue()[at],
        at >= plan.len() - 3 ==> plan[at] == pass_epilogue()[at - (plan.len() - 3)],
{
    if at < 5 {
        assert(plan.subrange(0, 5)[at] == plan[at]);
    } else if at >= plan.len() - 3 {
        let tail = plan.subrange(plan.len() - 3, plan.len() as int);
        assert(tail[at - (plan.len() - 3)] == plan[at]);
    } else {
        let j = (at - 5) / 3;
        let triple = plan.subrange(5 + 3 * j, 8 + 3 * j);
        assert(draws_one(shows, graphics, subjects[j].1, triple));
        assert(triple[0] == plan[5 + 3 * j]);
        assert(triple[1] == plan[5 + 3 * j + 1]);
        assert(triple[2] == plan[5 + 3 * j + 2]);
    }
}

impl Graphics {
    #[verifier::type_invariant]
    spec fn ready(self) -> bool {
        self@.is_ready()
    }

    /// Brings the renderer up for a surface of `width` by `height` pixels,
    /// given how far the host got in acquiring the GPU.
    ///
    /// Fails if no adapter was found, if the adapter gave no device, or if
    /// the surface supports no colour format; in that order. Otherwise
    /// the renderer is ready: the surface is configured at the given size,
    /// each dimension raised to 1 if it was 0, with the first supported
    /// format; the cube's vertices and indices and an identity matrix are
    /// laid out for upload; the camera is the fixed one.
    pub fn new_from_layer(width: u32, height: u32, probe: GpuProbe) -> (made: Result<
        Graphics,
        InitFault,
    >)
        ensures
            match init_fault(probe) {
                Some(fault) => made == Err::<Graphics, InitFault>(fault),
                None => {
                    &&& made matches Ok(graphics)
                    &&& graphics@.is_ready()
                    &&& graphics@.surface_config.width == at_least_one(width)
                    &&& graphics@.surface_config.height == at_least_one(height)
                },
            },
    {
        match probe {
            GpuProbe::NoAdapter => Err(InitFault::NoAdapter),
            GpuProbe::NoDevice => Err(InitFault::DeviceCreation),
            GpuProbe::Device { surface_formats } => {
                if surface_formats == 0 {
                    return Err(InitFault::SurfaceConfiguration);
                }
                let surface_config = SurfaceConfig {
                    width: if width == 0 {
                        1
                    } else {
                        width
                    },
                    height: if height == 0 {
                        1
                    } else {
                        height
                    },
                    format: 0,
                    desired_maximum_frame_latency: FRAME_LATENCY,
                };
                let (cube_vertices, cube_indices) = make_unit_cube_vertices_and_indices();
                let words = pack_vertices(&cube_vertices);
                let cube_vertex_data = words_to_bytes(words.as_slice());
                let cube_index_data = shorts_to_bytes(cube_indices.as_slice());
                let cube_index_count = cube_indices.len() as u32;
                let identity = Mat4::identity();
                let uniform_data = words_to_bytes(identity.cols.as_slice());
                Ok(
                    Graphics {
                        surface_config,
                        cube_vertex_data,
                        cube_index_data,
                        uniform_data,
                        cube_index_count,
                        camera: CameraParams::fixed(),
                    },
                )
            },
        }
    }

    /// How the surface is configured. Both dimensions are at least 1.
    pub fn surface_config(&self) -> (config: SurfaceConfig)
        ensures
            config == self@.surface_config,
            self@.is_ready(),
    {
        proof {
            use_type_invariant(self);
        }
        self.surface_config
    }

    /// The camera, which is the fixed one.
    pub fn camera(&self) -> (camera: CameraParams)
        ensures
            camera == self@.camera,
            self@.is_ready(),
    {
        proof {
            use_type_invariant(self);
        }
        self.camera
    }

    /// Number of indices one draw covers: all of the cube's.
    pub fn cube_index_count(&self) -> (count: u32)
        ensures
            count == self@.cube_index_count,
            self@.is_ready(),
    {
        proof {
            use_type_invariant(self);
        }
        self.cube_index_count
    }

    /// Contents of the vertex buffer: the cube's vertices as they lie in
    /// memory.
    pub fn cube_vertex_data(&self) -> (data: &Vec<u8>)
        ensures
            data@ == self@.cube_vertex_data,
            self@.is_ready(),
    {
        proof {
            use_type_invariant(self);
        }
        &self.cube_vertex_data
    }

    /// Contents of the index buffer: the cube's indices as they lie in
    /// memory.
    pub fn cube_index_data(&self) -> (data: &Vec<u8>)
        ensures
            data@ == self@.cube_index_data,
            self@.is_ready(),
    {
        proof {
            use_type_invariant(self);
        }
        &self.cube_index_data
    }

    /// What the uniform buffer holds before the first frame: the identity
    /// matrix as it lies in memory.
    pub fn uniform_data(&self) -> (data: &Vec<u8>)
        ensures
            data@ == self@.uniform_data,
            self@.is_ready(),
    {
        proof {
            use_type_invariant(self);
        }
        &self.uniform_data
    }

    /// The bytes that overwrite the uniform buffer for one draw: `mvp` as
    /// it lies in memory, column after column. They fill the buffer
    /// exactly.
    pub fn write_mvp(&self, mvp: Mat4) -> (bytes: Vec<u8>)
        ensures
            is_word_image(bytes@, mvp.cols@),
            bytes@.len() == UNIFORM_SIZE,
    {
        words_to_bytes(mvp.cols.as_slice())
    }

    /// The projection for the surface as it is configured.
    pub fn proj_matrix<R, P, L, M, X>(&self, math: &ViewMath<R, P, L, M, X>) -> (proj: Mat4) where
        R: Fn(u32, u32) -> Scalar,
        P: Fn(Scalar, Scalar, Scalar, Scalar) -> Mat4,
        L: Fn(Vec3, Vec3, Vec3) -> Mat4,
        M: Fn(Vec3, Quat, Vec3) -> Mat4,
        X: Fn(Mat4, Mat4) -> Mat4,

        requires
            math.total(),
        ensures
            math.is_projection(
                self@.camera,
                self@.surface_config.width,
                self@.surface_config.height,
                proj,
            ),
    {
        let aspect = (math.ratio)(self.surface_config.width, self.surface_config.height);
        (math.perspective)(
            self.camera.fov_y_radians,
            aspect,
            Scalar { bits: NEAR_PLANE_BITS },
            Scalar { bits: FAR_PLANE_BITS },
        )
    }

    /// The view matrix of the camera.
    pub fn view_matrix<R, P, L, M, X>(&self, math: &ViewMath<R, P, L, M, X>) -> (view: Mat4) where
        R: Fn(u32, u32) -> Scalar,
        P: Fn(Scalar, Scalar, Scalar, Scalar) -> Mat4,
        L: Fn(Vec3, Vec3, Vec3) -> Mat4,
        M: Fn(Vec3, Quat, Vec3) -> Mat4,
        X: Fn(Mat4, Mat4) -> Mat4,

        requires
            math.total(),
        ensures
            math.is_view(self@.camera, view),
    {
        (math.look_at)(self.camera.eye, self.camera.target, self.camera.up)
    }

    /// The matrix that places an object by `tf`.
    pub fn model_matrix<R, P, L, M, X>(math: &ViewMath<R, P, L, M, X>, tf: &Transform3D) -> (model:
        Mat4) where
        R: Fn(u32, u32) -> Scalar,
        P: Fn(Scalar, Scalar, Scalar, Scalar) -> Mat4,
        L: Fn(Vec3, Vec3, Vec3) -> Mat4,
        M: Fn(Vec3, Quat, Vec3) -> Mat4,
        X: Fn(Mat4, Mat4) -> Mat4,

        requires
            math.total(),
        ensures
            math.is_model(*tf, model),
    {
        (math.placement)(tf.scale, tf.rotation, tf.translation)
    }

    /// The commands that draw one frame of `world`.
    ///
    /// The pass is opened and the pipeline and the cube's buffers are
    /// bound once. Then every entity that carries the cube tag and a
    /// transform is drawn, in the store's order and no other entity: the
    /// product of projection, view and the entity's model matrix is
    /// written to the uniform buffer, the uniform group is bound again,
    /// and all of the cube's indices are drawn once, so that each draw
    /// directly follows the write it is to see. Then the pass is closed,
    /// submitted and presented.
    pub fn draw_world<R, P, L, M, X>(&self, world: &World, math: &ViewMath<R, P, L, M, X>) -> (plan:
        Vec<DrawCommand>) where
        R: Fn(u32, u32) -> Scalar,
        P: Fn(Scalar, Scalar, Scalar, Scalar) -> Mat4,
        L: Fn(Vec3, Vec3, Vec3) -> Mat4,
        M: Fn(Vec3, Quat, Vec3) -> Mat4,
        X: Fn(Mat4, Mat4) -> Mat4,

        requires
            math.total(),
        ensures
            draws_all(math.showing(), self@, tagged(world@.entities), plan@),
            self@.is_ready(),
    {
        proof {
            use_type_invariant(self);
        }
        let ghost camera = self@.camera;
        let ghost width = self@.surface_config.width;
        let ghost height = self@.surface_config.height;
        let to_clip = |entity: Entity, transform: Transform3D| -> (mvp: Mat4)
            ensures
                math.shows(camera, width, height, transform, mvp),
            {
                let model = Self::model_matrix(math, &transform);
                let view = self.view_matrix(math);
                let proj = self.proj_matrix(math);
                let proj_view = (math.product)(proj, view);
                (math.product)(proj_view, model)
            };
        let matrices = world.for_each_tagged(&to_clip);
        let ghost subjects = tagged(world@.entities);
        let mut plan: Vec<DrawCommand> = Vec::new();
        plan.push(DrawCommand::AcquireFrame);
        plan.push(
            DrawCommand::BeginPass {
                clear: ClearColor {
                    r: CLEAR_RED_BITS,
                    g: CLEAR_GREEN_BITS,
                    b: CLEAR_BLUE_BITS,
                    a: CLEAR_ALPHA_BITS,
                },
            },
        );
        plan.push(DrawCommand::SetPipeline);
        plan.push(DrawCommand::SetVertexBuffer { slot: VERTEX_SLOT });
        plan.push(DrawCommand::SetIndexBuffer);
        assert(plan@ =~= pass_prologue());
        let mut j: usize = 0;
        while j < matrices.len()
            invariant
                j <= matrices.len(),
                matrices@.len() == subjects.len(),
                camera == self@.camera,
                width == self@.surface_config.width,
                height == self@.surface_config.height,
                forall|k: int|
                    0 <= k < matrices@.len() ==> math.shows(
                        camera,
                        width,
                        height,
                        subjects[k].1,
                        #[trigger] matrices@[k],
                    ),
                plan@.len() == 5 + 3 * j,
                plan@.subrange(0, 5) == pass_prologue(),
                forall|k: int|
                    0 <= k < j ==> draws_one(
                        math.showing(),
                        self@,
                        (#[trigger] subjects[k]).1,
                        plan@.subrange(5 + 3 * k, 8 + 3 * k),
                    ),
            decreases matrices.len() - j,
        {
            let ghost before = plan@;
            plan.push(DrawCommand::WriteUniform { mvp: matrices[j] });
            plan.push(DrawCommand::SetBindGroup { index: UNIFORM_GROUP });
            plan.push(
                DrawCommand::DrawIndexed {
                    first_index: 0,
                    index_count: self.cube_index_count,
                    base_vertex: 0,
                    instances: 1,
                },
            );
            proof {
                assert(plan@.subrange(0, 5) =~= before.subrange(0, 5));
                assert forall|k: int| 0 <= k < j implies draws_one(
                    math.showing(),
                    self@,
                    (#[trigger] subjects[k]).1,
                    plan@.subrange(5 + 3 * k, 8 + 3 * k),
                ) by {
                    assert(plan@.subrange(5 + 3 * k, 8 + 3 * k) =~= before.subrange(
                        5 + 3 * k,
                        8 + 3 * k,
                    ));
                }
                let last = plan@.subrange(5 + 3 * j, 8 + 3 * j);
                assert(last[0] == (DrawCommand::WriteUniform { mvp: matrices@[j as int] }));
                assert(draws_one(math.showing(), self@, subjects[j as int].1, last));
            }
            j += 1;
        }
        let ghost body = plan@;
        plan.push(DrawCommand::EndPass);
        plan.push(DrawCommand::Submit);
        plan.push(DrawCommand::Present);
        proof {
            assert(plan@.subrange(0, 5) =~= body.subrange(0, 5));
            assert(plan@.subrange(plan@.len() - 3, plan@.len() as int) =~= pass_epilogue());
            assert forall|k: int| 0 <= k < subjects.len() implies draws_one(
                math.showing(),
                self@,
                (#[trigger] subjects[k]).1,
                plan@.subrange(5 + 3 * k, 8 + 3 * k),
            ) by {
                assert(plan@.subrange(5 + 3 * k, 8 + 3 * k) =~= body.subrange(
                    5 + 3 * k,
                    8 + 3 * k,
                ));
            }
        }
        plan
    }
}

} // verus!
