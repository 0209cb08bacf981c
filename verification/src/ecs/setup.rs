//! The scene the engine starts with.

use vstd::prelude::*;
use crate::ecs::components::{CubeMeshTag, SpinY, Transform3D};
use crate::ecs::resources::DeltaTime;
use crate::ecs::schedule::{Schedule, System};
use crate::ecs::world::{Bundle, World};
use crate::scalar::{Quat, Scalar, Vec3, ONE_BITS, TWO_BITS, ZERO_BITS};

verus! {

/// The one entity of the starting scene: a drawn cube two units in front
/// of the origin, unrotated and unscaled, spinning at one radian per
/// second.
pub open spec fn example_cube() -> Bundle {
    Bundle {
        tag: Some(CubeMeshTag),
        spin: Some(SpinY { speed: Scalar { bits: ONE_BITS } }),
        transform: Some(
            Transform3D {
                translation: Vec3 {
                    x: Scalar { bits: ZERO_BITS },
                    y: Scalar { bits: ZERO_BITS },
                    z: Scalar { bits: TWO_BITS },
                },
                rotation: Quat::spec_identity(),
                scale: Vec3 {
                    x: Scalar { bits: ONE_BITS },
                    y: Scalar { bits: ONE_BITS },
                    z: Scalar { bits: ONE_BITS },
                },
            },
        ),
    }
}

/// Builds the starting scene and the schedule that advances it: a store
/// with the example cube and a delta time of zero, and a schedule that
/// holds the spin system.
pub fn example_setup_world() -> (setup: (World, Schedule))
    ensures
        setup.0@.entities == seq![example_cube()],
        setup.0@.delta_time == Some(DeltaTime(Scalar { bits: ZERO_BITS })),
        setup.1@ == seq![System::Spin],
{
    let mut world = World::new();
    let zero = Scalar { bits: ZERO_BITS };
    let one = Scalar { bits: ONE_BITS };
    world.spawn(
        Bundle {
            tag: Some(CubeMeshTag),
            spin: Some(SpinY { speed: one }),
            transform: Some(
                Transform3D {
                    translation: Vec3 { x: zero, y: zero, z: Scalar { bits: TWO_BITS } },
                    rotation: Quat::identity(),
                    scale: Vec3::splat(one),
                },
            ),
        },
    );
    world.insert_resource(DeltaTime::default());
    let mut schedule = Schedule::default();
    schedule.add_systems(System::Spin);
    proof {
        assert(world@.entities =~= seq![example_cube()]);
        assert(schedule@ =~= seq![System::Spin]);
    }
    (world, schedule)
}

} // verus!
