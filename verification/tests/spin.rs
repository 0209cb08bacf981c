use cube_engine::ecs::components::{CubeMeshTag, SpinY, Transform3D};
use cube_engine::ecs::resources::DeltaTime;
use cube_engine::ecs::schedule::{Schedule, System};
use cube_engine::ecs::setup::example_setup_world;
use cube_engine::ecs::systems::{spin_system_3d, SpinMath};
use cube_engine::ecs::world::{Bundle, Entity, World};
use cube_engine::scalar::{Quat, Scalar, Vec3};

fn spin_scalar(x: f32) -> Scalar {
    Scalar::from_bits(x.to_bits())
}

fn spin_float(s: Scalar) -> f32 {
    f32::from_bits(s.to_bits())
}

fn spin_to_glam(q: Quat) -> glam::Quat {
    glam::Quat::from_xyzw(spin_float(q.x), spin_float(q.y), spin_float(q.z), spin_float(q.w))
}

fn spin_from_glam(q: glam::Quat) -> Quat {
    Quat { x: spin_scalar(q.x), y: spin_scalar(q.y), z: spin_scalar(q.z), w: spin_scalar(q.w) }
}

/// The three operations, done with `glam`.
fn spin_math() -> SpinMath<
    impl Fn(Scalar, Scalar) -> Scalar,
    impl Fn(Scalar) -> Quat,
    impl Fn(Quat, Quat) -> Quat,
> {
    SpinMath {
        times: |a: Scalar, b: Scalar| spin_scalar(spin_float(a) * spin_float(b)),
        about_y: |angle: Scalar| spin_from_glam(glam::Quat::from_rotation_y(spin_float(angle))),
        compose: |a: Quat, b: Quat| spin_from_glam(spin_to_glam(a) * spin_to_glam(b)),
    }
}

fn spin_transform(z: f32, rotation: Quat) -> Transform3D {
    Transform3D {
        translation: Vec3 { x: spin_scalar(0.0), y: spin_scalar(0.0), z: spin_scalar(z) },
        rotation,
        scale: Vec3::splat(spin_scalar(1.0)),
    }
}

fn spin_world(speed: f32, rotation: Quat, seconds: f32) -> (World, Entity) {
    let mut world = World::new();
    let e = world.spawn(Bundle {
        tag: Some(CubeMeshTag),
        spin: Some(SpinY { speed: spin_scalar(speed) }),
        transform: Some(spin_transform(2.0, rotation)),
    });
    world.insert_resource(DeltaTime(spin_scalar(seconds)));
    (world, e)
}

fn spin_rotation_of(world: &World, e: Entity) -> glam::Quat {
    spin_to_glam(world.get_transform(e).unwrap().rotation)
}

#[test]
fn zero_delta_time_leaves_rotations_unchanged() {
    let tilted = spin_from_glam(glam::Quat::from_rotation_x(0.7) * glam::Quat::from_rotation_y(1.3));
    for start in [Quat::identity(), tilted] {
        for speed in [0.0f32, 1.0, -10.0, 10.0] {
            let (mut world, e) = spin_world(speed, start, 0.0);
            spin_system_3d(&mut world, &spin_math());
            let after = world.get_transform(e).unwrap().rotation;
            assert!(spin_to_glam(after).abs_diff_eq(spin_to_glam(start), 1e-6));
        }
    }
    // from the identity the result is the same bit for bit
    let (mut world, e) = spin_world(1.0, Quat::identity(), 0.0);
    spin_system_3d(&mut world, &spin_math());
    assert_eq!(world.get_transform(e).unwrap().rotation, Quat::identity());
}

#[test]
fn spin_is_additive_in_elapsed_time() {
    let cases: [(f32, f32, f32); 4] =
        [(1.0, 0.25, 0.5), (2.5, 0.016, 0.033), (10.0, 0.1, 0.1), (0.3, 0.0, 0.7)];
    for (speed, dt1, dt2) in cases {
        let (mut twice, e) = spin_world(speed, Quat::identity(), dt1);
        spin_system_3d(&mut twice, &spin_math());
        twice.insert_resource(DeltaTime(spin_scalar(dt2)));
        spin_system_3d(&mut twice, &spin_math());

        let (mut once, f) = spin_world(speed, Quat::identity(), dt1 + dt2);
        spin_system_3d(&mut once, &spin_math());

        let a = spin_rotation_of(&twice, e);
        let b = spin_rotation_of(&once, f);
        assert!(a.abs_diff_eq(b, 1e-5), "{:?} vs {:?}", a, b);
    }
}

#[test]
fn rotation_stays_unit_length_over_ten_thousand_updates() {
    let (mut world, e) = spin_world(0.0, Quat::identity(), 0.0);
    // a fixed pseudo-random walk through speeds in [-10, 10] and steps in [0, 0.1]
    let mut state: u32 = 0x1234_5678;
    for _ in 0..10_000 {
        state = state.wrapping_mul(1_664_525).wrapping_add(1_013_904_223);
        let speed = ((state >> 8) as f32 / (1u32 << 24) as f32) * 20.0 - 10.0;
        state = state.wrapping_mul(1_664_525).wrapping_add(1_013_904_223);
        let dt = ((state >> 8) as f32 / (1u32 << 24) as f32) * 0.1;
        assert!((-10.0..=10.0).contains(&speed) && (0.0..=0.1).contains(&dt));
        world.get_spin_mut(e).unwrap().speed = spin_scalar(speed);
        world.insert_resource(DeltaTime(spin_scalar(dt)));
        spin_system_3d(&mut world, &spin_math());
        let length = spin_rotation_of(&world, e).length();
        assert!((length - 1.0).abs() < 1e-4, "length drifted to {}", length);
    }
}

#[test]
fn half_turn_after_pi_seconds_at_one_radian_per_second() {
    let (mut world, mut schedule) = (World::new(), Schedule::default());
    let e = world.spawn(Bundle {
        tag: Some(CubeMeshTag),
        spin: Some(SpinY { speed: spin_scalar(1.0) }),
        transform: Some(spin_transform(2.0, Quat::identity())),
    });
    world.insert_resource(DeltaTime::default());
    schedule.add_systems(System::Spin);

    world.resource_mut().0 = spin_scalar(std::f32::consts::PI);
    schedule.run(&mut world, &spin_math());

    let after = *world.get_transform(e).unwrap();
    let half_turn = glam::Quat::from_xyzw(0.0, 1.0, 0.0, 0.0);
    assert!(spin_to_glam(after.rotation).abs_diff_eq(half_turn, 1e-6));
    // the cube's front now faces backwards
    let front = spin_to_glam(after.rotation) * glam::Vec3::Z;
    assert!(front.abs_diff_eq(glam::Vec3::NEG_Z, 1e-6));
    assert_eq!(after.translation, spin_transform(2.0, Quat::identity()).translation);
    assert_eq!(after.scale, Vec3::splat(spin_scalar(1.0)));
    assert!(world.has_tag(e));
    assert_eq!(world.get_spin(e), Some(&SpinY { speed: spin_scalar(1.0) }));
    assert_eq!(world.resource().0, spin_scalar(std::f32::consts::PI));
}

#[test]
fn example_world_holds_one_spinning_cube_and_one_system() {
    let (world, schedule) = example_setup_world();
    assert_eq!(world.len(), 1);
    assert_eq!(
        world.get(Entity { index: 0 }),
        Some(Bundle {
            tag: Some(CubeMeshTag),
            spin: Some(SpinY { speed: spin_scalar(1.0) }),
            transform: Some(spin_transform(2.0, Quat::identity())),
        })
    );
    assert!(world.contains_resource());
    assert_eq!(*world.resource(), DeltaTime(spin_scalar(0.0)));
    assert_eq!(schedule.len(), 1);
}

#[test]
fn spin_is_applied_in_front_of_the_old_rotation() {
    // Start tilted about x. Spinning in world space keeps the spin axis
    // vertical, so the vertical axis of the result is where the tilt put it.
    let tilt = glam::Quat::from_rotation_x(0.5);
    let (mut world, e) = spin_world(2.0, spin_from_glam(tilt), 0.25);
    spin_system_3d(&mut world, &spin_math());
    let expected = glam::Quat::from_rotation_y(0.5) * tilt;
    let local = tilt * glam::Quat::from_rotation_y(0.5);
    let after = spin_rotation_of(&world, e);
    assert!(after.abs_diff_eq(expected, 1e-6));
    assert!(!after.abs_diff_eq(local, 1e-3));
}

#[test]
fn spin_system_multiplies_speed_by_time_and_composes_in_front() {
    let start = Quat {
        x: spin_scalar(0.1),
        y: spin_scalar(0.2),
        z: spin_scalar(0.3),
        w: spin_scalar(0.4),
    };
    let (mut world, e) = spin_world(3.0, start, 0.25);
    // operations that record their arguments in their results
    let echo = SpinMath {
        times: |a: Scalar, b: Scalar| Scalar { bits: a.bits.wrapping_mul(31).wrapping_add(b.bits) },
        about_y: |angle: Scalar| Quat { x: angle, y: angle, z: angle, w: angle },
        compose: |a: Quat, b: Quat| Quat { x: a.x, y: a.y, z: b.z, w: b.w },
    };
    spin_system_3d(&mut world, &echo);
    let angle =
        Scalar { bits: 3.0f32.to_bits().wrapping_mul(31).wrapping_add(0.25f32.to_bits()) };
    let after = world.get_transform(e).unwrap().rotation;
    assert_eq!(after, Quat { x: angle, y: angle, z: spin_scalar(0.3), w: spin_scalar(0.4) });
}

#[test]
fn turn_is_the_step_times_the_old_rotation() {
    let tilt = glam::Quat::from_rotation_x(0.5);
    let turned = spin_math().turn(spin_scalar(2.0), spin_scalar(0.25), spin_from_glam(tilt));
    let expected = glam::Quat::from_rotation_y(2.0 * 0.25) * tilt;
    assert_eq!(turned, spin_from_glam(expected));
    // a quarter turn from rest
    let quarter = spin_math().turn(
        spin_scalar(1.0),
        spin_scalar(std::f32::consts::FRAC_PI_2),
        Quat::identity(),
    );
    let h = std::f32::consts::FRAC_1_SQRT_2;
    assert!(spin_to_glam(quarter).abs_diff_eq(glam::Quat::from_xyzw(0.0, h, 0.0, h), 1e-6));
}

#[test]
fn systems_run_in_registration_order_once_each() {
    let (mut world, e) = spin_world(1.0, Quat::identity(), 0.5);
    let mut schedule = Schedule::default();
    assert_eq!(schedule.len(), 0);
    // an empty schedule changes nothing
    schedule.run(&mut world, &spin_math());
    assert_eq!(world.get_transform(e).unwrap().rotation, Quat::identity());

    schedule.add_systems(System::Spin);
    schedule.add_systems(System::Spin);
    assert_eq!(schedule.len(), 2);
    schedule.run(&mut world, &spin_math());
    // two spin systems turn the cube twice by 0.5 rad
    let expected = glam::Quat::from_rotation_y(1.0);
    assert!(spin_rotation_of(&world, e).abs_diff_eq(expected, 1e-6));
}

#[test]
fn untagged_spinner_turns_and_unspun_cube_stays() {
    let mut world = World::new();
    let drawn = world.spawn(Bundle {
        tag: Some(CubeMeshTag),
        spin: None,
        transform: Some(spin_transform(2.0, Quat::identity())),
    });
    let spinner = world.spawn(Bundle {
        tag: None,
        spin: Some(SpinY { speed: spin_scalar(1.0) }),
        transform: Some(spin_transform(5.0, Quat::identity())),
    });
    world.insert_resource(DeltaTime(spin_scalar(1.0)));
    let mut schedule = Schedule::default();
    schedule.add_systems(System::Spin);
    schedule.run(&mut world, &spin_math());

    assert_eq!(world.get_transform(drawn), Some(&spin_transform(2.0, Quat::identity())));
    let turned = spin_rotation_of(&world, spinner);
    assert!(turned.abs_diff_eq(glam::Quat::from_rotation_y(1.0), 1e-6));
    assert!(!turned.abs_diff_eq(glam::Quat::IDENTITY, 1e-3));

    // only the tagged entity is offered for drawing
    let offered = world.for_each_tagged(&|entity: Entity, _: Transform3D| entity);
    assert_eq!(offered, vec![drawn]);
}

#[test]
fn empty_schedule_needs_no_resource_and_changes_nothing() {
    let mut world = World::new();
    let e = world.spawn(Bundle {
        tag: None,
        spin: Some(SpinY { speed: spin_scalar(1.0) }),
        transform: Some(spin_transform(2.0, Quat::identity())),
    });
    assert!(!world.contains_resource());
    Schedule::default().run(&mut world, &spin_math());
    assert!(!world.contains_resource());
    assert_eq!(world.get_transform(e), Some(&spin_transform(2.0, Quat::identity())));
}

#[test]
fn entities_without_a_transform_or_without_a_spin_are_left_alone() {
    let mut world = World::new();
    let bare_spin = world.spawn(Bundle {
        tag: Some(CubeMeshTag),
        spin: Some(SpinY { speed: spin_scalar(4.0) }),
        transform: None,
    });
    let no_spin = world.spawn(Bundle {
        tag: None,
        spin: None,
        transform: Some(spin_transform(1.0, Quat::identity())),
    });
    let nothing = world.create_entity();
    world.insert_resource(DeltaTime(spin_scalar(0.5)));
    let before = [world.get(bare_spin), world.get(no_spin), world.get(nothing)];
    spin_system_3d(&mut world, &spin_math());
    assert_eq!([world.get(bare_spin), world.get(no_spin), world.get(nothing)], before);
    assert_eq!(world.len(), 3);
}
