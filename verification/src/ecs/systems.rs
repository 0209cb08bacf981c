//! The systems that advance the store once per frame.

use vstd::prelude::*;
use crate::ecs::components::{SpinY, Transform3D};
use crate::ecs::resources::DeltaTime;
use crate::ecs::world::{Bundle, Entity, World, WorldView};
use crate::scalar::{Quat, Scalar};

verus! {

/// The arithmetic of a spin: three operations on numbers, which the host
/// supplies. The spin system decides what they are applied to and in which
/// order.
pub struct SpinMath<T, Y, C> {
    /// The product of two numbers.
    pub times: T,
    /// The rotation by an angle, in radians, about the vertical axis.
    pub about_y: Y,
    /// The product of two rotations: the one that applies the second
    /// argument first and the first argument after it.
    pub compose: C,
}

impl<T, Y, C> SpinMath<T, Y, C> where
    T: Fn(Scalar, Scalar) -> Scalar,
    Y: Fn(Scalar) -> Quat,
    C: Fn(Quat, Quat) -> Quat,
 {
    /// Each operation accepts every argument.
    pub open spec fn total(&self) -> bool {
        &&& forall|a: Scalar, b: Scalar| self.times.requires((a, b))
        &&& forall|angle: Scalar| self.about_y.requires((angle,))
        &&& forall|a: Quat, b: Quat| self.compose.requires((a, b))
    }

    /// `to` is `from` after a spin at `speed` for `seconds`: the angle is
    /// the product of speed and time, the step is the rotation by that
    /// angle about the vertical axis, and the step is composed in front of
    /// `from`, so that it turns the entity in world space.
    pub open spec fn turns(&self, speed: Scalar, seconds: Scalar, from: Quat, to: Quat) -> bool {
        exists|angle: Scalar, delta: Quat|
            #![trigger self.times.ensures((speed, seconds), angle), self.about_y.ensures((angle,), delta)]
            self.times.ensures((speed, seconds), angle) && self.about_y.ensures((angle,), delta)
                && self.compose.ensures((delta, from), to)
    }

    /// `turns` as a relation of its own.
    pub open spec fn turning(&self) -> spec_fn(Scalar, Scalar, Quat, Quat) -> bool {
        |speed: Scalar, seconds: Scalar, from: Quat, to: Quat| self.turns(speed, seconds, from, to)
    }

    /// Spins `rotation` at `speed` for `seconds`.
    pub fn turn(&self, speed: Scalar, seconds: Scalar, rotation: Quat) -> (turned: Quat)
        requires
            self.total(),
        ensures
            self.turns(speed, seconds, rotation, turned),
    {
        let angle = (self.times)(speed, seconds);
        let delta = (self.about_y)(angle);
        (self.compose)(delta, rotation)
    }
}

/// What the spin system does to one entity during a frame of length
/// `seconds`, where `turns(speed, seconds, from, to)` says which rotations
/// a spin may lead to. An entity with a spin and a transform keeps
/// everything but its rotation, which is turned at the entity's speed for
/// the length of the frame. Any other entity stays as it was.
pub open spec fn spun(
    turns: spec_fn(Scalar, Scalar, Quat, Quat) -> bool,
    seconds: Scalar,
    before: Bundle,
    after: Bundle,
) -> bool {
    if before.is_spinning() {
        &&& after.tag == before.tag
        &&& after.spin == before.spin
        &&& after.transform is Some
        &&& after.transform.unwrap().translation == before.transform.unwrap().translation
        &&& after.transform.unwrap().scale == before.transform.unwrap().scale
        &&& turns(
            before.spin.unwrap().speed,
            seconds,
            before.transform.unwrap().rotation,
            after.transform.unwrap().rotation,
        )
    } else {
        after == before
    }
}

/// What the spin system does to a store: the same entities, each spun for
/// the store's delta time, and the resource untouched.
pub open spec fn spin_step(
    turns: spec_fn(Scalar, Scalar, Quat, Quat) -> bool,
    before: WorldView,
    after: WorldView,
) -> bool {
    &&& before.delta_time is Some
    &&& after.delta_time == before.delta_time
    &&& after.entities.len() == before.entities.len()
    &&& forall|i: int|
        0 <= i < before.entities.len() ==> spun(
            turns,
            before.delta_time.unwrap().0,
            before.entities[i],
            #[trigger] after.entities[i],
        )
}

/// Turns every entity that carries a `SpinY` and a `Transform3D` about the
/// vertical axis by its speed times the frame's delta time. The step is
/// applied in front of the old rotation. Nothing else changes.
pub fn spin_system_3d<T, Y, C>(world: &mut World, math: &SpinMath<T, Y, C>) where
    T: Fn(Scalar, Scalar) -> Scalar,
    Y: Fn(Scalar) -> Quat,
    C: Fn(Quat, Quat) -> Quat,

    requires
        old(world)@.delta_time is Some,
        math.total(),
    ensures
        spin_step(math.turning(), old(world)@, final(world)@),
{
    let seconds = world.resource().0;
    let turn = |entity: Entity, spin: SpinY, transform: Transform3D| -> (moved: Transform3D)
        ensures
            moved.translation == transform.translation,
            moved.scale == transform.scale,
            math.turns(spin.speed, seconds, transform.rotation, moved.rotation),
        {
            Transform3D {
                translation: transform.translation,
                rotation: math.turn(spin.speed, seconds, transform.rotation),
                scale: transform.scale,
            }
        };
    world.for_each_spin(&turn);
}

/// The spin system turns and does nothing else: every entity keeps its
/// tag, its spin, and the translation and scale of its transform, and an
/// entity without a spin or without a transform stays as it was.
pub proof fn lemma_spin_turns_only(
    turns: spec_fn(Scalar, Scalar, Quat, Quat) -> bool,
    before: WorldView,
    after: WorldView,
)
    requires
        spin_step(turns, before, after),
    ensures
        after.delta_time == before.delta_time,
        after.entities.len() == before.entities.len(),
        forall|i: int|
            0 <= i < before.entities.len() ==> (#[trigger] before.entities[i]).turned_into(
                after.entities[i],
            ),
{
    assert forall|i: int| 0 <= i < before.entities.len() implies (
    #[trigger] before.entities[i]).turned_into(after.entities[i]) by {
        assert(spun(turns, before.delta_time.unwrap().0, before.entities[i], after.entities[i]));
    }
}

/// The spin system adds no change of its own: in a frame in which a spin
/// can only lead every spinning entity's rotation back to itself, the
/// store stays as it was.
pub proof fn lemma_spin_idle(
    turns: spec_fn(Scalar, Scalar, Quat, Quat) -> bool,
    before: WorldView,
    after: WorldView,
)
    requires
        spin_step(turns, before, after),
        forall|i: int, turned: Quat|
            0 <= i < before.entities.len() && (#[trigger] before.entities[i]).is_spinning()
                && #[trigger] turns(
                before.entities[i].spin.unwrap().speed,
                before.delta_time.unwrap().0,
                before.entities[i].transform.unwrap().rotation,
                turned,
            ) ==> turned == before.entities[i].transform.unwrap().rotation,
    ensures
        after == before,
{
    assert forall|i: int| 0 <= i < before.entities.len() implies after.entities[i]
        == before.entities[i] by {
        let old_row = before.entities[i];
        let new_row = after.entities[i];
        assert(spun(turns, before.delta_time.unwrap().0, old_row, new_row));
        if old_row.is_spinning() {
            assert(new_row.transform.unwrap().rotation == old_row.transform.unwrap().rotation);
            assert(new_row.transform.unwrap() == old_row.transform.unwrap());
        }
    }
    assert(after.entities =~= before.entities);
}

/// The spin system is additive in time wherever the spin is: if turning
/// for `first` seconds and then for `second` seconds always leads where
/// turning once for `total` seconds leads, then two frames of `first` and
/// `second` seconds leave the same entities as one frame of `total`
/// seconds.
pub proof fn lemma_spin_additive(
    turns: spec_fn(Scalar, Scalar, Quat, Quat) -> bool,
    start: WorldView,
    middle: WorldView,
    twice: WorldView,
    once: WorldView,
    first: Scalar,
    second: Scalar,
    total: Scalar,
)
    requires
        spin_step(
            turns,
            WorldView { entities: start.entities, delta_time: Some(DeltaTime(first)) },
            middle,
        ),
        spin_step(
            turns,
            WorldView { entities: middle.entities, delta_time: Some(DeltaTime(second)) },
            twice,
        ),
        spin_step(
            turns,
            WorldView { entities: start.entities, delta_time: Some(DeltaTime(total)) },
            once,
        ),
        forall|speed: Scalar, from: Quat, halfway: Quat, there: Quat, direct: Quat|
            #[trigger] turns(speed, first, from, halfway) && #[trigger] turns(
                speed,
                second,
                halfway,
                there,
            ) && #[trigger] turns(speed, total, from, direct) ==> direct == there,
    ensures
        twice.entities == once.entities,
{
    assert forall|i: int| 0 <= i < start.entities.len() implies twice.entities[i]
        == once.entities[i] by {
        let a = start.entities[i];
        let b = middle.entities[i];
        let c = twice.entities[i];
        let d = once.entities[i];
        assert(spun(turns, first, a, b));
        assert(spun(turns, second, b, c));
        assert(spun(turns, total, a, d));
        if a.is_spinning() {
            assert(turns(
                a.spin.unwrap().speed,
                first,
                a.transform.unwrap().rotation,
                b.transform.unwrap().rotation,
            ));
            assert(turns(
                a.spin.unwrap().speed,
                second,
                b.transform.unwrap().rotation,
                c.transform.unwrap().rotation,
            ));
            assert(turns(
                a.spin.unwrap().speed,
                total,
                a.transform.unwrap().rotation,
                d.transform.unwrap().rotation,
            ));
            assert(c.transform.unwrap() == d.transform.unwrap());
        }
    }
    assert(twice.entities =~= once.entities);
}

/// The spin system keeps whatever the spin keeps: if every rotation in the
/// store is `good` and a spin leads from good rotations to good ones
/// only, every rotation is good after the frame.
pub proof fn lemma_spin_preserves(
    turns: spec_fn(Scalar, Scalar, Quat, Quat) -> bool,
    before: WorldView,
    after: WorldView,
    good: spec_fn(Quat) -> bool,
)
    requires
        spin_step(turns, before, after),
        forall|i: int|
            0 <= i < before.entities.len() && (#[trigger] before.entities[i]).transform is Some
                ==> good(before.entities[i].transform.unwrap().rotation),
        forall|speed: Scalar, seconds: Scalar, from: Quat, to: Quat|
            good(from) && #[trigger] turns(speed, seconds, from, to) ==> good(to),
    ensures
        forall|i: int|
            0 <= i < after.entities.len() && (#[trigger] after.entities[i]).transform is Some
                ==> good(after.entities[i].transform.unwrap().rotation),
{
    assert forall|i: int|
        0 <= i < after.entities.len() && (#[trigger] after.entities[i]).transform is Some implies good(
        after.entities[i].transform.unwrap().rotation,
    ) by {
        assert(spun(turns, before.delta_time.unwrap().0, before.entities[i], after.entities[i]));
    }
}

} // verus!
