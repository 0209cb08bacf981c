//! The scheduler: an ordered list of systems, run front to back.

use vstd::prelude::*;
use crate::ecs::systems::{lemma_spin_turns_only, spin_step, spin_system_3d, SpinMath};
use crate::ecs::world::{World, WorldView};
use crate::scalar::{Quat, Scalar};

verus! {

/// The systems a schedule can hold.
#[derive(Clone, Copy, Debug, PartialEq, Eq, Structural)]
pub enum System {
    /// The spin system, `spin_system_3d`.
    Spin,
}

/// What one run of `system` does to a store, where `turns` says which
/// rotations a spin may lead to.
pub open spec fn system_step(
    turns: spec_fn(Scalar, Scalar, Quat, Quat) -> bool,
    system: System,
    before: WorldView,
    after: WorldView,
) -> bool {
    match system {
        System::Spin => spin_step(turns, before, after),
    }
}

/// `trace` records a run of `systems`: it starts with the store as it was,
/// and each system, first to last, turns one entry into the next.
pub open spec fn is_trace(
    turns: spec_fn(Scalar, Scalar, Quat, Quat) -> bool,
    systems: Seq<System>,
    trace: Seq<WorldView>,
) -> bool {
    &&& trace.len() == systems.len() + 1
    &&& forall|i: int|
        0 <= i < systems.len() ==> system_step(
            turns,
            #[trigger] systems[i],
            trace[i],
            trace[i + 1],
        )
}

/// What running `systems` one after the other, first to last, does to a
/// store: each system starts from the store that the one before it left.
pub open spec fn ran(
    turns: spec_fn(Scalar, Scalar, Quat, Quat) -> bool,
    systems: Seq<System>,
    before: WorldView,
    after: WorldView,
) -> bool {
    exists|trace: Seq<WorldView>|
        #[trigger] is_trace(turns, systems, trace) && trace.first() == before && trace.last()
            == after
}

/// Along a trace, every store has the entities and the delta time of the
/// first, each entity but for its rotation.
proof fn lemma_trace_turns_only(
    turns: spec_fn(Scalar, Scalar, Quat, Quat) -> bool,
    systems: Seq<System>,
    trace: Seq<WorldView>,
    k: int,
)
    requires
        is_trace(turns, systems, trace),
        0 <= k <= systems.len(),
    ensures
        trace[k].delta_time == trace[0].delta_time,
        trace[k].entities.len() == trace[0].entities.len(),
        forall|i: int|
            0 <= i < trace[0].entities.len() ==> (#[trigger] trace[0].entities[i]).turned_into(
                trace[k].entities[i],
            ),
    decreases k,
{
    if k > 0 {
        lemma_trace_turns_only(turns, systems, trace, k - 1);
        assert(system_step(turns, systems[k - 1], trace[k - 1], trace[k - 1 + 1]));
        lemma_spin_turns_only(turns, trace[k - 1], trace[k]);
        assert forall|i: int| 0 <= i < trace[0].entities.len() implies (
        #[trigger] trace[0].entities[i]).turned_into(trace[k].entities[i]) by {
            assert(trace[0].entities[i].turned_into(trace[k - 1].entities[i]));
            assert(trace[k - 1].entities[i].turned_into(trace[k].entities[i]));
        }
    }
}

/// Whatever systems run, and however often, they only turn: the store
/// keeps its entities and its delta time, every entity keeps its tag, its
/// spin, and the translation and scale of its transform, and an entity
/// without a spin or without a transform stays as it was.
pub proof fn lemma_run_turns_only(
    turns: spec_fn(Scalar, Scalar, Quat, Quat) -> bool,
    systems: Seq<System>,
    before: WorldView,
    after: WorldView,
)
    requires
        ran(turns, systems, before, after),
    ensures
        after.delta_time == before.delta_time,
        after.entities.len() == before.entities.len(),
        forall|i: int|
            0 <= i < before.entities.len() ==> (#[trigger] before.entities[i]).turned_into(
                after.entities[i],
            ),
{
    let trace = choose|trace: Seq<WorldView>|
        #[trigger] is_trace(turns, systems, trace) && trace.first() == before && trace.last()
            == after;
    lemma_trace_turns_only(turns, systems, trace, systems.len() as int);
}

/// An ordered list of systems.
pub struct Schedule {
    systems: Vec<System>,
}

impl View for Schedule {
    type V = Seq<System>;

    closed spec fn view(&self) -> Seq<System> {
        self.systems@
    }
}

impl Default for Schedule {
    /// A schedule without systems.
    fn default() -> (schedule: Schedule)
        ensures
            schedule@ == Seq::<System>::empty(),
    {
        Schedule { systems: Vec::new() }
    }
}

impl Schedule {
    /// Number of systems registered.
    pub fn len(&self) -> (n: usize)
        ensures
            n == self@.len(),
    {
        self.systems.len()
    }

    /// Registers `system` behind those already registered.
    pub fn add_systems(&mut self, system: System)
        ensures
            final(self)@ == old(self)@.push(system),
    {
        self.systems.push(system);
    }

    /// Runs every system once against `world`, in registration order. The
    /// spin system reads the delta-time resource, so a schedule that holds
    /// a system needs it installed.
    pub fn run<T, Y, C>(&self, world: &mut World, math: &SpinMath<T, Y, C>) where
        T: Fn(Scalar, Scalar) -> Scalar,
        Y: Fn(Scalar) -> Quat,
        C: Fn(Quat, Quat) -> Quat,

        requires
            self@.len() > 0 ==> old(world)@.delta_time is Some,
            math.total(),
        ensures
            ran(math.turning(), self@, old(world)@, final(world)@),
            final(world)@.delta_time == old(world)@.delta_time,
            final(world)@.entities.len() == old(world)@.entities.len(),
    {
        let n = self.systems.len();
        let ghost mut trace = seq![world@];
        let mut i: usize = 0;
        while i < n
            invariant
                i <= n,
                n == self.systems@.len(),
                n > 0 ==> world@.delta_time is Some,
                world@.delta_time == old(world)@.delta_time,
                world@.entities.len() == old(world)@.entities.len(),
                math.total(),
                is_trace(math.turning(), self.systems@.take(i as int), trace),
                trace.first() == old(world)@,
                trace.last() == world@,
            decreases n - i,
        {
            match self.systems[i] {
                System::Spin => spin_system_3d(world, math),
            }
            proof {
                let longer = trace.push(world@);
                let done = self.systems@.take(i + 1);
                assert forall|k: int| 0 <= k < done.len() implies system_step(
                    math.turning(),
                    #[trigger] done[k],
                    longer[k],
                    longer[k + 1],
                ) by {
                    if k < i {
                        assert(self.systems@.take(i as int)[k] == done[k]);
                    }
                }
                trace = longer;
            }
            i += 1;
        }
        proof {
            assert(self.systems@.take(n as int) == self.systems@);
            assert(is_trace(math.turning(), self@, trace));
        }
    }
}

} // verus!
