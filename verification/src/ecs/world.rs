//! The entity store: which entity carries which components, and the
//! delta-time resource.

use vstd::prelude::*;
use crate::ecs::components::{CubeMeshTag, SpinY, Transform3D};
use crate::ecs::resources::DeltaTime;

verus! {

/// Names one entity of one store. Entities are numbered in the order in
/// which they were created.
#[derive(Clone, Copy, Debug, PartialEq, Eq, Structural)]
pub struct Entity {
    pub index: usize,
}

/// The components of one entity, each present or absent.
#[derive(Clone, Copy, Debug, PartialEq, Eq, Structural)]
pub struct Bundle {
    pub tag: Option<CubeMeshTag>,
    pub spin: Option<SpinY>,
    pub transform: Option<Transform3D>,
}

impl Bundle {
    /// The bundle of an entity that carries nothing.
    pub open spec fn empty() -> Bundle {
        Bundle { tag: None, spin: None, transform: None }
    }

    /// Carries both a spin and a transform, so the spin system moves it.
    pub open spec fn is_spinning(self) -> bool {
        self.spin is Some && self.transform is Some
    }

    /// Carries both the cube tag and a transform, so the renderer draws it.
    pub open spec fn is_drawable(self) -> bool {
        self.tag is Some && self.transform is Some
    }

    /// `after` is this bundle but for the rotation, and is this bundle if
    /// it does not spin.
    pub open spec fn turned_into(self, after: Bundle) -> bool {
        &&& after.tag == self.tag
        &&& after.spin == self.spin
        &&& after.transform is Some <==> self.transform is Some
        &&& self.transform is Some ==> {
            &&& after.transform.unwrap().translation == self.transform.unwrap().translation
            &&& after.transform.unwrap().scale == self.transform.unwrap().scale
        }
        &&& !self.is_spinning() ==> after == self
    }
}

/// What a store holds: one bundle per entity, in creation order, and the
/// delta-time resource once it has been installed.
pub struct WorldView {
    pub entities: Seq<Bundle>,
    pub delta_time: Option<DeltaTime>,
}

/// What `for_each_spin` does to one entity: an entity with a spin and a
/// transform gets the transform that `visit` returned for it, any other
/// entity stays as it was.
pub open spec fn spin_visited<F>(visit: &F, index: int, before: Bundle, after: Bundle) -> bool where
    F: Fn(Entity, SpinY, Transform3D) -> Transform3D,
 {
    if before.is_spinning() {
        &&& after.tag == before.tag
        &&& after.spin == before.spin
        &&& after.transform is Some
        &&& visit.ensures(
            (Entity { index: index as usize }, before.spin.unwrap(), before.transform.unwrap()),
            after.transform.unwrap(),
        )
    } else {
        after == before
    }
}

/// The drawable entities of a store with their transforms, in creation
/// order: every entity that carries the cube tag and a transform, and no
/// other.
pub open spec fn tagged(entities: Seq<Bundle>) -> Seq<(Entity, Transform3D)>
    decreases entities.len(),
{
    if entities.len() == 0 {
        Seq::empty()
    } else {
        let earlier = tagged(entities.drop_last());
        let last = entities.last();
        if last.is_drawable() {
            earlier.push((Entity { index: (entities.len() - 1) as usize }, last.transform.unwrap()))
        } else {
            earlier
        }
    }
}

/// A new entity joins the drawable ones at the end if it carries the cube
/// tag and a transform, and leaves them as they were if it does not.
pub proof fn lemma_tagged_push(entities: Seq<Bundle>, bundle: Bundle)
    ensures
        tagged(entities.push(bundle)) == (if bundle.is_drawable() {
            tagged(entities).push(
                (Entity { index: entities.len() as usize }, bundle.transform.unwrap()),
            )
        } else {
            tagged(entities)
        }),
{
    assert(entities.push(bundle).drop_last() == entities);
}

/// Every entry of `tagged` is a drawable entity of the store with its own
/// transform, and the entries are in creation order without repeats.
pub proof fn lemma_tagged_sound(entities: Seq<Bundle>, j: int)
    requires
        entities.len() <= usize::MAX,
        0 <= j < tagged(entities).len(),
    ensures
        tagged(entities)[j].0.index < entities.len(),
        entities[tagged(entities)[j].0.index as int].is_drawable(),
        entities[tagged(entities)[j].0.index as int].transform == Some(tagged(entities)[j].1),
        forall|k: int| 0 <= k < j ==> tagged(entities)[k].0.index < tagged(entities)[j].0.index,
    decreases entities.len(),
{
    if entities.len() > 0 {
        let earlier = tagged(entities.drop_last());
        if j < earlier.len() {
            lemma_tagged_sound(entities.drop_last(), j);
        } else {
            assert forall|k: int| 0 <= k < j implies tagged(entities)[k].0.index < tagged(
                entities,
            )[j].0.index by {
                lemma_tagged_sound(entities.drop_last(), k);
            }
        }
    }
}

/// Every drawable entity of the store has an entry in `tagged`.
pub proof fn lemma_tagged_complete(entities: Seq<Bundle>, i: int)
    requires
        entities.len() <= usize::MAX,
        0 <= i < entities.len(),
        entities[i].is_drawable(),
    ensures
        exists|j: int| 0 <= j < tagged(entities).len() && #[trigger] tagged(entities)[j].0.index == i,
    decreases entities.len(),
{
    if i == entities.len() - 1 {
        let j = tagged(entities).len() - 1;
        assert(tagged(entities)[j].0.index == i);
    } else {
        lemma_tagged_complete(entities.drop_last(), i);
        let j = choose|j: int|
            0 <= j < tagged(entities.drop_last()).len() && #[trigger] tagged(
                entities.drop_last(),
            )[j].0.index == i;
        assert(tagged(entities)[j].0.index == i);
    }
}

/// Turning entities does not change which of them are drawn, nor where:
/// if every entity of `after` is the entity of `before` in its place but
/// for the rotation, the same entities are drawable, in the same order,
/// with the same translation and scale.
pub proof fn lemma_tagged_after_turning(before: Seq<Bundle>, after: Seq<Bundle>)
    requires
        after.len() == before.len(),
        forall|i: int| 0 <= i < before.len() ==> (#[trigger] before[i]).turned_into(after[i]),
    ensures
        tagged(after).len() == tagged(before).len(),
        forall|j: int|
            0 <= j < tagged(before).len() ==> {
                &&& (#[trigger] tagged(after)[j]).0 == tagged(before)[j].0
                &&& tagged(after)[j].1.translation == tagged(before)[j].1.translation
                &&& tagged(after)[j].1.scale == tagged(before)[j].1.scale
            },
    decreases before.len(),
{
    if before.len() > 0 {
        assert(before.last().turned_into(after.last()));
        assert forall|i: int| 0 <= i < before.drop_last().len() implies (
        #[trigger] before.drop_last()[i]).turned_into(after.drop_last()[i]) by {
            assert(before[i].turned_into(after[i]));
        }
        lemma_tagged_after_turning(before.drop_last(), after.drop_last());
    }
}

/// The entity store.
pub struct World {
    rows: Vec<Bundle>,
    delta_time: Option<DeltaTime>,
}

impl View for World {
    type V = WorldView;

    closed spec fn view(&self) -> WorldView {
        WorldView { entities: self.rows@, delta_time: self.delta_time }
    }
}

impl World {
    /// A store without entities and without the resource.
    pub fn new() -> (world: World)
        ensures
            world@.entities.len() == 0,
            world@.delta_time is None,
    {
        World { rows: Vec::new(), delta_time: None }
    }

    /// Number of entities created so far.
    pub fn len(&self) -> (n: usize)
        ensures
            n == self@.entities.len(),
    {
        self.rows.len()
    }

    /// Whether `entity` names an entity of this store.
    pub fn contains(&self, entity: Entity) -> (known: bool)
        ensures
            known == (entity.index < self@.entities.len()),
    {
        entity.index < self.rows.len()
    }

    /// Creates an entity that carries `bundle`, after all existing ones.
    pub fn spawn(&mut self, bundle: Bundle) -> (entity: Entity)
        ensures
            entity.index == old(self)@.entities.len(),
            final(self)@.entities == old(self)@.entities.push(bundle),
            final(self)@.delta_time == old(self)@.delta_time,
    {
        let entity = Entity { index: self.rows.len() };
        self.rows.push(bundle);
        entity
    }

    /// Creates an entity that carries nothing yet.
    pub fn create_entity(&mut self) -> (entity: Entity)
        ensures
            entity.index == old(self)@.entities.len(),
            final(self)@.entities == old(self)@.entities.push(Bundle::empty()),
            final(self)@.delta_time == old(self)@.delta_time,
    {
        self.spawn(Bundle { tag: None, spin: None, transform: None })
    }

    /// The components of `entity`, or `None` for an entity this store does
    /// not know.
    pub fn get(&self, entity: Entity) -> (bundle: Option<Bundle>)
        ensures
            bundle == (if entity.index < self@.entities.len() {
                Some(self@.entities[entity.index as int])
            } else {
                None
            }),
    {
        if entity.index < self.rows.len() {
            Some(self.rows[entity.index])
        } else {
            None
        }
    }

    /// Attaches the cube tag to `entity`. Returns whether the store knows
    /// the entity; an unknown one leaves the store as it was.
    pub fn attach_tag(&mut self, entity: Entity, tag: CubeMeshTag) -> (known: bool)
        ensures
            known == (entity.index < old(self)@.entities.len()),
            final(self)@.delta_time == old(self)@.delta_time,
            final(self)@.entities == (if known {
                old(self)@.entities.update(
                    entity.index as int,
                    (Bundle { tag: Some(tag), ..old(self)@.entities[entity.index as int] }),
                )
            } else {
                old(self)@.entities
            }),
    {
        if entity.index < self.rows.len() {
            let mut row = self.rows[entity.index];
            row.tag = Some(tag);
            self.rows.set(entity.index, row);
            true
        } else {
            false
        }
    }

    /// Attaches a spin to `entity`, in place of any it had. Returns
    /// whether the store knows the entity; an unknown one leaves the store
    /// as it was.
    pub fn attach_spin(&mut self, entity: Entity, spin: SpinY) -> (known: bool)
        ensures
            known == (entity.index < old(self)@.entities.len()),
            final(self)@.delta_time == old(self)@.delta_time,
            final(self)@.entities == (if known {
                old(self)@.entities.update(
                    entity.index as int,
                    (Bundle { spin: Some(spin), ..old(self)@.entities[entity.index as int] }),
                )
            } else {
                old(self)@.entities
            }),
    {
        if entity.index < self.rows.len() {
            let mut row = self.rows[entity.index];
            row.spin = Some(spin);
            self.rows.set(entity.index, row);
            true
        } else {
            false
        }
    }

    /// Attaches a transform to `entity`, in place of any it had. Returns
    /// whether the store knows the entity; an unknown one leaves the store
    /// as it was.
    pub fn attach_transform(&mut self, entity: Entity, transform: Transform3D) -> (known: bool)
        ensures
            known == (entity.index < old(self)@.entities.len()),
            final(self)@.delta_time == old(self)@.delta_time,
            final(self)@.entities == (if known {
                old(self)@.entities.update(
                    entity.index as int,
                    (Bundle {
                        transform: Some(transform),
                        ..old(self)@.entities[entity.index as int]
                    }),
                )
            } else {
                old(self)@.entities
            }),
    {
        if entity.index < self.rows.len() {
            let mut row = self.rows[entity.index];
            row.transform = Some(transform);
            self.rows.set(entity.index, row);
            true
        } else {
            false
        }
    }

    /// Whether `entity` carries the cube tag.
    pub fn has_tag(&self, entity: Entity) -> (tagged: bool)
        ensures
            tagged == (entity.index < self@.entities.len()
                && self@.entities[entity.index as int].tag is Some),
    {
        entity.index < self.rows.len() && self.rows[entity.index].tag.is_some()
    }

    /// The spin of `entity`, if it has one.
    pub fn get_spin(&self, entity: Entity) -> (found: Option<&SpinY>)
        ensures
            found is Some == (entity.index < self@.entities.len()
                && self@.entities[entity.index as int].spin is Some),
            found matches Some(spin) ==> Some(*spin) == self@.entities[entity.index as int].spin,
    {
        if entity.index < self.rows.len() {
            self.rows[entity.index].spin.as_ref()
        } else {
            None
        }
    }

    /// The transform of `entity`, if it has one.
    pub fn get_transform(&self, entity: Entity) -> (found: Option<&Transform3D>)
        ensures
            found is Some == (entity.index < self@.entities.len()
                && self@.entities[entity.index as int].transform is Some),
            found matches Some(transform) ==> Some(*transform)
                == self@.entities[entity.index as int].transform,
    {
        if entity.index < self.rows.len() {
            self.rows[entity.index].transform.as_ref()
        } else {
            None
        }
    }

    /// The spin of `entity` for writing, if it has one.
    pub fn get_spin_mut(&mut self, entity: Entity) -> (found: Option<&mut SpinY>)
        ensures
            found is Some == (entity.index < old(self)@.entities.len()
                && old(self)@.entities[entity.index as int].spin is Some),
            found is None ==> final(self)@ == old(self)@,
            found matches Some(s) ==> {
                &&& Some(*s) == old(self)@.entities[entity.index as int].spin
                &&& final(self)@.delta_time == old(self)@.delta_time
                &&& final(self)@.entities == old(self)@.entities.update(
                    entity.index as int,
                    (Bundle { spin: Some(*final(s)), ..old(self)@.entities[entity.index as int] }),
                )
            },
    {
        if entity.index < self.rows.len() && self.rows[entity.index].spin.is_some() {
            self.rows[entity.index].spin.as_mut()
        } else {
            None
        }
    }

    /// The transform of `entity` for writing, if it has one.
    pub fn get_transform_mut(&mut self, entity: Entity) -> (found: Option<&mut Transform3D>)
        ensures
            found is Some == (entity.index < old(self)@.entities.len()
                && old(self)@.entities[entity.index as int].transform is Some),
            found is None ==> final(self)@ == old(self)@,
            found matches Some(t) ==> {
                &&& Some(*t) == old(self)@.entities[entity.index as int].transform
                &&& final(self)@.delta_time == old(self)@.delta_time
                &&& final(self)@.entities == old(self)@.entities.update(
                    entity.index as int,
                    (Bundle { transform: Some(*final(t)), ..old(self)@.entities[entity.index as int] }),
                )
            },
    {
        if entity.index < self.rows.len() && self.rows[entity.index].transform.is_some() {
            self.rows[entity.index].transform.as_mut()
        } else {
            None
        }
    }

    /// Installs the delta-time resource, or replaces its value.
    pub fn insert_resource(&mut self, value: DeltaTime)
        ensures
            final(self)@.entities == old(self)@.entities,
            final(self)@.delta_time == Some(value),
    {
        self.delta_time = Some(value);
    }

    /// Whether the delta-time resource has been installed.
    pub fn contains_resource(&self) -> (installed: bool)
        ensures
            installed == self@.delta_time is Some,
    {
        self.delta_time.is_some()
    }

    /// The delta-time resource. Asking before it was installed is a
    /// programming error, which the precondition rules out.
    pub fn resource(&self) -> (dt: &DeltaTime)
        requires
            self@.delta_time is Some,
        ensures
            Some(*dt) == self@.delta_time,
    {
        match &self.delta_time {
            Some(dt) => dt,
            None => vstd::pervasive::unreached(),
        }
    }

    /// The delta-time resource for writing.
    pub fn resource_mut(&mut self) -> (dt: &mut DeltaTime)
        requires
            old(self)@.delta_time is Some,
        ensures
            Some(*dt) == old(self)@.delta_time,
            final(self)@.entities == old(self)@.entities,
            final(self)@.delta_time == Some(*final(dt)),
    {
        match &mut self.delta_time {
            Some(dt) => dt,
            None => vstd::pervasive::unreached(),
        }
    }

    /// Visits, in creation order, every entity that carries both a spin and
    /// a transform, and replaces its transform by what `visit` returns for
    /// it. Nothing else in the store changes.
    pub fn for_each_spin<F>(&mut self, visit: &F) where
        F: Fn(Entity, SpinY, Transform3D) -> Transform3D,

        requires
            forall|entity: Entity, spin: SpinY, transform: Transform3D|
                visit.requires((entity, spin, transform)),
        ensures
            final(self)@.delta_time == old(self)@.delta_time,
            final(self)@.entities.len() == old(self)@.entities.len(),
            forall|i: int|
                0 <= i < old(self)@.entities.len() ==> spin_visited(
                    visit,
                    i,
                    old(self)@.entities[i],
                    #[trigger] final(self)@.entities[i],
                ),
    {
        let n = self.rows.len();
        let mut i: usize = 0;
        while i < n
            invariant
                i <= n,
                n == self.rows@.len(),
                n == old(self).rows@.len(),
                self.delta_time == old(self).delta_time,
                forall|entity: Entity, spin: SpinY, transform: Transform3D|
                    visit.requires((entity, spin, transform)),
                forall|k: int|
                    0 <= k < i ==> spin_visited(
                        visit,
                        k,
                        old(self).rows@[k],
                        #[trigger] self.rows@[k],
                    ),
                forall|k: int| i <= k < n ==> self.rows@[k] == old(self).rows@[k],
            decreases n - i,
        {
            let row = self.rows[i];
            if let Some(spin) = row.spin {
                if let Some(transform) = row.transform {
                    let moved = visit(Entity { index: i }, spin, transform);
                    self.rows.set(i, Bundle { tag: row.tag, spin: row.spin, transform: Some(moved) });
                }
            }
            i += 1;
        }
    }

    /// Visits, in creation order, every entity that carries the cube tag
    /// and a transform, and collects what `visit` returns for each. The tag
    /// only selects; `visit` is given the entity and its transform.
    pub fn for_each_tagged<T, F>(&self, visit: &F) -> (seen: Vec<T>) where
        F: Fn(Entity, Transform3D) -> T,

        requires
            forall|entity: Entity, transform: Transform3D| visit.requires((entity, transform)),
        ensures
            seen@.len() == tagged(self@.entities).len(),
            forall|j: int|
                0 <= j < seen@.len() ==> visit.ensures(
                    tagged(self@.entities)[j],
                    #[trigger] seen@[j],
                ),
    {
        let n = self.rows.len();
        let mut seen: Vec<T> = Vec::new();
        let mut i: usize = 0;
        while i < n
            invariant
                i <= n,
                n == self.rows@.len(),
                forall|entity: Entity, transform: Transform3D|
                    visit.requires((entity, transform)),
                seen@.len() == tagged(self.rows@.take(i as int)).len(),
                forall|j: int|
                    0 <= j < seen@.len() ==> visit.ensures(
                        tagged(self.rows@.take(i as int))[j],
                        #[trigger] seen@[j],
                    ),
            decreases n - i,
        {
            let row = self.rows[i];
            proof {
                let next = self.rows@.take(i + 1);
                assert(next.drop_last() == self.rows@.take(i as int));
                assert(next.last() == row);
            }
            if row.tag.is_some() {
                if let Some(transform) = row.transform {
                    seen.push(visit(Entity { index: i }, transform));
                }
            }
            i += 1;
        }
        proof {
            assert(self.rows@.take(n as int) == self.rows@);
        }
        seen
    }
}

} // verus!
