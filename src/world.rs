use vstd::prelude::*;

use crate::entity::Entity;
use crate::entity_manager::EntityManagerU32;
use crate::registry::{store_has, Component, ComponentKind, Registry};

verus! {

/// Errors of the entity-component layer.
#[derive(Debug, Clone, PartialEq, Eq)]
pub enum Error {
    /// A requested component is absent on a live entity.
    MissingComponent(&'static str),
    /// Any other failure, described in words.
    ExternalString(String),
}

impl From<String> for Error {
    fn from(err_str: String) -> (r: Self) {
        Error::ExternalString(err_str)
    }
}

impl vstd::std_specs::convert::FromSpecImpl<String> for Error {
    open spec fn obeys_from_spec() -> bool {
        true
    }

    open spec fn from_spec(v: String) -> Self {
        Error::ExternalString(v)
    }
}

/// `s` with the entities that `m` reports dead left out, order kept.
pub open spec fn alive_only(m: EntityManagerU32, s: Seq<Entity>) -> Seq<Entity>
    decreases s.len(),
{
    if s.len() == 0 {
        s
    } else {
        let prev = alive_only(m, s.drop_last());
        if m.is_alive(s.last()) {
            prev.push(s.last())
        } else {
            prev
        }
    }
}

/// The entity allocator, the component stores, and the entities known to collaborators.
pub struct World {
    pub component_registry: Registry,
    pub entity_manager: EntityManagerU32,
    /// Entities handed out; may hold dead ones until `prune_dead`.
    pub entity_list: Vec<Entity>,
}

impl World {
    pub open spec fn wf(&self) -> bool {
        &&& self.component_registry.wf()
        &&& self.entity_manager.wf()
        &&& forall|i: int|
            0 <= i < self.entity_list@.len() ==> self.entity_manager.knows(#[trigger] self.entity_list@[i])
    }

    /// `b` is `a` with the store of `T` changed at most.
    pub open spec fn only_store_changed<T: Component>(a: World, b: World) -> bool {
        &&& Registry::same_except(a.component_registry, b.component_registry, T::kind())
        &&& b.entity_manager == a.entity_manager
        &&& b.entity_list@ == a.entity_list@
    }

    /// A world with no entity and no registered component type.
    pub fn new() -> (r: Self)
        ensures
            r.wf(),
            r.entity_manager.gens().len() == 0,
            r.entity_manager.free().len() == 0,
            r.entity_list@.len() == 0,
            forall|k: ComponentKind, e: Entity| !r.component_registry.has_kind(k, e),
    {
        World {
            component_registry: Registry::new(),
            entity_manager: EntityManagerU32::new(),
            entity_list: Vec::new(),
        }
    }

    /// Removes every entity of `entity_list` that is no longer alive, keeping the
    /// order of the rest.
    pub fn prune_dead(&mut self)
        requires
            old(self).wf(),
        ensures
            final(self).wf(),
            final(self).entity_list@ == alive_only(old(self).entity_manager, old(self).entity_list@),
            final(self).entity_manager == old(self).entity_manager,
            final(self).component_registry == old(self).component_registry,
    {
        let ghost list = self.entity_list@;
        let mut kept: Vec<Entity> = Vec::new();
        let mut i: usize = 0;
        while i < self.entity_list.len()
            invariant
                self.wf(),
                self.entity_list@ == list,
                *self == *old(self),
                0 <= i <= list.len(),
                kept@ == alive_only(self.entity_manager, list.subrange(0, i as int)),
                forall|j: int| 0 <= j < kept@.len() ==> self.entity_manager.knows(#[trigger] kept@[j]),
            decreases list.len() - i,
        {
            let e = self.entity_list[i];
            assert(list.subrange(0, i + 1).drop_last() =~= list.subrange(0, i as int));
            if self.entity_manager.alive(&e) {
                kept.push(e);
            }
            i = i + 1;
        }
        assert(list.subrange(0, i as int) =~= list);
        self.entity_list = kept;
    }

    /// Starts composing a new entity; it is allocated now and listed by `done`.
    pub fn build_entity(&mut self) -> (r: EntityBuilder)
        requires
            old(self).wf(),
            old(self).entity_manager.can_create(),
        ensures
            final(self).wf(),
            EntityManagerU32::created(old(self).entity_manager, final(self).entity_manager, r.entity),
            final(self).entity_manager.is_alive(r.entity),
            final(self).entity_manager.room() == old(self).entity_manager.room() - 1,
            final(self).entity_list@ == old(self).entity_list@,
            final(self).component_registry == old(self).component_registry,
    {
        EntityBuilder::new(self)
    }

    /// Creates an entity with no components and lists it.
    pub fn create_entity(&mut self) -> (r: Entity)
        requires
            old(self).wf(),
            old(self).entity_manager.can_create(),
        ensures
            final(self).wf(),
            EntityManagerU32::created(old(self).entity_manager, final(self).entity_manager, r),
            final(self).entity_manager.is_alive(r),
            final(self).entity_manager.room() == old(self).entity_manager.room() - 1,
            final(self).entity_list@ == old(self).entity_list@.push(r),
            final(self).component_registry == old(self).component_registry,
    {
        let e = self.entity_manager.create();
        self.entity_list.push(e);
        proof {
            self.lemma_created_keeps_known(*old(self));
        }
        e
    }

    proof fn lemma_created_keeps_known(&self, before: World)
        requires
            before.wf(),
            self.entity_manager.wf(),
            self.entity_manager.gens().len() >= before.entity_manager.gens().len(),
            self.component_registry.wf(),
            forall|i: int|
                0 <= i < self.entity_list@.len() ==> (i < before.entity_list@.len() && self.entity_list@[i] == before.entity_list@[i])
                    || self.entity_manager.knows(#[trigger] self.entity_list@[i]),
        ensures
            self.wf(),
    {
        assert forall|i: int| 0 <= i < self.entity_list@.len() implies self.entity_manager.knows(#[trigger] self.entity_list@[i]) by {
            if i < before.entity_list@.len() && self.entity_list@[i] == before.entity_list@[i] {
                assert(before.entity_manager.knows(before.entity_list@[i]));
            }
        }
    }

    /// Destroys `e` if it is alive; `entity_list` keeps it until `prune_dead`.
    pub fn destroy_entity(&mut self, e: &Entity)
        requires
            old(self).wf(),
            old(self).entity_manager.knows(*e),
        ensures
            final(self).wf(),
            old(self).entity_manager.is_alive(*e) ==> EntityManagerU32::destroyed(
                old(self).entity_manager,
                final(self).entity_manager,
                *e,
            ),
            !old(self).entity_manager.is_alive(*e) ==> final(self).entity_manager == old(self).entity_manager,
            !final(self).entity_manager.is_alive(*e),
            final(self).entity_manager.room() >= old(self).entity_manager.room(),
            final(self).entity_manager.gens().len() == old(self).entity_manager.gens().len(),
            final(self).entity_list@ == old(self).entity_list@,
            final(self).component_registry == old(self).component_registry,
    {
        if self.entity_manager.alive(e) {
            self.entity_manager.destroy(e);
        }
    }

    /// Gives `e` a component of type `T` holding `T`'s default value.
    pub fn add_component_default<T: Component + Default>(&mut self, e: Entity) -> (r: Result<Entity, Error>)
        requires
            old(self).wf(),
            T::store(old(self).component_registry) is Some,
        ensures
            final(self).wf(),
            r == Ok::<Entity, Error>(e),
            World::only_store_changed::<T>(*old(self), *final(self)),
            store_has(T::store(final(self).component_registry), e),
            T::store(final(self).component_registry)->Some_0.model().remove(e.id)
                == T::store(old(self).component_registry)->Some_0.model().remove(e.id),
            call_ensures(T::default, (), T::store(final(self).component_registry)->Some_0.model()[e.id]),
    {
        let v = T::default();
        let r = self.add_component(e, v);
        proof {
            let m0 = T::store(old(self).component_registry)->Some_0.model();
            assert(m0.insert(e.id, v).remove(e.id) =~= m0.remove(e.id));
            assert(T::store(self.component_registry)->Some_0.model().contains_key(e.id));
        }
        r
    }

    /// Gives `e` the component `value`, overwriting the one of type `T` it may hold.
    pub fn add_component<T: Component>(&mut self, e: Entity, value: T) -> (r: Result<Entity, Error>)
        requires
            old(self).wf(),
            T::store(old(self).component_registry) is Some,
        ensures
            final(self).wf(),
            r == Ok::<Entity, Error>(e),
            World::only_store_changed::<T>(*old(self), *final(self)),
            T::store(final(self).component_registry) is Some,
            T::store(final(self).component_registry)->Some_0.model() == T::store(
                old(self).component_registry,
            )->Some_0.model().insert(e.id, value),
            store_has(T::store(final(self).component_registry), e),
    {
        self.component_registry.attach(e, value);
        Ok(e)
    }

    /// Removes the component of type `T` from `e`; nothing happens if it has none.
    pub fn remove_component<T: Component>(&mut self, e: Entity) -> (r: Result<Entity, Error>)
        requires
            old(self).wf(),
            T::store(old(self).component_registry) is Some,
        ensures
            final(self).wf(),
            r == Ok::<Entity, Error>(e),
            World::only_store_changed::<T>(*old(self), *final(self)),
            T::store(final(self).component_registry) is Some,
            T::store(final(self).component_registry)->Some_0.model() == T::store(
                old(self).component_registry,
            )->Some_0.model().remove(e.id),
            !store_has(T::store(final(self).component_registry), e),
            !store_has(T::store(old(self).component_registry), e) ==> *final(self) == *old(self),
    {
        self.component_registry.detach::<T>(&e);
        Ok(e)
    }

    /// Overwrites the component of type `T` that `e` holds; nothing happens if it has none.
    pub fn set_component<T: Component>(&mut self, e: Entity, value: T)
        requires
            old(self).wf(),
        ensures
            final(self).wf(),
            World::only_store_changed::<T>(*old(self), *final(self)),
            T::store(final(self).component_registry) is Some <==> T::store(old(self).component_registry) is Some,
            T::store(old(self).component_registry) is Some ==> T::store(final(self).component_registry)->Some_0.model() == (
                if T::store(old(self).component_registry)->Some_0.has(e) {
                    T::store(old(self).component_registry)->Some_0.model().insert(e.id, value)
                } else {
                    T::store(old(self).component_registry)->Some_0.model()
                }),
            store_has(T::store(final(self).component_registry), e) == store_has(T::store(old(self).component_registry), e),
            !store_has(T::store(old(self).component_registry), e) ==> *final(self) == *old(self),
    {
        self.component_registry.overwrite(&e, value);
    }
}

/// Composes a new entity from several components. `done` lists it; `discard` rolls it
/// back, destroying the entity and every component attached so far.
pub struct EntityBuilder {
    pub entity: Entity,
}

impl EntityBuilder {
    /// Allocates the entity: visible to the allocator, not yet to `entity_list`.
    pub fn new(ecs: &mut World) -> (r: Self)
        requires
            old(ecs).wf(),
            old(ecs).entity_manager.can_create(),
        ensures
            final(ecs).wf(),
            EntityManagerU32::created(old(ecs).entity_manager, final(ecs).entity_manager, r.entity),
            final(ecs).entity_manager.is_alive(r.entity),
            final(ecs).entity_manager.room() == old(ecs).entity_manager.room() - 1,
            final(ecs).entity_list@ == old(ecs).entity_list@,
            final(ecs).component_registry == old(ecs).component_registry,
    {
        let entity = ecs.entity_manager.create();
        proof {
            ecs.lemma_created_keeps_known(*old(ecs));
        }
        EntityBuilder { entity }
    }

    /// Attaches `value` to the entity being built.
    pub fn with<U: Component>(self, ecs: &mut World, value: U) -> (r: Self)
        requires
            old(ecs).wf(),
            U::store(old(ecs).component_registry) is Some,
        ensures
            r == self,
            final(ecs).wf(),
            World::only_store_changed::<U>(*old(ecs), *final(ecs)),
            U::store(final(ecs).component_registry) is Some,
            U::store(final(ecs).component_registry)->Some_0.model() == U::store(
                old(ecs).component_registry,
            )->Some_0.model().insert(self.entity.id, value),
            store_has(U::store(final(ecs).component_registry), self.entity),
    {
        ecs.component_registry.attach(self.entity, value);
        self
    }

    /// Lists the entity and hands it over.
    pub fn done(self, ecs: &mut World) -> (r: Entity)
        requires
            old(ecs).wf(),
            old(ecs).entity_manager.knows(self.entity),
        ensures
            r == self.entity,
            final(ecs).wf(),
            final(ecs).entity_list@ == old(ecs).entity_list@.push(r),
            final(ecs).entity_manager == old(ecs).entity_manager,
            final(ecs).component_registry == old(ecs).component_registry,
    {
        ecs.entity_list.push(self.entity);
        proof {
            ecs.lemma_created_keeps_known(*old(ecs));
        }
        self.entity
    }

    /// Rolls the entity back: removes every component it holds and destroys it.
    pub fn discard(self, ecs: &mut World)
        requires
            old(ecs).wf(),
            old(ecs).entity_manager.knows(self.entity),
        ensures
            final(ecs).wf(),
            !final(ecs).entity_manager.is_alive(self.entity),
            forall|k: ComponentKind| !final(ecs).component_registry.has_kind(k, self.entity),
            Registry::without_entity(old(ecs).component_registry, final(ecs).component_registry, self.entity),
            old(ecs).entity_manager.is_alive(self.entity) ==> EntityManagerU32::destroyed(
                old(ecs).entity_manager,
                final(ecs).entity_manager,
                self.entity,
            ),
            !old(ecs).entity_manager.is_alive(self.entity) ==> final(ecs).entity_manager == old(ecs).entity_manager,
            final(ecs).entity_list@ == old(ecs).entity_list@,
    {
        ecs.component_registry.detach_all(&self.entity);
        ecs.destroy_entity(&self.entity);
    }
}

} // verus!
