use std::collections::HashMap;
use vstd::prelude::*;

use crate::entity::Entity;
use crate::entity_manager::EntityManagerU32;

verus! {

broadcast use vstd::std_specs::hash::group_hash_axioms;

/// Handle to a component slot. Valid only until the next change to the same store.
pub type Instance = usize;

/// The sequences `s` with slot `i` replaced by the last slot and the last slot dropped.
pub open spec fn swap_removed<A>(s: Seq<A>, i: int) -> Seq<A> {
    s.update(i, s.last()).drop_last()
}

/// Packed storage of the components of one type: parallel sequences of entities and
/// values, and a map from entity id to slot.
#[derive(Debug)]
pub struct Manager<T> {
    /// Entity held by each slot.
    entity: Vec<Entity>,
    /// Component value held by each slot.
    value: Vec<T>,
    /// Entity id to slot.
    map: HashMap<u32, usize>,
}

impl<T> Manager<T> {
    /// Entities, slot by slot.
    pub closed spec fn ents(&self) -> Seq<Entity> {
        self.entity@
    }

    /// Values, slot by slot.
    pub closed spec fn vals(&self) -> Seq<T> {
        self.value@
    }

    /// Entity id to slot.
    pub closed spec fn slots(&self) -> Map<u32, usize> {
        self.map@
    }

    /// The mapping is the exact inverse of the entity sequence.
    pub open spec fn wf(&self) -> bool {
        &&& self.ents().len() == self.vals().len()
        &&& forall|i: int|
            0 <= i < self.ents().len() ==> {
                &&& self.slots().contains_key(#[trigger] self.ents()[i].id)
                &&& self.slots()[self.ents()[i].id] == i
            }
        &&& forall|k: u32| #[trigger]
            self.slots().contains_key(k) ==> {
                &&& self.slots()[k] < self.ents().len()
                &&& self.ents()[self.slots()[k] as int].id == k
            }
    }

    /// Whether `e` holds a component here.
    pub open spec fn has(&self, e: Entity) -> bool {
        self.slots().contains_key(e.id)
    }

    /// What `lookup(e)` returns.
    pub open spec fn spec_lookup(&self, e: Entity) -> Option<Instance> {
        if self.has(e) {
            Some(self.slots()[e.id])
        } else {
            None
        }
    }

    /// The component of each entity id that holds one.
    pub open spec fn model(&self) -> Map<u32, T> {
        Map::new(|k: u32| self.slots().contains_key(k), |k: u32| self.vals()[self.slots()[k] as int])
    }

    /// Creates an empty store.
    pub fn new() -> (r: Self)
        ensures
            r.wf(),
            r.ents() == Seq::<Entity>::empty(),
            r.vals() == Seq::<T>::empty(),
            r.slots() == Map::<u32, usize>::empty(),
            r.model() == Map::<u32, T>::empty(),
    {
        let r = Self { entity: Vec::new(), value: Vec::new(), map: HashMap::new() };
        assert(r.model() =~= Map::<u32, T>::empty());
        r
    }

    /// The instance for an index into the data arrays.
    fn make_instance(i: usize) -> (r: Instance)
        ensures
            r == i,
    {
        i
    }

    /// Number of slots.
    pub fn len(&self) -> (r: usize)
        ensures
            r == self.ents().len(),
    {
        self.entity.len()
    }

    /// The slot of `e`, or `None` if `e` holds no component here.
    pub fn lookup(&self, e: &Entity) -> (r: Option<Instance>)
        requires
            self.wf(),
        ensures
            r == self.spec_lookup(*e),
            r matches Some(i) ==> i < self.ents().len() && self.ents()[i as int] == *e,
    {
        match self.map.get(&e.id) {
            Some(i) => Some(Self::make_instance(*i)),
            None => None,
        }
    }

    /// The value in slot `i`.
    pub fn get(&self, i: Instance) -> (r: &T)
        requires
            i < self.vals().len(),
        ensures
            *r == self.vals()[i as int],
    {
        &self.value[i]
    }

    /// Mutable access to the value in slot `i`.
    pub fn get_mut(&mut self, i: Instance) -> (r: &mut T)
        requires
            i < old(self).vals().len(),
        ensures
            *r == old(self).vals()[i as int],
            final(self).vals() == old(self).vals().update(i as int, *final(r)),
            final(self).ents() == old(self).ents(),
            final(self).slots() == old(self).slots(),
    {
        &mut self.value[i]
    }

    /// The component of `e`, or `None` if it has none here.
    pub fn get_e(&self, e: &Entity) -> (r: Option<&T>)
        requires
            self.wf(),
        ensures
            match r {
                Some(v) => self.has(*e) && *v == self.model()[e.id],
                None => !self.has(*e),
            },
    {
        match self.lookup(e) {
            Some(i) => Some(self.get(i)),
            None => None,
        }
    }

    /// Mutable access to the component of `e`, or `None` if it has none here.
    pub fn get_e_mut(&mut self, e: &Entity) -> (r: Option<&mut T>)
        requires
            old(self).wf(),
        ensures
            final(self).wf(),
            final(self).ents() == old(self).ents(),
            final(self).slots() == old(self).slots(),
            match r {
                Some(v) => {
                    &&& old(self).has(*e)
                    &&& *v == old(self).model()[e.id]
                    &&& final(self).vals() == old(self).vals().update(old(self).slots()[e.id] as int, *final(v))
                },
                None => !old(self).has(*e) && *final(self) == *old(self),
            },
    {
        match self.lookup(e) {
            Some(i) => Some(self.get_mut(i)),
            None => None,
        }
    }

    /// Overwrites the value in slot `i`.
    pub fn set_value(&mut self, i: Instance, value: T)
        requires
            old(self).wf(),
            i < old(self).vals().len(),
        ensures
            final(self).wf(),
            final(self).ents() == old(self).ents(),
            final(self).slots() == old(self).slots(),
            final(self).vals() == old(self).vals().update(i as int, value),
            final(self).model() == old(self).model().insert(old(self).ents()[i as int].id, value),
    {
        self.value.set(i, value);
        assert(self.model() =~= old(self).model().insert(old(self).ents()[i as int].id, value));
    }

    /// Gives `e` the component `value`: a new slot at the end, or the slot `e`
    /// already holds, overwritten in place.
    pub fn create(&mut self, e: Entity, value: T) -> (r: Instance)
        requires
            old(self).wf(),
        ensures
            final(self).wf(),
            final(self).model() == old(self).model().insert(e.id, value),
            final(self).spec_lookup(e) == Some(r),
            old(self).has(e) ==> {
                &&& r == old(self).slots()[e.id]
                &&& final(self).ents() == old(self).ents()
                &&& final(self).slots() == old(self).slots()
                &&& final(self).vals() == old(self).vals().update(r as int, value)
            },
            !old(self).has(e) ==> {
                &&& r == old(self).ents().len()
                &&& final(self).ents() == old(self).ents().push(e)
                &&& final(self).vals() == old(self).vals().push(value)
                &&& final(self).slots() == old(self).slots().insert(e.id, r)
            },
    {
        match self.map.get(&e.id) {
            Some(i) => {
                let i = *i;
                assert(self.slots().contains_key(e.id));
                self.set_value(i, value);
                Self::make_instance(i)
            },
            None => {
                let i = self.entity.len();
                self.entity.push(e);
                self.value.push(value);
                self.map.insert(e.id, i);
                assert forall|k: u32| #[trigger] self.slots().contains_key(k) implies {
                    &&& self.slots()[k] < self.ents().len()
                    &&& self.ents()[self.slots()[k] as int].id == k
                } by {
                    if k != e.id {
                        assert(old(self).slots().contains_key(k));
                    }
                }
                assert forall|j: int| 0 <= j < self.ents().len() implies {
                    &&& self.slots().contains_key(#[trigger] self.ents()[j].id)
                    &&& self.slots()[self.ents()[j].id] == j
                } by {
                    if j < i {
                        assert(self.ents()[j] == old(self).ents()[j]);
                        assert(old(self).slots().contains_key(old(self).ents()[j].id));
                    }
                }
                assert(self.model() =~= old(self).model().insert(e.id, value));
                Self::make_instance(i)
            },
        }
    }

    /// Removes slot `i` by moving the last slot into its place.
    pub fn destroy(&mut self, i: Instance)
        requires
            old(self).wf(),
            i < old(self).ents().len(),
        ensures
            final(self).wf(),
            final(self).ents() == swap_removed(old(self).ents(), i as int),
            final(self).vals() == swap_removed(old(self).vals(), i as int),
            final(self).model() == old(self).model().remove(old(self).ents()[i as int].id),
            final(self).slots() == (if i == old(self).ents().len() - 1 {
                old(self).slots().remove(old(self).ents()[i as int].id)
            } else {
                old(self).slots().insert(old(self).ents().last().id, i).remove(old(self).ents()[i as int].id)
            }),
            !final(self).has(old(self).ents()[i as int]),
    {
        let ghost old_self = *self;
        let last = self.entity.len() - 1;
        let entity = self.entity[i];
        let last_entity = self.entity[last];
        self.entity.swap_remove(i);
        self.value.swap_remove(i);
        if i != last {
            self.map.insert(last_entity.id, i);
        }
        self.map.remove(&entity.id);
        proof {
            let n = old_self.ents().len();
            assert(self.ents() =~= swap_removed(old_self.ents(), i as int));
            assert(self.vals() =~= swap_removed(old_self.vals(), i as int));
            assert(entity.id != last_entity.id ==> i != last) by {
                assert(old_self.slots()[entity.id] == i);
                assert(old_self.slots()[last_entity.id] == last);
            }
            assert forall|j: int| 0 <= j < self.ents().len() implies {
                &&& self.slots().contains_key(#[trigger] self.ents()[j].id)
                &&& self.slots()[self.ents()[j].id] == j
            } by {
                if j != i {
                    assert(self.ents()[j] == old_self.ents()[j]);
                    assert(old_self.slots().contains_key(old_self.ents()[j].id));
                    assert(old_self.slots()[old_self.ents()[j].id] == j);
                }
            }
            assert forall|k: u32| #[trigger] self.slots().contains_key(k) implies {
                &&& self.slots()[k] < self.ents().len()
                &&& self.ents()[self.slots()[k] as int].id == k
            } by {
                assert(old_self.slots().contains_key(k));
                if k != last_entity.id {
                    let s = old_self.slots()[k];
                    assert(s != last);
                    assert(s != i);
                }
            }
            assert(self.model() =~= old_self.model().remove(entity.id)) by {
                assert forall|k: u32| #[trigger] self.model().contains_key(k) implies
                    self.model()[k] == old_self.model()[k] by {
                    if k != last_entity.id {
                        let s = old_self.slots()[k];
                        assert(s != last);
                    }
                }
            }
        }
    }

    /// All entities holding this component, one per slot.
    pub fn entities(&self) -> (r: Vec<Entity>)
        ensures
            r@ == self.ents(),
    {
        self.entity.clone()
    }

    /// Destroys every slot whose entity `manager` no longer reports alive.
    pub fn clean_all(&mut self, manager: &EntityManagerU32)
        requires
            old(self).wf(),
            forall|j: int| 0 <= j < old(self).ents().len() ==> manager.knows(#[trigger] old(self).ents()[j]),
        ensures
            final(self).wf(),
            final(self).model() == old(self).model().restrict(
                Set::new(|k: u32| manager.is_alive(Entity { id: k })),
            ),
    {
        let mut i: usize = 0;
        while i < self.entity.len()
            invariant
                self.wf(),
                i <= self.ents().len(),
                forall|j: int| 0 <= j < self.ents().len() ==> manager.knows(#[trigger] self.ents()[j]),
                forall|j: int| 0 <= j < i ==> manager.is_alive(#[trigger] self.ents()[j]),
                forall|k: u32| #[trigger] self.model().contains_key(k) ==> old(self).model().contains_key(k) && self.model()[k] == old(self).model()[k],
                forall|k: u32| #[trigger] old(self).model().contains_key(k) && manager.is_alive(Entity { id: k }) ==> self.model().contains_key(k),
            decreases self.ents().len() - i,
        {
            let e = self.entity[i];
            if !manager.alive(&e) {
                let ghost before = *self;
                self.destroy(i);
                proof {
                    assert forall|j: int| 0 <= j < self.ents().len() implies manager.knows(#[trigger] self.ents()[j]) by {
                        if j == i {
                            assert(self.ents()[j] == before.ents().last());
                        } else {
                            assert(self.ents()[j] == before.ents()[j]);
                        }
                    }
                    assert forall|j: int| 0 <= j < i implies manager.is_alive(#[trigger] self.ents()[j]) by {
                        assert(self.ents()[j] == before.ents()[j]);
                    }
                    assert forall|k: u32| #[trigger] old(self).model().contains_key(k) && manager.is_alive(Entity { id: k }) implies self.model().contains_key(k) by {
                        assert(k != e.id);
                    }
                }
            } else {
                i = i + 1;
            }
        }
        proof {
            assert forall|k: u32| #[trigger] self.model().contains_key(k) implies manager.is_alive(Entity { id: k }) by {
                let s = self.slots()[k] as int;
                assert(self.ents()[s].id == k);
                assert(self.ents()[s] == Entity { id: k });
            }
            assert(self.model() =~= old(self).model().restrict(
                Set::new(|k: u32| manager.is_alive(Entity { id: k })),
            ));
        }
    }
}

/// In a well-formed store, as left by any sequence of `create` and `destroy`, every
/// slot is found again by looking up its entity, distinct slots hold distinct
/// entities, and the mapping has exactly one key per slot.
pub proof fn lemma_store_bijection<T>(m: Manager<T>)
    requires
        m.wf(),
    ensures
        forall|i: int| 0 <= i < m.ents().len() ==> #[trigger] m.spec_lookup(m.ents()[i]) == Some(i as usize),
        forall|i: int, j: int| 0 <= i < j < m.ents().len() ==> m.ents()[i] != m.ents()[j],
        m.ents().len() == m.vals().len(),
        m.slots().dom().len() == m.ents().len(),
{
    assert forall|i: int, j: int| 0 <= i < j < m.ents().len() implies m.ents()[i] != m.ents()[j] by {
        assert(m.slots()[m.ents()[i].id] == i);
        assert(m.slots()[m.ents()[j].id] == j);
    }
    let ids = m.ents().map_values(|e: Entity| e.id);
    assert(ids.no_duplicates()) by {
        assert forall|i: int, j: int| 0 <= i < ids.len() && 0 <= j < ids.len() && i != j implies ids[i] != ids[j] by {
            assert(m.slots()[m.ents()[i].id] == i);
            assert(m.slots()[m.ents()[j].id] == j);
        }
    }
    ids.unique_seq_to_set();
    assert(ids.to_set() =~= m.slots().dom()) by {
        assert forall|k: u32| #[trigger] m.slots().dom().contains(k) implies ids.to_set().contains(k) by {
            let i = m.slots()[k] as int;
            assert(ids[i] == k);
        }
        assert forall|k: u32| #[trigger] ids.to_set().contains(k) implies m.slots().dom().contains(k) by {
            let i = choose|i: int| 0 <= i < ids.len() && ids[i] == k;
            assert(m.ents()[i].id == k);
        }
    }
}

} // verus!
