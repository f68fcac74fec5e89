use std::collections::VecDeque;
use vstd::prelude::*;

use crate::entity::{pack, Entity, MAX_INDICES};

verus! {

/// Freed indices are recycled only once more than this many are waiting.
pub const MINIMUM_FREE_INDICES: usize = 1024;

/// Issues and retires entity handles using generational indices.
#[derive(Debug)]
pub struct EntityManagerU32 {
    /// One generation counter per index ever handed out.
    generation: Vec<u8>,
    /// Freed indices, oldest first, waiting for reuse.
    free_indices: VecDeque<u32>,
}

impl EntityManagerU32 {
    /// The generation counters, one per index.
    pub closed spec fn gens(&self) -> Seq<u8> {
        self.generation@
    }

    /// The queue of freed indices, oldest first.
    pub closed spec fn free(&self) -> Seq<u32> {
        self.free_indices@
    }

    pub open spec fn wf(&self) -> bool {
        &&& self.gens().len() <= MAX_INDICES
        &&& forall|k: int| 0 <= k < self.free().len() ==> #[trigger] self.free()[k] < self.gens().len()
    }

    /// Whether `e` names an index this allocator knows.
    pub open spec fn knows(&self, e: Entity) -> bool {
        e.spec_index() < self.gens().len()
    }

    /// `e` is alive: the stored generation at its index equals its generation.
    pub open spec fn is_alive(&self, e: Entity) -> bool {
        &&& self.knows(e)
        &&& self.gens()[e.spec_index() as int] as u32 == e.spec_generation()
    }

    /// `create` may run on `self`: an index can be recycled or a new one fits.
    pub open spec fn can_create(&self) -> bool {
        self.free().len() > MINIMUM_FREE_INDICES || self.gens().len() < MAX_INDICES
    }

    /// How many more entities `create` can issue from here, destroying none.
    pub open spec fn room(&self) -> int {
        (MAX_INDICES - self.gens().len()) + if self.free().len() > MINIMUM_FREE_INDICES {
            self.free().len() - MINIMUM_FREE_INDICES
        } else {
            0
        }
    }

    /// `new` is `old` after a `create` that returned `e`.
    pub open spec fn created(old: Self, new: Self, e: Entity) -> bool {
        if old.free().len() > MINIMUM_FREE_INDICES {
            let idx = old.free()[0];
            &&& e.id == pack(idx, old.gens()[idx as int])
            &&& e.spec_index() == idx
            &&& e.spec_generation() == old.gens()[idx as int] as u32
            &&& new.gens() == old.gens()
            &&& new.free() == old.free().drop_first()
        } else {
            &&& e.id == pack(old.gens().len() as u32, 0)
            &&& e.spec_index() == old.gens().len()
            &&& e.spec_generation() == 0
            &&& new.gens() == old.gens().push(0)
            &&& new.free() == old.free()
        }
    }

    /// `new` is `old` after `destroy(e)`: the generation at its index goes up by one,
    /// wrapping at 256, and the index joins the back of the free queue.
    pub open spec fn destroyed(old: Self, new: Self, e: Entity) -> bool {
        let idx = e.spec_index();
        &&& new.gens() == old.gens().update(idx as int, ((old.gens()[idx as int] + 1) % 256) as u8)
        &&& new.free() == old.free().push(idx)
    }

    /// Creates an allocator that has handed out nothing.
    pub fn new() -> (r: Self)
        ensures
            r.wf(),
            r.gens() == Seq::<u8>::empty(),
            r.free() == Seq::<u32>::empty(),
    {
        Self { generation: Vec::new(), free_indices: VecDeque::new() }
    }

    /// Combines an index and a generation into an entity.
    pub fn make_entity(index: u32, generation: u8) -> (r: Entity)
        requires
            index < MAX_INDICES,
        ensures
            r.id == pack(index, generation),
            r.spec_index() == index,
            r.spec_generation() == generation as u32,
    {
        Entity::make_entity(index, generation)
    }

    /// Issues a new entity, recycling the oldest freed index once more than
    /// `MINIMUM_FREE_INDICES` are waiting.
    pub fn create(&mut self) -> (r: Entity)
        requires
            old(self).wf(),
            old(self).can_create(),
        ensures
            final(self).wf(),
            Self::created(*old(self), *final(self), r),
            final(self).is_alive(r),
            final(self).room() == old(self).room() - 1,
            forall|x: Entity| #[trigger] old(self).knows(x) ==> final(self).is_alive(x) == old(self).is_alive(x),
    {
        if self.free_indices.len() > MINIMUM_FREE_INDICES {
            let idx = self.free_indices.pop_front().unwrap();
            assert(idx == old(self).free()[0]);
            let g = self.generation[idx as usize];
            let r = Self::make_entity(idx, g);
            assert forall|k: int| 0 <= k < self.free().len() implies #[trigger] self.free()[k]
                < self.gens().len() by {
                assert(self.free()[k] == old(self).free()[k + 1]);
            }
            r
        } else {
            self.generation.push(0);
            let idx = (self.generation.len() - 1) as u32;
            let r = Self::make_entity(idx, 0);
            assert forall|k: int| 0 <= k < self.free().len() implies #[trigger] self.free()[k]
                < self.gens().len() by {
                assert(self.free()[k] == old(self).free()[k]);
            }
            r
        }
    }

    /// How many more entities `create` can issue from here, destroying none.
    pub fn spare(&self) -> (r: u128)
        requires
            self.wf(),
        ensures
            r == self.room(),
    {
        let fresh: u128 = (MAX_INDICES - self.generation.len()) as u128;
        let waiting = self.free_indices.len();
        if waiting > MINIMUM_FREE_INDICES {
            fresh + (waiting - MINIMUM_FREE_INDICES) as u128
        } else {
            fresh
        }
    }

    /// Whether `e` names an index this allocator has handed out.
    pub fn issued(&self, e: &Entity) -> (r: bool)
        ensures
            r == self.knows(*e),
    {
        (e.index() as usize) < self.generation.len()
    }

    /// Returns true if `e` is still alive.
    pub fn alive(&self, e: &Entity) -> (r: bool)
        requires
            self.knows(*e),
        ensures
            r == self.is_alive(*e),
    {
        self.generation[e.index() as usize] as u32 == e.generation()
    }

    /// Retires `e`: bumps the generation at its index and queues the index for reuse.
    pub fn destroy(&mut self, e: &Entity)
        requires
            old(self).wf(),
            old(self).knows(*e),
        ensures
            final(self).wf(),
            Self::destroyed(*old(self), *final(self), *e),
            old(self).is_alive(*e) ==> !final(self).is_alive(*e),
            final(self).room() >= old(self).room(),
            final(self).gens().len() == old(self).gens().len(),
    {
        let idx = e.index();
        let g = self.generation[idx as usize];
        self.generation.set(idx as usize, g.wrapping_add(1));
        self.free_indices.push_back(idx);
        assert forall|k: int| 0 <= k < self.free().len() implies #[trigger] self.free()[k]
            < self.gens().len() by {
            if k < old(self).free().len() {
                assert(self.free()[k] == old(self).free()[k]);
            }
        }
    }
}

/// A handle is alive right after `create` returns it, and dead right after it is destroyed.
pub proof fn lemma_create_then_destroy(
    m0: EntityManagerU32,
    m1: EntityManagerU32,
    e: Entity,
    m2: EntityManagerU32,
)
    requires
        m0.wf(),
        m0.can_create(),
        EntityManagerU32::created(m0, m1, e),
        EntityManagerU32::destroyed(m1, m2, e),
    ensures
        m1.is_alive(e),
        !m2.is_alive(e),
{
}

/// Once a destroyed handle's index is handed out again, the new handle carries the
/// next generation (wrapping at 256) and the old handle is not alive.
/// `m1` is the allocator right after the destroy, `m2` the allocator before the
/// recycling `create`, with the index's counter left as the destroy set it.
pub proof fn lemma_generational_reuse(
    m0: EntityManagerU32,
    e: Entity,
    m1: EntityManagerU32,
    m2: EntityManagerU32,
    m3: EntityManagerU32,
    e2: Entity,
)
    requires
        m0.wf(),
        m0.is_alive(e),
        EntityManagerU32::destroyed(m0, m1, e),
        m2.wf(),
        m2.can_create(),
        m2.knows(e),
        m2.gens()[e.spec_index() as int] == m1.gens()[e.spec_index() as int],
        EntityManagerU32::created(m2, m3, e2),
        e2.spec_index() == e.spec_index(),
    ensures
        m2.free().len() > MINIMUM_FREE_INDICES,
        e2.spec_generation() == (e.spec_generation() + 1) % 256,
        m3.is_alive(e2),
        !m3.is_alive(e),
{
}

} // verus!
