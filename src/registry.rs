use vstd::prelude::*;

use crate::component::{Cell, Gravity, Hold, Mesh, Player, Position, Preview, Scoring, Size};
use crate::component_manager::{Instance, Manager};
use crate::entity::Entity;

verus! {

/// The identity of each component type that a registry can hold.
#[derive(Debug, Clone, Copy, PartialEq, Eq, Structural)]
pub enum ComponentKind {
    Color,
    Mesh,
    Size,
    Position,
    Player,
    Preview,
    Scoring,
    Gravity,
    Hold,
}

/// A store that is absent, or well formed.
pub open spec fn store_wf<T>(s: Option<Manager<T>>) -> bool {
    s matches Some(m) ==> m.wf()
}

/// Whether `e` holds a component in the store `s`.
pub open spec fn store_has<T>(s: Option<Manager<T>>, e: Entity) -> bool {
    s matches Some(m) && m.has(e)
}

/// One store per component type; `None` until the type is registered.
pub struct Registry {
    pub color: Option<Manager<Cell>>,
    pub mesh: Option<Manager<Mesh>>,
    pub size: Option<Manager<Size>>,
    pub position: Option<Manager<Position>>,
    pub player: Option<Manager<Player>>,
    pub preview: Option<Manager<Preview>>,
    pub scoring: Option<Manager<Scoring>>,
    pub gravity: Option<Manager<Gravity>>,
    pub hold: Option<Manager<Hold>>,
}

impl Registry {
    /// Every registered store is well formed.
    pub open spec fn wf(&self) -> bool {
        &&& store_wf(self.color)
        &&& store_wf(self.mesh)
        &&& store_wf(self.size)
        &&& store_wf(self.position)
        &&& store_wf(self.player)
        &&& store_wf(self.preview)
        &&& store_wf(self.scoring)
        &&& store_wf(self.gravity)
        &&& store_wf(self.hold)
    }

    /// `a` and `b` hold the same store for every kind but `k`.
    pub open spec fn same_except(a: Registry, b: Registry, k: ComponentKind) -> bool {
        &&& (k != ComponentKind::Color ==> a.color == b.color)
        &&& (k != ComponentKind::Mesh ==> a.mesh == b.mesh)
        &&& (k != ComponentKind::Size ==> a.size == b.size)
        &&& (k != ComponentKind::Position ==> a.position == b.position)
        &&& (k != ComponentKind::Player ==> a.player == b.player)
        &&& (k != ComponentKind::Preview ==> a.preview == b.preview)
        &&& (k != ComponentKind::Scoring ==> a.scoring == b.scoring)
        &&& (k != ComponentKind::Gravity ==> a.gravity == b.gravity)
        &&& (k != ComponentKind::Hold ==> a.hold == b.hold)
    }

    /// `b` is `a` with every component of `e` removed and nothing else changed.
    pub open spec fn without_entity(a: Registry, b: Registry, e: Entity) -> bool {
        &&& (b.color is Some <==> a.color is Some)
        &&& (a.color is Some ==> b.color->Some_0.model() == a.color->Some_0.model().remove(e.id))
        &&& (b.mesh is Some <==> a.mesh is Some)
        &&& (a.mesh is Some ==> b.mesh->Some_0.model() == a.mesh->Some_0.model().remove(e.id))
        &&& (b.size is Some <==> a.size is Some)
        &&& (a.size is Some ==> b.size->Some_0.model() == a.size->Some_0.model().remove(e.id))
        &&& (b.position is Some <==> a.position is Some)
        &&& (a.position is Some ==> b.position->Some_0.model() == a.position->Some_0.model().remove(e.id))
        &&& (b.player is Some <==> a.player is Some)
        &&& (a.player is Some ==> b.player->Some_0.model() == a.player->Some_0.model().remove(e.id))
        &&& (b.preview is Some <==> a.preview is Some)
        &&& (a.preview is Some ==> b.preview->Some_0.model() == a.preview->Some_0.model().remove(e.id))
        &&& (b.scoring is Some <==> a.scoring is Some)
        &&& (a.scoring is Some ==> b.scoring->Some_0.model() == a.scoring->Some_0.model().remove(e.id))
        &&& (b.gravity is Some <==> a.gravity is Some)
        &&& (a.gravity is Some ==> b.gravity->Some_0.model() == a.gravity->Some_0.model().remove(e.id))
        &&& (b.hold is Some <==> a.hold is Some)
        &&& (a.hold is Some ==> b.hold->Some_0.model() == a.hold->Some_0.model().remove(e.id))
    }

    /// Whether `e` holds a component of kind `k`.
    pub open spec fn has_kind(&self, k: ComponentKind, e: Entity) -> bool {
        match k {
            ComponentKind::Color => store_has(self.color, e),
            ComponentKind::Mesh => store_has(self.mesh, e),
            ComponentKind::Size => store_has(self.size, e),
            ComponentKind::Position => store_has(self.position, e),
            ComponentKind::Player => store_has(self.player, e),
            ComponentKind::Preview => store_has(self.preview, e),
            ComponentKind::Scoring => store_has(self.scoring, e),
            ComponentKind::Gravity => store_has(self.gravity, e),
            ComponentKind::Hold => store_has(self.hold, e),
        }
    }

    /// A registry where no type is registered.
    pub fn new() -> (r: Self)
        ensures
            r.wf(),
            r.color is None,
            r.mesh is None,
            r.size is None,
            r.position is None,
            r.player is None,
            r.preview is None,
            r.scoring is None,
            r.gravity is None,
            r.hold is None,
    {
        Registry {
            color: None,
            mesh: None,
            size: None,
            position: None,
            player: None,
            preview: None,
            scoring: None,
            gravity: None,
            hold: None,
        }
    }

    /// Registers `T` with a fresh, empty store, replacing any store it had.
    pub fn register<T: Component>(&mut self)
        requires
            old(self).wf(),
        ensures
            final(self).wf(),
            Registry::same_except(*old(self), *final(self), T::kind()),
            T::store(*final(self)) matches Some(m) && m.ents().len() == 0 && m.model() == Map::<u32, T>::empty(),
    {
        let ghost before = *self;
        let s = T::store_mut(self);
        *s = Some(Manager::new());
        proof {
            T::lemma_wf(before, *self);
        }
    }

    /// The store of `T`, or `None` if `T` was never registered.
    pub fn get<T: Component>(&self) -> (r: Option<&Manager<T>>)
        ensures
            match r {
                Some(m) => T::store(*self) == Some(*m),
                None => T::store(*self) is None,
            },
    {
        T::store_ref(self).as_ref()
    }

    /// Mutable access to the store of `T`, or `None` if `T` was never registered.
    pub fn get_mut<T: Component>(&mut self) -> (r: Option<&mut Manager<T>>)
        ensures
            Registry::same_except(*old(self), *final(self), T::kind()),
            match r {
                Some(m) => T::store(*old(self)) == Some(*m) && T::store(*final(self)) == Some(*final(m)),
                None => T::store(*old(self)) is None && *final(self) == *old(self),
            },
    {
        if T::store_ref(self).is_none() {
            return None;
        }
        Some(inner_mut(T::store_mut(self)))
    }

    /// Mutable access to the component of type `T` that `e` holds, or `None`.
    pub fn get_component_mut<T: Component>(&mut self, e: &Entity) -> (r: Option<&mut T>)
        requires
            old(self).wf(),
        ensures
            Registry::same_except(*old(self), *final(self), T::kind()),
            match r {
                Some(v) => {
                    let m0 = T::store(*old(self))->Some_0;
                    let m1 = T::store(*final(self))->Some_0;
                    &&& final(self).wf()
                    &&& store_has(T::store(*old(self)), *e)
                    &&& *v == m0.model()[e.id]
                    &&& T::store(*final(self)) is Some
                    &&& m1.ents() == m0.ents()
                    &&& m1.model() == m0.model().insert(e.id, *final(v))
                },
                None => !store_has(T::store(*old(self)), *e) && *final(self) == *old(self),
            },
    {
        proof {
            T::lemma_store_wf(*self);
        }
        let present = match T::store_ref(self) {
            Some(m) => m.lookup(e).is_some(),
            None => false,
        };
        if !present {
            return None;
        }
        inner_mut(T::store_mut(self)).get_e_mut(e)
    }

    /// The component of type `T` that `e` holds, or `None`.
    pub fn get_component<T: Component>(&self, e: &Entity) -> (r: Option<&T>)
        requires
            self.wf(),
        ensures
            match r {
                Some(v) => T::store(*self) matches Some(m) && m.has(*e) && *v == m.model()[e.id],
                None => !store_has(T::store(*self), *e),
            },
    {
        proof {
            T::lemma_store_wf(*self);
        }
        match T::store_ref(self) {
            Some(m) => m.get_e(e),
            None => None,
        }
    }

    /// Gives `e` the component `value` in the store of `T`, in place if it has one.
    pub fn attach<T: Component>(&mut self, e: Entity, value: T) -> (r: Instance)
        requires
            old(self).wf(),
            T::store(*old(self)) is Some,
        ensures
            final(self).wf(),
            Registry::same_except(*old(self), *final(self), T::kind()),
            T::store(*final(self)) is Some,
            T::store(*final(self))->Some_0.model() == T::store(*old(self))->Some_0.model().insert(e.id, value),
            T::store(*final(self))->Some_0.spec_lookup(e) == Some(r),
    {
        let ghost before = *self;
        proof {
            T::lemma_store_wf(before);
        }
        let s = T::store_mut(self);
        let r = match s {
            Some(m) => m.create(e, value),
            None => 0,
        };
        proof {
            T::lemma_wf(before, *self);
        }
        r
    }

    /// Removes the component of type `T` from `e`; nothing happens if it has none
    /// or if `T` was never registered.
    pub fn detach<T: Component>(&mut self, e: &Entity)
        requires
            old(self).wf(),
        ensures
            final(self).wf(),
            Registry::same_except(*old(self), *final(self), T::kind()),
            T::store(*final(self)) is Some <==> T::store(*old(self)) is Some,
            T::store(*old(self)) is Some ==> T::store(*final(self))->Some_0.model()
                == T::store(*old(self))->Some_0.model().remove(e.id),
            !store_has(T::store(*final(self)), *e),
            !store_has(T::store(*old(self)), *e) ==> *final(self) == *old(self),
    {
        let ghost before = *self;
        proof {
            T::lemma_store_wf(before);
        }
        let present = match T::store_ref(self) {
            Some(m) => m.lookup(e).is_some(),
            None => false,
        };
        if !present {
            proof {
                if let Some(m) = T::store(before) {
                    assert(m.model() =~= m.model().remove(e.id));
                }
            }
            return;
        }
        let s = T::store_mut(self);
        match s {
            Some(m) => {
                match m.lookup(e) {
                    Some(i) => m.destroy(i),
                    None => {
                        assert(m.model() =~= m.model().remove(e.id));
                    },
                }
            },
            None => {},
        }
        proof {
            T::lemma_wf(before, *self);
        }
    }

    /// Overwrites the component of type `T` that `e` holds; nothing happens if it has none.
    pub fn overwrite<T: Component>(&mut self, e: &Entity, value: T)
        requires
            old(self).wf(),
        ensures
            final(self).wf(),
            Registry::same_except(*old(self), *final(self), T::kind()),
            T::store(*final(self)) is Some <==> T::store(*old(self)) is Some,
            T::store(*old(self)) is Some ==> T::store(*final(self))->Some_0.model() == (
                if T::store(*old(self))->Some_0.has(*e) {
                    T::store(*old(self))->Some_0.model().insert(e.id, value)
                } else {
                    T::store(*old(self))->Some_0.model()
                }),
            store_has(T::store(*final(self)), *e) == store_has(T::store(*old(self)), *e),
            !store_has(T::store(*old(self)), *e) ==> *final(self) == *old(self),
    {
        let ghost before = *self;
        proof {
            T::lemma_store_wf(before);
        }
        let present = match T::store_ref(self) {
            Some(m) => m.lookup(e).is_some(),
            None => false,
        };
        if !present {
            return;
        }
        let s = T::store_mut(self);
        match s {
            Some(m) => {
                match m.lookup(e) {
                    Some(i) => m.set_value(i, value),
                    None => {},
                }
            },
            None => {},
        }
        proof {
            T::lemma_wf(before, *self);
        }
    }

    /// Removes every component `e` holds, whatever its kind.
    pub fn detach_all(&mut self, e: &Entity)
        requires
            old(self).wf(),
        ensures
            final(self).wf(),
            forall|k: ComponentKind| !final(self).has_kind(k, *e),
            Registry::without_entity(*old(self), *final(self), *e),
    {
        self.detach::<Cell>(e);
        self.detach::<Mesh>(e);
        self.detach::<Size>(e);
        self.detach::<Position>(e);
        self.detach::<Player>(e);
        self.detach::<Preview>(e);
        self.detach::<Scoring>(e);
        self.detach::<Gravity>(e);
        self.detach::<Hold>(e);
    }
}

/// Mutable access to the value inside `o`.
fn inner_mut<A>(o: &mut Option<A>) -> (r: &mut A)
    requires
        *old(o) is Some,
    ensures
        *r == (*old(o))->Some_0,
        *final(o) == Some(*final(r)),
{
    o.as_mut().unwrap()
}

/// A type that a registry holds a store of.
pub trait Component: Sized {
    /// The kind this type is registered under.
    spec fn kind() -> ComponentKind;

    /// The store of this type in `reg`.
    spec fn store(reg: Registry) -> Option<Manager<Self>>;

    /// The store of this type.
    fn store_ref(reg: &Registry) -> (r: &Option<Manager<Self>>)
        ensures
            *r == Self::store(*reg),
    ;

    /// Mutable access to the store of this type; the other stores are left alone.
    fn store_mut(reg: &mut Registry) -> (r: &mut Option<Manager<Self>>)
        ensures
            *r == Self::store(*old(reg)),
            Self::store(*final(reg)) == *final(r),
            Registry::same_except(*old(reg), *final(reg), Self::kind()),
            old(reg).wf() && store_wf(*final(r)) ==> final(reg).wf(),
    ;

    /// The store of this type is left alone by a change to another kind.
    proof fn lemma_framed(a: Registry, b: Registry, k: ComponentKind)
        requires
            k != Self::kind(),
            Registry::same_except(a, b, k),
        ensures
            Self::store(a) == Self::store(b),
    ;

    /// Changing only this type's store to a well-formed one keeps the registry well formed.
    proof fn lemma_wf(a: Registry, b: Registry)
        requires
            a.wf(),
            Registry::same_except(a, b, Self::kind()),
            store_wf(Self::store(b)),
        ensures
            b.wf(),
    ;

    /// A well-formed registry holds a well-formed store of this type.
    proof fn lemma_store_wf(reg: Registry)
        requires
            reg.wf(),
        ensures
            store_wf(Self::store(reg)),
    ;
}

impl Component for Cell {
    open spec fn kind() -> ComponentKind {
        ComponentKind::Color
    }

    open spec fn store(reg: Registry) -> Option<Manager<Self>> {
        reg.color
    }

    fn store_ref(reg: &Registry) -> (r: &Option<Manager<Self>>) {
        &reg.color
    }

    fn store_mut(reg: &mut Registry) -> (r: &mut Option<Manager<Self>>) {
        &mut reg.color
    }

    proof fn lemma_framed(a: Registry, b: Registry, k: ComponentKind) {
    }

    proof fn lemma_wf(a: Registry, b: Registry) {
    }

    proof fn lemma_store_wf(reg: Registry) {
    }
}

impl Component for Mesh {
    open spec fn kind() -> ComponentKind {
        ComponentKind::Mesh
    }

    open spec fn store(reg: Registry) -> Option<Manager<Self>> {
        reg.mesh
    }

    fn store_ref(reg: &Registry) -> (r: &Option<Manager<Self>>) {
        &reg.mesh
    }

    fn store_mut(reg: &mut Registry) -> (r: &mut Option<Manager<Self>>) {
        &mut reg.mesh
    }

    proof fn lemma_framed(a: Registry, b: Registry, k: ComponentKind) {
    }

    proof fn lemma_wf(a: Registry, b: Registry) {
    }

    proof fn lemma_store_wf(reg: Registry) {
    }
}

impl Component for Size {
    open spec fn kind() -> ComponentKind {
        ComponentKind::Size
    }

    open spec fn store(reg: Registry) -> Option<Manager<Self>> {
        reg.size
    }

    fn store_ref(reg: &Registry) -> (r: &Option<Manager<Self>>) {
        &reg.size
    }

    fn store_mut(reg: &mut Registry) -> (r: &mut Option<Manager<Self>>) {
        &mut reg.size
    }

    proof fn lemma_framed(a: Registry, b: Registry, k: ComponentKind) {
    }

    proof fn lemma_wf(a: Registry, b: Registry) {
    }

    proof fn lemma_store_wf(reg: Registry) {
    }
}

impl Component for Position {
    open spec fn kind() -> ComponentKind {
        ComponentKind::Position
    }

    open spec fn store(reg: Registry) -> Option<Manager<Self>> {
        reg.position
    }

    fn store_ref(reg: &Registry) -> (r: &Option<Manager<Self>>) {
        &reg.position
    }

    fn store_mut(reg: &mut Registry) -> (r: &mut Option<Manager<Self>>) {
        &mut reg.position
    }

    proof fn lemma_framed(a: Registry, b: Registry, k: ComponentKind) {
    }

    proof fn lemma_wf(a: Registry, b: Registry) {
    }

    proof fn lemma_store_wf(reg: Registry) {
    }
}

impl Component for Player {
    open spec fn kind() -> ComponentKind {
        ComponentKind::Player
    }

    open spec fn store(reg: Registry) -> Option<Manager<Self>> {
        reg.player
    }

    fn store_ref(reg: &Registry) -> (r: &Option<Manager<Self>>) {
        &reg.player
    }

    fn store_mut(reg: &mut Registry) -> (r: &mut Option<Manager<Self>>) {
        &mut reg.player
    }

    proof fn lemma_framed(a: Registry, b: Registry, k: ComponentKind) {
    }

    proof fn lemma_wf(a: Registry, b: Registry) {
    }

    proof fn lemma_store_wf(reg: Registry) {
    }
}

impl Component for Preview {
    open spec fn kind() -> ComponentKind {
        ComponentKind::Preview
    }

    open spec fn store(reg: Registry) -> Option<Manager<Self>> {
        reg.preview
    }

    fn store_ref(reg: &Registry) -> (r: &Option<Manager<Self>>) {
        &reg.preview
    }

    fn store_mut(reg: &mut Registry) -> (r: &mut Option<Manager<Self>>) {
        &mut reg.preview
    }

    proof fn lemma_framed(a: Registry, b: Registry, k: ComponentKind) {
    }

    proof fn lemma_wf(a: Registry, b: Registry) {
    }

    proof fn lemma_store_wf(reg: Registry) {
    }
}

impl Component for Scoring {
    open spec fn kind() -> ComponentKind {
        ComponentKind::Scoring
    }

    open spec fn store(reg: Registry) -> Option<Manager<Self>> {
        reg.scoring
    }

    fn store_ref(reg: &Registry) -> (r: &Option<Manager<Self>>) {
        &reg.scoring
    }

    fn store_mut(reg: &mut Registry) -> (r: &mut Option<Manager<Self>>) {
        &mut reg.scoring
    }

    proof fn lemma_framed(a: Registry, b: Registry, k: ComponentKind) {
    }

    proof fn lemma_wf(a: Registry, b: Registry) {
    }

    proof fn lemma_store_wf(reg: Registry) {
    }
}

impl Component for Gravity {
    open spec fn kind() -> ComponentKind {
        ComponentKind::Gravity
    }

    open spec fn store(reg: Registry) -> Option<Manager<Self>> {
        reg.gravity
    }

    fn store_ref(reg: &Registry) -> (r: &Option<Manager<Self>>) {
        &reg.gravity
    }

    fn store_mut(reg: &mut Registry) -> (r: &mut Option<Manager<Self>>) {
        &mut reg.gravity
    }

    proof fn lemma_framed(a: Registry, b: Registry, k: ComponentKind) {
    }

    proof fn lemma_wf(a: Registry, b: Registry) {
    }

    proof fn lemma_store_wf(reg: Registry) {
    }
}

impl Component for Hold {
    open spec fn kind() -> ComponentKind {
        ComponentKind::Hold
    }

    open spec fn store(reg: Registry) -> Option<Manager<Self>> {
        reg.hold
    }

    fn store_ref(reg: &Registry) -> (r: &Option<Manager<Self>>) {
        &reg.hold
    }

    fn store_mut(reg: &mut Registry) -> (r: &mut Option<Manager<Self>>) {
        &mut reg.hold
    }

    proof fn lemma_framed(a: Registry, b: Registry, k: ComponentKind) {
    }

    proof fn lemma_wf(a: Registry, b: Registry) {
    }

    proof fn lemma_store_wf(reg: Registry) {
    }
}

/// Components of distinct types live apart: after any change made through the store of
/// `A` (such as attaching an `A` to `e`), an entity that held no `B` still holds none,
/// and the store of `B` is as it was.
pub proof fn lemma_type_isolation<A: Component, B: Component>(
    before: Registry,
    after: Registry,
    e: Entity,
)
    requires
        A::kind() != B::kind(),
        Registry::same_except(before, after, A::kind()),
        !store_has(B::store(before), e),
    ensures
        B::store(after) == B::store(before),
        !store_has(B::store(after), e),
{
    B::lemma_framed(before, after, A::kind());
}

} // verus!
