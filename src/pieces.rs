use vstd::prelude::*;

use crate::component::{Cell, Gravity, Hold, Mesh, Player, Position, Preview, Scoring, Size};
use crate::entity::Entity;
use crate::game::{all_registered, Error, GameState};
use crate::registry::{store_has, Registry};
use crate::tetromino::{color_of, shape, size_of, Tetromino};
use crate::vector::Vector2;
use crate::world::World;

verus! {

/// `e` holds the mesh, colour and size of a `kind` tetromino.
pub open spec fn piece_components(reg: Registry, e: Entity, kind: Tetromino) -> bool {
    &&& store_has(reg.mesh, e)
    &&& reg.mesh->Some_0.model()[e.id].cells() == shape(kind)
    &&& store_has(reg.color, e)
    &&& reg.color->Some_0.model()[e.id] == color_of(kind)
    &&& store_has(reg.size, e)
    &&& reg.size->Some_0.model()[e.id] == Size(size_of(kind))
}

/// `a` and `b` hold the same position, marker, scoring and gravity stores.
pub open spec fn same_state_stores(a: Registry, b: Registry) -> bool {
    &&& a.position == b.position
    &&& a.player == b.player
    &&& a.preview == b.preview
    &&& a.scoring == b.scoring
    &&& a.gravity == b.gravity
    &&& a.hold == b.hold
}

/// `b` is `a` after one entity was created and listed.
pub open spec fn one_more(a: World, b: World, e: Entity) -> bool {
    &&& b.wf()
    &&& all_registered(b.component_registry)
    &&& b.entity_manager.room() == a.entity_manager.room() - 1
    &&& b.entity_manager.gens().len() >= a.entity_manager.gens().len()
    &&& b.entity_manager.is_alive(e)
    &&& b.entity_list@ == a.entity_list@.push(e)
    &&& forall|x: Entity| #[trigger] a.entity_manager.is_alive(x) ==> b.entity_manager.is_alive(x)
}

/// Adds a tetromino entity of `kind` to the world.
fn create(ecs: &mut World, kind: Tetromino) -> (r: Result<Entity, Error>)
    requires
        old(ecs).wf(),
        all_registered(old(ecs).component_registry),
        old(ecs).entity_manager.room() >= 1,
    ensures
        r is Ok,
        one_more(*old(ecs), *final(ecs), r->Ok_0),
        piece_components(final(ecs).component_registry, r->Ok_0, kind),
        same_state_stores(old(ecs).component_registry, final(ecs).component_registry),
{
    let b = ecs.build_entity();
    let b = b.with(ecs, kind.new());
    let b = b.with(ecs, kind.color());
    let b = b.with(ecs, Size(kind.size()));
    let e = b.done(ecs);
    Ok(e)
}

/// Creates a preview piece of a random kind and queues it.
pub fn make_preview(state: &mut GameState) -> (r: Entity)
    requires
        old(state).ready(),
        old(state).ecs.entity_manager.room() >= 1,
    ensures
        final(state).ready(),
        final(state).ecs.entity_manager.room() == old(state).ecs.entity_manager.room() - 1,
        final(state).ecs.entity_manager.is_alive(r),
        final(state).ecs.entity_list@ == old(state).ecs.entity_list@.push(r),
        final(state).next_pieces@ == old(state).next_pieces@.push(r),
        final(state).current_piece == old(state).current_piece,
        final(state).scoring == old(state).scoring,
        final(state).hold_piece == old(state).hold_piece,
        final(state).grid@ == old(state).grid@,
        final(state).ecs.entity_manager.gens().len() >= old(state).ecs.entity_manager.gens().len(),
        store_has(final(state).ecs.component_registry.preview, r),
        exists|k: Tetromino| piece_components(final(state).ecs.component_registry, r, k),
        final(state).ecs.component_registry.position == old(state).ecs.component_registry.position,
        final(state).ecs.component_registry.player == old(state).ecs.component_registry.player,
        final(state).ecs.component_registry.scoring == old(state).ecs.component_registry.scoring,
        final(state).ecs.component_registry.gravity == old(state).ecs.component_registry.gravity,
        final(state).ecs.component_registry.hold == old(state).ecs.component_registry.hold,
{
    let kind = Tetromino::random();
    let e = create(&mut state.ecs, kind).unwrap();
    let _ = state.ecs.add_component_default::<Preview>(e);
    state.next_pieces.push_back(e);
    proof {
        assert(piece_components(state.ecs.component_registry, e, kind));
    }
    e
}

/// Marks `e` as under player control.
fn add_player_control(ecs: &mut World, e: Entity) -> (r: Result<Entity, Error>)
    requires
        old(ecs).wf(),
        old(ecs).component_registry.player is Some,
    ensures
        r == Ok::<Entity, Error>(e),
        final(ecs).wf(),
        World::only_store_changed::<Player>(*old(ecs), *final(ecs)),
        store_has(final(ecs).component_registry.player, e),
{
    match ecs.add_component_default::<Player>(e) {
        Ok(v) => Ok(v),
        Err(err) => Err(Error::from(err)),
    }
}

/// Turns the next queued piece into the player's piece and queues a new preview.
pub fn make_player(state: &mut GameState) -> (r: Entity)
    requires
        old(state).ready(),
        old(state).next_pieces@.len() > 0,
        old(state).ecs.entity_manager.room() >= 1,
    ensures
        final(state).ready(),
        r == old(state).next_pieces@[0],
        final(state).current_piece == Some(r),
        final(state).ecs.entity_manager.room() == old(state).ecs.entity_manager.room() - 1,
        final(state).ecs.entity_manager.gens().len() >= old(state).ecs.entity_manager.gens().len(),
        final(state).next_pieces@.len() == old(state).next_pieces@.len(),
        final(state).next_pieces@.drop_last() == old(state).next_pieces@.drop_first(),
        final(state).scoring == old(state).scoring,
        final(state).hold_piece == old(state).hold_piece,
        final(state).grid@ == old(state).grid@,
        store_has(final(state).ecs.component_registry.position, r),
        final(state).ecs.component_registry.position->Some_0.model()[r.id] == (Vector2 { x: 4i32, y: 0i32 }),
        store_has(final(state).ecs.component_registry.gravity, r),
        store_has(final(state).ecs.component_registry.player, r),
{
    let e = state.next_pieces.pop_front().unwrap();
    assert(state.wf()) by {
        assert forall|i: int| 0 <= i < state.next_pieces@.len() implies state.ecs.entity_manager.knows(
            #[trigger] state.next_pieces@[i],
        ) by {
            assert(state.next_pieces@[i] == old(state).next_pieces@[i + 1]);
        }
    }
    let _ = state.ecs.remove_component::<Preview>(e);
    let _ = state.ecs.add_component::<Position>(e, Vector2 { x: 4, y: 0 });
    let _ = state.ecs.add_component_default::<Gravity>(e);
    let _ = add_player_control(&mut state.ecs, e);
    let ghost mid = *state;
    let p = make_preview(state);
    state.current_piece = Some(e);
    proof {
        assert(state.next_pieces@.drop_last() =~= mid.next_pieces@);
    }
    e
}

/// Creates a one-square entity of `color` at `position`.
pub fn create_single_cell(ecs: &mut World, color: Cell, position: Position)
    requires
        old(ecs).wf(),
        all_registered(old(ecs).component_registry),
        old(ecs).entity_manager.room() >= 1,
    ensures
        exists|e: Entity|
            {
                &&& #[trigger] one_more(*old(ecs), *final(ecs), e)
                &&& store_has(final(ecs).component_registry.mesh, e)
                &&& final(ecs).component_registry.mesh->Some_0.model()[e.id].cells() == seq![Vector2 { x: 0i32, y: 0i32 }]
                &&& store_has(final(ecs).component_registry.color, e)
                &&& final(ecs).component_registry.color->Some_0.model()[e.id] == color
                &&& store_has(final(ecs).component_registry.position, e)
                &&& final(ecs).component_registry.position->Some_0.model()[e.id] == position
            },
        final(ecs).component_registry.player == old(ecs).component_registry.player,
        final(ecs).component_registry.preview == old(ecs).component_registry.preview,
        final(ecs).component_registry.scoring == old(ecs).component_registry.scoring,
        final(ecs).component_registry.gravity == old(ecs).component_registry.gravity,
        final(ecs).component_registry.hold == old(ecs).component_registry.hold,
{
    let new_mesh = Mesh::new(vec![Vector2 { x: 0, y: 0 }]);
    assert(new_mesh.cells() =~= seq![Vector2 { x: 0i32, y: 0i32 }]);
    let b = ecs.build_entity();
    let b = b.with(ecs, new_mesh);
    let b = b.with(ecs, color);
    let b = b.with(ecs, position);
    let e = b.done(ecs);
    assert(one_more(*old(ecs), *ecs, e));
}

/// Creates the entity that keeps the score.
pub fn make_scoring(state: &mut GameState) -> (r: Entity)
    requires
        old(state).ready(),
        old(state).ecs.entity_manager.room() >= 1,
    ensures
        final(state).ready(),
        final(state).scoring == Some(r),
        one_more(old(state).ecs, final(state).ecs, r),
        store_has(final(state).ecs.component_registry.scoring, r),
        final(state).ecs.component_registry.scoring->Some_0.model()[r.id] == Scoring::spec_new(),
        final(state).current_piece == old(state).current_piece,
        final(state).hold_piece == old(state).hold_piece,
        final(state).next_pieces@ == old(state).next_pieces@,
        final(state).grid@ == old(state).grid@,
{
    let b = state.ecs.build_entity();
    let b = b.with(&mut state.ecs, Scoring::new());
    let e = b.done(&mut state.ecs);
    state.scoring = Some(e);
    e
}

/// Turns the player's piece `e` into the held piece.
pub fn hold_from_player(ecs: &mut World, e: Entity) -> (r: Entity)
    requires
        old(ecs).wf(),
        all_registered(old(ecs).component_registry),
    ensures
        r == e,
        final(ecs).wf(),
        all_registered(final(ecs).component_registry),
        final(ecs).entity_manager == old(ecs).entity_manager,
        final(ecs).entity_list@ == old(ecs).entity_list@,
        !store_has(final(ecs).component_registry.player, e),
        !store_has(final(ecs).component_registry.position, e),
        store_has(final(ecs).component_registry.hold, e),
{
    let _ = ecs.remove_component::<Player>(e);
    let _ = ecs.remove_component::<Position>(e);
    let _ = ecs.add_component_default::<Hold>(e);
    e
}

/// Turns the held piece `e` back into the player's piece, at the spawn position.
pub fn player_from_hold(ecs: &mut World, e: Entity) -> (r: Entity)
    requires
        old(ecs).wf(),
        all_registered(old(ecs).component_registry),
    ensures
        r == e,
        final(ecs).wf(),
        all_registered(final(ecs).component_registry),
        final(ecs).entity_manager == old(ecs).entity_manager,
        final(ecs).entity_list@ == old(ecs).entity_list@,
        store_has(final(ecs).component_registry.player, e),
        store_has(final(ecs).component_registry.position, e),
        final(ecs).component_registry.position->Some_0.model()[e.id] == (Vector2 { x: 4i32, y: 0i32 }),
        !store_has(final(ecs).component_registry.hold, e),
{
    let _ = ecs.add_component_default::<Player>(e);
    let _ = ecs.add_component::<Position>(e, Vector2 { x: 4, y: 0 });
    let _ = ecs.remove_component::<Hold>(e);
    e
}

/// Creates the scoring entity, four previews and the first player piece.
pub fn create_entities(state: &mut GameState)
    requires
        old(state).ready(),
        old(state).ecs.entity_manager.room() >= 6,
    ensures
        final(state).ready(),
        final(state).scoring is Some,
        final(state).current_piece is Some,
        final(state).next_pieces@.len() == old(state).next_pieces@.len() + 4,
        final(state).ecs.entity_manager.room() == old(state).ecs.entity_manager.room() - 6,
{
    make_scoring(state);
    let mut i: usize = 0;
    while i < 4
        invariant
            0 <= i <= 4,
            old(state).ecs.entity_manager.room() >= 6,
            state.ready(),
            state.scoring is Some,
            state.next_pieces@.len() == old(state).next_pieces@.len() + i,
            state.ecs.entity_manager.room() == old(state).ecs.entity_manager.room() - 1 - i,
        decreases 4 - i,
    {
        make_preview(state);
        i = i + 1;
    }
    make_player(state);
}

} // verus!
