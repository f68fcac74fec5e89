use vstd::prelude::*;

use crate::collision::{check_collision, hits};
use crate::component::{Cell, Position};
use crate::game::{Error, GameState};
use crate::registry::store_has;
use crate::rules::{move_entity, on_hold, rotate_tetromino, shifted};
use crate::types::{InputEvent, RotationDirection};
use crate::vector::Vector2;

verus! {

/// Moves the player's piece by `delta` unless that collides; without a piece, nothing
/// happens.
pub fn move_player(state: &mut GameState, delta: Position) -> (r: Result<(), Error>)
    requires
        old(state).ready(),
    ensures
        final(state).ready(),
        GameState::same_but_ecs(*old(state), *final(state)),
        final(state).ecs.entity_manager == old(state).ecs.entity_manager,
        old(state).current_piece is None ==> r is Ok && *final(state) == *old(state),
        old(state).current_piece matches Some(e) ==> {
            let reg = old(state).ecs.component_registry;
            &&& !store_has(reg.position, e) ==> r == Err::<(), Error>(Error::MissingComponent("Position"))
            &&& store_has(reg.position, e) && !store_has(reg.mesh, e) ==> r == Err::<(), Error>(
                Error::MissingComponent("Mesh"),
            )
            &&& store_has(reg.position, e) && store_has(reg.mesh, e) && hits(
                old(state).grid@,
                reg.mesh->Some_0.model()[e.id].cells(),
                reg.position->Some_0.model()[e.id],
                delta,
            ) ==> r is Ok && *final(state) == *old(state)
            &&& store_has(reg.position, e) && store_has(reg.mesh, e) && !hits(
                old(state).grid@,
                reg.mesh->Some_0.model()[e.id].cells(),
                reg.position->Some_0.model()[e.id],
                delta,
            ) ==> {
                &&& r is Ok
                &&& old(state).ecs.entity_manager.is_alive(e) ==> final(state).ecs.component_registry.position
                    == Some(final(state).ecs.component_registry.position->Some_0)
                    && final(state).ecs.component_registry.position->Some_0.model() == reg.position->Some_0.model().insert(
                    e.id,
                    shifted(reg.position->Some_0.model()[e.id], delta),
                )
                &&& !old(state).ecs.entity_manager.is_alive(e) ==> *final(state) == *old(state)
            }
        },
{
    if let Some(e) = state.current_piece {
        match check_collision(state, e, delta) {
            Ok(None) => {
                return move_entity(&mut state.ecs, e, delta);
            },
            Ok(Some(_)) => {},
            Err(err) => {
                return Err(err);
            },
        }
    }
    Ok(())
}

/// A piece with `cells` at `pos` can fall `d` rows without a collision, and falling one
/// more row collides (or would overflow).
pub open spec fn drop_stops_at(grid: Seq<Vec<Cell>>, cells: Seq<Vector2<i32>>, pos: Position, d: i32) -> bool {
    &&& 0 <= d < i32::MAX
    &&& forall|k: i32| 1 <= k <= d ==> !#[trigger] hits(grid, cells, pos, Vector2 { x: 0, y: k })
    &&& hits(grid, cells, pos, Vector2 { x: 0, y: (d + 1) as i32 }) || d + 1 == i32::MAX
}

/// Drops the player's piece straight down as far as it goes.
pub fn hard_drop(state: &mut GameState) -> (r: Result<(), Error>)
    requires
        old(state).ready(),
    ensures
        final(state).ready(),
        GameState::same_but_ecs(*old(state), *final(state)),
        final(state).ecs.entity_manager == old(state).ecs.entity_manager,
        old(state).current_piece is None ==> r == Err::<(), Error>(Error::NoCurrentPiece),
        old(state).current_piece matches Some(p) ==> {
            let reg = old(state).ecs.component_registry;
            let grid = old(state).grid@;
            &&& !store_has(reg.position, p) ==> r == Err::<(), Error>(Error::MissingComponent("Position"))
            &&& store_has(reg.position, p) && !store_has(reg.mesh, p) ==> r == Err::<(), Error>(
                Error::MissingComponent("Mesh"),
            )
            &&& store_has(reg.position, p) && store_has(reg.mesh, p) ==> {
                let pos = reg.position->Some_0.model()[p.id];
                let cells = reg.mesh->Some_0.model()[p.id].cells();
                &&& r is Ok
                &&& exists|d: i32|
                    {
                        &&& #[trigger] drop_stops_at(grid, cells, pos, d)
                        &&& old(state).ecs.entity_manager.is_alive(p) ==> final(state).ecs.component_registry.position->Some_0.model()
                            == reg.position->Some_0.model().insert(p.id, shifted(pos, Vector2 { x: 0, y: d }))
                        &&& !old(state).ecs.entity_manager.is_alive(p) ==> *final(state) == *old(state)
                    }
            }
        },
{
    let piece = match state.current_piece {
        Some(p) => p,
        None => {
            return Err(Error::NoCurrentPiece);
        },
    };
    let mut delta: Position = Vector2 { x: 0, y: 1 };
    let mut stop = false;
    while !stop
        invariant
            *state == *old(state),
            state.ready(),
            state.current_piece == Some(piece),
            1 <= delta.y <= i32::MAX,
            delta.x == 0,
            stop || delta.y > 1 ==> store_has(state.ecs.component_registry.position, piece) && store_has(
                state.ecs.component_registry.mesh,
                piece,
            ),
            store_has(state.ecs.component_registry.position, piece) && store_has(state.ecs.component_registry.mesh, piece)
                ==> {
                let cells = state.ecs.component_registry.mesh->Some_0.model()[piece.id].cells();
                let pos = state.ecs.component_registry.position->Some_0.model()[piece.id];
                &&& forall|k: i32| 1 <= k < delta.y ==> !#[trigger] hits(state.grid@, cells, pos, Vector2 { x: 0, y: k })
                &&& stop ==> hits(state.grid@, cells, pos, delta) || delta.y == i32::MAX
            },
        decreases i32::MAX - delta.y + (if stop { 0int } else { 1int }),
    {
        let hit = match check_collision(state, piece, delta) {
            Ok(h) => h,
            Err(err) => {
                return Err(err);
            },
        };
        if hit.is_some() || delta.y == i32::MAX {
            stop = true;
        } else {
            delta = Vector2 { x: 0, y: delta.y + 1 };
        }
    }
    let ghost d = (delta.y - 1) as i32;
    let ghost last = delta;
    delta = Vector2 { x: 0, y: delta.y - 1 };
    let r = move_entity(&mut state.ecs, piece, delta);
    proof {
        let reg = old(state).ecs.component_registry;
        if store_has(reg.position, piece) && store_has(reg.mesh, piece) {
            assert(last == (Vector2 { x: 0i32, y: (d + 1) as i32 }));
            let pos = reg.position->Some_0.model()[piece.id];
            let cells = reg.mesh->Some_0.model()[piece.id].cells();
            assert(drop_stops_at(old(state).grid@, cells, pos, d));
        }
    }
    r
}

/// Applies a player input to the game.
pub fn on_input_event(state: &mut GameState, evt: InputEvent) -> (r: Result<(), Error>)
    requires
        old(state).ready(),
        evt is Hold ==> {
            &&& old(state).current_piece is Some
            &&& old(state).hold_piece is None ==> old(state).next_pieces@.len() > 0
                && old(state).ecs.entity_manager.room() >= 1
        },
    ensures
        final(state).ready(),
        evt is Pause || evt is SoftDrop || evt is SoftDropEnd ==> r is Ok && *final(state) == *old(state),
        evt is Hold ==> r is Ok && final(state).hold_piece == old(state).current_piece,
{
    match evt {
        InputEvent::RotateCCW => {
            if let Some(e) = state.current_piece {
                rotate_tetromino(state, e, RotationDirection::CCW)
            } else {
                Ok(())
            }
        },
        InputEvent::RotateCW => {
            if let Some(e) = state.current_piece {
                rotate_tetromino(state, e, RotationDirection::CW)
            } else {
                Ok(())
            }
        },
        InputEvent::Right => move_player(state, Vector2 { x: 1, y: 0 }),
        InputEvent::Left => move_player(state, Vector2 { x: -1, y: 0 }),
        InputEvent::HardDrop => hard_drop(state),
        InputEvent::SoftDrop => Ok(()),
        InputEvent::SoftDropEnd => Ok(()),
        InputEvent::Hold => on_hold(state),
        InputEvent::Pause => Ok(()),
    }
}

} // verus!
