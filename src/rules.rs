use std::ops::AddAssign;
use vstd::prelude::*;

use crate::collision::{check_collision, check_gameover, covered, get_clear_lines, hits, is_blocked};
use crate::component::{Cell, Gravity, Mesh, Position, Preview, Scoring};
use crate::entity::Entity;
use crate::game::{grid_wf, Error, GameState, GLASS_HEIGHT, GLASS_WIDTH};
use crate::pieces::{create_single_cell, hold_from_player, make_player, player_from_hold};
use crate::registry::{store_has, Registry};
use crate::score::{level_event, scored, update_score};
use crate::types::{GameEvent, RotationDirection, TimerEvent};
use crate::vector::Vector2;
use crate::world::World;

verus! {

/// `p` moved by `d`, each coordinate wrapping on overflow.
pub open spec fn shifted(p: Position, d: Position) -> Position {
    Vector2 { x: p.x.wrapping_add(d.x), y: p.y.wrapping_add(d.y) }
}

/// Number of cells in the mesh of `e`, or 0 if it has none.
pub open spec fn mesh_len(reg: Registry, e: Entity) -> int {
    if store_has(reg.mesh, e) {
        reg.mesh->Some_0.model()[e.id].cells().len() as int
    } else {
        0
    }
}

/// Moves `e` by `delta` without a collision check; a dead entity is left alone.
pub fn move_entity(ecs: &mut World, e: Entity, delta: Position) -> (r: Result<(), Error>)
    requires
        old(ecs).wf(),
        old(ecs).entity_manager.knows(e),
    ensures
        final(ecs).wf(),
        final(ecs).entity_manager == old(ecs).entity_manager,
        final(ecs).entity_list@ == old(ecs).entity_list@,
        Registry::same_except(
            old(ecs).component_registry,
            final(ecs).component_registry,
            crate::registry::ComponentKind::Position,
        ),
        !old(ecs).entity_manager.is_alive(e) ==> r == Ok::<(), Error>(()) && *final(ecs) == *old(ecs),
        old(ecs).entity_manager.is_alive(e) && !store_has(old(ecs).component_registry.position, e) ==> r
            == Err::<(), Error>(Error::MissingComponent("Position")) && *final(ecs) == *old(ecs),
        old(ecs).entity_manager.is_alive(e) && store_has(old(ecs).component_registry.position, e) ==> {
            let m = old(ecs).component_registry.position->Some_0.model();
            &&& r == Ok::<(), Error>(())
            &&& final(ecs).component_registry.position is Some
            &&& final(ecs).component_registry.position->Some_0.model() == m.insert(e.id, shifted(m[e.id], delta))
        },
        store_has(final(ecs).component_registry.position, e) == store_has(old(ecs).component_registry.position, e),
{
    if !ecs.entity_manager.alive(&e) {
        return Ok(());
    }
    let mut pos = match ecs.component_registry.get_component::<Position>(&e) {
        Some(p) => *p,
        None => {
            return Err(Error::MissingComponent("Position"));
        },
    };
    pos.add_assign(delta);
    ecs.set_component(e, pos);
    Ok(())
}

/// A copy of `cells`.
pub(crate) fn copy_cells(cells: &Vec<Position>) -> (r: Vec<Position>)
    ensures
        r@ == cells@,
{
    let mut r: Vec<Position> = Vec::new();
    let mut i: usize = 0;
    while i < cells.len()
        invariant
            0 <= i <= cells@.len(),
            r@ == cells@.subrange(0, i as int),
        decreases cells@.len() - i,
    {
        r.push(cells[i]);
        i = i + 1;
    }
    assert(r@ =~= cells@);
    r
}

/// Replaces the piece `e` by one single-square entity per mesh cell, then destroys it.
fn decompose_mesh(state: &mut GameState, e: Entity) -> (r: Result<(), Error>)
    requires
        old(state).ready(),
        old(state).ecs.entity_manager.knows(e),
        old(state).ecs.entity_manager.room() >= mesh_len(old(state).ecs.component_registry, e),
    ensures
        final(state).ready(),
        final(state).current_piece == old(state).current_piece,
        final(state).scoring == old(state).scoring,
        final(state).hold_piece == old(state).hold_piece,
        final(state).next_pieces@ == old(state).next_pieces@,
        final(state).grid@ == old(state).grid@,
        final(state).ecs.component_registry.scoring == old(state).ecs.component_registry.scoring,
        final(state).ecs.entity_manager.room() >= old(state).ecs.entity_manager.room() - mesh_len(
            old(state).ecs.component_registry,
            e,
        ),
        ({
            let reg = old(state).ecs.component_registry;
            let alive = old(state).ecs.entity_manager.is_alive(e);
            if !alive {
                r == Ok::<(), Error>(()) && *final(state) == *old(state)
            } else if !store_has(reg.mesh, e) {
                r == Err::<(), Error>(Error::MissingComponent("Mesh"))
            } else if !store_has(reg.color, e) {
                r == Err::<(), Error>(Error::MissingComponent("Color"))
            } else if !store_has(reg.position, e) {
                r == Err::<(), Error>(Error::MissingComponent("Position"))
            } else {
                r == Ok::<(), Error>(()) && !final(state).ecs.entity_manager.is_alive(e)
            }
        }),
{
    if !state.ecs.entity_manager.alive(&e) {
        return Ok(());
    }
    let ghost reg0 = state.ecs.component_registry;
    let cells: Vec<Position> = match state.ecs.component_registry.get_component::<Mesh>(&e) {
        Some(m) => copy_cells(&m.0),
        None => {
            return Err(Error::MissingComponent("Mesh"));
        },
    };
    let color: Cell = match state.ecs.component_registry.get_component::<Cell>(&e) {
        Some(c) => *c,
        None => {
            return Err(Error::MissingComponent("Color"));
        },
    };
    let pos: Position = match state.ecs.component_registry.get_component::<Position>(&e) {
        Some(p) => *p,
        None => {
            return Err(Error::MissingComponent("Position"));
        },
    };
    assert(cells@ == reg0.mesh->Some_0.model()[e.id].cells());
    let ghost room0 = state.ecs.entity_manager.room();
    let mut i: usize = 0;
    while i < cells.len()
        invariant
            0 <= i <= cells@.len(),
            cells@.len() == mesh_len(reg0, e),
            room0 >= cells@.len(),
            state.ready(),
            state.ecs.entity_manager.knows(e),
            state.ecs.entity_manager.is_alive(e),
            state.ecs.entity_manager.room() == room0 - i,
            state.current_piece == old(state).current_piece,
            state.scoring == old(state).scoring,
            state.hold_piece == old(state).hold_piece,
            state.next_pieces@ == old(state).next_pieces@,
            state.grid@ == old(state).grid@,
            state.ecs.component_registry.scoring == old(state).ecs.component_registry.scoring,
        decreases cells@.len() - i,
    {
        let c = cells[i];
        let at = Vector2 { x: c.x.wrapping_add(pos.x), y: c.y.wrapping_add(pos.y) };
        let ghost before = state.ecs;
        create_single_cell(&mut state.ecs, color, at);
        proof {
            let w = choose|w: Entity| #[trigger] crate::pieces::one_more(before, state.ecs, w);
            assert(crate::pieces::one_more(before, state.ecs, w));
        }
        i = i + 1;
    }
    state.ecs.entity_manager.destroy(&e);
    state.ecs.prune_dead();
    Ok(())
}

/// Removes the squares on the `cleared` lines and lowers every square above each of them
/// by one row; previews and entities without a position are left alone.
fn remove_cleared(state: &mut GameState, cleared: Vec<usize>)
    requires
        old(state).ready(),
    ensures
        final(state).ready(),
        final(state).current_piece == old(state).current_piece,
        final(state).scoring == old(state).scoring,
        final(state).hold_piece == old(state).hold_piece,
        final(state).next_pieces@ == old(state).next_pieces@,
        final(state).grid@ == old(state).grid@,
        final(state).ecs.component_registry.scoring == old(state).ecs.component_registry.scoring,
        final(state).ecs.entity_manager.room() >= old(state).ecs.entity_manager.room(),
        cleared@.len() == 0 ==> *final(state) == *old(state),
{
    if cleared.len() == 0 {
        return;
    }
    let mut move_list: Vec<Entity> = Vec::new();
    let mut li: usize = 0;
    while li < cleared.len()
        invariant
            0 <= li <= cleared@.len(),
            state.ready(),
            state.current_piece == old(state).current_piece,
            state.scoring == old(state).scoring,
            state.hold_piece == old(state).hold_piece,
            state.next_pieces@ == old(state).next_pieces@,
            state.grid@ == old(state).grid@,
            state.ecs.component_registry == old(state).ecs.component_registry,
            state.ecs.entity_manager.room() >= old(state).ecs.entity_manager.room(),
            state.ecs.entity_manager.gens().len() == old(state).ecs.entity_manager.gens().len(),
            forall|k: int| 0 <= k < move_list@.len() ==> state.ecs.entity_manager.knows(#[trigger] move_list@[k]),
        decreases cleared@.len() - li,
    {
        let line = cleared[li];
        let n = state.ecs.entity_list.len();
        let mut j: usize = 0;
        while j < n
            invariant
                0 <= j <= n,
                n == state.ecs.entity_list@.len(),
                state.ready(),
                state.current_piece == old(state).current_piece,
                state.scoring == old(state).scoring,
                state.hold_piece == old(state).hold_piece,
                state.next_pieces@ == old(state).next_pieces@,
                state.grid@ == old(state).grid@,
                state.ecs.component_registry == old(state).ecs.component_registry,
                state.ecs.entity_manager.room() >= old(state).ecs.entity_manager.room(),
                state.ecs.entity_manager.gens().len() == old(state).ecs.entity_manager.gens().len(),
                forall|k: int| 0 <= k < move_list@.len() ==> state.ecs.entity_manager.knows(#[trigger] move_list@[k]),
            decreases n - j,
        {
            let e = state.ecs.entity_list[j];
            let is_preview = state.ecs.component_registry.get_component::<Preview>(&e).is_some();
            let pos = state.ecs.component_registry.get_component::<Position>(&e);
            if !is_preview && pos.is_some() {
                let y = pos.unwrap().y;
                if y >= 0 && y as usize == line {
                    state.ecs.entity_manager.destroy(&e);
                    let ghost before = move_list@;
                    move_list = without(&move_list, e);
                    assert forall|k: int| 0 <= k < move_list@.len() implies state.ecs.entity_manager.knows(
                        #[trigger] move_list@[k],
                    ) by {
                        assert(before.contains(move_list@[k]));
                        let q = choose|q: int| 0 <= q < before.len() && before[q] == move_list@[k];
                        assert(state.ecs.entity_manager.knows(before[q]));
                    }
                }
                if y < 0 || (y as usize) < line {
                    move_list.push(e);
                }
            }
            j = j + 1;
        }
        state.ecs.prune_dead();
        li = li + 1;
    }
    let mut k: usize = 0;
    while k < move_list.len()
        invariant
            0 <= k <= move_list@.len(),
            state.ready(),
            state.current_piece == old(state).current_piece,
            state.scoring == old(state).scoring,
            state.hold_piece == old(state).hold_piece,
            state.next_pieces@ == old(state).next_pieces@,
            state.grid@ == old(state).grid@,
            state.ecs.component_registry.scoring == old(state).ecs.component_registry.scoring,
            state.ecs.entity_manager.room() >= old(state).ecs.entity_manager.room(),
            forall|m: int| 0 <= m < move_list@.len() ==> state.ecs.entity_manager.knows(#[trigger] move_list@[m]),
        decreases move_list@.len() - k,
    {
        let _ = move_entity(&mut state.ecs, move_list[k], Vector2 { x: 0, y: 1 });
        k = k + 1;
    }
}

/// `list` without the occurrences of `e`, order kept.
fn without(list: &Vec<Entity>, e: Entity) -> (r: Vec<Entity>)
    ensures
        r@ == list@.filter(|x: Entity| x != e),
        forall|k: int| 0 <= k < r@.len() ==> list@.contains(#[trigger] r@[k]),
{
    let mut r: Vec<Entity> = Vec::new();
    let mut i: usize = 0;
    while i < list.len()
        invariant
            0 <= i <= list@.len(),
            r@ == list@.subrange(0, i as int).filter(|x: Entity| x != e),
            forall|k: int| 0 <= k < r@.len() ==> list@.contains(#[trigger] r@[k]),
        decreases list@.len() - i,
    {
        let x = list[i];
        proof {
            reveal(Seq::filter);
            assert(list@.subrange(0, i + 1).drop_last() =~= list@.subrange(0, i as int));
        }
        if x != e {
            r.push(x);
            assert(list@[i as int] == x);
        }
        i = i + 1;
    }
    assert(list@.subrange(0, i as int) =~= list@);
    r
}

/// The scoring store of `b` is that of `a` with the score of `e` advanced by
/// `line_count` cleared lines, if `e` has one.
pub open spec fn scoring_after_lines(a: Registry, b: Registry, e: Entity, line_count: usize) -> bool {
    if store_has(a.scoring, e) {
        let m = a.scoring->Some_0.model();
        b.scoring is Some && b.scoring->Some_0.model() == m.insert(e.id, scored(m[e.id], line_count))
    } else {
        b.scoring == a.scoring
    }
}

/// Updates the game after the `cleared` lines filled up: removes them and scores them.
/// Returns the new tick interval when the level changed.
fn on_cleared(state: &mut GameState, cleared: Vec<usize>) -> (r: Option<TimerEvent>)
    requires
        old(state).ready(),
        old(state).scoring is Some,
    ensures
        final(state).ready(),
        final(state).current_piece == old(state).current_piece,
        final(state).scoring == old(state).scoring,
        final(state).hold_piece == old(state).hold_piece,
        final(state).next_pieces@ == old(state).next_pieces@,
        final(state).grid@ == old(state).grid@,
        final(state).ecs.entity_manager.room() >= old(state).ecs.entity_manager.room(),
        ({
            let e = old(state).scoring->Some_0;
            let st = old(state).ecs.component_registry.scoring;
            r == if store_has(st, e) {
                level_event(st->Some_0.model()[e.id], scored(st->Some_0.model()[e.id], cleared@.len() as usize))
            } else {
                None
            }
        }),
        scoring_after_lines(old(state).ecs.component_registry, final(state).ecs.component_registry, old(state).scoring->Some_0, cleared@.len() as usize),
{
    let line_count = cleared.len();
    remove_cleared(state, cleared);
    match update_score(state, line_count) {
        Ok(v) => v,
        Err(_) => None,
    }
}

/// The game can go on: every type registered, a score kept and a piece queued.
pub open spec fn playing(state: GameState) -> bool {
    &&& state.ready()
    &&& state.scoring is Some
    &&& state.next_pieces@.len() > 0
}

/// Updates the game after the piece `e` landed: breaks it into squares, clears full
/// lines and brings in the next piece.
fn on_collision(state: &mut GameState, e: Entity) -> (r: Result<Option<TimerEvent>, Error>)
    requires
        playing(*old(state)),
        old(state).ecs.entity_manager.knows(e),
        old(state).ecs.entity_manager.room() >= mesh_len(old(state).ecs.component_registry, e) + 1,
    ensures
        playing(*final(state)),
        r is Ok ==> final(state).current_piece is Some,
        ({
            let reg = old(state).ecs.component_registry;
            let missing = old(state).ecs.entity_manager.is_alive(e) && !(store_has(reg.mesh, e) && store_has(
                reg.color,
                e,
            ) && store_has(reg.position, e));
            r is Err <==> missing
        }),
{
    state.current_piece = None;
    match decompose_mesh(state, e) {
        Ok(_) => {},
        Err(err) => {
            return Err(err);
        },
    }
    let cleared = get_clear_lines(state);
    let result = match cleared {
        Some(GameEvent::ClearedLines(c)) => on_cleared(state, c),
        _ => None,
    };
    make_player(state);
    Ok(result)
}

/// The scoring component, or an error if the scoring entity has none.
fn get_scoring(state: &GameState) -> (r: Result<Scoring, Error>)
    requires
        state.wf(),
        state.scoring is Some,
    ensures
        ({
            let e = state.scoring->Some_0;
            let st = state.ecs.component_registry.scoring;
            if store_has(st, e) {
                r == Ok::<Scoring, Error>(st->Some_0.model()[e.id])
            } else {
                r == Err::<Scoring, Error>(Error::MissingComponent("Scoring"))
            }
        }),
{
    let e = state.scoring.unwrap();
    match state.ecs.component_registry.get_component::<Scoring>(&e) {
        Some(s) => Ok(*s),
        None => Err(Error::MissingComponent("Scoring")),
    }
}

/// Lines cleared so far.
pub fn get_lines(state: &GameState) -> (r: Result<u32, Error>)
    requires
        state.wf(),
        state.scoring is Some,
    ensures
        ({
            let e = state.scoring->Some_0;
            let st = state.ecs.component_registry.scoring;
            if store_has(st, e) {
                r == Ok::<u32, Error>(st->Some_0.model()[e.id].lines)
            } else {
                r == Err::<u32, Error>(Error::MissingComponent("Scoring"))
            }
        }),
{
    match get_scoring(state) {
        Ok(s) => Ok(s.lines),
        Err(err) => Err(err),
    }
}

/// The level reached.
pub fn get_level(state: &GameState) -> (r: Result<u32, Error>)
    requires
        state.wf(),
        state.scoring is Some,
    ensures
        ({
            let e = state.scoring->Some_0;
            let st = state.ecs.component_registry.scoring;
            if store_has(st, e) {
                r == Ok::<u32, Error>(st->Some_0.model()[e.id].level)
            } else {
                r == Err::<u32, Error>(Error::MissingComponent("Scoring"))
            }
        }),
{
    match get_scoring(state) {
        Ok(s) => Ok(s.level),
        Err(err) => Err(err),
    }
}

/// Points scored so far.
pub fn get_score(state: &GameState) -> (r: Result<u32, Error>)
    requires
        state.wf(),
        state.scoring is Some,
    ensures
        ({
            let e = state.scoring->Some_0;
            let st = state.ecs.component_registry.scoring;
            if store_has(st, e) {
                r == Ok::<u32, Error>(st->Some_0.model()[e.id].score)
            } else {
                r == Err::<u32, Error>(Error::MissingComponent("Scoring"))
            }
        }),
{
    match get_scoring(state) {
        Ok(s) => Ok(s.score),
        Err(err) => Err(err),
    }
}

/// Swaps the player's piece with the held one; with nothing held yet, the next queued
/// piece comes into play.
pub fn on_hold(state: &mut GameState) -> (r: Result<(), Error>)
    requires
        old(state).ready(),
        old(state).current_piece is Some,
        old(state).hold_piece is None ==> old(state).next_pieces@.len() > 0 && old(state).ecs.entity_manager.room() >= 1,
    ensures
        r is Ok,
        final(state).ready(),
        final(state).hold_piece == old(state).current_piece,
        final(state).current_piece == (if old(state).hold_piece is Some {
            old(state).hold_piece
        } else {
            Some(old(state).next_pieces@[0])
        }),
        final(state).scoring == old(state).scoring,
        final(state).next_pieces@.len() == old(state).next_pieces@.len(),
        !store_has(final(state).ecs.component_registry.player, old(state).current_piece->Some_0),
        store_has(final(state).ecs.component_registry.hold, old(state).current_piece->Some_0),
{
    let player = state.current_piece.unwrap();
    match state.hold_piece {
        Some(hold) => {
            player_from_hold(&mut state.ecs, hold);
            state.current_piece = Some(hold);
        },
        None => {
            make_player(state);
        },
    }
    hold_from_player(&mut state.ecs, player);
    state.hold_piece = Some(player);
    Ok(())
}

impl GameState {
    /// Reacts to an event of the game rules.
    pub fn on_event(&mut self, evt: GameEvent) -> (r: Result<(), Error>)
        requires
            playing(*old(self)),
            evt matches GameEvent::Collision(e) ==> old(self).ecs.entity_manager.knows(e) && old(self).ecs.entity_manager.room()
                >= mesh_len(old(self).ecs.component_registry, e) + 1,
        ensures
            playing(*final(self)),
            evt is GameOver ==> *final(self) == *old(self) && r is Ok,
            evt matches GameEvent::ClearedLines(c) ==> r is Ok && scoring_after_lines(
                old(self).ecs.component_registry,
                final(self).ecs.component_registry,
                old(self).scoring->Some_0,
                c@.len() as usize,
            ),
            evt matches GameEvent::Collision(e) ==> ({
                let reg = old(self).ecs.component_registry;
                let missing = old(self).ecs.entity_manager.is_alive(e) && !(store_has(reg.mesh, e) && store_has(
                    reg.color,
                    e,
                ) && store_has(reg.position, e));
                r is Err <==> missing
            }),
    {
        match evt {
            GameEvent::ClearedLines(cleared) => {
                on_cleared(self, cleared);
                Ok(())
            },
            GameEvent::Collision(e) => {
                match on_collision(self, e) {
                    Ok(_) => Ok(()),
                    Err(err) => Err(err),
                }
            },
            GameEvent::GameOver => Ok(()),
        }
    }
}

/// Moves the player's piece one step by its gravity. When it cannot move, the game is
/// over if it rests in the top two rows (returns the timer's stop); otherwise it lands.
pub fn simulate(state: &mut GameState) -> (r: Result<Option<TimerEvent>, Error>)
    requires
        playing(*old(state)),
        old(state).current_piece matches Some(p) ==> old(state).ecs.entity_manager.room() >= mesh_len(
            old(state).ecs.component_registry,
            p,
        ) + 1,
    ensures
        playing(*final(state)),
        old(state).current_piece is None ==> r == Err::<Option<TimerEvent>, Error>(Error::NoCurrentPiece),
        old(state).current_piece matches Some(p) ==> {
            let reg = old(state).ecs.component_registry;
            let alive = old(state).ecs.entity_manager.is_alive(p);
            &&& !store_has(reg.gravity, p) ==> r == Err::<Option<TimerEvent>, Error>(Error::MissingComponent("Gravity"))
                && *final(state) == *old(state)
            &&& store_has(reg.gravity, p) ==> {
                let g = reg.gravity->Some_0.model()[p.id].g;
                &&& !store_has(reg.position, p) ==> r == Err::<Option<TimerEvent>, Error>(
                    Error::MissingComponent("Position"),
                ) && *final(state) == *old(state)
                &&& store_has(reg.position, p) && !store_has(reg.mesh, p) ==> r == Err::<Option<TimerEvent>, Error>(
                    Error::MissingComponent("Mesh"),
                ) && *final(state) == *old(state)
                &&& store_has(reg.position, p) && store_has(reg.mesh, p) ==> {
                    let pos = reg.position->Some_0.model()[p.id];
                    let cells = reg.mesh->Some_0.model()[p.id].cells();
                    let hit = hits(old(state).grid@, cells, pos, g);
                    &&& !hit && alive ==> r == Ok::<Option<TimerEvent>, Error>(None)
                        && final(state).ecs.component_registry.position->Some_0.model()
                        == reg.position->Some_0.model().insert(p.id, shifted(pos, g))
                    &&& !hit && !alive ==> r == Ok::<Option<TimerEvent>, Error>(None) && *final(state) == *old(state)
                    &&& hit && pos.y <= 1 ==> r == Ok::<Option<TimerEvent>, Error>(Some(TimerEvent::Stop))
                        && *final(state) == *old(state)
                    &&& hit && pos.y > 1 ==> (r is Err <==> alive && !store_has(reg.color, p))
                        && (r is Ok ==> final(state).current_piece is Some)
                }
            }
        },
{
    let piece = match state.current_piece {
        Some(p) => p,
        None => {
            return Err(Error::NoCurrentPiece);
        },
    };
    let delta = match state.ecs.component_registry.get_component::<Gravity>(&piece) {
        Some(g) => g.g,
        None => {
            return Err(Error::MissingComponent("Gravity"));
        },
    };
    let hit = match check_collision(state, piece, delta) {
        Ok(h) => h,
        Err(err) => {
            return Err(err);
        },
    };
    if hit.is_some() {
        if let Ok(true) = check_gameover(&mut state.ecs, piece) {
            return Ok(Some(TimerEvent::Stop));
        }
        return on_collision(state, piece);
    }
    match move_entity(&mut state.ecs, piece, delta) {
        Ok(_) => Ok(None),
        Err(err) => Err(err),
    }
}

/// Cell `c` turned in `direction` inside a square of side `t + 2`.
pub open spec fn turned(c: Position, direction: RotationDirection, t: int) -> (int, int) {
    match direction {
        RotationDirection::CW => (c.y as int, 1 - (c.x - t)),
        RotationDirection::CCW => (1 - (c.y - t), c.x as int),
    }
}

/// Cell `c` turned in `direction`, as stored.
pub open spec fn turned_cell(c: Position, direction: RotationDirection, t: int) -> Position {
    Vector2 { x: turned(c, direction, t).0 as i32, y: turned(c, direction, t).1 as i32 }
}

/// Rotates the piece `e` in `direction`, kicking it off the side walls when needed.
/// Nothing changes when the turned piece would leave the board vertically or overlap
/// a filled square, or for a piece of size 2.
pub fn rotate_tetromino(state: &mut GameState, e: Entity, direction: RotationDirection) -> (r: Result<(), Error>)
    requires
        old(state).ready(),
        old(state).ecs.entity_manager.knows(e),
    ensures
        final(state).ready(),
        GameState::same_but_ecs(*old(state), *final(state)),
        final(state).ecs.entity_manager == old(state).ecs.entity_manager,
        final(state).ecs.entity_list@ == old(state).ecs.entity_list@,
        ({
            let reg = old(state).ecs.component_registry;
            let alive = old(state).ecs.entity_manager.is_alive(e);
            if !alive {
                r == Ok::<(), Error>(()) && *final(state) == *old(state)
            } else if !store_has(reg.mesh, e) {
                r == Err::<(), Error>(Error::MissingComponent("Mesh")) && *final(state) == *old(state)
            } else if !store_has(reg.size, e) {
                r == Err::<(), Error>(Error::MissingComponent("Size")) && *final(state) == *old(state)
            } else if !store_has(reg.position, e) {
                r == Err::<(), Error>(Error::MissingComponent("Position")) && *final(state) == *old(state)
            } else {
                let cells = reg.mesh->Some_0.model()[e.id].cells();
                let t = reg.size->Some_0.model()[e.id].0 - 2;
                let pos = reg.position->Some_0.model()[e.id];
                let fin = final(state).ecs.component_registry;
                &&& r == Ok::<(), Error>(())
                &&& reg.size->Some_0.model()[e.id].0 == 2 ==> *final(state) == *old(state)
                &&& (*final(state) == *old(state) || {
                    &&& Registry::same_except(reg, fin, crate::registry::ComponentKind::Mesh)
                        || Registry::same_except(reg, fin, crate::registry::ComponentKind::Position)
                        || (fin.color == reg.color && fin.size == reg.size && fin.player == reg.player
                            && fin.preview == reg.preview && fin.scoring == reg.scoring && fin.gravity == reg.gravity
                            && fin.hold == reg.hold)
                    &&& store_has(fin.mesh, e)
                    &&& fin.mesh->Some_0.model()[e.id].cells() == cells.map_values(|c: Position| turned_cell(c, direction, t))
                    &&& fin.mesh->Some_0.model().remove(e.id) == reg.mesh->Some_0.model().remove(e.id)
                    &&& store_has(fin.position, e)
                    &&& fin.position->Some_0.model()[e.id].y == pos.y
                    &&& fin.position->Some_0.model().remove(e.id) == reg.position->Some_0.model().remove(e.id)
                })
            }
        }),
{
    if !state.ecs.entity_manager.alive(&e) {
        return Ok(());
    }
    let ghost reg0 = state.ecs.component_registry;
    let cells: Vec<Position> = match state.ecs.component_registry.get_component::<Mesh>(&e) {
        Some(m) => copy_cells(&m.0),
        None => {
            return Err(Error::MissingComponent("Mesh"));
        },
    };
    let size: u32 = match state.ecs.component_registry.get_component::<crate::component::Size>(&e) {
        Some(s) => s.0,
        None => {
            return Err(Error::MissingComponent("Size"));
        },
    };
    let pos: Position = match state.ecs.component_registry.get_component::<Position>(&e) {
        Some(p) => *p,
        None => {
            return Err(Error::MissingComponent("Position"));
        },
    };
    if size == 2 {
        return Ok(());
    }
    let t: i64 = size as i64 - 2;
    let ghost turn = |c: Position| turned_cell(c, direction, t as int);
    let mut new_cells: Vec<Position> = Vec::new();
    let mut shift_x: i64 = 0;
    let mut i: usize = 0;
    while i < cells.len()
        invariant
            0 <= i <= cells@.len(),
            t == size - 2,
            new_cells@ == cells@.subrange(0, i as int).map_values(|c: Position| turned_cell(c, direction, t as int)),
            i32::MIN - 10 <= shift_x <= i32::MAX as int + 10,
            *state == *old(state),
            state.ready(),
            old(state).ecs.entity_manager.is_alive(e),
            store_has(old(state).ecs.component_registry.mesh, e),
            store_has(old(state).ecs.component_registry.size, e),
            store_has(old(state).ecs.component_registry.position, e),
            old(state).ecs.component_registry.size->Some_0.model()[e.id].0 == size,
            size != 2,
        decreases cells@.len() - i,
    {
        let c = cells[i];
        let (x, y): (i64, i64) = match direction {
            RotationDirection::CW => (c.y as i64, 1 - (c.x as i64 - t)),
            RotationDirection::CCW => (1 - (c.y as i64 - t), c.x as i64),
        };
        if x < i32::MIN as i64 || x > i32::MAX as i64 || y < i32::MIN as i64 || y > i32::MAX as i64 {
            return Ok(());
        }
        new_cells.push(Vector2 { x: x as i32, y: y as i32 });
        proof {
            assert(new_cells@ =~= cells@.subrange(0, i + 1).map_values(|c: Position| turned_cell(c, direction, t as int)));
        }
        let ax: i64 = x + pos.x as i64;
        let ay: i64 = y + pos.y as i64;
        if ay < 0 || ay >= GLASS_HEIGHT as i64 {
            return Ok(());
        }
        if ax >= GLASS_WIDTH as i64 {
            let left: i64 = GLASS_WIDTH as i64 - 1 - ax;
            if left < shift_x {
                shift_x = if left < i32::MIN as i64 { i32::MIN as i64 } else { left };
            }
        } else if ax < 0 {
            let right: i64 = 0 - ax;
            if right > shift_x {
                shift_x = if right > i32::MAX as i64 { i32::MAX as i64 } else { right };
            }
        }
        i = i + 1;
    }
    assert(cells@.subrange(0, i as int) =~= cells@);
    let nx: i64 = pos.x as i64 + shift_x;
    if nx < i32::MIN as i64 || nx > i32::MAX as i64 {
        return Ok(());
    }
    let new_pos = Vector2 { x: nx as i32, y: pos.y };
    let mut j: usize = 0;
    while j < new_cells.len()
        invariant
            0 <= j <= new_cells@.len(),
            grid_wf(state.grid@),
            *state == *old(state),
            state.ready(),
            old(state).ecs.entity_manager.is_alive(e),
            store_has(old(state).ecs.component_registry.mesh, e),
            store_has(old(state).ecs.component_registry.size, e),
            store_has(old(state).ecs.component_registry.position, e),
            old(state).ecs.component_registry.size->Some_0.model()[e.id].0 == size,
            size != 2,
        decreases new_cells@.len() - j,
    {
        let c = new_cells[j];
        let x: i64 = new_pos.x as i64 + c.x as i64;
        let y: i64 = new_pos.y as i64 + c.y as i64;
        if !covered(&cells, pos, x, y) && is_blocked(&state.grid, x, y) {
            return Ok(());
        }
        j = j + 1;
    }
    state.ecs.set_component(e, Mesh::new(new_cells));
    state.ecs.set_component(e, new_pos);
    proof {
        let fin = state.ecs.component_registry;
        assert(fin.mesh->Some_0.model().remove(e.id) =~= reg0.mesh->Some_0.model().remove(e.id));
        assert(fin.position->Some_0.model().remove(e.id) =~= reg0.position->Some_0.model().remove(e.id));
    }
    Ok(())
}

} // verus!
