use std::cmp::Ordering;
use vstd::prelude::*;

use crate::component::{Cell, Mesh, Position};
use crate::entity::Entity;
use crate::game::{bg, bg_cell, grid_wf, Error, GameState, GLASS_HEIGHT, GLASS_WIDTH};
use crate::registry::store_has;
use crate::types::GameEvent;
use crate::vector::Vector2;
use crate::world::World;

verus! {

/// Whether the square at column `x`, row `y` is off the board or filled.
pub open spec fn blocked(grid: Seq<Vec<Cell>>, x: int, y: int) -> bool {
    x < 0 || y < 0 || x >= GLASS_WIDTH || y >= GLASS_HEIGHT || grid[y]@[x] != bg()
}

/// Whether one of `cells`, placed at `pos`, lands on `(x, y)`.
pub open spec fn covers(cells: Seq<Vector2<i32>>, pos: Position, x: int, y: int) -> bool {
    exists|j: int| 0 <= j < cells.len() && #[trigger] cells[j].x + pos.x == x && cells[j].y + pos.y == y
}

/// Cell `i` of a piece at `pos`, moved by `delta`, lands on a blocked square that the
/// piece does not already cover.
pub open spec fn cell_hits(
    grid: Seq<Vec<Cell>>,
    cells: Seq<Vector2<i32>>,
    pos: Position,
    delta: Position,
    i: int,
) -> bool {
    let x = cells[i].x + pos.x + delta.x;
    let y = cells[i].y + pos.y + delta.y;
    !covers(cells, pos, x, y) && blocked(grid, x, y)
}

/// Moving a piece with `cells` at `pos` by `delta` runs into the edge or a filled square.
pub open spec fn hits(grid: Seq<Vec<Cell>>, cells: Seq<Vector2<i32>>, pos: Position, delta: Position) -> bool {
    exists|i: int| 0 <= i < cells.len() && #[trigger] cell_hits(grid, cells, pos, delta, i)
}

/// Whether one of `cells`, placed at `pos`, lands on `(x, y)`.
pub(crate) fn covered(cells: &Vec<Vector2<i32>>, pos: Position, x: i64, y: i64) -> (r: bool)
    ensures
        r == covers(cells@, pos, x as int, y as int),
{
    let mut j: usize = 0;
    while j < cells.len()
        invariant
            0 <= j <= cells@.len(),
            forall|k: int| 0 <= k < j ==> !(#[trigger] cells@[k].x + pos.x == x && cells@[k].y + pos.y == y),
        decreases cells@.len() - j,
    {
        let c = cells[j];
        if c.x as i64 + pos.x as i64 == x && c.y as i64 + pos.y as i64 == y {
            return true;
        }
        j = j + 1;
    }
    false
}

/// Whether the square at `(x, y)` is off the board or filled.
pub(crate) fn is_blocked(grid: &Vec<Vec<Cell>>, x: i64, y: i64) -> (r: bool)
    requires
        grid_wf(grid@),
    ensures
        r == blocked(grid@, x as int, y as int),
{
    if x < 0 || y < 0 || x >= GLASS_WIDTH as i64 || y >= GLASS_HEIGHT as i64 {
        return true;
    }
    let row = &grid[y as usize];
    row[x as usize] != bg_cell()
}

/// Whether moving a piece with `cells` at `pos` by `delta` runs into something.
pub fn mesh_collides(grid: &Vec<Vec<Cell>>, cells: &Vec<Vector2<i32>>, pos: Position, delta: Position) -> (r: bool)
    requires
        grid_wf(grid@),
    ensures
        r == hits(grid@, cells@, pos, delta),
{
    let mut i: usize = 0;
    while i < cells.len()
        invariant
            grid_wf(grid@),
            0 <= i <= cells@.len(),
            forall|k: int| 0 <= k < i ==> !#[trigger] cell_hits(grid@, cells@, pos, delta, k),
        decreases cells@.len() - i,
    {
        let c = cells[i];
        let x: i64 = c.x as i64 + pos.x as i64 + delta.x as i64;
        let y: i64 = c.y as i64 + pos.y as i64 + delta.y as i64;
        if !covered(cells, pos, x, y) && is_blocked(grid, x, y) {
            assert(cell_hits(grid@, cells@, pos, delta, i as int));
            return true;
        }
        i = i + 1;
    }
    false
}

/// Checks whether moving `e` by `delta` collides with the board's edges or filled squares.
pub fn check_collision(state: &mut GameState, e: Entity, delta: Position) -> (r: Result<Option<GameEvent>, Error>)
    requires
        old(state).wf(),
    ensures
        *final(state) == *old(state),
        ({
            let reg = old(state).ecs.component_registry;
            if !store_has(reg.position, e) {
                r == Err::<Option<GameEvent>, Error>(Error::MissingComponent("Position"))
            } else if !store_has(reg.mesh, e) {
                r == Err::<Option<GameEvent>, Error>(Error::MissingComponent("Mesh"))
            } else {
                let pos = reg.position->Some_0.model()[e.id];
                let cells = reg.mesh->Some_0.model()[e.id].cells();
                r == Ok::<Option<GameEvent>, Error>(
                    if hits(old(state).grid@, cells, pos, delta) {
                        Some(GameEvent::Collision(e))
                    } else {
                        None
                    },
                )
            }
        }),
{
    let registry = &state.ecs.component_registry;
    let pos = match registry.get_component::<Position>(&e) {
        Some(p) => *p,
        None => {
            return Err(Error::MissingComponent("Position"));
        },
    };
    let mesh = match registry.get_component::<Mesh>(&e) {
        Some(m) => m,
        None => {
            return Err(Error::MissingComponent("Mesh"));
        },
    };
    if mesh_collides(&state.grid, &mesh.0, pos, delta) {
        Ok(Some(GameEvent::Collision(e)))
    } else {
        Ok(None)
    }
}

/// A row with no empty square.
pub open spec fn row_full(row: Seq<Cell>) -> bool {
    forall|c: int| 0 <= c < row.len() ==> #[trigger] row[c] != bg()
}

/// The full rows at index `from` or above, from the highest index down.
pub open spec fn full_rows_from(grid: Seq<Vec<Cell>>, from: int) -> Seq<usize>
    decreases grid.len() - from,
{
    if from >= grid.len() || from < 0 {
        Seq::empty()
    } else {
        let rest = full_rows_from(grid, from + 1);
        if row_full(grid[from]@) {
            rest.push(from as usize)
        } else {
            rest
        }
    }
}

/// Whether no square of `row` is empty.
fn is_row_full(row: &Vec<Cell>) -> (r: bool)
    ensures
        r == row_full(row@),
{
    let mut c: usize = 0;
    while c < row.len()
        invariant
            0 <= c <= row@.len(),
            forall|k: int| 0 <= k < c ==> #[trigger] row@[k] != bg(),
        decreases row@.len() - c,
    {
        if row[c] == bg_cell() {
            return false;
        }
        c = c + 1;
    }
    true
}

/// The cleared lines, from the bottom row up, or `None` if no row is full.
pub fn get_clear_lines(state: &mut GameState) -> (r: Option<GameEvent>)
    requires
        old(state).wf(),
    ensures
        *final(state) == *old(state),
        match r {
            None => full_rows_from(old(state).grid@, 0).len() == 0,
            Some(GameEvent::ClearedLines(v)) => v@ == full_rows_from(old(state).grid@, 0) && v@.len() > 0,
            Some(_) => false,
        },
{
    let mut cleared: Vec<usize> = Vec::new();
    let mut r: usize = state.grid.len();
    while r > 0
        invariant
            0 <= r <= state.grid@.len(),
            state.grid@.len() == GLASS_HEIGHT,
            cleared@ == full_rows_from(state.grid@, r as int),
        decreases r,
    {
        r = r - 1;
        if is_row_full(&state.grid[r]) {
            cleared.push(r);
        }
    }
    if cleared.len() == 0 {
        None
    } else {
        Some(GameEvent::ClearedLines(cleared))
    }
}

/// The order `mesh_sort` puts cells in: higher rows first, then by column.
pub open spec fn mesh_order(a: Vector2<i32>, b: Vector2<i32>) -> Ordering {
    if a.y > b.y {
        Ordering::Less
    } else if a.y < b.y {
        Ordering::Greater
    } else if a.x < b.x {
        Ordering::Less
    } else if a.x > b.x {
        Ordering::Greater
    } else {
        Ordering::Equal
    }
}

/// Orders cells by row, bottom first, then by column, for convenient collision checks.
pub fn mesh_sort(a: &Vector2<i32>, b: &Vector2<i32>) -> (r: Ordering)
    ensures
        r == mesh_order(*a, *b),
{
    if a.y > b.y {
        return Ordering::Less;
    }
    if a.y < b.y {
        return Ordering::Greater;
    }
    if a.x < b.x {
        Ordering::Less
    } else if a.x > b.x {
        Ordering::Greater
    } else {
        Ordering::Equal
    }
}

/// The game is over once the piece `e` stops with its position in the top two rows.
pub fn check_gameover(ecs: &mut World, e: Entity) -> (r: Result<bool, Error>)
    requires
        old(ecs).wf(),
    ensures
        *final(ecs) == *old(ecs),
        !store_has(old(ecs).component_registry.position, e) ==> r == Err::<bool, Error>(Error::MissingComponent("Position")),
        store_has(old(ecs).component_registry.position, e) ==> r == Ok::<bool, Error>(
            old(ecs).component_registry.position->Some_0.model()[e.id].y <= 1,
        ),
{
    match ecs.component_registry.get_component::<Position>(&e) {
        Some(p) => Ok(p.y <= 1),
        None => Err(Error::MissingComponent("Position")),
    }
}

} // verus!
