use vstd::prelude::*;

use crate::component::{Cell, Hold, Mesh, Position, Preview};
use crate::game::{grid_wf, GameState, GLASS_HEIGHT, GLASS_WIDTH, X_OFFSET, Y_OFFSET};
use crate::registry::store_has;
use crate::types::TimerEvent;
use crate::vector::Vector2;

verus! {

/// Whether `(x, y)` is a square of the board.
pub open spec fn on_board(x: int, y: int) -> bool {
    0 <= x < GLASS_WIDTH && 0 <= y < GLASS_HEIGHT
}

/// Writes the squares of every visible piece into the board and returns them, with
/// their colours, for drawing. A piece is visible when it is alive, has a colour, a
/// mesh and a position, and is neither a preview nor on hold. Squares off the board
/// are skipped.
pub fn paint_entities(state: &mut GameState) -> (r: Vec<(Position, Cell)>)
    requires
        old(state).wf(),
    ensures
        final(state).wf(),
        final(state).ecs == old(state).ecs,
        final(state).current_piece == old(state).current_piece,
        final(state).scoring == old(state).scoring,
        final(state).hold_piece == old(state).hold_piece,
        final(state).next_pieces@ == old(state).next_pieces@,
        forall|k: int| 0 <= k < r@.len() ==> {
            let (p, c) = #[trigger] r@[k];
            on_board(p.x as int, p.y as int)
        },
{
    let mut out: Vec<(Position, Cell)> = Vec::new();
    let n = state.ecs.entity_list.len();
    let mut i: usize = 0;
    while i < n
        invariant
            0 <= i <= n,
            n == state.ecs.entity_list@.len(),
            state.wf(),
            state.ecs == old(state).ecs,
            state.current_piece == old(state).current_piece,
            state.scoring == old(state).scoring,
            state.hold_piece == old(state).hold_piece,
            state.next_pieces@ == old(state).next_pieces@,
            forall|k: int| 0 <= k < out@.len() ==> {
                let (p, c) = #[trigger] out@[k];
                on_board(p.x as int, p.y as int)
            },
        decreases n - i,
    {
        let e = state.ecs.entity_list[i];
        i = i + 1;
        if !state.ecs.entity_manager.alive(&e) {
            continue;
        }
        let reg = &state.ecs.component_registry;
        if reg.get_component::<Preview>(&e).is_some() || reg.get_component::<Hold>(&e).is_some() {
            continue;
        }
        let color = match reg.get_component::<Cell>(&e) {
            Some(c) => *c,
            None => {
                continue;
            },
        };
        let pos = match reg.get_component::<Position>(&e) {
            Some(p) => *p,
            None => {
                continue;
            },
        };
        let cells = match reg.get_component::<Mesh>(&e) {
            Some(m) => crate::rules::copy_cells(&m.0),
            None => {
                continue;
            },
        };
        let mut j: usize = 0;
        while j < cells.len()
            invariant
                0 <= j <= cells@.len(),
                n == state.ecs.entity_list@.len(),
                state.wf(),
                state.ecs == old(state).ecs,
                state.current_piece == old(state).current_piece,
                state.scoring == old(state).scoring,
                state.hold_piece == old(state).hold_piece,
                state.next_pieces@ == old(state).next_pieces@,
                forall|k: int| 0 <= k < out@.len() ==> {
                    let (p, c) = #[trigger] out@[k];
                    on_board(p.x as int, p.y as int)
                },
            decreases cells@.len() - j,
        {
            let c = cells[j];
            j = j + 1;
            let x: i64 = c.x as i64 + pos.x as i64;
            let y: i64 = c.y as i64 + pos.y as i64;
            if 0 <= x && x < GLASS_WIDTH as i64 && 0 <= y && y < GLASS_HEIGHT as i64 {
                let xu = x as usize;
                let yu = y as usize;
                let row: &mut Vec<Cell> = &mut state.grid[yu];
                row.set(xu, color);
                out.push((Vector2 { x: x as i32, y: y as i32 }, color));
            }
        }
    }
    out
}

/// What the timer thread knows: whether it is paused and how long a tick lasts.
#[derive(Debug, Clone, Copy, PartialEq, Eq, Structural)]
pub struct TimerState {
    pub paused: bool,
    pub interval: u128,
}

/// What the timer thread does after a message.
#[derive(Debug, Clone, Copy, PartialEq, Eq, Structural)]
pub enum TimerAction {
    Continue,
    Exit,
}

impl TimerState {
    /// A running timer that ticks every `interval` milliseconds.
    pub fn new(interval: u128) -> (r: Self)
        ensures
            r == (TimerState { paused: false, interval }),
    {
        TimerState { paused: false, interval }
    }

    /// Handles a message from the game: `Pause` toggles pausing, `SetInterval` changes
    /// the tick length, anything else stops the timer.
    pub fn on_message(&mut self, msg: TimerEvent) -> (r: TimerAction)
        ensures
            match msg {
                TimerEvent::Pause => r == TimerAction::Continue && *final(self) == (TimerState {
                    paused: !old(self).paused,
                    interval: old(self).interval,
                }),
                TimerEvent::SetInterval(i) => r == TimerAction::Continue && *final(self) == (TimerState {
                    paused: old(self).paused,
                    interval: i,
                }),
                _ => r == TimerAction::Exit && *final(self) == *old(self),
            },
    {
        match msg {
            TimerEvent::Pause => {
                self.paused = !self.paused;
                TimerAction::Continue
            },
            TimerEvent::SetInterval(i) => {
                self.interval = i;
                TimerAction::Continue
            },
            _ => TimerAction::Exit,
        }
    }

    /// Whether a tick is due after `elapsed_ms` milliseconds since the last one.
    pub fn tick_due(&self, elapsed_ms: u128) -> (r: bool)
        ensures
            r == (!self.paused && elapsed_ms >= self.interval),
    {
        !self.paused && elapsed_ms >= self.interval
    }
}

/// `cells` moved by `(dx, dy)`, each paired with `color`; coordinates wrap on overflow.
pub open spec fn placed(cells: Seq<Position>, dx: i32, dy: i32, color: Cell) -> Seq<(Position, Cell)> {
    cells.map_values(|c: Position| (Vector2 { x: c.x.wrapping_add(dx), y: c.y.wrapping_add(dy) }, color))
}

/// Appends `cells`, moved by `(dx, dy)` and paired with `color`, to `out`.
fn push_placed(out: &mut Vec<(Position, Cell)>, cells: &Vec<Position>, dx: i32, dy: i32, color: Cell)
    ensures
        final(out)@ == old(out)@ + placed(cells@, dx, dy, color),
{
    let ghost start = out@;
    let mut i: usize = 0;
    while i < cells.len()
        invariant
            0 <= i <= cells@.len(),
            out@ == start + placed(cells@.subrange(0, i as int), dx, dy, color),
        decreases cells@.len() - i,
    {
        let c = cells[i];
        out.push((Vector2 { x: c.x.wrapping_add(dx), y: c.y.wrapping_add(dy) }, color));
        i = i + 1;
        assert(out@ =~= start + placed(cells@.subrange(0, i as int), dx, dy, color));
    }
    assert(cells@.subrange(0, i as int) =~= cells@);
}

/// Screen-grid column where the held piece is drawn: half the board's offset.
pub const HOLD_X: i32 = 6;

/// Screen-grid row where the held piece is drawn: three times the board's offset.
pub const HOLD_Y: i32 = 9;

/// The squares of the held piece in screen-grid coordinates, with its colour; empty
/// unless the held piece is alive and has a colour, a mesh and the hold marker.
pub fn hold_cells(state: &GameState) -> (r: Vec<(Position, Cell)>)
    requires
        state.wf(),
    ensures
        ({
            let reg = state.ecs.component_registry;
            match state.hold_piece {
                Some(e) => if state.ecs.entity_manager.is_alive(e) && store_has(reg.hold, e) && store_has(reg.color, e)
                    && store_has(reg.mesh, e) {
                    r@ == placed(
                        reg.mesh->Some_0.model()[e.id].cells(),
                        HOLD_X,
                        HOLD_Y,
                        reg.color->Some_0.model()[e.id],
                    )
                } else {
                    r@.len() == 0
                },
                None => r@.len() == 0,
            }
        }),
{
    let mut out: Vec<(Position, Cell)> = Vec::new();
    let e = match state.hold_piece {
        Some(e) => e,
        None => {
            return out;
        },
    };
    if !state.ecs.entity_manager.alive(&e) {
        return out;
    }
    let reg = &state.ecs.component_registry;
    if reg.get_component::<Hold>(&e).is_none() {
        return out;
    }
    let color = match reg.get_component::<Cell>(&e) {
        Some(c) => *c,
        None => {
            return out;
        },
    };
    match reg.get_component::<Mesh>(&e) {
        Some(m) => push_placed(&mut out, &m.0, HOLD_X, HOLD_Y, color),
        None => {},
    }
    out
}

/// The squares of the queued pieces in screen-grid coordinates, with their colours,
/// stacked three rows apart beside the board. A queued piece is drawn when it is
/// alive and has a colour, a mesh and the preview marker.
pub fn preview_cells(state: &GameState) -> (r: Vec<(Position, Cell)>)
    requires
        state.wf(),
{
    let mut out: Vec<(Position, Cell)> = Vec::new();
    let preview_x: i32 = 3 + X_OFFSET + GLASS_WIDTH as i32;
    let mut y_offset: i32 = Y_OFFSET;
    let reg = &state.ecs.component_registry;
    let mut i: usize = 0;
    while i < state.next_pieces.len()
        invariant
            0 <= i <= state.next_pieces@.len(),
            state.wf(),
            *reg == state.ecs.component_registry,
        decreases state.next_pieces@.len() - i,
    {
        let e = state.next_pieces[i];
        i = i + 1;
        if !state.ecs.entity_manager.alive(&e) || reg.get_component::<Preview>(&e).is_none() {
            continue;
        }
        let color = match reg.get_component::<Cell>(&e) {
            Some(c) => *c,
            None => {
                continue;
            },
        };
        match reg.get_component::<Mesh>(&e) {
            Some(m) => {
                push_placed(&mut out, &m.0, preview_x, y_offset, color);
                y_offset = y_offset.wrapping_add(3);
            },
            None => {},
        }
    }
    out
}

} // verus!
