use std::collections::VecDeque;
use vstd::prelude::*;

use crate::component::{Cell, Gravity, Hold, Mesh, Player, Position, Preview, Scoring, Size};
use crate::entity::Entity;
use crate::entity_manager::EntityManagerU32;
use crate::registry::{Component, Registry};
use crate::world::World;

verus! {

/// Rows of the board.
pub const GLASS_HEIGHT: usize = 20;

/// Columns of the board.
pub const GLASS_WIDTH: usize = 10;

/// Column of the screen grid where the board starts.
pub const X_OFFSET: i32 = 12;

/// Row of the screen grid where the board starts.
pub const Y_OFFSET: i32 = 3;

/// The colour of an empty square.
pub open spec fn bg() -> Cell {
    Cell { r: 0, g: 0, b: 0, a: 255 }
}

/// The colour of an empty square.
pub fn bg_cell() -> (r: Cell)
    ensures
        r == bg(),
{
    Cell::rgb(0, 0, 0)
}

/// Errors of the game rules.
#[derive(Debug, Clone, PartialEq, Eq)]
pub enum Error {
    /// A component the rules need is absent.
    MissingComponent(&'static str),
    /// There is no piece under player control.
    NoCurrentPiece,
    /// Any other failure, described in words.
    ExternalString(String),
}

impl From<String> for Error {
    fn from(err_str: String) -> (r: Self) {
        Error::ExternalString(err_str)
    }
}

impl vstd::std_specs::convert::FromSpecImpl<String> for Error {
    open spec fn obeys_from_spec() -> bool {
        true
    }

    open spec fn from_spec(v: String) -> Self {
        Error::ExternalString(v)
    }
}

impl From<crate::world::Error> for Error {
    fn from(err: crate::world::Error) -> (r: Self) {
        match err {
            crate::world::Error::MissingComponent(val) => Error::MissingComponent(val),
            crate::world::Error::ExternalString(val) => Error::ExternalString(val),
        }
    }
}

impl vstd::std_specs::convert::FromSpecImpl<crate::world::Error> for Error {
    open spec fn obeys_from_spec() -> bool {
        true
    }

    open spec fn from_spec(v: crate::world::Error) -> Self {
        match v {
            crate::world::Error::MissingComponent(val) => Error::MissingComponent(val),
            crate::world::Error::ExternalString(val) => Error::ExternalString(val),
        }
    }
}

/// A board of `GLASS_HEIGHT` rows of `GLASS_WIDTH` squares.
pub open spec fn grid_wf(grid: Seq<Vec<Cell>>) -> bool {
    &&& grid.len() == GLASS_HEIGHT
    &&& forall|r: int| 0 <= r < grid.len() ==> (#[trigger] grid[r])@.len() == GLASS_WIDTH
}

/// A board with every square empty.
pub open spec fn grid_blank(grid: Seq<Vec<Cell>>) -> bool {
    &&& grid_wf(grid)
    &&& forall|r: int, c: int| 0 <= r < grid.len() && 0 <= c < GLASS_WIDTH ==> #[trigger] grid[r]@[c] == bg()
}

/// The state of one game.
pub struct GameState {
    pub ecs: World,
    pub current_piece: Option<Entity>,
    pub scoring: Option<Entity>,
    pub next_pieces: VecDeque<Entity>,
    pub hold_piece: Option<Entity>,
    pub grid: Vec<Vec<Cell>>,
}

/// Builds an empty board.
fn blank_grid() -> (r: Vec<Vec<Cell>>)
    ensures
        grid_blank(r@),
{
    let mut grid: Vec<Vec<Cell>> = Vec::new();
    let mut i: usize = 0;
    while i < GLASS_HEIGHT
        invariant
            0 <= i <= GLASS_HEIGHT,
            grid@.len() == i,
            forall|r: int, c: int| 0 <= r < i && 0 <= c < GLASS_WIDTH ==> #[trigger] grid@[r]@[c] == bg(),
            forall|r: int| 0 <= r < i ==> (#[trigger] grid@[r])@.len() == GLASS_WIDTH,
        decreases GLASS_HEIGHT - i,
    {
        let mut row: Vec<Cell> = Vec::new();
        let mut j: usize = 0;
        while j < GLASS_WIDTH
            invariant
                0 <= j <= GLASS_WIDTH,
                row@.len() == j,
                forall|c: int| 0 <= c < j ==> row@[c] == bg(),
            decreases GLASS_WIDTH - j,
        {
            row.push(bg_cell());
            j = j + 1;
        }
        grid.push(row);
        i = i + 1;
    }
    grid
}

/// Every component type of the game has a store.
pub open spec fn all_registered(reg: Registry) -> bool {
    &&& reg.color is Some
    &&& reg.mesh is Some
    &&& reg.size is Some
    &&& reg.position is Some
    &&& reg.player is Some
    &&& reg.preview is Some
    &&& reg.scoring is Some
    &&& reg.gravity is Some
    &&& reg.hold is Some
}

/// `o`, if present, names an index that `m` has handed out.
pub open spec fn knows_opt(m: EntityManagerU32, o: Option<Entity>) -> bool {
    o matches Some(e) ==> m.knows(e)
}

impl GameState {
    pub open spec fn wf(&self) -> bool {
        &&& self.ecs.wf()
        &&& grid_wf(self.grid@)
        &&& knows_opt(self.ecs.entity_manager, self.current_piece)
        &&& knows_opt(self.ecs.entity_manager, self.scoring)
        &&& knows_opt(self.ecs.entity_manager, self.hold_piece)
        &&& forall|i: int|
            0 <= i < self.next_pieces@.len() ==> self.ecs.entity_manager.knows(#[trigger] self.next_pieces@[i])
    }

    /// Well formed, with every component type registered.
    pub open spec fn ready(&self) -> bool {
        &&& self.wf()
        &&& all_registered(self.ecs.component_registry)
    }

    /// `a` and `b` differ at most in their world.
    pub open spec fn same_but_ecs(a: GameState, b: GameState) -> bool {
        &&& a.current_piece == b.current_piece
        &&& a.scoring == b.scoring
        &&& a.next_pieces@ == b.next_pieces@
        &&& a.hold_piece == b.hold_piece
        &&& a.grid@ == b.grid@
    }

    /// A game with an empty world and an empty board.
    pub fn new() -> (r: Self)
        ensures
            r.wf(),
            grid_blank(r.grid@),
            r.current_piece is None,
            r.scoring is None,
            r.hold_piece is None,
            r.next_pieces@.len() == 0,
            r.ecs.entity_manager.gens().len() == 0,
            r.ecs.entity_manager.free().len() == 0,
            r.ecs.entity_list@.len() == 0,
    {
        GameState {
            ecs: World::new(),
            scoring: None,
            current_piece: None,
            next_pieces: VecDeque::new(),
            hold_piece: None,
            grid: blank_grid(),
        }
    }
}

/// Empties every square of the board.
pub fn clear_grid(state: &mut GameState)
    requires
        old(state).wf(),
    ensures
        final(state).wf(),
        grid_blank(final(state).grid@),
        final(state).ecs == old(state).ecs,
        final(state).current_piece == old(state).current_piece,
        final(state).scoring == old(state).scoring,
        final(state).next_pieces@ == old(state).next_pieces@,
        final(state).hold_piece == old(state).hold_piece,
{
    state.grid = blank_grid();
}

/// Every component type of the game is registered, with an empty store.
pub open spec fn game_registered(reg: Registry) -> bool {
    &&& reg.color matches Some(m) && m.model().len() == 0
    &&& reg.mesh matches Some(m) && m.model().len() == 0
    &&& reg.size matches Some(m) && m.model().len() == 0
    &&& reg.position matches Some(m) && m.model().len() == 0
    &&& reg.player matches Some(m) && m.model().len() == 0
    &&& reg.preview matches Some(m) && m.model().len() == 0
    &&& reg.scoring matches Some(m) && m.model().len() == 0
    &&& reg.gravity matches Some(m) && m.model().len() == 0
    &&& reg.hold matches Some(m) && m.model().len() == 0
}

/// Registers every component type of the game, each with a fresh store.
pub fn load_registry(component_registry: &mut Registry)
    requires
        old(component_registry).wf(),
    ensures
        final(component_registry).wf(),
        game_registered(*final(component_registry)),
        all_registered(*final(component_registry)),
{
    component_registry.register::<Cell>();
    component_registry.register::<Mesh>();
    component_registry.register::<Size>();
    component_registry.register::<Position>();
    component_registry.register::<Player>();
    component_registry.register::<Preview>();
    component_registry.register::<Scoring>();
    component_registry.register::<Gravity>();
    component_registry.register::<Hold>();
}

} // verus!
