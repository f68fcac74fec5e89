use vstd::prelude::*;

use crate::vector::Vector2;

verus! {

/// A colour with red, green, blue and alpha channels; one square of the board.
#[derive(Debug, Clone, Copy, PartialEq, Eq, Structural)]
pub struct Cell {
    pub r: u8,
    pub g: u8,
    pub b: u8,
    pub a: u8,
}

impl Cell {
    /// An opaque colour.
    pub fn rgb(r: u8, g: u8, b: u8) -> (c: Cell)
        ensures
            c == (Cell { r, g, b, a: 255 }),
    {
        Cell { r, g, b, a: 255 }
    }
}

impl Default for Cell {
    fn default() -> (c: Self)
        ensures
            c == (Cell { r: 0, g: 0, b: 0, a: 255 }),
    {
        Cell::rgb(0, 0, 0)
    }
}

/// A location on the board.
pub type Position = Vector2<i32>;

/// Side length of the square a tetromino rotates in.
#[derive(Debug, Clone, Copy, PartialEq, Eq, Structural)]
pub struct Size(pub u32);

impl Default for Size {
    fn default() -> (s: Self)
        ensures
            s.0 == 0,
    {
        Size(0)
    }
}

/// Lines cleared, level reached and points scored.
#[derive(Debug, Clone, Copy, PartialEq, Eq, Structural)]
pub struct Scoring {
    pub lines: u32,
    pub level: u32,
    pub score: u32,
}

impl Scoring {
    pub open spec fn spec_new() -> Self {
        Scoring { lines: 0, level: 0, score: 0 }
    }

    /// A score of nothing yet.
    pub fn new() -> (s: Self)
        ensures
            s == Scoring::spec_new(),
    {
        Scoring { lines: 0, level: 0, score: 0 }
    }
}

impl Default for Scoring {
    fn default() -> (s: Self)
        ensures
            s == (Scoring { lines: 0, level: 0, score: 0 }),
    {
        Scoring::new()
    }
}

/// Marker component: the piece under player control.
#[derive(Debug, Clone, Copy, PartialEq, Eq, Structural, Default)]
pub struct Player;

/// Marker component: an upcoming piece shown as a preview.
#[derive(Debug, Clone, Copy, PartialEq, Eq, Structural, Default)]
pub struct Preview;

/// Marker component: the piece put on hold.
#[derive(Debug, Clone, Copy, PartialEq, Eq, Structural, Default)]
pub struct Hold;

/// The step a piece falls by on each tick: one row down.
pub fn base_gravity() -> (r: Vector2<i32>)
    ensures
        r == (Vector2 { x: 0i32, y: 1i32 }),
{
    Vector2 { x: 0, y: 1 }
}

/// How a piece falls.
#[derive(Debug, Clone, Copy, PartialEq, Eq, Structural)]
pub struct Gravity {
    pub g: Vector2<i32>,
}

impl Gravity {
    pub fn new(g: Vector2<i32>) -> (r: Self)
        ensures
            r.g == g,
    {
        Self { g }
    }
}

impl Default for Gravity {
    fn default() -> (r: Self)
        ensures
            r.g == (Vector2 { x: 0i32, y: 1i32 }),
    {
        Self { g: base_gravity() }
    }
}

/// The cells of a piece, relative to its position.
#[derive(Debug, Clone, PartialEq, Eq)]
pub struct Mesh(pub Vec<Vector2<i32>>);

/// The cell `c` turned by the clockwise rule: both coordinates become `-c.x`.
pub open spec fn turn_cw(c: Vector2<i32>) -> Vector2<i32> {
    Vector2 { x: (-c.x) as i32, y: (-c.x) as i32 }
}

/// The cell `c` turned by the counter-clockwise rule: `(x, y)` becomes `(-x, x)`.
pub open spec fn turn_ccw(c: Vector2<i32>) -> Vector2<i32> {
    Vector2 { x: (-c.x) as i32, y: c.x }
}

impl Mesh {
    pub open spec fn cells(&self) -> Seq<Vector2<i32>> {
        self.0@
    }

    /// No cell has `i32::MIN` as its x coordinate, so it can be negated.
    pub open spec fn negatable(&self) -> bool {
        forall|i: int| 0 <= i < self.cells().len() ==> #[trigger] self.cells()[i].x != i32::MIN
    }

    pub fn new(value: Vec<Vector2<i32>>) -> (r: Self)
        ensures
            r.cells() == value@,
    {
        Self(value)
    }

    /// Moves every cell by `vector`.
    pub fn translate(&mut self, vector: Vector2<i32>)
        requires
            forall|i: int|
                0 <= i < old(self).cells().len() ==> {
                    &&& crate::vector::fits_i32(#[trigger] old(self).cells()[i].x + vector.x)
                    &&& crate::vector::fits_i32(old(self).cells()[i].y + vector.y)
                },
        ensures
            final(self).cells().len() == old(self).cells().len(),
            forall|i: int|
                0 <= i < old(self).cells().len() ==> #[trigger] final(self).cells()[i] == old(self).cells()[i].plus(vector),
    {
        let n = self.0.len();
        let mut i: usize = 0;
        while i < n
            invariant
                n == old(self).cells().len(),
                self.cells().len() == n,
                0 <= i <= n,
                forall|j: int| 0 <= j < i ==> #[trigger] self.cells()[j] == old(self).cells()[j].plus(vector),
                forall|j: int| i <= j < n ==> #[trigger] self.cells()[j] == old(self).cells()[j],
                forall|j: int|
                    0 <= j < n ==> {
                        &&& crate::vector::fits_i32(#[trigger] old(self).cells()[j].x + vector.x)
                        &&& crate::vector::fits_i32(old(self).cells()[j].y + vector.y)
                    },
            decreases n - i,
        {
            let c = self.0[i];
            self.0.set(i, c + vector);
            i = i + 1;
        }
    }

    /// A copy with every cell turned by the clockwise rule.
    pub fn rotate_cw(&self) -> (r: Self)
        requires
            self.negatable(),
        ensures
            r.cells() == self.cells().map_values(|c: Vector2<i32>| turn_cw(c)),
    {
        let mut cells: Vec<Vector2<i32>> = Vec::new();
        let mut i: usize = 0;
        while i < self.0.len()
            invariant
                self.negatable(),
                0 <= i <= self.cells().len(),
                cells@ == self.cells().subrange(0, i as int).map_values(|c: Vector2<i32>| turn_cw(c)),
            decreases self.cells().len() - i,
        {
            let c = self.0[i];
            cells.push(Vector2 { x: -c.x, y: -c.x });
            i = i + 1;
            assert(cells@ =~= self.cells().subrange(0, i as int).map_values(|c: Vector2<i32>| turn_cw(c)));
        }
        assert(self.cells().subrange(0, i as int) =~= self.cells());
        Self::new(cells)
    }

    /// A copy with every cell turned by the counter-clockwise rule.
    pub fn rotate_ccw(&self) -> (r: Self)
        requires
            self.negatable(),
        ensures
            r.cells() == self.cells().map_values(|c: Vector2<i32>| turn_ccw(c)),
    {
        let mut cells: Vec<Vector2<i32>> = Vec::new();
        let mut i: usize = 0;
        while i < self.0.len()
            invariant
                self.negatable(),
                0 <= i <= self.cells().len(),
                cells@ == self.cells().subrange(0, i as int).map_values(|c: Vector2<i32>| turn_ccw(c)),
            decreases self.cells().len() - i,
        {
            let c = self.0[i];
            cells.push(Vector2 { x: -c.x, y: c.x });
            i = i + 1;
            assert(cells@ =~= self.cells().subrange(0, i as int).map_values(|c: Vector2<i32>| turn_ccw(c)));
        }
        assert(self.cells().subrange(0, i as int) =~= self.cells());
        Self::new(cells)
    }
}

impl Default for Mesh {
    fn default() -> (r: Self)
        ensures
            r.cells().len() == 0,
    {
        Self(Vec::new())
    }
}

} // verus!
