use rand::Rng;
use vstd::prelude::*;

use crate::component::{Cell, Mesh};
use crate::vector::Vector2;

verus! {

/// One-sided tetromino types.
#[derive(Debug, Clone, Copy, PartialEq, Eq, Structural)]
pub enum Tetromino {
    O,
    I,
    J,
    L,
    Z,
    S,
    T,
}

/// The vector `(x, y)`.
pub open spec fn v2(x: i32, y: i32) -> Vector2<i32> {
    Vector2 { x, y }
}

/// The cells of each tetromino in its spawn orientation.
pub open spec fn shape(t: Tetromino) -> Seq<Vector2<i32>> {
    match t {
        Tetromino::O => seq![v2(0, 1), v2(1, 1), v2(1, 0), v2(0, 0)],
        Tetromino::I => seq![v2(0, 1), v2(1, 1), v2(2, 1), v2(3, 1)],
        Tetromino::J => seq![v2(0, 1), v2(1, 1), v2(2, 1), v2(2, 0)],
        Tetromino::L => seq![v2(0, 1), v2(1, 1), v2(2, 1), v2(0, 0)],
        Tetromino::Z => seq![v2(1, 1), v2(2, 1), v2(0, 0), v2(1, 0)],
        Tetromino::S => seq![v2(0, 1), v2(1, 1), v2(1, 0), v2(2, 0)],
        Tetromino::T => seq![v2(0, 1), v2(1, 1), v2(2, 1), v2(1, 0)],
    }
}

/// The colour of each tetromino.
pub open spec fn color_of(t: Tetromino) -> Cell {
    match t {
        Tetromino::O => Cell { r: 0, g: 0, b: 255, a: 255 },
        Tetromino::I => Cell { r: 255, g: 0, b: 0, a: 255 },
        Tetromino::J => Cell { r: 255, g: 255, b: 255, a: 255 },
        Tetromino::L => Cell { r: 255, g: 0, b: 255, a: 255 },
        Tetromino::Z => Cell { r: 0, g: 255, b: 255, a: 255 },
        Tetromino::S => Cell { r: 0, g: 255, b: 0, a: 255 },
        Tetromino::T => Cell { r: 255, g: 255, b: 0, a: 255 },
    }
}

/// The side of the square each tetromino rotates in.
pub open spec fn size_of(t: Tetromino) -> u32 {
    match t {
        Tetromino::O => 2,
        Tetromino::I => 4,
        Tetromino::J => 3,
        Tetromino::L => 3,
        Tetromino::Z => 3,
        Tetromino::S => 3,
        Tetromino::T => 3,
    }
}

/// The tetromino numbered `n`; every number from 6 on gives `T`.
pub open spec fn tetromino_at(n: u32) -> Tetromino {
    if n == 0 {
        Tetromino::O
    } else if n == 1 {
        Tetromino::I
    } else if n == 2 {
        Tetromino::J
    } else if n == 3 {
        Tetromino::L
    } else if n == 4 {
        Tetromino::Z
    } else if n == 5 {
        Tetromino::S
    } else {
        Tetromino::T
    }
}

/// Relies on rand 0.7's `thread_rng().gen_range(low, high)`: a value in `[low, high)`.
/// It panics when `low >= high`, which `requires` rules out.
#[verifier::external_body]
fn random_in(low: u32, high: u32) -> (r: u32)
    requires
        low < high,
    ensures
        low <= r < high,
{
    rand::thread_rng().gen_range(low, high)
}

impl Tetromino {
    /// A mesh holding the cells of this tetromino.
    pub fn new(&self) -> (r: Mesh)
        ensures
            r.cells() == shape(*self),
    {
        match self {
            Tetromino::O => tetro_o(),
            Tetromino::I => tetro_i(),
            Tetromino::J => tetro_j(),
            Tetromino::L => tetro_l(),
            Tetromino::Z => tetro_z(),
            Tetromino::S => tetro_s(),
            Tetromino::T => tetro_t(),
        }
    }

    /// The colour of this tetromino.
    pub fn color(&self) -> (r: Cell)
        ensures
            r == color_of(*self),
    {
        match self {
            Tetromino::O => Cell::rgb(0, 0, 255),
            Tetromino::I => Cell::rgb(255, 0, 0),
            Tetromino::J => Cell::rgb(255, 255, 255),
            Tetromino::L => Cell::rgb(255, 0, 255),
            Tetromino::Z => Cell::rgb(0, 255, 255),
            Tetromino::S => Cell::rgb(0, 255, 0),
            Tetromino::T => Cell::rgb(255, 255, 0),
        }
    }

    /// The size of this tetromino.
    pub fn size(&self) -> (r: u32)
        ensures
            r == size_of(*self),
    {
        match self {
            Tetromino::O => 2,
            Tetromino::I => 4,
            Tetromino::J => 3,
            Tetromino::L => 3,
            Tetromino::Z => 3,
            Tetromino::S => 3,
            Tetromino::T => 3,
        }
    }

    /// The tetromino numbered `n`, in the order O, I, J, L, Z, S, T.
    pub fn from_index(n: u32) -> (r: Self)
        ensures
            r == tetromino_at(n),
    {
        if n == 0 {
            return Tetromino::O;
        }
        if n == 1 {
            return Tetromino::I;
        }
        if n == 2 {
            return Tetromino::J;
        }
        if n == 3 {
            return Tetromino::L;
        }
        if n == 4 {
            return Tetromino::Z;
        }
        if n == 5 {
            return Tetromino::S;
        }
        Tetromino::T
    }

    /// A tetromino chosen at random.
    pub fn random() -> (r: Self)
        ensures
            exists|n: u32| n < 7 && r == tetromino_at(n),
    {
        let n = random_in(0, 7);
        Self::from_index(n)
    }
}

fn tetro_t() -> (r: Mesh)
    ensures
        r.cells() == shape(Tetromino::T),
{
    let r = Mesh::new(vec![Vector2 { x: 0, y: 1 }, Vector2 { x: 1, y: 1 }, Vector2 { x: 2, y: 1 }, Vector2 { x: 1, y: 0 }]);
    assert(r.cells() =~= shape(Tetromino::T));
    r
}

fn tetro_i() -> (r: Mesh)
    ensures
        r.cells() == shape(Tetromino::I),
{
    let r = Mesh::new(vec![Vector2 { x: 0, y: 1 }, Vector2 { x: 1, y: 1 }, Vector2 { x: 2, y: 1 }, Vector2 { x: 3, y: 1 }]);
    assert(r.cells() =~= shape(Tetromino::I));
    r
}

fn tetro_o() -> (r: Mesh)
    ensures
        r.cells() == shape(Tetromino::O),
{
    let r = Mesh::new(vec![Vector2 { x: 0, y: 1 }, Vector2 { x: 1, y: 1 }, Vector2 { x: 1, y: 0 }, Vector2 { x: 0, y: 0 }]);
    assert(r.cells() =~= shape(Tetromino::O));
    r
}

fn tetro_j() -> (r: Mesh)
    ensures
        r.cells() == shape(Tetromino::J),
{
    let r = Mesh::new(vec![Vector2 { x: 0, y: 1 }, Vector2 { x: 1, y: 1 }, Vector2 { x: 2, y: 1 }, Vector2 { x: 2, y: 0 }]);
    assert(r.cells() =~= shape(Tetromino::J));
    r
}

fn tetro_l() -> (r: Mesh)
    ensures
        r.cells() == shape(Tetromino::L),
{
    let r = Mesh::new(vec![Vector2 { x: 0, y: 1 }, Vector2 { x: 1, y: 1 }, Vector2 { x: 2, y: 1 }, Vector2 { x: 0, y: 0 }]);
    assert(r.cells() =~= shape(Tetromino::L));
    r
}

fn tetro_s() -> (r: Mesh)
    ensures
        r.cells() == shape(Tetromino::S),
{
    let r = Mesh::new(vec![Vector2 { x: 0, y: 1 }, Vector2 { x: 1, y: 1 }, Vector2 { x: 1, y: 0 }, Vector2 { x: 2, y: 0 }]);
    assert(r.cells() =~= shape(Tetromino::S));
    r
}

fn tetro_z() -> (r: Mesh)
    ensures
        r.cells() == shape(Tetromino::Z),
{
    let r = Mesh::new(vec![Vector2 { x: 1, y: 1 }, Vector2 { x: 2, y: 1 }, Vector2 { x: 0, y: 0 }, Vector2 { x: 1, y: 0 }]);
    assert(r.cells() =~= shape(Tetromino::Z));
    r
}

} // verus!
