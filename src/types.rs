use vstd::prelude::*;

use crate::entity::Entity;

verus! {

/// Directions of rotation: clockwise or counter-clockwise.
#[derive(Debug, Clone, Copy, PartialEq, Eq, Structural)]
pub enum RotationDirection {
    CW,
    CCW,
}

/// Events generated by user input.
#[derive(Debug, Clone, Copy, PartialEq, Eq, Structural)]
pub enum InputEvent {
    HardDrop,
    Hold,
    Left,
    Pause,
    Right,
    RotateCCW,
    RotateCW,
    SoftDrop,
    SoftDropEnd,
}

/// Key state: press (down) or release (up).
#[derive(Debug, Clone, Copy, PartialEq, Eq, Hash, Structural)]
pub enum KeyState {
    Up,
    Down,
}

/// Events generated by the game rules.
#[derive(Debug, Clone, PartialEq, Eq)]
pub enum GameEvent {
    GameOver,
    Collision(Entity),
    ClearedLines(Vec<usize>),
}

/// The two sources of events.
#[derive(Debug, Clone, Copy, PartialEq, Eq, Structural)]
pub enum TetrsEvent {
    InputEvent,
    GameEvent,
}

/// Events generated by or controlling a timer.
#[derive(Debug, Clone, Copy, PartialEq, Eq, Structural)]
pub enum TimerEvent {
    Tick,
    Pause,
    Stop,
    SetInterval(u128),
}

} // verus!
