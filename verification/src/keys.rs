//! Key bindings, and how the keys held down steer the snake.

use crate::grid::Direction;
use vstd::prelude::*;

verus! {

/// The keys that steer: the arrows, `WASD`, `IJKL` and four of the numpad.
#[derive(Clone, Copy, Debug, PartialEq, Eq, Structural)]
pub enum Key {
    ArrowLeft,
    KeyA,
    Numpad4,
    KeyJ,
    ArrowDown,
    KeyS,
    Numpad5,
    KeyK,
    ArrowUp,
    KeyW,
    Numpad8,
    KeyI,
    ArrowRight,
    KeyD,
    Numpad6,
    KeyL,
}

impl Key {
    /// The heading that the key is bound to.
    pub open spec fn bound_to(self) -> Direction {
        match self {
            Key::ArrowLeft | Key::KeyA | Key::Numpad4 | Key::KeyJ => Direction::Left,
            Key::ArrowDown | Key::KeyS | Key::Numpad5 | Key::KeyK => Direction::Down,
            Key::ArrowUp | Key::KeyW | Key::Numpad8 | Key::KeyI => Direction::Up,
            Key::ArrowRight | Key::KeyD | Key::Numpad6 | Key::KeyL => Direction::Right,
        }
    }

    /// Returns the heading that the key is bound to.
    #[verifier::when_used_as_spec(bound_to)]
    pub fn direction(self) -> (d: Direction)
        ensures
            d == self.bound_to(),
    {
        match self {
            Key::ArrowLeft | Key::KeyA | Key::Numpad4 | Key::KeyJ => Direction::Left,
            Key::ArrowDown | Key::KeyS | Key::Numpad5 | Key::KeyK => Direction::Down,
            Key::ArrowUp | Key::KeyW | Key::Numpad8 | Key::KeyI => Direction::Up,
            Key::ArrowRight | Key::KeyD | Key::Numpad6 | Key::KeyL => Direction::Right,
        }
    }
}

/// Whether one of the keys held down is bound to `d`.
pub open spec fn held(pressed: Seq<Key>, d: Direction) -> bool {
    exists|i: int| 0 <= i < pressed.len() && (#[trigger] pressed[i]).bound_to() == d
}

/// The heading that the keys held down ask for. Where keys of several
/// headings are held at once, left goes before down, down before up and up
/// before right; with no steering key held, the current heading is asked for
/// again.
pub open spec fn requested(pressed: Seq<Key>, current: Direction) -> Direction {
    if held(pressed, Direction::Left) {
        Direction::Left
    } else if held(pressed, Direction::Down) {
        Direction::Down
    } else if held(pressed, Direction::Up) {
        Direction::Up
    } else if held(pressed, Direction::Right) {
        Direction::Right
    } else {
        current
    }
}

/// The heading after a request: a request to turn right round is dropped,
/// any other is taken.
pub open spec fn steered(current: Direction, wanted: Direction) -> Direction {
    if wanted == current.reversed() {
        current
    } else {
        wanted
    }
}

/// Tells whether one of the keys held down is bound to `d`.
pub fn is_held(pressed: &[Key], d: Direction) -> (b: bool)
    ensures
        b == held(pressed@, d),
{
    let n: usize = pressed.len();
    let mut i: usize = 0;
    while i < n
        invariant
            n == pressed@.len(),
            i <= n,
            forall|j: int| 0 <= j < i ==> (#[trigger] pressed@[j]).bound_to() != d,
        decreases n - i,
    {
        if pressed[i].direction() == d {
            return true;
        }
        i += 1;
    }
    false
}

/// Returns the heading that the keys held down ask for.
pub fn requested_direction(pressed: &[Key], current: Direction) -> (d: Direction)
    ensures
        d == requested(pressed@, current),
        pressed@.len() == 0 ==> d == current,
{
    if is_held(pressed, Direction::Left) {
        Direction::Left
    } else if is_held(pressed, Direction::Down) {
        Direction::Down
    } else if is_held(pressed, Direction::Up) {
        Direction::Up
    } else if is_held(pressed, Direction::Right) {
        Direction::Right
    } else {
        current
    }
}

/// Returns the heading after a request for `wanted`. The snake never turns
/// right round: such a request leaves the heading as it is.
pub fn steer(current: Direction, wanted: Direction) -> (d: Direction)
    ensures
        d == steered(current, wanted),
        wanted == current.reversed() ==> d == current,
        wanted != current.reversed() ==> d == wanted,
        d != current.reversed(),
{
    if wanted == current.opposite() {
        current
    } else {
        wanted
    }
}

} // verus!
