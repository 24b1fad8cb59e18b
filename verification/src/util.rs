//! Orientations, rotation directions, positions and input events.

use vstd::prelude::*;

verus! {

/// The way a piece faces. A clockwise quarter turn takes North to East,
/// East to South, South to West and West back to North.
#[derive(Clone, Copy, PartialEq, Eq, Debug, Structural)]
pub enum Orientation {
    North,
    East,
    South,
    West,
}

/// The direction of a quarter turn.
#[derive(Clone, Copy, PartialEq, Eq, Debug, Structural)]
pub enum RotDirection {
    Clockwise,
    CounterClockwise,
}

impl Orientation {
    /// Number of clockwise quarter turns that lead from North to `self`.
    pub open spec fn quarter_turns(self) -> int {
        match self {
            Orientation::North => 0,
            Orientation::East => 1,
            Orientation::South => 2,
            Orientation::West => 3,
        }
    }

    /// The orientation that lies `n` clockwise quarter turns from North,
    /// for `n` taken modulo four.
    pub open spec fn from_quarter_turns(n: int) -> Orientation {
        let m = n % 4;
        if m == 0 {
            Orientation::North
        } else if m == 1 {
            Orientation::East
        } else if m == 2 {
            Orientation::South
        } else {
            Orientation::West
        }
    }

    /// The orientation after one quarter turn in `direction`: one step
    /// forward in the cycle for a clockwise turn, one step back (three
    /// forward) for a counter-clockwise one.
    pub open spec fn turned(self, direction: RotDirection) -> Orientation {
        match direction {
            RotDirection::Clockwise => Self::from_quarter_turns(self.quarter_turns() + 1),
            RotDirection::CounterClockwise => Self::from_quarter_turns(self.quarter_turns() + 3),
        }
    }

    /// Turns the orientation by one quarter turn.
    pub fn rotate(&self, direction: RotDirection) -> (turned: Self)
        ensures
            turned == self.turned(direction),
    {
        match direction {
            RotDirection::Clockwise => {
                match self {
                    Orientation::North => Orientation::East,
                    Orientation::East => Orientation::South,
                    Orientation::South => Orientation::West,
                    Orientation::West => Orientation::North,
                }
            },
            RotDirection::CounterClockwise => {
                match self {
                    Orientation::North => Orientation::West,
                    Orientation::East => Orientation::North,
                    Orientation::South => Orientation::East,
                    Orientation::West => Orientation::South,
                }
            },
        }
    }
}

impl RotDirection {
    /// The opposite direction.
    pub open spec fn reversed(self) -> RotDirection {
        match self {
            RotDirection::Clockwise => RotDirection::CounterClockwise,
            RotDirection::CounterClockwise => RotDirection::Clockwise,
        }
    }
}

/// A quarter turn followed by the opposite quarter turn gives the
/// orientation back.
pub proof fn lemma_turn_and_back(orientation: Orientation, direction: RotDirection)
    ensures
        orientation.turned(direction).turned(direction.reversed()) == orientation,
{
}

/// Four quarter turns in one direction give the orientation back.
pub proof fn lemma_four_turns(orientation: Orientation, direction: RotDirection)
    ensures
        orientation.turned(direction).turned(direction).turned(direction).turned(direction)
            == orientation,
{
}

/// A counter-clockwise quarter turn is three clockwise ones.
pub proof fn lemma_counter_clockwise_is_three_clockwise(orientation: Orientation)
    ensures
        orientation.turned(RotDirection::CounterClockwise) == orientation.turned(
            RotDirection::Clockwise,
        ).turned(RotDirection::Clockwise).turned(RotDirection::Clockwise),
{
}

/// An offset inside a piece's bounding box; both coordinates are at most 3.
#[derive(Clone, Copy, PartialEq, Eq, Debug, Structural)]
pub struct UPos2d {
    pub x: usize,
    pub y: usize,
}

/// A position or displacement on the board: `x` grows to the right, `y`
/// grows downward.
#[derive(Clone, Copy, PartialEq, Eq, Debug, Structural)]
pub struct Pos2d {
    pub x: isize,
    pub y: isize,
}

/// A key that the game reacts to.
#[derive(Clone, Copy, PartialEq, Eq, Debug, Structural)]
pub enum Keycode {
    W,
    A,
    S,
    D,
    Space,
    Shift,
}

/// What the player did since the last frame.
#[derive(Clone, Copy, PartialEq, Eq, Debug, Structural)]
pub enum Event {
    KeyDown(Keycode),
    KeyUp(Keycode),
    Quit,
}

} // verus!
