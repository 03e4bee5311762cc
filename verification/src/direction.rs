//! Navigation intents.

use vstd::prelude::*;

verus! {

/// Where a navigation call moves the cursor.
#[derive(Clone, Copy, Debug, PartialEq, Eq, Structural)]
pub enum Direction {
    /// To the first entry of the container.
    First,
    /// To the last entry of the container.
    Last,
    /// One entry forward.
    Next,
    /// One entry backward.
    Prev,
    /// To the given position of the current container. The position must
    /// exist: a position past the end is a violated precondition, not an
    /// error value.
    Offset(usize),
}

/// The end from which a container is entered.
#[derive(Clone, Copy, Debug, PartialEq, Eq, Structural)]
pub enum Edge {
    /// The container is read from its first entry on.
    Front,
    /// The container is read from its last entry on.
    Back,
}

impl Direction {
    /// The end from which a container that this move newly enters is read:
    /// a backward move enters at the back, every other move at the front.
    pub open spec fn entering(self) -> Edge {
        match self {
            Direction::Prev | Direction::Last => Edge::Back,
            _ => Edge::Front,
        }
    }

    /// Computes [`Direction::entering`].
    pub fn edge(self) -> (edge: Edge)
        ensures
            edge == self.entering(),
    {
        match self {
            Direction::Prev | Direction::Last => Edge::Back,
            _ => Edge::Front,
        }
    }
}

impl Edge {
    /// The move that reads a container from this end.
    pub open spec fn inward(self) -> Direction {
        match self {
            Edge::Front => Direction::First,
            Edge::Back => Direction::Last,
        }
    }

    /// Computes [`Edge::inward`].
    pub fn direction(self) -> (direction: Direction)
        ensures
            direction == self.inward(),
    {
        match self {
            Edge::Front => Direction::First,
            Edge::Back => Direction::Last,
        }
    }
}

} // verus!
