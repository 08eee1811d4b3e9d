//! Rotation directions.

use vstd::prelude::*;

verus! {

/// A rotational direction.
#[derive(Debug, Clone, Copy, PartialEq, Eq, Structural)]
pub enum Direction {
    /// Counts up.
    Forward,
    /// Counts down.
    Reverse,
}

impl Direction {
    /// Whether this is the forward direction.
    pub fn is_forward(&self) -> (r: bool)
        ensures
            r == (*self == Direction::Forward),
    {
        match self {
            Direction::Forward => true,
            Direction::Reverse => false,
        }
    }

    /// Whether this is the reverse direction.
    pub fn is_reverse(&self) -> (r: bool)
        ensures
            r == (*self == Direction::Reverse),
    {
        match self {
            Direction::Forward => false,
            Direction::Reverse => true,
        }
    }

    /// The opposite direction.
    pub fn not(self) -> (r: Direction)
        ensures
            r != self,
    {
        match self {
            Direction::Forward => Direction::Reverse,
            Direction::Reverse => Direction::Forward,
        }
    }
}

} // verus!
