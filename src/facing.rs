//! The actor's cardinal facing and its two turn transitions.
use vstd::prelude::*;

verus! {

/// The cardinal direction the actor currently faces.
#[derive(Clone, Copy, Debug, PartialEq, Eq, Structural)]
pub enum Direction {
    North,
    South,
    East,
    West,
}

/// Turning left steps through North, East, South, West and back to North.
pub open spec fn left_of(d: Direction) -> Direction {
    match d {
        Direction::North => Direction::East,
        Direction::East => Direction::South,
        Direction::South => Direction::West,
        Direction::West => Direction::North,
    }
}

/// Turning right walks the same cycle backwards.
pub open spec fn right_of(d: Direction) -> Direction {
    match d {
        Direction::North => Direction::West,
        Direction::West => Direction::South,
        Direction::South => Direction::East,
        Direction::East => Direction::North,
    }
}

/// How many left turns separate North from `d`.
pub open spec fn quarters_from_north(d: Direction) -> nat {
    match d {
        Direction::North => 0,
        Direction::East => 1,
        Direction::South => 2,
        Direction::West => 3,
    }
}

impl Direction {
    pub fn turn_left(&self) -> (r: Direction)
        ensures
            r == left_of(*self),
    {
        match self {
            Direction::North => Direction::East,
            Direction::East => Direction::South,
            Direction::South => Direction::West,
            Direction::West => Direction::North,
        }
    }

    pub fn turn_right(&self) -> (r: Direction)
        ensures
            r == right_of(*self),
    {
        match self {
            Direction::North => Direction::West,
            Direction::West => Direction::South,
            Direction::South => Direction::East,
            Direction::East => Direction::North,
        }
    }

    /// Number of left turns from North to this facing, in `0..4`.
    pub fn quarter_index(&self) -> (r: u8)
        ensures
            r as nat == quarters_from_north(*self),
            r < 4,
    {
        match self {
            Direction::North => 0,
            Direction::East => 1,
            Direction::South => 2,
            Direction::West => 3,
        }
    }
}

/// Turning left undoes a right turn and turning right undoes a left turn;
/// four left turns, or four right turns, come back to the start.
pub proof fn lemma_turn_cycle(d: Direction)
    ensures
        left_of(right_of(d)) == d,
        right_of(left_of(d)) == d,
        left_of(left_of(left_of(left_of(d)))) == d,
        right_of(right_of(right_of(right_of(d)))) == d,
{
}

} // verus!
