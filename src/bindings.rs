//! Physical keys and the facing-dependent table that assigns them to the
//! four movement roles.
use vstd::prelude::*;

use crate::facing::{quarters_from_north, left_of, right_of, Direction};

verus! {

/// The keys the controller reacts to: four movement keys and the two
/// dedicated turn keys.
#[derive(Clone, Copy, Debug, PartialEq, Eq, Structural)]
pub enum Key {
    W,
    A,
    S,
    D,
    Left,
    Right,
}

/// Which physical key plays each movement role.
#[derive(Clone, Copy, Debug, PartialEq, Eq, Structural)]
pub struct MovementBindings {
    /// Forward, a step along -Z.
    pub up: Key,
    /// Backward, a step along +Z.
    pub down: Key,
    /// Strafe left, a step along -X.
    pub left: Key,
    /// Strafe right, a step along +X.
    pub right: Key,
}

/// One quarter turn of the movement keys, W to D to S to A to W; the turn
/// keys are left alone.
pub open spec fn rotated_key(k: Key) -> Key {
    match k {
        Key::W => Key::D,
        Key::D => Key::S,
        Key::S => Key::A,
        Key::A => Key::W,
        Key::Left => Key::Left,
        Key::Right => Key::Right,
    }
}

pub open spec fn rotated_once(b: MovementBindings) -> MovementBindings {
    MovementBindings {
        up: rotated_key(b.up),
        down: rotated_key(b.down),
        left: rotated_key(b.left),
        right: rotated_key(b.right),
    }
}

/// `b` turned by `n` quarter turns.
pub open spec fn rotated(b: MovementBindings, n: nat) -> MovementBindings
    decreases n,
{
    if n == 0 {
        b
    } else {
        rotated_once(rotated(b, (n - 1) as nat))
    }
}

/// The canonical row: W, S, A, D while facing North.
pub open spec fn north_bindings() -> MovementBindings {
    MovementBindings { up: Key::W, down: Key::S, left: Key::A, right: Key::D }
}

/// The table: each facing's row is the North row turned by as many quarters
/// as the facing lies left of North.
pub open spec fn bindings_for(d: Direction) -> MovementBindings {
    rotated(north_bindings(), quarters_from_north(d))
}

/// The four roles of a row are held by four different keys, none of them a
/// turn key.
pub open spec fn roles_distinct(b: MovementBindings) -> bool {
    &&& b.up != b.down && b.up != b.left && b.up != b.right
    &&& b.down != b.left && b.down != b.right && b.left != b.right
    &&& b.up != Key::Left && b.up != Key::Right
    &&& b.down != Key::Left && b.down != Key::Right
    &&& b.left != Key::Left && b.left != Key::Right
    &&& b.right != Key::Left && b.right != Key::Right
}

fn rotate_key(k: Key) -> (r: Key)
    ensures
        r == rotated_key(k),
{
    match k {
        Key::W => Key::D,
        Key::D => Key::S,
        Key::S => Key::A,
        Key::A => Key::W,
        Key::Left => Key::Left,
        Key::Right => Key::Right,
    }
}

impl MovementBindings {
    /// The row for facing North.
    pub fn north() -> (r: MovementBindings)
        ensures
            r == north_bindings(),
    {
        MovementBindings { up: Key::W, down: Key::S, left: Key::A, right: Key::D }
    }

    /// These bindings turned by one quarter.
    pub fn rotate(&self) -> (r: MovementBindings)
        ensures
            r == rotated_once(*self),
    {
        MovementBindings {
            up: rotate_key(self.up),
            down: rotate_key(self.down),
            left: rotate_key(self.left),
            right: rotate_key(self.right),
        }
    }

    /// The row of the table for facing `d`, built by turning the North row.
    pub fn for_facing(d: Direction) -> (r: MovementBindings)
        ensures
            r == bindings_for(d),
    {
        let n = d.quarter_index();
        let mut b = MovementBindings::north();
        let mut i: u8 = 0;
        while i < n
            invariant
                i <= n,
                n as nat == quarters_from_north(d),
                b == rotated(north_bindings(), i as nat),
            decreases n - i,
        {
            b = b.rotate();
            i = i + 1;
        }
        b
    }
}

/// The table's four rows, written out: each is distinct from the others,
/// assigns its four roles to four different movement keys, and is the row
/// of the facing to its right turned by one quarter.
pub proof fn lemma_binding_table()
    ensures
        bindings_for(Direction::North) == north_bindings(),
        bindings_for(Direction::East)
            == (MovementBindings { up: Key::D, down: Key::A, left: Key::W, right: Key::S }),
        bindings_for(Direction::South)
            == (MovementBindings { up: Key::S, down: Key::W, left: Key::D, right: Key::A }),
        bindings_for(Direction::West)
            == (MovementBindings { up: Key::A, down: Key::D, left: Key::S, right: Key::W }),
        bindings_for(Direction::North) != bindings_for(Direction::East),
        bindings_for(Direction::North) != bindings_for(Direction::South),
        bindings_for(Direction::North) != bindings_for(Direction::West),
        bindings_for(Direction::East) != bindings_for(Direction::South),
        bindings_for(Direction::East) != bindings_for(Direction::West),
        bindings_for(Direction::South) != bindings_for(Direction::West),
        forall|d: Direction| #[trigger] roles_distinct(bindings_for(d)),
        forall|d: Direction|
            #[trigger] bindings_for(left_of(d)) == rotated_once(bindings_for(d)),
        forall|d: Direction|
            rotated_once(#[trigger] bindings_for(right_of(d))) == bindings_for(d),
{
    reveal_with_fuel(rotated, 4);
    assert forall|d: Direction| #[trigger] roles_distinct(bindings_for(d)) by {
        match d {
            Direction::North => {},
            Direction::East => {},
            Direction::South => {},
            Direction::West => {},
        }
    }
    assert forall|d: Direction|
        #[trigger] bindings_for(left_of(d)) == rotated_once(bindings_for(d)) by {
        match d {
            Direction::North => {},
            Direction::East => {},
            Direction::South => {},
            Direction::West => {},
        }
    }
    assert forall|d: Direction|
        rotated_once(#[trigger] bindings_for(right_of(d))) == bindings_for(d) by {
        match d {
            Direction::North => {},
            Direction::East => {},
            Direction::South => {},
            Direction::West => {},
        }
    }
}

} // verus!
