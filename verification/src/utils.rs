//! The four compass directions of travel, and the colours of fruit.

use crate::random::next_usize;
use vstd::prelude::*;

verus! {

/// A direction in which the snake can travel. `Up` is towards row 0.
#[derive(Debug, Clone, Copy, PartialEq, Eq, Structural)]
pub enum Direction {
    Left,
    Right,
    Up,
    Down,
}

impl Direction {
    /// The direction that points the other way.
    pub open spec fn spec_opposite(&self) -> Direction {
        match self {
            Direction::Left => Direction::Right,
            Direction::Right => Direction::Left,
            Direction::Up => Direction::Down,
            Direction::Down => Direction::Up,
        }
    }

    /// The unit step `(dx, dy)` of this direction.
    pub open spec fn offset(self) -> (int, int) {
        match self {
            Direction::Left => (-1, 0),
            Direction::Right => (1, 0),
            Direction::Up => (0, -1),
            Direction::Down => (0, 1),
        }
    }

    #[verifier::when_used_as_spec(spec_opposite)]
    pub fn opposite(&self) -> (r: Direction)
        ensures
            r == self.spec_opposite(),
    {
        match self {
            Direction::Left => Direction::Right,
            Direction::Right => Direction::Left,
            Direction::Up => Direction::Down,
            Direction::Down => Direction::Up,
        }
    }

    pub fn to_coords(&self) -> (r: (isize, isize))
        ensures
            (r.0 as int, r.1 as int) == self.offset(),
    {
        match self {
            Direction::Left => (-1, 0),
            Direction::Right => (1, 0),
            Direction::Up => (0, -1),
            Direction::Down => (0, 1),
        }
    }

    /// Turning round twice gives the direction one started with.
    pub proof fn opposite_is_involutive(d: Direction)
        ensures
            d.opposite().opposite() == d,
    {
    }

    /// The opposite direction is never the direction itself, and its unit
    /// step is the negated one.
    pub proof fn opposite_negates_offset(d: Direction)
        ensures
            d.opposite() != d,
            d.opposite().offset().0 == -d.offset().0,
            d.opposite().offset().1 == -d.offset().1,
    {
    }
}

/// The unit step of an optional direction: no step where none is set.
pub open spec fn offset_of(d: Option<Direction>) -> (int, int) {
    match d {
        Some(d) => d.offset(),
        None => (0, 0),
    }
}

/// A colour that a fruit can have.
#[derive(Debug, Clone, Copy, PartialEq, Eq, Structural)]
pub enum FruitColour {
    Red,
    Blue,
    Orange,
}

impl FruitColour {
    /// The colour's red, green, blue and alpha channels.
    pub open spec fn spec_rgba(&self) -> (u8, u8, u8, u8) {
        match self {
            FruitColour::Red => (255u8, 0u8, 0u8, 255u8),
            FruitColour::Blue => (0u8, 0u8, 255u8, 255u8),
            FruitColour::Orange => (255u8, 165u8, 0u8, 0u8),
        }
    }

    /// The colour's red, green, blue and alpha channels.
    #[verifier::when_used_as_spec(spec_rgba)]
    pub fn rgba(&self) -> (channels: (u8, u8, u8, u8))
        ensures
            channels == self.spec_rgba(),
    {
        match self {
            FruitColour::Red => (255, 0, 0, 255),
            FruitColour::Blue => (0, 0, 255, 255),
            FruitColour::Orange => (255, 165, 0, 0),
        }
    }
}

/// The colour that the number `r` picks: red, blue and orange in turn.
pub open spec fn spec_fruit_colour(r: usize) -> FruitColour {
    if r % 3 == 0 {
        FruitColour::Red
    } else if r % 3 == 1 {
        FruitColour::Blue
    } else {
        FruitColour::Orange
    }
}

/// The colour that the number `r` picks: red, blue and orange in turn.
#[verifier::when_used_as_spec(spec_fruit_colour)]
pub fn fruit_colour(r: usize) -> (colour: FruitColour)
    ensures
        colour == spec_fruit_colour(r),
{
    let index = r % 3;
    if index == 0 {
        FruitColour::Red
    } else if index == 1 {
        FruitColour::Blue
    } else {
        FruitColour::Orange
    }
}

/// One of the three colours of fruit, picked at random.
pub fn random_fruit_colour() -> FruitColour {
    let mut rng = rand::thread_rng();
    let r = next_usize(&mut rng);
    fruit_colour(r)
}

} // verus!
