//! Board positions and the unit steps between them.

use vstd::prelude::*;

verus! {

/// A cell of the board, or a displacement between two cells.
///
/// `x` grows to the right and `y` grows downwards.
#[derive(Debug, Clone, Copy, PartialEq, Eq, Structural)]
pub struct Coordinate {
    pub x: i32,
    pub y: i32,
}

impl Coordinate {
    /// The coordinate as a pair of mathematical integers.
    pub open spec fn pair(&self) -> (int, int) {
        (self.x as int, self.y as int)
    }

    /// The displacement that moves nowhere.
    pub fn stay_still() -> (offset: Self)
        ensures
            offset.pair() == (0int, 0int),
    {
        Self { x: 0, y: 0 }
    }

    /// The displacement of one step up.
    pub fn move_up() -> (offset: Self)
        ensures
            offset.pair() == (0int, -1int),
    {
        Self { x: 0, y: -1 }
    }

    /// The displacement of one step down.
    pub fn move_down() -> (offset: Self)
        ensures
            offset.pair() == (0int, 1int),
    {
        Self { x: 0, y: 1 }
    }

    /// The displacement of one step to the left.
    pub fn move_left() -> (offset: Self)
        ensures
            offset.pair() == (-1int, 0int),
    {
        Self { x: -1, y: 0 }
    }

    /// The displacement of one step to the right.
    pub fn move_right() -> (offset: Self)
        ensures
            offset.pair() == (1int, 0int),
    {
        Self { x: 1, y: 0 }
    }
}

/// Whether a coordinate pair can be stored in a [`Coordinate`].
pub open spec fn representable(p: (int, int)) -> bool {
    &&& i32::MIN <= p.0 <= i32::MAX
    &&& i32::MIN <= p.1 <= i32::MAX
}

/// The pair reached from `from` by the displacement `by`.
pub open spec fn displaced(from: (int, int), by: (int, int)) -> (int, int) {
    (from.0 + by.0, from.1 + by.1)
}

/// Something that occupies one cell of the board and can be displaced.
pub trait CoordinateController {
    /// The cell that is occupied.
    spec fn position(&self) -> (int, int);

    /// Displaces the occupant by `coordinate`. Everything a step can reach
    /// must still be a storable coordinate.
    fn move_by(&mut self, coordinate: &Coordinate)
        requires
            representable(displaced(old(self).position(), coordinate.pair())),
        ensures
            final(self).position() == displaced(old(self).position(), coordinate.pair()),
    ;

    /// The occupied cell.
    fn get_position(&self) -> (at: Coordinate)
        ensures
            at.pair() == self.position(),
    ;

    /// The horizontal component of the occupied cell.
    fn get_x(&self) -> (x: i32)
        ensures
            x == self.position().0,
    ;

    /// The vertical component of the occupied cell.
    fn get_y(&self) -> (y: i32)
        ensures
            y == self.position().1,
    ;
}

} // verus!
