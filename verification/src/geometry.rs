//! Squares and directions on the 8×8 grid.

use vstd::prelude::*;
use crate::error::ContractError;

verus! {

/// The number of squares along each side of the grid.
pub const GRID_SIZE: i8 = 8;

/// The number of squares of the grid.
pub const GRID_CELLS: usize = 64;

/// One of the four ways to step from a square to the next.
#[derive(Clone, Copy, Debug, PartialEq, Eq, Structural)]
pub enum Direction {
    North,
    East,
    South,
    West,
}

/// A pair of coordinates.  It names a square of the grid when it is in bounds.
#[derive(Clone, Copy, Debug, PartialEq, Eq, Structural)]
pub struct Position {
    pub x: i8,
    pub y: i8,
}

impl Direction {
    /// The direction that an integer code stands for: `0` is north, `1` east,
    /// `2` south and `3` west.  No other integer is a code.
    pub open spec fn of_code(code: i32) -> Option<Direction> {
        if code == 0 {
            Some(Direction::North)
        } else if code == 1 {
            Some(Direction::East)
        } else if code == 2 {
            Some(Direction::South)
        } else if code == 3 {
            Some(Direction::West)
        } else {
            None
        }
    }

    /// The change of `x` that one step makes.
    pub open spec fn dx(self) -> int {
        match self {
            Direction::East => 1,
            Direction::West => -1,
            _ => 0,
        }
    }

    /// The change of `y` that one step makes.  North is towards row 0.
    pub open spec fn dy(self) -> int {
        match self {
            Direction::South => 1,
            Direction::North => -1,
            _ => 0,
        }
    }

    /// Reads a direction from its code.
    pub fn decode(code: i32) -> (r: Result<Direction, ContractError>)
        ensures
            r == match Direction::of_code(code) {
                Some(d) => Ok::<Direction, ContractError>(d),
                None => Err(ContractError::InvalidDirection),
            },
    {
        if code == 0 {
            Ok(Direction::North)
        } else if code == 1 {
            Ok(Direction::East)
        } else if code == 2 {
            Ok(Direction::South)
        } else if code == 3 {
            Ok(Direction::West)
        } else {
            Err(ContractError::InvalidDirection)
        }
    }

    /// The code of a direction.
    pub fn code(self) -> (r: i32)
        ensures
            0 <= r <= 3,
            Direction::of_code(r) == Some(self),
    {
        match self {
            Direction::North => 0,
            Direction::East => 1,
            Direction::South => 2,
            Direction::West => 3,
        }
    }
}

impl Position {
    /// Whether the pair names a square of the grid.
    pub open spec fn in_bounds(self) -> bool {
        0 <= self.x < GRID_SIZE && 0 <= self.y < GRID_SIZE
    }

    /// The place of the square in a row-major sequence of the grid's squares.
    pub open spec fn index(self) -> int {
        self.y * GRID_SIZE + self.x
    }

    /// The square one step away, where there is one on the grid.
    pub open spec fn neighbor(self, direction: Direction) -> Option<Position> {
        let x = self.x + direction.dx();
        let y = self.y + direction.dy();
        if 0 <= x < GRID_SIZE && 0 <= y < GRID_SIZE {
            Some(Position { x: x as i8, y: y as i8 })
        } else {
            None
        }
    }

    /// Whether the pair names a square of the grid.
    pub fn is_in_bounds(&self) -> (r: bool)
        ensures
            r == self.in_bounds(),
    {
        0 <= self.x && self.x < GRID_SIZE && 0 <= self.y && self.y < GRID_SIZE
    }

    /// The row-major index of a square of the grid, and `None` for a pair out
    /// of bounds.
    pub fn checked_index(&self) -> (r: Option<usize>)
        ensures
            r == if self.in_bounds() { Some(self.index() as usize) } else { None },
            r matches Some(i) ==> i < GRID_CELLS,
    {
        if self.is_in_bounds() {
            let row: usize = self.y as usize;
            let column: usize = self.x as usize;
            Some(row * 8 + column)
        } else {
            None
        }
    }

    /// Takes one step, and gives `None` where the step would leave the grid.
    pub fn step(&self, direction: Direction) -> (r: Option<Position>)
        ensures
            r == self.neighbor(direction),
            r matches Some(p) ==> p.in_bounds(),
    {
        let (dx, dy): (i16, i16) = match direction {
            Direction::North => (0, -1),
            Direction::East => (1, 0),
            Direction::South => (0, 1),
            Direction::West => (-1, 0),
        };
        let x: i16 = self.x as i16 + dx;
        let y: i16 = self.y as i16 + dy;
        if 0 <= x && x < 8 && 0 <= y && y < 8 {
            Some(Position { x: x as i8, y: y as i8 })
        } else {
            None
        }
    }
}

/// A step that stays on the grid moves by one square along one axis.
pub proof fn neighbor_is_adjacent(from: Position, direction: Direction)
    ensures
        from.neighbor(direction) matches Some(to) ==> {
            &&& to.in_bounds()
            &&& to.x == from.x + direction.dx()
            &&& to.y == from.y + direction.dy()
        },
{
}

/// Distinct squares of the grid have distinct indices, all below the number
/// of squares.
pub proof fn index_is_injective(a: Position, b: Position)
    requires
        a.in_bounds(),
        b.in_bounds(),
    ensures
        0 <= a.index() < GRID_CELLS,
        a.index() == b.index() ==> a == b,
{
}

} // verus!
