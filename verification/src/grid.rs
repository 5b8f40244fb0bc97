//! The playing field: cells, directions of travel and the keys that steer.

use vstd::prelude::*;

verus! {

/// Width of the canvas in logical units.
pub const WINDOW_WIDTH: u32 = 640;

/// Height of the canvas in logical units.
pub const WINDOW_HEIGHT: u32 = 480;

/// Side of one square grid cell in logical units.
pub const CELL_SIZE: u32 = 20;

/// Number of columns of the grid.
pub const GRID_WIDTH: i32 = 32;

/// Number of rows of the grid.
pub const GRID_HEIGHT: i32 = 24;

/// A direction of travel on the grid. `Up` is towards smaller `y`.
#[derive(Clone, Copy, PartialEq, Eq, Structural, Debug)]
pub enum Direction {
    Up,
    Down,
    Left,
    Right,
}

/// A key as the game sees it: the four arrows, the jump key, and anything
/// else.
#[derive(Clone, Copy, PartialEq, Eq, Structural, Debug)]
pub enum Key {
    Up,
    Down,
    Left,
    Right,
    Space,
    Other,
}

/// A cell position. Nothing bounds the coordinates: whether a position lies
/// on the grid is asked with [`Position::in_grid`].
#[derive(Clone, Copy, PartialEq, Eq, Structural, Debug)]
pub struct Position {
    pub x: i32,
    pub y: i32,
}

impl Direction {
    /// The direction that points the other way.
    pub open spec fn spec_opposite(self) -> Direction {
        match self {
            Direction::Up => Direction::Down,
            Direction::Down => Direction::Up,
            Direction::Left => Direction::Right,
            Direction::Right => Direction::Left,
        }
    }

    /// Horizontal offset of one step in this direction.
    pub open spec fn dx(self) -> int {
        match self {
            Direction::Left => -1,
            Direction::Right => 1,
            _ => 0,
        }
    }

    /// Vertical offset of one step in this direction.
    pub open spec fn dy(self) -> int {
        match self {
            Direction::Up => -1,
            Direction::Down => 1,
            _ => 0,
        }
    }

    /// The direction that points the other way.
    #[verifier::when_used_as_spec(spec_opposite)]
    pub fn opposite(self) -> (r: Direction)
        ensures
            r == self.spec_opposite(),
    {
        match self {
            Direction::Up => Direction::Down,
            Direction::Down => Direction::Up,
            Direction::Left => Direction::Right,
            Direction::Right => Direction::Left,
        }
    }
}

impl Key {
    /// The direction an arrow key asks for; `None` for every other key.
    pub open spec fn spec_direction(self) -> Option<Direction> {
        match self {
            Key::Up => Some(Direction::Up),
            Key::Down => Some(Direction::Down),
            Key::Left => Some(Direction::Left),
            Key::Right => Some(Direction::Right),
            _ => None,
        }
    }

    /// The direction an arrow key asks for; `None` for every other key.
    #[verifier::when_used_as_spec(spec_direction)]
    pub fn direction(self) -> (r: Option<Direction>)
        ensures
            r == self.spec_direction(),
    {
        match self {
            Key::Up => Some(Direction::Up),
            Key::Down => Some(Direction::Down),
            Key::Left => Some(Direction::Left),
            Key::Right => Some(Direction::Right),
            _ => None,
        }
    }
}

/// Number of cells of the grid.
pub open spec fn cell_count() -> int {
    GRID_WIDTH * GRID_HEIGHT
}

/// The cell with the given number when the grid is read row by row from the
/// top-left corner.
pub open spec fn cell_at(k: int) -> Position {
    Position { x: (k % (GRID_WIDTH as int)) as i32, y: (k / (GRID_WIDTH as int)) as i32 }
}

impl Position {
    /// Whether the position is one of the grid's cells.
    pub open spec fn in_grid(self) -> bool {
        0 <= self.x < GRID_WIDTH && 0 <= self.y < GRID_HEIGHT
    }

    /// The number of this cell when the grid is read row by row from the
    /// top-left corner.
    pub open spec fn scan_index(self) -> int {
        self.y * GRID_WIDTH + self.x
    }

    /// Whether the neighbour in direction `d` still has machine-representable
    /// coordinates.
    pub open spec fn can_step(self, d: Direction) -> bool {
        i32::MIN <= self.x + d.dx() <= i32::MAX && i32::MIN <= self.y + d.dy() <= i32::MAX
    }

    /// The neighbouring position one cell away in direction `d`.
    pub open spec fn stepped(self, d: Direction) -> Position {
        Position { x: (self.x + d.dx()) as i32, y: (self.y + d.dy()) as i32 }
    }

    /// Makes a position from its coordinates.
    pub fn new(x: i32, y: i32) -> (p: Position)
        ensures
            p == (Position { x, y }),
    {
        Position { x, y }
    }

    /// Whether the position is one of the grid's cells.
    pub fn is_in_grid(self) -> (r: bool)
        ensures
            r == self.in_grid(),
    {
        0 <= self.x && self.x < GRID_WIDTH && 0 <= self.y && self.y < GRID_HEIGHT
    }

    /// The neighbouring position one cell away in direction `d`.
    pub fn step(self, d: Direction) -> (r: Position)
        requires
            self.can_step(d),
        ensures
            r == self.stepped(d),
    {
        match d {
            Direction::Up => Position { x: self.x, y: self.y - 1 },
            Direction::Down => Position { x: self.x, y: self.y + 1 },
            Direction::Left => Position { x: self.x - 1, y: self.y },
            Direction::Right => Position { x: self.x + 1, y: self.y },
        }
    }
}

/// Every cell of the grid is the cell at its own scan index, and scan
/// indices of grid cells run from zero up to the cell count.
pub proof fn lemma_scan_index_of_grid_cell(p: Position)
    requires
        p.in_grid(),
    ensures
        0 <= p.scan_index() < cell_count(),
        cell_at(p.scan_index()) == p,
{
}

/// Every number below the cell count names a grid cell, whose scan index is
/// that number.
pub proof fn lemma_cell_at_in_grid(k: int)
    requires
        0 <= k < cell_count(),
    ensures
        cell_at(k).in_grid(),
        cell_at(k).scan_index() == k,
{
}

} // verus!
