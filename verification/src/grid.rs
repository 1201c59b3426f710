//! The grid: cells, headings and the bounded arena the snake lives in.

use vstd::prelude::*;

verus! {

/// Width of the arena the game is played on by default.
pub const ARENA_WIDTH: u32 = 120;

/// Height of the arena the game is played on by default.
pub const ARENA_HEIGHT: u32 = 120;

/// Column of the cell on which a fresh snake is placed.
pub const START_X: i32 = 3;

/// Row of the cell on which a fresh snake is placed.
pub const START_Y: i32 = 2;

/// One of the four headings a snake can take.
#[derive(Clone, Copy, Debug, PartialEq, Eq, Structural)]
pub enum Direction {
    Left,
    Up,
    Right,
    Down,
}

impl Direction {
    /// The heading that points the other way.
    pub open spec fn reversed(self) -> Direction {
        match self {
            Direction::Left => Direction::Right,
            Direction::Right => Direction::Left,
            Direction::Up => Direction::Down,
            Direction::Down => Direction::Up,
        }
    }

    /// Returns the heading that points the other way.
    #[verifier::when_used_as_spec(reversed)]
    pub fn opposite(self) -> (r: Direction)
        ensures
            r == self.reversed(),
            r != self,
            r.reversed() == self,
    {
        match self {
            Direction::Left => Direction::Right,
            Direction::Right => Direction::Left,
            Direction::Up => Direction::Down,
            Direction::Down => Direction::Up,
        }
    }
}

/// A cell of the grid. `x` grows to the right and `y` grows upwards.
#[derive(Clone, Copy, Debug, PartialEq, Eq, Structural)]
pub struct Position {
    pub x: i32,
    pub y: i32,
}

impl Position {
    /// The cell on which a fresh snake is placed.
    pub open spec fn start_cell() -> Position {
        Position { x: START_X, y: START_Y }
    }

    /// Returns the cell on which a fresh snake is placed.
    #[verifier::when_used_as_spec(start_cell)]
    pub fn start() -> (p: Position)
        ensures
            p == Position::start_cell(),
    {
        Position { x: START_X, y: START_Y }
    }

    /// Whether the neighbour in direction `d` still has `i32` coordinates.
    pub open spec fn can_step(self, d: Direction) -> bool {
        match d {
            Direction::Left => self.x > i32::MIN,
            Direction::Right => self.x < i32::MAX,
            Direction::Up => self.y < i32::MAX,
            Direction::Down => self.y > i32::MIN,
        }
    }

    /// The neighbouring cell in direction `d`: one column to the left or
    /// right, or one row up (`y + 1`) or down (`y - 1`).
    pub open spec fn stepped(self, d: Direction) -> Position {
        match d {
            Direction::Left => Position { x: (self.x - 1) as i32, y: self.y },
            Direction::Right => Position { x: (self.x + 1) as i32, y: self.y },
            Direction::Up => Position { x: self.x, y: (self.y + 1) as i32 },
            Direction::Down => Position { x: self.x, y: (self.y - 1) as i32 },
        }
    }

    /// Returns the neighbouring cell in direction `d`.
    pub fn step(self, d: Direction) -> (p: Position)
        requires
            self.can_step(d),
        ensures
            p == self.stepped(d),
            d == Direction::Left ==> p.x == self.x - 1 && p.y == self.y,
            d == Direction::Right ==> p.x == self.x + 1 && p.y == self.y,
            d == Direction::Up ==> p.x == self.x && p.y == self.y + 1,
            d == Direction::Down ==> p.x == self.x && p.y == self.y - 1,
    {
        match d {
            Direction::Left => Position { x: self.x - 1, y: self.y },
            Direction::Right => Position { x: self.x + 1, y: self.y },
            Direction::Up => Position { x: self.x, y: self.y + 1 },
            Direction::Down => Position { x: self.x, y: self.y - 1 },
        }
    }
}

/// The part `draw / 2^32` of an axis of `bound` cells, rounded down.
pub open spec fn scaled(draw: u32, bound: int) -> int {
    (draw as int * bound) / 0x1_0000_0000
}

/// A bounded grid of `width` columns and `height` rows. Its cells are those
/// with `0 <= x < width` and `0 <= y < height`.
#[derive(Clone, Copy, Debug)]
pub struct Arena {
    width: u32,
    height: u32,
}

impl Arena {
    /// Number of columns.
    pub closed spec fn cols(self) -> int {
        self.width as int
    }

    /// Number of rows.
    pub closed spec fn rows(self) -> int {
        self.height as int
    }

    /// Whether both sides fit a cell coordinate and the start cell lies
    /// inside. Every arena that `new` hands out is valid.
    pub open spec fn valid(self) -> bool {
        &&& START_X < self.cols() <= i32::MAX
        &&& START_Y < self.rows() <= i32::MAX
    }

    /// Whether sides of this size make a valid arena.
    pub open spec fn admits(width: u32, height: u32) -> bool {
        &&& START_X < width <= i32::MAX
        &&& START_Y < height <= i32::MAX
    }

    /// Whether `p` is a cell of the arena.
    pub open spec fn holds(self, p: Position) -> bool {
        &&& 0 <= p.x < self.cols()
        &&& 0 <= p.y < self.rows()
    }

    /// Makes an arena of the given size. An arena must contain the start
    /// cell, and each side must fit a cell coordinate; any other size is
    /// turned down.
    pub fn new(width: u32, height: u32) -> (r: Option<Arena>)
        ensures
            r is Some <==> Arena::admits(width, height),
            r matches Some(a) ==> a.valid() && a.cols() == width && a.rows() == height,
    {
        if width > 3 && width <= 0x7fff_ffff && height > 2 && height <= 0x7fff_ffff {
            Some(Arena { width, height })
        } else {
            None
        }
    }

    /// Returns the number of columns.
    pub fn width(&self) -> (w: u32)
        ensures
            w == self.cols(),
    {
        self.width
    }

    /// Returns the number of rows.
    pub fn height(&self) -> (h: u32)
        ensures
            h == self.rows(),
    {
        self.height
    }

    /// Tells whether `p` is a cell of the arena: a cell with a negative
    /// coordinate, with `x >= width` or with `y >= height` is not.
    pub fn contains(&self, p: Position) -> (b: bool)
        ensures
            b == self.holds(p),
            !b <==> (p.x < 0 || p.y < 0 || p.x >= self.cols() || p.y >= self.rows()),
    {
        p.x >= 0 && p.y >= 0 && (p.x as u32) < self.width && (p.y as u32) < self.height
    }

    /// The cell that two draws select, one draw for each axis.
    pub open spec fn cell_of(self, draw_x: u32, draw_y: u32) -> Position {
        Position {
            x: scaled(draw_x, self.cols()) as i32,
            y: scaled(draw_y, self.rows()) as i32,
        }
    }

    /// Maps two draws, one for each axis, to a cell of the arena. A draw `d`
    /// selects the column (or row) that lies at the part `d / 2^32` of the
    /// axis, so draws that spread evenly over `u32` spread evenly over the
    /// cells.
    pub fn cell_at(&self, draw_x: u32, draw_y: u32) -> (p: Position)
        requires
            self.valid(),
        ensures
            p == self.cell_of(draw_x, draw_y),
            p.x == scaled(draw_x, self.cols()),
            p.y == scaled(draw_y, self.rows()),
            self.holds(p),
    {
        proof {
            lemma_scaled_in_range(draw_x, self.width as int);
            lemma_scaled_in_range(draw_y, self.height as int);
        }
        let x: u64 = (draw_x as u64 * self.width as u64) / 0x1_0000_0000u64;
        let y: u64 = (draw_y as u64 * self.height as u64) / 0x1_0000_0000u64;
        Position { x: x as i32, y: y as i32 }
    }
}

/// A scaled draw is an index into the axis, and the product it is taken
/// from fits 64 bits.
pub proof fn lemma_scaled_in_range(draw: u32, bound: int)
    requires
        0 <= bound <= u32::MAX,
    ensures
        0 <= draw as int * bound <= u64::MAX,
        0 <= scaled(draw, bound),
        bound > 0 ==> scaled(draw, bound) < bound,
        bound == 0 ==> scaled(draw, bound) == 0,
{
    let d: int = draw as int;
    let b: int = bound;
    assert(0 <= d * b <= 0xffff_ffff * 0xffff_ffff) by (nonlinear_arith)
        requires
            0 <= d <= 0xffff_ffff,
            0 <= b <= 0xffff_ffff,
    ;
    assert(d * b < 0x1_0000_0000 * b || b == 0) by (nonlinear_arith)
        requires
            0 <= d < 0x1_0000_0000,
            0 <= b,
    ;
    assert(b == 0 ==> d * b == 0) by (nonlinear_arith);
}

} // verus!
