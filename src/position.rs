use vstd::prelude::*;

use crate::grid::{Direction, LEVEL_HEIGHT, LEVEL_WIDTH};

verus! {

/// A cell coordinate: `x` grows to the right, `y` grows downwards.
/// Positions are ordered by row first, then by column.
#[derive(Debug, Hash, PartialEq, Eq, PartialOrd, Ord, Default, Clone, Copy, Structural)]
pub struct Position {
    pub y: i8,
    pub x: i8,
}

/// Whether `(x, y)` lies on the level grid.
pub open spec fn in_grid(x: int, y: int) -> bool {
    0 <= x < LEVEL_WIDTH && 0 <= y < LEVEL_HEIGHT
}

/// Number of cells of a level.
pub const CELL_COUNT: usize = 135;

/// Number of cells of a level.
pub open spec fn cell_count() -> int {
    LEVEL_WIDTH * LEVEL_HEIGHT
}

/// The position of the `i`-th cell in row-major order.
pub open spec fn position_of(i: int) -> Position {
    Position { x: (i % LEVEL_WIDTH as int) as i8, y: (i / LEVEL_WIDTH as int) as i8 }
}

/// The place of `(x, y)` in row-major order, and back.
pub proof fn lemma_cell_index(x: int, y: int)
    requires
        in_grid(x, y),
    ensures
        0 <= y * 15 + x < cell_count(),
        (y * 15 + x) % 15 == x,
        (y * 15 + x) / 15 == y,
        position_of(y * 15 + x) == (Position { x: x as i8, y: y as i8 }),
{
    assert(0 <= y * 15 + x < 135) by (nonlinear_arith)
        requires
            0 <= x < 15,
            0 <= y < 9,
    ;
    assert((y * 15 + x) % 15 == x && (y * 15 + x) / 15 == y) by (nonlinear_arith)
        requires
            0 <= x < 15,
            0 <= y,
    ;
}

/// Every cell index names a cell of the grid.
pub proof fn lemma_position_of(i: int)
    requires
        0 <= i < cell_count(),
    ensures
        position_of(i).is_inner(),
        position_of(i).cell() == i,
{
    assert(0 <= i % 15 < 15 && 0 <= i / 15 < 9 && (i / 15) * 15 + i % 15 == i) by (nonlinear_arith)
        requires
            0 <= i < 135,
    ;
}

/// Stepping in a direction and then in the opposite one comes back to the
/// start, wherever both steps stay on the grid.
pub proof fn lemma_step_back(p: Position, d: Direction)
    requires
        p.is_inner(),
        p.spec_step(d).is_inner(),
    ensures
        p.spec_step(d).spec_step(d.spec_neg()) == p,
{
}

/// A position sees its neighbour in direction `d` along that direction, at
/// distance one.
pub proof fn lemma_distance_to_neighbour(p: Position, d: Direction)
    requires
        p.is_inner(),
        p.spec_step(d).is_inner(),
    ensures
        p.spec_distance_to_straight_line(p.spec_step(d)) == Some((d, 1u8)),
{
}

impl Position {
    /// The place of this position in row-major order.
    pub open spec fn cell(self) -> int {
        self.y * LEVEL_WIDTH + self.x
    }

    pub open spec fn spec_is_inner(&self) -> bool {
        in_grid(self.x as int, self.y as int)
    }

    /// Whether a unit step in `d` stays within the range of `i8`.
    pub open spec fn can_step(self, d: Direction) -> bool {
        &&& i8::MIN <= self.x + d.dx() <= i8::MAX
        &&& i8::MIN <= self.y + d.dy() <= i8::MAX
    }

    /// Whether a unit step in any direction stays within the range of `i8`.
    pub open spec fn can_step_any(self) -> bool {
        &&& i8::MIN < self.x < i8::MAX
        &&& i8::MIN < self.y < i8::MAX
    }

    /// The neighbour in direction `d`.
    pub open spec fn spec_step(self, d: Direction) -> Position {
        Position { x: (self.x + d.dx()) as i8, y: (self.y + d.dy()) as i8 }
    }

    /// The line through two positions: `None` unless they share a row or a
    /// column; else the direction leading from `self` toward `p` and the
    /// number of cells between them. Equal positions give `Up` and 0.
    pub open spec fn spec_distance_to_straight_line(self, p: Position) -> Option<(Direction, u8)> {
        let dx = self.x - p.x;
        let dy = self.y - p.y;
        if dx == 0 {
            if dy < 0 {
                Some((Direction::Down, (-dy) as u8))
            } else {
                Some((Direction::Up, dy as u8))
            }
        } else if dy == 0 {
            if dx < 0 {
                Some((Direction::Right, (-dx) as u8))
            } else {
                Some((Direction::Left, dx as u8))
            }
        } else {
            None
        }
    }

    pub fn new(x: i8, y: i8) -> (r: Position)
        ensures
            r.x == x,
            r.y == y,
    {
        Position { x, y }
    }

    pub fn x(&self) -> (r: i8)
        ensures
            r == self.x,
    {
        self.x
    }

    pub fn y(&self) -> (r: i8)
        ensures
            r == self.y,
    {
        self.y
    }

    /// The first cell of a row other than the top one.
    pub fn is_start_of_inner_row(&self) -> (r: bool)
        ensures
            r == (self.x == 0 && self.y > 0),
    {
        self.x == 0 && self.y > 0
    }

    /// Whether the position lies on the level grid.
    #[verifier::when_used_as_spec(spec_is_inner)]
    pub fn is_inner(&self) -> (r: bool)
        ensures
            r == in_grid(self.x as int, self.y as int),
    {
        self.x >= 0 && self.y >= 0 && self.x < LEVEL_WIDTH && self.y < LEVEL_HEIGHT
    }

    /// Moves to the next cell in row-major order and returns it, or returns
    /// `None` when a row ends and the next row lies below the grid.
    pub fn next(&mut self) -> (r: Option<Position>)
        requires
            old(self).x < i8::MAX,
            old(self).y < i8::MAX,
        ensures
            old(self).x + 1 < LEVEL_WIDTH ==> final(self).x == old(self).x + 1 && final(self).y
                == old(self).y,
            old(self).x + 1 >= LEVEL_WIDTH ==> final(self).x == 0 && final(self).y == old(self).y
                + 1,
            r == (if old(self).x + 1 >= LEVEL_WIDTH && final(self).y >= LEVEL_HEIGHT {
                None::<Position>
            } else {
                Some(*final(self))
            }),
    {
        self.x = self.x + 1;
        if self.x >= LEVEL_WIDTH {
            self.x = 0;
            self.y = self.y + 1;
            if self.y >= LEVEL_HEIGHT {
                return None;
            }
        }
        Some(*self)
    }

    /// Every position of the grid, in row-major order.
    pub fn iter() -> (r: Vec<Position>)
        ensures
            r@.len() == cell_count(),
            forall|i: int| 0 <= i < cell_count() ==> #[trigger] r@[i] == position_of(i),
    {
        let mut r: Vec<Position> = Vec::new();
        let mut y: i8 = 0;
        while y < LEVEL_HEIGHT
            invariant
                0 <= y <= LEVEL_HEIGHT,
                r@.len() == y * LEVEL_WIDTH,
                forall|i: int| 0 <= i < r@.len() ==> #[trigger] r@[i] == position_of(i),
            decreases LEVEL_HEIGHT - y,
        {
            let mut x: i8 = 0;
            while x < LEVEL_WIDTH
                invariant
                    0 <= y < LEVEL_HEIGHT,
                    0 <= x <= LEVEL_WIDTH,
                    r@.len() == y * LEVEL_WIDTH + x,
                    forall|i: int| 0 <= i < r@.len() ==> #[trigger] r@[i] == position_of(i),
                decreases LEVEL_WIDTH - x,
            {
                proof {
                    lemma_cell_index(x as int, y as int);
                }
                r.push(Position { x, y });
                x = x + 1;
            }
            y = y + 1;
        }
        r
    }

    /// The coordinates as indices, when both lie in `0..max_x` and `0..max_y`.
    pub fn into_clamped_usize(self, max_x: usize, max_y: usize) -> (r: Option<(usize, usize)>)
        ensures
            r == (if 0 <= self.x < max_x && 0 <= self.y < max_y {
                Some((self.x as usize, self.y as usize))
            } else {
                None::<(usize, usize)>
            }),
    {
        if self.x < 0 || self.y < 0 {
            return None;
        }
        let x = self.x as usize;
        let y = self.y as usize;
        if x >= max_x || y >= max_y {
            return None;
        }
        Some((x, y))
    }

    /// See `spec_distance_to_straight_line`.
    pub fn distance_to_straight_line(self, p: Position) -> (r: Option<(Direction, u8)>)
        ensures
            r == self.spec_distance_to_straight_line(p),
    {
        let dx: i16 = self.x as i16 - p.x as i16;
        let dy: i16 = self.y as i16 - p.y as i16;
        if dx == 0 {
            if dy < 0 {
                Some((Direction::Down, (-dy) as u8))
            } else {
                Some((Direction::Up, dy as u8))
            }
        } else if dy == 0 {
            if dx < 0 {
                Some((Direction::Right, (-dx) as u8))
            } else {
                Some((Direction::Left, dx as u8))
            }
        } else {
            None
        }
    }

    /// Component-wise sum; the caller keeps both sums within `i8`.
    pub fn plus(self, rhs: Position) -> (r: Position)
        requires
            i8::MIN <= self.x + rhs.x <= i8::MAX,
            i8::MIN <= self.y + rhs.y <= i8::MAX,
        ensures
            r.x == self.x + rhs.x,
            r.y == self.y + rhs.y,
    {
        Position { x: self.x + rhs.x, y: self.y + rhs.y }
    }

    /// The neighbour in direction `d`.
    #[verifier::when_used_as_spec(spec_step)]
    pub fn step(self, d: Direction) -> (r: Position)
        requires
            self.can_step(d),
        ensures
            r == self.spec_step(d),
            r.x == self.x + d.dx(),
            r.y == self.y + d.dy(),
    {
        self.plus(d.offset())
    }

    /// The neighbour in direction `d`, or the position itself without a direction.
    pub fn step_opt(self, d: Option<Direction>) -> (r: Position)
        requires
            (d matches Some(d) ==> self.can_step(d)),
        ensures
            r == (match d {
                Some(d) => self.spec_step(d),
                None => self,
            }),
    {
        match d {
            Some(d) => self.step(d),
            None => self,
        }
    }

    /// The neighbour in direction `d`, or `None` where a coordinate would leave `i8`.
    pub fn checked_step(self, d: Direction) -> (r: Option<Position>)
        ensures
            r == (if self.can_step(d) {
                Some(self.spec_step(d))
            } else {
                None::<Position>
            }),
    {
        let o = d.offset();
        let x: i16 = self.x as i16 + o.x as i16;
        let y: i16 = self.y as i16 + o.y as i16;
        if x < -128 || x > 127 || y < -128 || y > 127 {
            None
        } else {
            Some(Position { x: x as i8, y: y as i8 })
        }
    }
}

} // verus!
