use vstd::prelude::*;

use crate::position::Position;

verus! {

/// Width of every level, in cells.
pub const LEVEL_WIDTH: i8 = 15;

/// Height of every level, in cells.
pub const LEVEL_HEIGHT: i8 = 9;

/// Per-direction permeability of a wall face, indexed by `Direction::as_index`.
/// Reserved: no rule reads it yet.
pub type Tunnels = [bool; 4];

/// The ground of one cell.
#[derive(Debug, Hash, PartialEq, Eq, PartialOrd, Ord, Clone, Copy)]
pub enum GroundTile {
    Hole,
    Wall { breakable: bool, tunnels: Tunnels },
    Floor { is_entry: bool },
}

impl Default for GroundTile {
    fn default() -> (r: Self)
        ensures
            r == (GroundTile::Floor { is_entry: false }),
    {
        GroundTile::Floor { is_entry: false }
    }
}

/// What stands on a cell, above its ground.
#[derive(Debug, Hash, PartialEq, Eq, PartialOrd, Ord, Clone, Copy, Structural)]
pub enum TileItem {
    Paquerette,
    Bun,
    Bunstack,
}

/// The four directions, in their cyclic order: Up, Left, Down, Right.
#[derive(Debug, Hash, PartialEq, Eq, PartialOrd, Ord, Clone, Copy, Structural)]
pub enum Direction {
    Up,
    Left,
    Down,
    Right,
}

impl Direction {
    /// Place of the direction in the cycle Up, Left, Down, Right.
    pub open spec fn spec_index(self) -> int {
        match self {
            Direction::Up => 0,
            Direction::Left => 1,
            Direction::Down => 2,
            Direction::Right => 3,
        }
    }

    /// Horizontal component of the unit step in this direction.
    pub open spec fn dx(self) -> int {
        match self {
            Direction::Left => -1,
            Direction::Right => 1,
            _ => 0,
        }
    }

    /// Vertical component of the unit step in this direction (down is positive).
    pub open spec fn dy(self) -> int {
        match self {
            Direction::Up => -1,
            Direction::Down => 1,
            _ => 0,
        }
    }

    pub open spec fn spec_turn_left(self) -> Direction {
        match self {
            Direction::Up => Direction::Left,
            Direction::Left => Direction::Down,
            Direction::Down => Direction::Right,
            Direction::Right => Direction::Up,
        }
    }

    pub open spec fn spec_turn_right(self) -> Direction {
        match self {
            Direction::Up => Direction::Right,
            Direction::Left => Direction::Up,
            Direction::Down => Direction::Left,
            Direction::Right => Direction::Down,
        }
    }

    pub open spec fn spec_neg(self) -> Direction {
        match self {
            Direction::Up => Direction::Down,
            Direction::Left => Direction::Right,
            Direction::Down => Direction::Up,
            Direction::Right => Direction::Left,
        }
    }

    /// The next direction of the cycle.
    #[verifier::when_used_as_spec(spec_turn_left)]
    pub fn turn_left(self) -> (r: Direction)
        ensures
            r == self.spec_turn_left(),
            r.spec_index() == (self.spec_index() + 1) % 4,
    {
        match self {
            Direction::Up => Direction::Left,
            Direction::Left => Direction::Down,
            Direction::Down => Direction::Right,
            Direction::Right => Direction::Up,
        }
    }

    /// The previous direction of the cycle.
    #[verifier::when_used_as_spec(spec_turn_right)]
    pub fn turn_right(self) -> (r: Direction)
        ensures
            r == self.spec_turn_right(),
            r.spec_index() == (self.spec_index() + 3) % 4,
    {
        match self {
            Direction::Up => Direction::Right,
            Direction::Left => Direction::Up,
            Direction::Down => Direction::Left,
            Direction::Right => Direction::Down,
        }
    }

    /// The opposite direction: two steps along the cycle.
    #[verifier::when_used_as_spec(spec_neg)]
    pub fn neg(self) -> (r: Direction)
        ensures
            r == self.spec_neg(),
            r.spec_index() == (self.spec_index() + 2) % 4,
            r.dx() == -self.dx(),
            r.dy() == -self.dy(),
    {
        match self {
            Direction::Up => Direction::Down,
            Direction::Left => Direction::Right,
            Direction::Down => Direction::Up,
            Direction::Right => Direction::Left,
        }
    }

    /// Place of the direction in the cycle, to index per-direction arrays.
    pub fn as_index(self) -> (r: usize)
        ensures
            r == self.spec_index(),
    {
        match self {
            Direction::Up => 0,
            Direction::Left => 1,
            Direction::Down => 2,
            Direction::Right => 3,
        }
    }

    /// All four directions, in cycle order.
    pub open spec fn all_spec() -> Seq<Direction> {
        seq![Direction::Up, Direction::Left, Direction::Down, Direction::Right]
    }

    /// All four directions, in cycle order.
    pub fn all() -> (r: [Direction; 4])
        ensures
            r@ == Self::all_spec(),
    {
        let r = [Direction::Up, Direction::Left, Direction::Down, Direction::Right];
        assert(r@ =~= seq![Direction::Up, Direction::Left, Direction::Down, Direction::Right]);
        r
    }

    /// The unit vector of this direction.
    pub fn offset(self) -> (r: Position)
        ensures
            r.x == self.dx(),
            r.y == self.dy(),
    {
        match self {
            Direction::Up => Position { x: 0, y: -1 },
            Direction::Down => Position { x: 0, y: 1 },
            Direction::Left => Position { x: -1, y: 0 },
            Direction::Right => Position { x: 1, y: 0 },
        }
    }
}

impl GroundTile {
    /// One character that draws the tile: `o` a hole, a light shade a
    /// breakable wall, a dark shade any other wall, a space the floor.
    pub open spec fn spec_to_unicode(self) -> char {
        match self {
            GroundTile::Hole => 'o',
            GroundTile::Wall { breakable, .. } => if breakable {
                '\u{2591}'
            } else {
                '\u{2593}'
            },
            GroundTile::Floor { .. } => ' ',
        }
    }

    #[verifier::when_used_as_spec(spec_to_unicode)]
    pub fn to_unicode(self) -> (r: char)
        ensures
            r == self.spec_to_unicode(),
    {
        match self {
            GroundTile::Hole => 'o',
            GroundTile::Wall { breakable, .. } => {
                if breakable {
                    '\u{2591}'
                } else {
                    '\u{2593}'
                }
            },
            GroundTile::Floor { .. } => ' ',
        }
    }

    /// Only walls are solid.
    pub fn is_solid(self) -> (r: bool)
        ensures
            r == (self is Wall),
    {
        match self {
            GroundTile::Wall { .. } => true,
            GroundTile::Floor { .. } | GroundTile::Hole => false,
        }
    }

    pub fn is_hole(self) -> (r: bool)
        ensures
            r == (self is Hole),
    {
        match self {
            GroundTile::Hole => true,
            GroundTile::Floor { .. } | GroundTile::Wall { .. } => false,
        }
    }

    /// Whether a bunny coming from direction `_from` is stopped by this tile.
    /// The tunnels of a wall do not count yet, so this is `is_solid`.
    pub fn is_solid_for_bun_from(self, _from: Direction) -> (r: bool)
        ensures
            r == (self is Wall),
    {
        match self {
            GroundTile::Wall { .. } => true,
            GroundTile::Floor { .. } | GroundTile::Hole => false,
        }
    }
}

impl TileItem {
    /// One character that draws the item.
    pub open spec fn spec_to_unicode(self) -> char {
        match self {
            TileItem::Paquerette => 'P',
            TileItem::Bun => 'b',
            TileItem::Bunstack => '\u{1F5FC}',
        }
    }

    #[verifier::when_used_as_spec(spec_to_unicode)]
    pub fn to_unicode(self) -> (r: char)
        ensures
            r == self.spec_to_unicode(),
    {
        match self {
            TileItem::Paquerette => 'P',
            TileItem::Bun => 'b',
            TileItem::Bunstack => '\u{1F5FC}',
        }
    }

    /// Reads an item from its letter, in either case: `b` a bunny, `p` Paquerette.
    pub fn from_char(c: char) -> (r: Option<TileItem>)
        ensures
            r == (if c == 'b' || c == 'B' {
                Some(TileItem::Bun)
            } else if c == 'p' || c == 'P' {
                Some(TileItem::Paquerette)
            } else {
                None::<TileItem>
            }),
    {
        if c == 'b' || c == 'B' {
            Some(TileItem::Bun)
        } else if c == 'p' || c == 'P' {
            Some(TileItem::Paquerette)
        } else {
            None
        }
    }
}

} // verus!
