use vstd::prelude::*;

use crate::grid::{Direction, GroundTile, TileItem, LEVEL_HEIGHT, LEVEL_WIDTH};
use crate::position::{cell_count, Position};

verus! {

/// The mathematical state of a level: its tiles in row-major order, where
/// Paquerette stands, and one slot per bunny (`None` once caught).
pub struct LevelView {
    pub tiles: Seq<GroundTile>,
    pub player: Position,
    pub buns: Seq<Option<Position>>,
}

/// A change of level that a move asks for.
#[derive(Debug, Hash, PartialEq, Eq, Clone, Copy, Structural)]
pub enum MoveEffect {
    /// Paquerette stepped onto a hole.
    DropHole,
    /// Paquerette walked off the grid in this direction.
    MoveAdjacent(Direction),
}

/// Why a move was refused.
#[derive(Debug, Hash, PartialEq, Eq, Clone, Copy, Structural)]
pub enum MoveError {
    /// The target cell is a wall.
    Blocked,
    /// Paquerette stands off the grid and no direction was given.
    NoDirection,
}

/// What a move yields: the new level, the frames of the animation, and the
/// change of level it asks for.
pub struct MoveOutcome {
    pub level: LevelView,
    pub history: Seq<LevelView>,
    pub effect: Option<MoveEffect>,
}

/// A measure that falls at each step of a straight scan that stays on the grid.
pub open spec fn scan_measure(p: Position, d: Direction) -> nat {
    if p.is_inner() {
        run_measure(p, d)
    } else {
        16
    }
}

/// How many cells lie ahead of `p` in direction `d` up to one cell past the edge.
pub open spec fn run_measure(p: Position, d: Direction) -> nat {
    let m = match d {
        Direction::Right => LEVEL_WIDTH - p.x,
        Direction::Left => p.x + 1,
        Direction::Down => LEVEL_HEIGHT - p.y,
        Direction::Up => p.y + 1,
    };
    if m < 0 {
        0
    } else {
        m as nat
    }
}

/// Where a move in `d` leads from `p`, or `None` where it leaves the range of `i8`.
pub open spec fn move_target(p: Position, d: Option<Direction>) -> Option<Position> {
    match d {
        None => Some(p),
        Some(d) => if p.can_step(d) {
            Some(p.spec_step(d))
        } else {
            None
        },
    }
}

impl LevelView {
    /// All floor, no entry, Paquerette at the origin, no bunny.
    pub open spec fn empty() -> LevelView {
        LevelView {
            tiles: Seq::new(cell_count() as nat, |i: int| GroundTile::Floor { is_entry: false }),
            player: Position { x: 0, y: 0 },
            buns: seq![],
        }
    }

    pub open spec fn wf(self) -> bool {
        self.tiles.len() == cell_count()
    }

    pub open spec fn tile_at(self, p: Position) -> GroundTile {
        self.tiles[p.cell()]
    }

    /// Only walls on the grid are solid; off the grid nothing is.
    pub open spec fn solid_at(self, p: Position) -> bool {
        p.is_inner() && self.tile_at(p) is Wall
    }

    pub open spec fn bun_at(self, p: Position) -> bool {
        exists|i: int| 0 <= i < self.buns.len() && self.buns[i] == Some(p)
    }

    /// What stands on `p`: Paquerette before any bunny.
    pub open spec fn item_at(self, p: Position) -> Option<TileItem> {
        if self.player == p {
            Some(TileItem::Paquerette)
        } else if self.bun_at(p) {
            Some(TileItem::Bun)
        } else {
            None
        }
    }

    /// Ground and item of a cell of the grid; `None` off the grid.
    pub open spec fn content_at(self, p: Position) -> Option<(GroundTile, Option<TileItem>)> {
        if p.is_inner() {
            Some((self.tile_at(p), self.item_at(p)))
        } else {
            None
        }
    }

    pub open spec fn with_player(self, p: Position) -> LevelView {
        LevelView { tiles: self.tiles, player: p, buns: self.buns }
    }

    pub open spec fn with_bun(self, i: int, b: Option<Position>) -> LevelView {
        LevelView { tiles: self.tiles, player: self.player, buns: self.buns.update(i, b) }
    }

    /// Looking from `p` in direction `d`: the scan steps ahead cell by cell.
    /// A step off the grid shows a way out; a step onto a solid cell, before
    /// any flank has opened, shows a dead end; a step onto an open cell with an
    /// open flank (the turn-left or turn-right neighbour) shows a way out.
    pub open spec fn sees_dead_end(self, p: Position, d: Direction) -> bool
        decreases scan_measure(p, d),
    {
        let c = p.spec_step(d);
        if !c.is_inner() {
            false
        } else if self.solid_at(c) {
            true
        } else if !self.solid_at(c.spec_step(d.spec_turn_left())) || !self.solid_at(
            c.spec_step(d.spec_turn_right()),
        ) {
            false
        } else {
            self.sees_dead_end(c, d)
        }
    }

    /// A bunny at `b` in a corridor running along `d`: both flanks closed and the cell
    /// ahead open.
    pub open spec fn corridor_open(self, b: Position, d: Direction) -> bool {
        &&& self.solid_at(b.spec_step(d.spec_turn_left()))
        &&& self.solid_at(b.spec_step(d.spec_turn_right()))
        &&& !self.solid_at(b.spec_step(d))
    }

    /// Bunny `i`, having reached `b`, runs on along `d` while the corridor stays
    /// open. Gives where it stops and one frame for each cell it leaves on the
    /// way, showing it there.
    pub open spec fn run(self, i: int, b: Position, d: Direction) -> (Position, Seq<LevelView>)
        decreases run_measure(b, d),
    {
        if self.corridor_open(b, d) {
            let rest = self.run(i, b.spec_step(d), d);
            (rest.0, seq![self.with_bun(i, Some(b))] + rest.1)
        } else {
            (b, seq![])
        }
    }

    /// Paquerette cannot reach a bunny at distance `dist` in direction `dir`:
    /// a wall stands on the first cell, or, at distance two, on the second.
    pub open spec fn sight_blocked(self, dir: Direction, dist: u8) -> bool {
        let first = self.player.spec_step(dir);
        self.solid_at(first) || (dist == 2 && self.solid_at(first.spec_step(dir)))
    }

    /// The direction a bunny at `b` flees in when Paquerette lies behind it
    /// against `dir`: straight on, then to the left, then to the right, the
    /// first that is no dead end; failing that the first whose next cell is
    /// open; failing that none.
    pub open spec fn flight(self, b: Position, dir: Direction) -> Option<Direction> {
        let l = dir.spec_turn_left();
        let r = dir.spec_turn_right();
        if !self.sees_dead_end(b, dir) {
            Some(dir)
        } else if !self.sees_dead_end(b, l) {
            Some(l)
        } else if !self.sees_dead_end(b, r) {
            Some(r)
        } else if !self.solid_at(b.spec_step(dir)) {
            Some(dir)
        } else if !self.solid_at(b.spec_step(l)) {
            Some(l)
        } else if !self.solid_at(b.spec_step(r)) {
            Some(r)
        } else {
            None
        }
    }

    /// How bunny `i` reacts to Paquerette: the level after it and the frames shown.
    /// An empty slot, or a bunny off the grid, is left alone. A bunny on
    /// Paquerette's cell is caught. A bunny on her row or column at most two
    /// cells away flees along the direction leading from her to it (see
    /// `flight`), then runs on along its corridor (see `run`), unless a wall
    /// stands between them, in which case it does not move this turn. Any
    /// other bunny stays.
    pub open spec fn react(self, i: int) -> (LevelView, Seq<LevelView>) {
        match self.buns[i] {
            None => (self, seq![]),
            Some(b) => if !b.is_inner() {
                (self, seq![])
            } else {
                match self.player.spec_distance_to_straight_line(b) {
                    None => (self, seq![]),
                    Some((dir, dist)) => if dist == 0 {
                        (self.with_bun(i, None), seq![])
                    } else if dist > 2 || self.sight_blocked(dir, dist) {
                        (self, seq![])
                    } else {
                        match self.flight(b, dir) {
                            None => (self, seq![]),
                            Some(m) => {
                                let r = self.run(i, b.spec_step(m), m);
                                (self.with_bun(i, Some(r.0)), r.1)
                            },
                        }
                    },
                }
            },
        }
    }

    /// The bunnies from slot `i` on react one after the other, each seeing the
    /// level as those before it left it.
    pub open spec fn creature_pass(self, i: int) -> (LevelView, Seq<LevelView>)
        decreases self.buns.len() - i,
    {
        if i < 0 || i >= self.buns.len() {
            (self, seq![])
        } else {
            let r = self.react(i);
            let rest = r.0.creature_pass(i + 1);
            (rest.0, r.1 + rest.1)
        }
    }

    /// One turn: Paquerette tries to move in `d` (or to stay, without one).
    pub open spec fn move_outcome(self, d: Option<Direction>) -> Result<MoveOutcome, MoveError> {
        match move_target(self.player, d) {
            Some(t) if t.is_inner() => if self.tile_at(t) is Wall {
                Err(MoveError::Blocked)
            } else {
                let pass = self.with_player(t).creature_pass(0);
                Ok(
                    MoveOutcome {
                        level: pass.0,
                        history: pass.1,
                        effect: if self.tile_at(t) is Hole {
                            Some(MoveEffect::DropHole)
                        } else {
                            None
                        },
                    },
                )
            },
            _ => match d {
                Some(d) => Ok(
                    MoveOutcome { level: self, history: seq![], effect: Some(MoveEffect::MoveAdjacent(d)) },
                ),
                None => Err(MoveError::NoDirection),
            },
        }
    }
}

/// A bunny's reaction touches its own slot alone.
pub proof fn lemma_react_frame(lv: LevelView, i: int)
    requires
        0 <= i < lv.buns.len(),
    ensures
        lv.react(i).0.tiles == lv.tiles,
        lv.react(i).0.player == lv.player,
        lv.react(i).0.buns.len() == lv.buns.len(),
        forall|j: int| 0 <= j < lv.buns.len() && j != i ==> lv.react(i).0.buns[j] == lv.buns[j],
{
}


/// How far `q` lies beyond `p` when looking from `p` along `dir`.
pub open spec fn ahead(p: Position, q: Position, dir: Direction) -> int {
    match dir {
        Direction::Right => q.x - p.x,
        Direction::Left => p.x - q.x,
        Direction::Down => q.y - p.y,
        Direction::Up => p.y - q.y,
    }
}

/// A bunny that Paquerette does not see on a line within two cells.
pub open spec fn out_of_reach(p: Position, b: Position) -> bool {
    match p.spec_distance_to_straight_line(b) {
        None => true,
        Some((_, dist)) => dist > 2,
    }
}

/// What a turn may do to one bunny slot, from `before` to `after`, with
/// Paquerette at `p`: the bunny never ends on her cell, a caught bunny stays
/// caught, and a bunny out of her reach stays where it is.
pub open spec fn slot_rules(p: Position, before: Option<Position>, after: Option<Position>) -> bool {
    &&& after != Some(p)
    &&& (before is None ==> after is None)
    &&& (before matches Some(b) && out_of_reach(p, b) ==> after == before)
}

/// Running along a corridor in `m`, which never points back toward `dir`'s
/// start, never brings a bunny nearer to `p` along `dir`.
proof fn lemma_run_keeps_ahead(lv: LevelView, i: int, c: Position, m: Direction, p: Position, dir: Direction)
    requires
        m == dir || m == dir.spec_turn_left() || m == dir.spec_turn_right(),
    ensures
        ahead(p, lv.run(i, c, m).0, dir) >= ahead(p, c, dir),
    decreases run_measure(c, m),
{
    if lv.corridor_open(c, m) {
        lemma_run_keeps_ahead(lv, i, c.spec_step(m), m, p, dir);
    }
}

/// One bunny's reaction obeys `slot_rules` for its own slot.
proof fn lemma_react_slot(lv: LevelView, i: int)
    requires
        lv.wf(),
        lv.player.is_inner(),
        0 <= i < lv.buns.len(),
    ensures
        slot_rules(lv.player, lv.buns[i], lv.react(i).0.buns[i]),
{
    let p = lv.player;
    if let Some(b) = lv.buns[i] {
        if b.is_inner() {
            if let Some((dir, dist)) = p.spec_distance_to_straight_line(b) {
                if dist != 0 && dist <= 2 && !lv.sight_blocked(dir, dist) {
                    if let Some(m) = lv.flight(b, dir) {
                        let c = b.spec_step(m);
                        assert(ahead(p, b, dir) == dist);
                        assert(ahead(p, c, dir) >= ahead(p, b, dir));
                        lemma_run_keeps_ahead(lv, i, c, m, p, dir);
                    }
                }
            }
        }
    }
}

/// The pass from slot `i` on leaves earlier slots alone and obeys
/// `slot_rules` for every later one.
proof fn lemma_pass_slots(lv: LevelView, i: int)
    requires
        lv.wf(),
        lv.player.is_inner(),
        0 <= i <= lv.buns.len(),
    ensures
        lv.creature_pass(i).0.tiles == lv.tiles,
        lv.creature_pass(i).0.player == lv.player,
        lv.creature_pass(i).0.buns.len() == lv.buns.len(),
        forall|j: int| 0 <= j < i ==> lv.creature_pass(i).0.buns[j] == lv.buns[j],
        forall|j: int|
            i <= j < lv.buns.len() ==> slot_rules(
                lv.player,
                lv.buns[j],
                #[trigger] lv.creature_pass(i).0.buns[j],
            ),
    decreases lv.buns.len() - i,
{
    if i < lv.buns.len() {
        let next = lv.react(i).0;
        lemma_react_frame(lv, i);
        lemma_react_slot(lv, i);
        lemma_pass_slots(next, i + 1);
    }
}

/// A turn in which Paquerette moves onto the grid catches every bunny on
/// her new cell: afterwards no bunny slot holds her cell.
pub proof fn lemma_no_bun_on_player(lv: LevelView, d: Option<Direction>)
    requires
        lv.wf(),
        move_target(lv.player, d) matches Some(t) && t.is_inner() && !lv.solid_at(t),
    ensures
        lv.move_outcome(d) matches Ok(o) && o.level.player == move_target(lv.player, d)->0
            && forall|i: int| 0 <= i < o.level.buns.len() ==> o.level.buns[i] != Some(o.level.player),
{
    let t = move_target(lv.player, d)->0;
    lemma_pass_slots(lv.with_player(t), 0);
    let o = lv.move_outcome(d)->Ok_0;
    assert forall|i: int| 0 <= i < o.level.buns.len() implies o.level.buns[i] != Some(o.level.player) by {
        assert(slot_rules(t, lv.buns[i], lv.with_player(t).creature_pass(0).0.buns[i]));
    }
}

/// A caught bunny never comes back: a slot that is empty before a turn is
/// empty after it.
pub proof fn lemma_caught_stays_caught(lv: LevelView, d: Option<Direction>, i: int)
    requires
        lv.wf(),
        0 <= i < lv.buns.len(),
        lv.buns[i] is None,
        lv.move_outcome(d) is Ok,
    ensures
        lv.move_outcome(d)->Ok_0.level.buns[i] is None,
{
    if let Some(t) = move_target(lv.player, d) {
        if t.is_inner() {
            lemma_pass_slots(lv.with_player(t), 0);
            assert(slot_rules(t, lv.buns[i], lv.with_player(t).creature_pass(0).0.buns[i]));
        }
    }
}

/// A bunny that, once Paquerette has moved, is not on a line with her or is
/// more than two cells away stays where it is this turn.
pub proof fn lemma_out_of_reach_stays(lv: LevelView, d: Option<Direction>, i: int)
    requires
        lv.wf(),
        0 <= i < lv.buns.len(),
        lv.move_outcome(d) matches Ok(o) && lv.buns[i] matches Some(b) && out_of_reach(
            o.level.player,
            b,
        ),
    ensures
        lv.move_outcome(d)->Ok_0.level.buns[i] == lv.buns[i],
{
    if let Some(t) = move_target(lv.player, d) {
        if t.is_inner() {
            lemma_pass_slots(lv.with_player(t), 0);
            assert(slot_rules(t, lv.buns[i], lv.with_player(t).creature_pass(0).0.buns[i]));
        }
    }
}

/// A move into a wall is refused as blocked.
pub proof fn lemma_blocked_move(lv: LevelView, d: Option<Direction>)
    requires
        move_target(lv.player, d) matches Some(t) && lv.solid_at(t),
    ensures
        lv.move_outcome(d) == Err::<MoveOutcome, MoveError>(MoveError::Blocked),
{
}

} // verus!
