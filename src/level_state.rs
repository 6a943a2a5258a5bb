use vstd::prelude::*;

use crate::grid::{Direction, GroundTile, TileItem, LEVEL_HEIGHT, LEVEL_WIDTH};
use crate::level_text::{buns_in, parse_onto, start_after, tile_of, token_error, ParseError};
use crate::position::{
    cell_count, lemma_cell_index, lemma_position_of, position_of, Position, CELL_COUNT,
};
use crate::rules::{
    lemma_react_frame, move_target, run_measure, scan_measure, LevelView, MoveEffect, MoveError,
};
use crate::text::{char_views, split_tokens, tokens};

verus! {

/// Ground and item of one cell.
pub type TileContent = (GroundTile, Option<TileItem>);

/// The state of one level: its tiles, Paquerette, and the bunny slots.
#[derive(Debug, Clone, Hash, PartialEq, Eq)]
pub struct LevelState {
    data: Vec<GroundTile>,
    paquerette: Position,
    buns: Vec<Option<Position>>,
}

/// The views of a sequence of levels.
pub open spec fn views(h: Seq<LevelState>) -> Seq<LevelView> {
    h.map_values(|s: LevelState| s@)
}

impl View for LevelState {
    type V = LevelView;

    closed spec fn view(&self) -> LevelView {
        LevelView { tiles: self.data@, player: self.paquerette, buns: self.buns@ }
    }
}

impl Default for LevelState {
    fn default() -> (r: Self)
        ensures
            r.wf(),
            r@ == LevelView::empty(),
    {
        LevelState::new()
    }
}

impl LevelState {
    pub open spec fn wf(&self) -> bool {
        self@.wf()
    }

    pub fn new() -> (r: Self)
        ensures
            r.wf(),
            r@ == LevelView::empty(),
    {
        let mut data: Vec<GroundTile> = Vec::new();
        let n: usize = CELL_COUNT;
        while data.len() < n
            invariant
                n == cell_count(),
                data.len() <= n,
                forall|i: int| 0 <= i < data.len() ==> data@[i] == (GroundTile::Floor { is_entry: false }),
            decreases n - data.len(),
        {
            data.push(GroundTile::Floor { is_entry: false });
        }
        let r = LevelState { data, paquerette: Position { x: 0, y: 0 }, buns: Vec::new() };
        assert(r@.tiles =~= LevelView::empty().tiles);
        assert(r@.buns =~= LevelView::empty().buns);
        r
    }

    /// The grid indices of `p`, when it lies on the grid.
    pub fn index_for(&self, p: Position) -> (r: Option<(usize, usize)>)
        ensures
            r == (if p.is_inner() {
                Some((p.x as usize, p.y as usize))
            } else {
                None::<(usize, usize)>
            }),
    {
        p.into_clamped_usize(LEVEL_WIDTH as usize, LEVEL_HEIGHT as usize)
    }

    /// Ground and item at `p`, or `None` off the grid. Paquerette hides a bunny
    /// on the same cell.
    pub fn get_at(&self, p: Position) -> (r: Option<TileContent>)
        requires
            self.wf(),
        ensures
            r == self@.content_at(p),
    {
        let (x, y) = match self.index_for(p) {
            Some(xy) => xy,
            None => return None,
        };
        proof {
            lemma_cell_index(x as int, y as int);
        }
        let tile = self.data[y * (LEVEL_WIDTH as usize) + x];
        let mut item: Option<TileItem> = None;
        if self.paquerette == p {
            item = Some(TileItem::Paquerette);
        } else if self.has_bun_at(p) {
            item = Some(TileItem::Bun);
        }
        Some((tile, item))
    }

    /// Whether some bunny slot holds `p`.
    fn has_bun_at(&self, p: Position) -> (r: bool)
        ensures
            r == self@.bun_at(p),
    {
        let mut i: usize = 0;
        while i < self.buns.len()
            invariant
                i <= self.buns.len(),
                forall|k: int| 0 <= k < i ==> self.buns@[k] != Some(p),
            decreases self.buns.len() - i,
        {
            if self.buns[i] == Some(p) {
                return true;
            }
            i = i + 1;
        }
        false
    }

    /// Lays tile `t` at `p`, which lies on the grid.
    pub fn set_tile_at(&mut self, p: Position, t: GroundTile)
        requires
            old(self).wf(),
            p.is_inner(),
        ensures
            final(self)@ == (LevelView { tiles: old(self)@.tiles.update(p.cell(), t), ..old(self)@ }),
            final(self).wf(),
    {
        proof {
            lemma_cell_index(p.x as int, p.y as int);
        }
        let i = (p.y as usize) * (LEVEL_WIDTH as usize) + (p.x as usize);
        self.data[i] = t;
    }

    /// Puts Paquerette at `p`.
    pub fn set_paquerette(&mut self, p: Position)
        ensures
            final(self)@ == old(self)@.with_player(p),
    {
        self.paquerette = p;
    }

    /// Adds a bunny slot holding `p`, after the others.
    pub fn set_bunny(&mut self, p: Position)
        ensures
            final(self)@ == (LevelView { buns: old(self)@.buns.push(Some(p)), ..old(self)@ }),
    {
        self.buns.push(Some(p));
    }

    pub fn get_paquerette(&self) -> (r: Position)
        ensures
            r == self@.player,
    {
        self.paquerette
    }

    /// The bunny slots, in order.
    pub fn buns(&self) -> (r: Vec<Option<Position>>)
        ensures
            r@ == self@.buns,
    {
        let mut r: Vec<Option<Position>> = Vec::new();
        let mut i: usize = 0;
        while i < self.buns.len()
            invariant
                i <= self.buns.len(),
                r@ == self.buns@.subrange(0, i as int),
            decreases self.buns.len() - i,
        {
            r.push(self.buns[i]);
            i = i + 1;
            assert(r@ =~= self.buns@.subrange(0, i as int));
        }
        assert(r@ =~= self.buns@);
        r
    }

    /// Every cell of the grid with its content, in row-major order.
    pub fn content(&self) -> (r: Vec<(Position, TileContent)>)
        requires
            self.wf(),
        ensures
            r@.len() == cell_count(),
            forall|i: int|
                0 <= i < cell_count() ==> #[trigger] r@[i] == (
                position_of(i),
                self@.content_at(position_of(i))->0,
            ),
    {
        let cells = Position::iter();
        let mut r: Vec<(Position, TileContent)> = Vec::new();
        let mut i: usize = 0;
        while i < cells.len()
            invariant
                self.wf(),
                cells@.len() == cell_count(),
                forall|k: int| 0 <= k < cell_count() ==> #[trigger] cells@[k] == position_of(k),
                i <= cells.len(),
                r@.len() == i,
                forall|k: int|
                    0 <= k < i ==> #[trigger] r@[k] == (
                    position_of(k),
                    self@.content_at(position_of(k))->0,
                ),
            decreases cells.len() - i,
        {
            let p = cells[i];
            proof {
                lemma_position_of(i as int);
            }
            let c = match self.get_at(p) {
                Some(c) => c,
                None => {
                    proof {
                        assert(false);
                    }
                    return r;
                },
            };
            r.push((p, c));
            i = i + 1;
        }
        r
    }

    /// Whether `p` is a wall of the grid.
    pub fn is_solid(&self, p: Position) -> (r: bool)
        requires
            self.wf(),
        ensures
            r == self@.solid_at(p),
    {
        match self.get_at(p) {
            Some((t, _)) => t.is_solid(),
            None => false,
        }
    }

    /// Whether a bunny coming from direction `d` is stopped at `p`.
    pub fn is_solid_for_bun_from(&self, p: Position, d: Direction) -> (r: bool)
        requires
            self.wf(),
        ensures
            r == self@.solid_at(p),
    {
        match self.get_at(p) {
            Some((t, _)) => t.is_solid_for_bun_from(d),
            None => false,
        }
    }
}

/// The result of a move: the frames to show on the way, then the change of
/// level asked for, if any.
pub struct MoveRes {
    pub history: Vec<LevelState>,
    pub effect: Option<MoveEffect>,
}

/// A position at most one cell off the grid.
pub open spec fn near_grid(p: Position) -> bool {
    -1 <= p.x <= LEVEL_WIDTH && -1 <= p.y <= LEVEL_HEIGHT
}

impl LevelState {
    /// Whether a bunny at `p` looking along `d` sees a dead end.
    pub fn bun_can_see_deadend(&self, p: Position, d: Direction) -> (r: bool)
        requires
            self.wf(),
            p.can_step(d),
        ensures
            r == self@.sees_dead_end(p, d),
    {
        let left = d.turn_left();
        let right = d.turn_right();
        let mut cur = p;
        loop
            invariant
                self.wf(),
                cur.can_step(d),
                left == d.spec_turn_left(),
                right == d.spec_turn_right(),
                self@.sees_dead_end(cur, d) == self@.sees_dead_end(p, d),
            decreases scan_measure(cur, d),
        {
            let c = cur.step(d);
            if !c.is_inner() {
                return false;
            }
            if self.is_solid_for_bun_from(c, d) {
                return true;
            }
            if !self.is_solid_for_bun_from(c.step(left), left) || !self.is_solid_for_bun_from(
                c.step(right),
                right,
            ) {
                return false;
            }
            cur = c;
        }
    }

    /// See `LevelView::flight`.
    fn flight(&self, b: Position, dir: Direction) -> (r: Option<Direction>)
        requires
            self.wf(),
            b.is_inner(),
        ensures
            r == self@.flight(b, dir),
    {
        let l = dir.turn_left();
        let r = dir.turn_right();
        if !self.bun_can_see_deadend(b, dir) {
            Some(dir)
        } else if !self.bun_can_see_deadend(b, l) {
            Some(l)
        } else if !self.bun_can_see_deadend(b, r) {
            Some(r)
        } else if !self.is_solid_for_bun_from(b.step(dir), dir) {
            Some(dir)
        } else if !self.is_solid_for_bun_from(b.step(l), l) {
            Some(l)
        } else if !self.is_solid_for_bun_from(b.step(r), r) {
            Some(r)
        } else {
            None
        }
    }

    /// A copy of this level with bunny slot `i` set to `v`.
    fn snapshot_with_bun(&self, i: usize, v: Option<Position>) -> (r: LevelState)
        requires
            i < self@.buns.len(),
        ensures
            r@ == self@.with_bun(i as int, v),
    {
        let mut data: Vec<GroundTile> = Vec::new();
        let mut k: usize = 0;
        while k < self.data.len()
            invariant
                k <= self.data.len(),
                data@ == self.data@.subrange(0, k as int),
            decreases self.data.len() - k,
        {
            data.push(self.data[k]);
            k = k + 1;
            assert(data@ =~= self.data@.subrange(0, k as int));
        }
        assert(data@ =~= self.data@);
        let mut buns = self.buns();
        buns[i] = v;
        LevelState { data, paquerette: self.paquerette, buns }
    }

    /// Bunny `i`, having reached `b`, runs on along `d`; pushes one frame per
    /// cell it leaves and returns where it stops.
    fn run_corridor(&self, i: usize, b: Position, d: Direction, history: &mut Vec<LevelState>) -> (r:
        Position)
        requires
            self.wf(),
            i < self@.buns.len(),
            near_grid(b),
        ensures
            r == self@.run(i as int, b, d).0,
            views(final(history)@) == views(old(history)@) + self@.run(i as int, b, d).1,
    {
        let left = d.turn_left();
        let right = d.turn_right();
        let mut cur = b;
        let ghost added: Seq<LevelView> = seq![];
        loop
            invariant
                self.wf(),
                i < self@.buns.len(),
                near_grid(cur),
                left == d.spec_turn_left(),
                right == d.spec_turn_right(),
                views(history@) == views(old(history)@) + added,
                self@.run(i as int, b, d).0 == self@.run(i as int, cur, d).0,
                self@.run(i as int, b, d).1 == added + self@.run(i as int, cur, d).1,
            decreases run_measure(cur, d),
        {
            if !(self.is_solid_for_bun_from(cur.step(left), left) && self.is_solid_for_bun_from(
                cur.step(right),
                right,
            ) && !self.is_solid_for_bun_from(cur.step(d), d)) {
                assert(added + seq![] =~= added);
                return cur;
            }
            let frame = self.snapshot_with_bun(i, Some(cur));
            let ghost h0 = history@;
            history.push(frame);
            proof {
                assert(views(history@) =~= views(h0).push(frame@));
                assert(views(history@) =~= views(old(history)@) + added.push(frame@));
                let rest = self@.run(i as int, cur.spec_step(d), d).1;
                assert(added + (seq![frame@] + rest) =~= added.push(frame@) + rest);
                added = added.push(frame@);
            }
            cur = cur.step(d);
        }
    }
}

impl LevelState {
    /// Bunny `i` reacts to Paquerette, who stands on the grid; the frames of
    /// its run are pushed onto `history`.
    fn react(&mut self, i: usize, history: &mut Vec<LevelState>)
        requires
            old(self).wf(),
            old(self)@.player.is_inner(),
            i < old(self)@.buns.len(),
        ensures
            final(self)@ == old(self)@.react(i as int).0,
            views(final(history)@) == views(old(history)@) + old(self)@.react(i as int).1,
    {
        let b = match self.buns[i] {
            Some(b) => b,
            None => {
                assert(views(history@) + seq![] =~= views(history@));
                return ;
            },
        };
        if !b.is_inner() {
            assert(views(history@) + seq![] =~= views(history@));
            return ;
        }
        let (dir, dist) = match self.paquerette.distance_to_straight_line(b) {
            Some(line) => line,
            None => {
                assert(views(history@) + seq![] =~= views(history@));
                return ;
            },
        };
        if dist == 0 {
            self.buns[i] = None;
            assert(views(history@) + seq![] =~= views(history@));
            return ;
        }
        let first = self.paquerette.step(dir);
        if dist > 2 || self.is_solid(first) || (dist == 2 && self.is_solid(first.step(dir))) {
            assert(views(history@) + seq![] =~= views(history@));
            return ;
        }
        let m = match self.flight(b, dir) {
            Some(m) => m,
            None => {
                assert(views(history@) + seq![] =~= views(history@));
                return ;
            },
        };
        let end = self.run_corridor(i, b.step(m), m, history);
        self.buns[i] = Some(end);
    }

    /// One turn. Paquerette moves one cell in `d` (or, without a direction,
    /// stays where she is), unless a wall stands there; then every bunny, in
    /// slot order, reacts to her. Walking off the grid moves nothing and asks
    /// for the neighbouring burrow; stepping onto a hole asks to drop.
    pub fn move_to(&mut self, d: Option<Direction>) -> (r: Result<MoveRes, MoveError>)
        requires
            old(self).wf(),
        ensures
            final(self).wf(),
            match old(self)@.move_outcome(d) {
                Ok(o) => r matches Ok(res) && final(self)@ == o.level && views(res.history@)
                    == o.history && res.effect == o.effect,
                Err(e) => r == Err::<MoveRes, MoveError>(e) && final(self)@ == old(self)@,
            },
            (move_target(old(self)@.player, d) matches Some(t) && old(self)@.solid_at(t)) ==> r
                == Err::<MoveRes, MoveError>(MoveError::Blocked) && final(self)@ == old(self)@,
    {
        let target = match d {
            Some(d) => self.paquerette.checked_step(d),
            None => Some(self.paquerette),
        };
        let content = match target {
            Some(t) => self.get_at(t),
            None => None,
        };
        let (t, tile) = match (target, content) {
            (Some(t), Some((tile, _))) => (t, tile),
            _ => {
                return match d {
                    Some(d) => Ok(MoveRes { history: Vec::new(), effect: Some(MoveEffect::MoveAdjacent(d)) }),
                    None => Err(MoveError::NoDirection),
                };
            },
        };
        if tile.is_solid() {
            return Err(MoveError::Blocked);
        }
        self.paquerette = t;
        let effect = if tile.is_hole() {
            Some(MoveEffect::DropHole)
        } else {
            None
        };
        let mut history: Vec<LevelState> = Vec::new();
        let ghost target_pass = self@.creature_pass(0);
        let n = self.buns.len();
        let mut i: usize = 0;
        assert(views(history@) + target_pass.1 =~= target_pass.1);
        while i < n
            invariant
                self.wf(),
                self@.player.is_inner(),
                self@.buns.len() == n,
                i <= n,
                self@.creature_pass(i as int).0 == target_pass.0,
                views(history@) + self@.creature_pass(i as int).1 == target_pass.1,
            decreases n - i,
        {
            let ghost before = self@;
            let ghost h0 = views(history@);
            self.react(i, &mut history);
            proof {
                lemma_react_frame(before, i as int);
                let rest = self@.creature_pass(i as int + 1).1;
                assert(h0 + (before.react(i as int).1 + rest) =~= (h0 + before.react(i as int).1) + rest);
            }
            i = i + 1;
        }
        assert(views(history@) + seq![] =~= views(history@));
        Ok(MoveRes { history, effect })
    }
}

impl LevelState {
    /// Reads level text onto this level (see `parse_onto`). On a fault the
    /// level is left as it was.
    pub fn parse_level(&mut self, input: &str) -> (r: Result<(), ParseError>)
        requires
            old(self).wf(),
        ensures
            final(self).wf(),
            match parse_onto(old(self)@, input@) {
                Ok(v) => r is Ok && final(self)@ == v,
                Err(e) => r == Err::<(), ParseError>(e) && final(self)@ == old(self)@,
            },
    {
        let t = split_tokens(input);
        let ghost tv = char_views(t@);
        let cells = Position::iter();
        let mut data: Vec<GroundTile> = Vec::new();
        let mut player = self.paquerette;
        let mut found: Vec<Option<Position>> = Vec::new();
        let n: usize = CELL_COUNT;
        let mut i: usize = 0;
        while i < n
            invariant
                n == cell_count(),
                self.wf(),
                self@ == old(self)@,
                tv == tokens(input@),
                tv == char_views(t@),
                cells@.len() == cell_count(),
                forall|k: int| 0 <= k < cell_count() ==> #[trigger] cells@[k] == position_of(k),
                i <= n,
                data@.len() == i,
                forall|k: int| 0 <= k < i ==> k < tv.len() && #[trigger] tv[k].len() == 1,
                forall|k: int| 0 <= k < i ==> #[trigger] data@[k] == tile_of(tv[k][0]),
                token_error(tv, 0) == token_error(tv, i as int),
                player == start_after(tv, i as int, self@.player),
                found@ == buns_in(tv, i as int),
            decreases n - i,
        {
            if i >= t.len() {
                return Err(ParseError::TooFewTokens { found: t.len() });
            }
            let tok = &t[i];
            assert(tv[i as int] == tok@);
            if tok.len() != 1 {
                return Err(ParseError::ExtraCharacters { cell: i });
            }
            let c = tok[0];
            let p = cells[i];
            let tile = if c == 'W' {
                GroundTile::Wall { breakable: false, tunnels: [false, false, false, false] }
            } else if c == 'R' {
                GroundTile::Wall { breakable: true, tunnels: [false, false, false, false] }
            } else if c == 'T' || c == 'B' {
                GroundTile::Floor { is_entry: false }
            } else if c == 'E' {
                GroundTile::Hole
            } else if c == 'S' {
                GroundTile::Floor { is_entry: true }
            } else {
                return Err(ParseError::UnknownTile { cell: i });
            };
            if c == 'S' {
                player = p;
            }
            if c == 'B' {
                found.push(Some(p));
            }
            data.push(tile);
            i = i + 1;
        }
        let ghost tiles = data@;
        self.data = data;
        self.paquerette = player;
        let ghost old_buns = self.buns@;
        let mut k: usize = 0;
        while k < found.len()
            invariant
                self.data@ == tiles,
                self.paquerette == player,
                k <= found.len(),
                self.buns@ == old_buns + found@.subrange(0, k as int),
            decreases found.len() - k,
        {
            self.buns.push(found[k]);
            k = k + 1;
            assert(self.buns@ =~= old_buns + found@.subrange(0, k as int));
        }
        assert(found@.subrange(0, k as int) =~= found@);
        assert(self.data@ =~= Seq::new(cell_count() as nat, |j: int| tile_of(tv[j][0])));
        Ok(())
    }
}

/// The character that draws a cell: its item if any, else its ground.
pub open spec fn cell_char(c: TileContent) -> char {
    match c.1 {
        Some(item) => item.to_unicode(),
        None => c.0.to_unicode(),
    }
}

/// The drawing of the first `n` cells: one character per cell, rows
/// separated by a line break.
pub open spec fn drawing(lv: LevelView, n: int) -> Seq<char>
    decreases n,
{
    if n <= 0 {
        seq![]
    } else {
        let p = position_of(n - 1);
        let before = drawing(lv, n - 1);
        let before = if p.x == 0 && p.y > 0 {
            before.push('\n')
        } else {
            before
        };
        before.push(cell_char(lv.content_at(p)->0))
    }
}

/// Relies on `FromIterator<char> for String`: the string of these characters, in order.
#[verifier::external_body]
fn string_of(chars: &Vec<char>) -> (r: String)
    ensures
        r@ == chars@,
{
    chars.iter().collect()
}

impl LevelState {
    /// The level drawn as text, one line per row (see `drawing`).
    pub fn to_unicode_string(&self) -> (r: String)
        requires
            self.wf(),
        ensures
            r@ == drawing(self@, cell_count()),
    {
        let cells = self.content();
        let mut chars: Vec<char> = Vec::new();
        let mut i: usize = 0;
        while i < cells.len()
            invariant
                self.wf(),
                cells@.len() == cell_count(),
                forall|k: int|
                    0 <= k < cell_count() ==> #[trigger] cells@[k] == (
                    position_of(k),
                    self@.content_at(position_of(k))->0,
                ),
                i <= cells.len(),
                chars@ == drawing(self@, i as int),
            decreases cells.len() - i,
        {
            let (p, (tile, item)) = cells[i];
            if p.is_start_of_inner_row() {
                chars.push('\n');
            }
            let c = match item {
                Some(item) => item.to_unicode(),
                None => tile.to_unicode(),
            };
            chars.push(c);
            i = i + 1;
        }
        string_of(&chars)
    }
}

} // verus!
