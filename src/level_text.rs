use vstd::prelude::*;

use crate::grid::GroundTile;
use crate::position::{cell_count, lemma_position_of, position_of, Position};
use crate::text::tokens;
use crate::rules::LevelView;

verus! {

/// Why level text was refused.
#[derive(Debug, Hash, PartialEq, Eq, Clone, Copy, Structural)]
pub enum ParseError {
    /// The text holds fewer tokens than the grid has cells.
    TooFewTokens { found: usize },
    /// The token of this cell has more than one character.
    ExtraCharacters { cell: usize },
    /// The token of this cell starts with no known tile letter.
    UnknownTile { cell: usize },
}

/// The letters of level text: `W` wall, `R` breakable wall, `T` floor,
/// `E` hole, `S` Paquerette's entry, `B` a bunny on floor.
pub open spec fn is_tile_code(c: char) -> bool {
    c == 'W' || c == 'R' || c == 'T' || c == 'E' || c == 'S' || c == 'B'
}

/// The ground that a tile letter lays.
pub open spec fn tile_of(c: char) -> GroundTile {
    if c == 'W' {
        GroundTile::Wall { breakable: false, tunnels: [false, false, false, false] }
    } else if c == 'R' {
        GroundTile::Wall { breakable: true, tunnels: [false, false, false, false] }
    } else if c == 'E' {
        GroundTile::Hole
    } else if c == 'S' {
        GroundTile::Floor { is_entry: true }
    } else {
        GroundTile::Floor { is_entry: false }
    }
}

/// The first fault among the tokens of cells `i` and after, if any.
pub open spec fn token_error(t: Seq<Seq<char>>, i: int) -> Option<ParseError>
    decreases cell_count() - i,
{
    if i < 0 || i >= cell_count() {
        None
    } else if i >= t.len() {
        Some(ParseError::TooFewTokens { found: t.len() as usize })
    } else if t[i].len() != 1 {
        Some(ParseError::ExtraCharacters { cell: i as usize })
    } else if !is_tile_code(t[i][0]) {
        Some(ParseError::UnknownTile { cell: i as usize })
    } else {
        token_error(t, i + 1)
    }
}

/// Where Paquerette stands after the first `n` cells: on the last `S` among
/// them, else still at `p`.
pub open spec fn start_after(t: Seq<Seq<char>>, n: int, p: Position) -> Position
    decreases n,
{
    if n <= 0 {
        p
    } else if t[n - 1][0] == 'S' {
        position_of(n - 1)
    } else {
        start_after(t, n - 1, p)
    }
}

/// The bunnies of the first `n` cells, in order.
pub open spec fn buns_in(t: Seq<Seq<char>>, n: int) -> Seq<Option<Position>>
    decreases n,
{
    if n <= 0 {
        seq![]
    } else if t[n - 1][0] == 'B' {
        buns_in(t, n - 1).push(Some(position_of(n - 1)))
    } else {
        buns_in(t, n - 1)
    }
}

/// Level text `s` read onto level `lv`: every cell gets the ground of its
/// token, Paquerette moves to the last `S`, and the bunnies of the text join
/// those already there. Tokens past the last cell are not read. Text without
/// an `S` is accepted and leaves Paquerette where she was.
pub open spec fn parse_onto(lv: LevelView, s: Seq<char>) -> Result<LevelView, ParseError> {
    let t = tokens(s);
    match token_error(t, 0) {
        Some(e) => Err(e),
        None => Ok(
            LevelView {
                tiles: Seq::new(cell_count() as nat, |i: int| tile_of(t[i][0])),
                player: start_after(t, cell_count(), lv.player),
                buns: lv.buns + buns_in(t, cell_count()),
            },
        ),
    }
}

/// Token `i` is a single known tile letter.
pub open spec fn token_valid(t: Seq<Seq<char>>, i: int) -> bool {
    t[i].len() == 1 && is_tile_code(t[i][0])
}

/// With enough tokens, each a single known letter, from cell `i` on, no fault is found there.
proof fn lemma_no_token_error(t: Seq<Seq<char>>, i: int)
    requires
        0 <= i,
        t.len() >= cell_count(),
        forall|k: int| i <= k < cell_count() ==> token_valid(t, k),
    ensures
        token_error(t, i) is None,
    decreases cell_count() - i,
{
    if i < cell_count() {
        assert(token_valid(t, i));
        lemma_no_token_error(t, i + 1);
    }
}

/// Level text of exactly one valid token per cell is accepted, and listing
/// the grid afterwards gives back, cell by cell, what each token says: a wall
/// exactly for `W` and `R`, breakable exactly for `R`; a hole exactly for `E`;
/// floor for `T`, `S` and `B`, an entry exactly for `S`.
pub proof fn lemma_parse_then_content(lv: LevelView, s: Seq<char>)
    requires
        tokens(s).len() == cell_count(),
        forall|k: int| 0 <= k < cell_count() ==> token_valid(tokens(s), k),
    ensures
        parse_onto(lv, s) is Ok,
        forall|i: int|
            0 <= i < cell_count() ==> {
                let c = #[trigger] tokens(s)[i][0];
                let cell = parse_onto(lv, s)->Ok_0.content_at(position_of(i))->0;
                let tile = cell.0;
                &&& (tile is Wall <==> (c == 'W' || c == 'R'))
                &&& (tile is Wall ==> (tile->breakable <==> c == 'R'))
                &&& (tile is Hole <==> c == 'E')
                &&& (tile is Floor <==> (c == 'T' || c == 'S' || c == 'B'))
                &&& (tile is Floor ==> (tile->is_entry <==> c == 'S'))
            },
{
    lemma_no_token_error(tokens(s), 0);
    assert forall|i: int| 0 <= i < cell_count() implies {
        let c = #[trigger] tokens(s)[i][0];
        let cell = parse_onto(lv, s)->Ok_0.content_at(position_of(i))->0;
                let tile = cell.0;
        &&& (tile is Wall <==> (c == 'W' || c == 'R'))
        &&& (tile is Wall ==> (tile->breakable <==> c == 'R'))
        &&& (tile is Hole <==> c == 'E')
        &&& (tile is Floor <==> (c == 'T' || c == 'S' || c == 'B'))
        &&& (tile is Floor ==> (tile->is_entry <==> c == 'S'))
    } by {
        lemma_position_of(i);
        assert(token_valid(tokens(s), i));
    }
}

} // verus!
