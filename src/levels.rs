use vstd::prelude::*;

use crate::grid::{GroundTile, LEVEL_HEIGHT, LEVEL_WIDTH};
use crate::level_state::LevelState;
use crate::position::{cell_count, lemma_position_of, position_of, Position};

verus! {

/// The ground of the demo level at `p`: walls all round, a breakable wall
/// across the middle column above row 5, a hole near the lower right corner,
/// and Paquerette's entry in the upper left corner.
pub open spec fn demo_tile(p: Position) -> GroundTile {
    if p.x == 0 || p.y == 0 || p.x == LEVEL_WIDTH - 1 || p.y == LEVEL_HEIGHT - 1 {
        GroundTile::Wall { breakable: false, tunnels: [false, false, false, false] }
    } else if p.x == 7 && p.y < 5 {
        GroundTile::Wall { breakable: true, tunnels: [false, false, false, false] }
    } else if p.x == 12 && p.y == 6 {
        GroundTile::Hole
    } else if p.x == 1 && p.y == 1 {
        GroundTile::Floor { is_entry: true }
    } else {
        GroundTile::Floor { is_entry: false }
    }
}

/// A small demo level (see `demo_tile`) with Paquerette on her entry and two bunnies.
pub fn level() -> (r: LevelState)
    ensures
        r.wf(),
        forall|i: int| 0 <= i < cell_count() ==> #[trigger] r@.tiles[i] == demo_tile(position_of(i)),
        r@.player == (Position { x: 1, y: 1 }),
        r@.buns == seq![Some(Position { x: 10, y: 3 }), Some(Position { x: 4, y: 6 })],
{
    let mut res = LevelState::new();
    let cells = Position::iter();
    let mut i: usize = 0;
    while i < cells.len()
        invariant
            res.wf(),
            res@.player == (Position { x: 0, y: 0 }),
            res@.buns.len() == 0,
            cells@.len() == cell_count(),
            forall|k: int| 0 <= k < cell_count() ==> #[trigger] cells@[k] == position_of(k),
            i <= cells.len(),
            forall|k: int| 0 <= k < i ==> #[trigger] res@.tiles[k] == demo_tile(position_of(k)),
        decreases cells.len() - i,
    {
        let p = cells[i];
        proof {
            lemma_position_of(i as int);
        }
        let t = if p.x == 0 || p.y == 0 || p.x == LEVEL_WIDTH - 1 || p.y == LEVEL_HEIGHT - 1 {
            GroundTile::Wall { breakable: false, tunnels: [false, false, false, false] }
        } else if p.x == 7 && p.y < 5 {
            GroundTile::Wall { breakable: true, tunnels: [false, false, false, false] }
        } else if p.x == 12 && p.y == 6 {
            GroundTile::Hole
        } else if p.x == 1 && p.y == 1 {
            GroundTile::Floor { is_entry: true }
        } else {
            GroundTile::Floor { is_entry: false }
        };
        res.set_tile_at(p, t);
        i = i + 1;
    }
    res.set_paquerette(Position { x: 1, y: 1 });
    res.set_bunny(Position { x: 10, y: 3 });
    res.set_bunny(Position { x: 4, y: 6 });
    assert(res@.buns =~= seq![Some(Position { x: 10, y: 3 }), Some(Position { x: 4, y: 6 })]);
    res
}

} // verus!
