use burrows::{
    level, Direction, GroundTile, LevelState, MoveEffect, MoveError, ParseError, Position, TileItem,
};

fn text(rows: [&str; 9]) -> String {
    rows.iter()
        .map(|r| r.chars().map(|c| c.to_string()).collect::<Vec<_>>().join(" "))
        .collect::<Vec<_>>()
        .join("\n")
}

fn parsed(rows: [&str; 9]) -> LevelState {
    let mut l = LevelState::new();
    l.parse_level(&text(rows)).expect("valid level");
    l
}

const WALLS: &str = "WWWWWWWWWWWWWWW";

fn wall() -> GroundTile {
    GroundTile::Wall { breakable: false, tunnels: [false; 4] }
}

#[test]
fn new_level_is_all_floor() {
    let l = LevelState::new();
    assert_eq!(l.get_paquerette(), Position::new(0, 0));
    assert!(l.buns().is_empty());
    assert_eq!(
        l.get_at(Position::new(3, 3)),
        Some((GroundTile::Floor { is_entry: false }, None))
    );
    assert_eq!(l.get_at(Position::new(0, 0)).unwrap().1, Some(TileItem::Paquerette));
    assert_eq!(l.get_at(Position::new(15, 0)), None);
    assert_eq!(l.get_at(Position::new(0, 9)), None);
    assert_eq!(l.index_for(Position::new(14, 8)), Some((14, 8)));
    assert_eq!(l.index_for(Position::new(-1, 8)), None);
}

#[test]
fn player_shows_above_a_bunny() {
    let mut l = LevelState::new();
    l.set_bunny(Position::new(2, 2));
    l.set_bunny(Position::new(3, 3));
    l.set_paquerette(Position::new(2, 2));
    assert_eq!(l.get_at(Position::new(2, 2)).unwrap().1, Some(TileItem::Paquerette));
    assert_eq!(l.get_at(Position::new(3, 3)).unwrap().1, Some(TileItem::Bun));
    assert_eq!(l.get_at(Position::new(4, 3)).unwrap().1, None);
    l.set_tile_at(Position::new(4, 3), GroundTile::Hole);
    assert_eq!(l.get_at(Position::new(4, 3)), Some((GroundTile::Hole, None)));
    assert!(!l.is_solid(Position::new(4, 3)));
    l.set_tile_at(Position::new(4, 3), wall());
    assert!(l.is_solid(Position::new(4, 3)));
    assert!(l.is_solid_for_bun_from(Position::new(4, 3), Direction::Left));
    assert!(!l.is_solid(Position::new(-1, 3)));
}

#[test]
fn parse_reproduces_every_token() {
    let rows = [
        "WRTESBWWWWWWWWW",
        "TTTTTTTTTTTTTTT",
        "EEEEEEEEEEEEEEE",
        "RRRRRRRRRRRRRRR",
        "BTTTTTTTTTTTTTB",
        "TTTTTTTTTTTTTTT",
        "TTTTTTTTTTTTTTT",
        "TTTTTTTTTTTTTTT",
        "WWWWWWWWWWWWWWW",
    ];
    let l = parsed(rows);
    let content = l.content();
    assert_eq!(content.len(), 135);
    for (i, (p, (tile, _))) in content.iter().enumerate() {
        assert_eq!(*p, Position::new((i % 15) as i8, (i / 15) as i8));
        let c = rows[i / 15].as_bytes()[i % 15] as char;
        assert_eq!(tile.is_solid(), c == 'W' || c == 'R');
        assert_eq!(tile.is_hole(), c == 'E');
        match tile {
            GroundTile::Wall { breakable, .. } => assert_eq!(*breakable, c == 'R'),
            GroundTile::Floor { is_entry } => assert_eq!(*is_entry, c == 'S'),
            GroundTile::Hole => assert_eq!(c, 'E'),
        }
    }
    assert_eq!(l.get_paquerette(), Position::new(4, 0));
    assert_eq!(
        l.buns(),
        vec![Some(Position::new(5, 0)), Some(Position::new(0, 4)), Some(Position::new(14, 4))]
    );
}

#[test]
fn parse_splits_on_commas_and_any_white_space() {
    let mut body = String::from("S,T\tT\r\nT,,  W");
    for _ in 5..135 {
        body.push_str(" \u{2003}T");
    }
    let mut l = LevelState::new();
    assert_eq!(l.parse_level(&body), Ok(()));
    assert_eq!(l.get_paquerette(), Position::new(0, 0));
    assert!(l.is_solid(Position::new(4, 0)));
    assert!(!l.is_solid(Position::new(5, 0)));
}

#[test]
fn parse_ignores_tokens_after_the_last_cell() {
    let mut body = text([WALLS; 9]);
    body.push_str(" Z ZZ S");
    let mut l = LevelState::new();
    assert_eq!(l.parse_level(&body), Ok(()));
    assert_eq!(l.get_paquerette(), Position::new(0, 0));
}

#[test]
fn parse_faults_leave_the_level_alone() {
    let mut l = LevelState::new();
    l.set_bunny(Position::new(1, 1));
    let before = l.clone();

    let mut short = text([WALLS; 9]);
    short.truncate(short.len() - 2);
    assert_eq!(l.parse_level(&short), Err(ParseError::TooFewTokens { found: 134 }));
    assert_eq!(l.parse_level(""), Err(ParseError::TooFewTokens { found: 0 }));

    let mut rows = [WALLS; 9];
    rows[1] = "WWWQWWWWWWWWWWW";
    assert_eq!(l.parse_level(&text(rows)), Err(ParseError::UnknownTile { cell: 18 }));

    let long = text([WALLS; 9]).replacen("W", "WR", 1);
    assert_eq!(l.parse_level(&long), Err(ParseError::ExtraCharacters { cell: 0 }));

    assert_eq!(l.buns(), before.buns());
    assert_eq!(l.content(), before.content());
    assert_eq!(l.get_paquerette(), before.get_paquerette());
}

#[test]
fn parse_adds_bunnies_after_those_already_there() {
    let mut l = LevelState::new();
    l.set_bunny(Position::new(9, 9));
    let mut rows = [WALLS; 9];
    rows[2] = "WWBWWWWWWWWWWWW";
    l.parse_level(&text(rows)).unwrap();
    assert_eq!(l.buns(), vec![Some(Position::new(9, 9)), Some(Position::new(2, 2))]);
    assert_eq!(l.get_paquerette(), Position::new(0, 0));
}

#[test]
fn drawing_a_level() {
    let mut rows = [WALLS; 9];
    rows[1] = "WSTTBEWWWWWWWWR";
    let l = parsed(rows);
    let s = l.to_unicode_string();
    let lines: Vec<&str> = s.split('\n').collect();
    assert_eq!(lines.len(), 9);
    assert_eq!(lines[0], "\u{2593}".repeat(15));
    assert_eq!(lines[1], format!("\u{2593}P  bo{}\u{2591}", "\u{2593}".repeat(8)));
    assert_eq!(s.chars().count(), 135 + 8);
    assert_eq!(GroundTile::Hole.to_unicode(), 'o');
    assert_eq!(GroundTile::Floor { is_entry: true }.to_unicode(), ' ');
    assert_eq!(TileItem::Bunstack.to_unicode(), '\u{1F5FC}');
    assert_eq!(TileItem::from_char('B'), Some(TileItem::Bun));
    assert_eq!(TileItem::from_char('p'), Some(TileItem::Paquerette));
    assert_eq!(TileItem::from_char('x'), None);
}

#[test]
fn walking_into_a_wall_is_blocked() {
    let mut rows = [WALLS; 9];
    rows[1] = "WSTTTWWWWWWWWWW";
    let mut l = parsed(rows);
    let before = l.content();
    assert_eq!(l.move_to(Some(Direction::Up)).err(), Some(MoveError::Blocked));
    assert_eq!(l.move_to(Some(Direction::Left)).err(), Some(MoveError::Blocked));
    assert_eq!(l.get_paquerette(), Position::new(1, 1));
    assert_eq!(l.content(), before);
    let r = l.move_to(Some(Direction::Right)).unwrap();
    assert!(r.history.is_empty());
    assert_eq!(r.effect, None);
    assert_eq!(l.get_paquerette(), Position::new(2, 1));
}

#[test]
fn walking_off_the_grid_asks_for_the_neighbour() {
    let mut rows = [WALLS; 9];
    rows[1] = "STTTTWWWWWWWWWW";
    let mut l = parsed(rows);
    let r = l.move_to(Some(Direction::Left)).unwrap();
    assert_eq!(r.effect, Some(MoveEffect::MoveAdjacent(Direction::Left)));
    assert!(r.history.is_empty());
    assert_eq!(l.get_paquerette(), Position::new(0, 1));

    l.set_paquerette(Position::new(-1, 1));
    assert_eq!(l.move_to(None).err(), Some(MoveError::NoDirection));
    l.set_paquerette(Position::new(127, 1));
    let r = l.move_to(Some(Direction::Right)).unwrap();
    assert_eq!(r.effect, Some(MoveEffect::MoveAdjacent(Direction::Right)));
}

#[test]
fn stepping_onto_a_hole_asks_to_drop() {
    let mut rows = [WALLS; 9];
    rows[1] = "WSEWWWWWWWWWWWW";
    let mut l = parsed(rows);
    let r = l.move_to(Some(Direction::Right)).unwrap();
    assert_eq!(r.effect, Some(MoveEffect::DropHole));
    assert_eq!(l.get_paquerette(), Position::new(2, 1));
    let r = l.move_to(None).unwrap();
    assert_eq!(r.effect, Some(MoveEffect::DropHole));
}

#[test]
fn walking_onto_a_bunny_catches_it() {
    let mut rows = [WALLS; 9];
    rows[1] = "WSBWWWWWWWWWWWW";
    let mut l = parsed(rows);
    // Cornered: every direction leads into a wall, so the bunny stays.
    let r = l.move_to(None).unwrap();
    assert!(r.history.is_empty());
    assert_eq!(l.buns(), vec![Some(Position::new(2, 1))]);
    l.move_to(Some(Direction::Right)).unwrap();
    assert_eq!(l.buns(), vec![None]);
    assert_eq!(l.get_at(Position::new(2, 1)).unwrap().1, Some(TileItem::Paquerette));
    // A caught bunny stays caught.
    l.move_to(Some(Direction::Left)).unwrap();
    assert_eq!(l.buns(), vec![None]);
}

#[test]
fn far_or_unaligned_bunnies_stay() {
    let mut rows = [WALLS; 9];
    rows[1] = "WSTTTBTTTTTTTTW";
    rows[2] = "WTTTBTTTTTTTTTW";
    rows[3] = "WTTTTTTTTTTTTTW";
    let mut l = parsed(rows);
    let r = l.move_to(Some(Direction::Down)).unwrap();
    assert!(r.history.is_empty());
    // (5, 1) is off Paquerette's row and column; (4, 2) is three cells away.
    assert_eq!(l.buns(), vec![Some(Position::new(5, 1)), Some(Position::new(4, 2))]);
}

#[test]
fn a_wall_between_keeps_the_bunny_still() {
    let mut rows = [WALLS; 9];
    rows[1] = "WSTWBTTTTTTTTTW";
    rows[2] = "WTTTTTTTTTTTTTW";
    let mut l = parsed(rows);
    l.move_to(Some(Direction::Right)).unwrap();
    assert_eq!(l.get_paquerette(), Position::new(2, 1));
    assert_eq!(l.buns(), vec![Some(Position::new(4, 1))]);
}

#[test]
fn a_bunny_flees_through_a_corridor() {
    let mut rows = [WALLS; 9];
    rows[1] = "WSTBTTTTTTTWWWW";
    rows[2] = "WWWWWWWWWWTWWWW";
    rows[3] = "WWWWWWWWWWTWWWW";
    let mut l = parsed(rows);
    let r = l.move_to(Some(Direction::Right)).unwrap();
    // The bunny runs from (4, 1) along the corridor to the bend at (10, 1).
    assert_eq!(l.buns(), vec![Some(Position::new(10, 1))]);
    assert_eq!(r.history.len(), 6);
    for (k, frame) in r.history.iter().enumerate() {
        assert_eq!(frame.buns(), vec![Some(Position::new(4 + k as i8, 1))]);
        assert_eq!(frame.get_paquerette(), Position::new(2, 1));
    }
}

#[test]
fn a_bunny_runs_to_an_opening() {
    let mut rows = [WALLS; 9];
    rows[1] = "WWWWWWTWWWWWWWW";
    rows[2] = "WSTBTTTTWWWWWWW";
    let mut l = parsed(rows);
    assert!(!l.bun_can_see_deadend(Position::new(3, 2), Direction::Right));
    assert!(l.bun_can_see_deadend(Position::new(6, 2), Direction::Right));
    assert!(l.bun_can_see_deadend(Position::new(3, 2), Direction::Up));
    assert!(!l.bun_can_see_deadend(Position::new(14, 2), Direction::Right));
    let r = l.move_to(Some(Direction::Right)).unwrap();
    // The corridor opens upwards at (6, 2): the bunny stops there.
    assert_eq!(l.buns(), vec![Some(Position::new(6, 2))]);
    assert_eq!(r.history.len(), 2);
}

#[test]
fn a_bunny_avoids_a_dead_end() {
    let mut rows = [WALLS; 9];
    rows[0] = "WWWTWWWWWWWWWWW";
    rows[1] = "WWWTWWWWWWWWWWW";
    rows[2] = "WSTBTTWWWWWWWWW";
    let mut l = parsed(rows);
    assert!(l.bun_can_see_deadend(Position::new(3, 2), Direction::Right));
    assert!(!l.bun_can_see_deadend(Position::new(3, 2), Direction::Up));
    let r = l.move_to(Some(Direction::Right)).unwrap();
    // Straight on is a dead end; the turn to the left (up) leads off the grid.
    assert_eq!(l.buns(), vec![Some(Position::new(3, -1))]);
    assert_eq!(r.history.len(), 2);
    assert_eq!(r.history[0].buns(), vec![Some(Position::new(3, 1))]);
    assert_eq!(r.history[1].buns(), vec![Some(Position::new(3, 0))]);
}

#[test]
fn the_row_scenario_on_the_top_edge() {
    let mut rows = [WALLS; 9];
    rows[0] = "STBTTWWWWWWWWWW";
    let mut l = parsed(rows);
    let r = l.move_to(Some(Direction::Right)).unwrap();
    assert!(r.history.is_empty());
    assert_eq!(l.buns(), vec![Some(Position::new(3, 0))]);
    let r = l.move_to(Some(Direction::Right)).unwrap();
    assert!(r.history.is_empty());
    assert_eq!(l.buns(), vec![Some(Position::new(4, 0))]);
    // With the wall ahead and nothing above the top row, it leaves the grid.
    l.move_to(Some(Direction::Right)).unwrap();
    assert_eq!(l.buns(), vec![Some(Position::new(4, -1))]);
    l.move_to(Some(Direction::Right)).unwrap();
    assert_eq!(l.buns(), vec![Some(Position::new(4, -1))]);
}

#[test]
fn the_row_scenario_between_walls() {
    let mut rows = [WALLS; 9];
    rows[1] = "STBTTWWWWWWWWWW";
    let mut l = parsed(rows);
    let r = l.move_to(Some(Direction::Right)).unwrap();
    assert_eq!(r.history.len(), 1);
    assert_eq!(r.history[0].buns(), vec![Some(Position::new(3, 1))]);
    assert_eq!(l.buns(), vec![Some(Position::new(4, 1))]);
    let r = l.move_to(Some(Direction::Right)).unwrap();
    assert!(r.history.is_empty());
    assert_eq!(l.buns(), vec![Some(Position::new(4, 1))]);
    l.move_to(Some(Direction::Right)).unwrap();
    assert_eq!(l.buns(), vec![Some(Position::new(4, 1))]);
    l.move_to(Some(Direction::Right)).unwrap();
    assert_eq!(l.buns(), vec![None]);
}

#[test]
fn the_demo_level() {
    let l = level();
    assert_eq!(l.get_paquerette(), Position::new(1, 1));
    assert_eq!(l.get_at(Position::new(1, 1)).unwrap().0, GroundTile::Floor { is_entry: true });
    assert_eq!(l.get_at(Position::new(0, 4)).unwrap().0, wall());
    assert_eq!(l.get_at(Position::new(12, 6)).unwrap().0, GroundTile::Hole);
    assert_eq!(
        l.get_at(Position::new(7, 2)).unwrap().0,
        GroundTile::Wall { breakable: true, tunnels: [false; 4] }
    );
    assert_eq!(l.buns(), vec![Some(Position::new(10, 3)), Some(Position::new(4, 6))]);
}

#[test]
fn tokens_split_at_white_space_and_commas() {
    let t = burrows::split_tokens(" W,R\tT\n\nE ,S,,B ");
    let words: Vec<String> = t.iter().map(|w| w.iter().collect()).collect();
    assert_eq!(words, vec!["W", "R", "T", "E", "S", "B"]);
    assert!(burrows::split_tokens(" ,\t").is_empty());
    let t = burrows::split_tokens("ab\u{00A0}cd");
    assert_eq!(t, vec![vec!['a', 'b'], vec!['c', 'd']]);
}
