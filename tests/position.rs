use burrows::{Direction, Position};
use burrows::Direction::{Down, Left, Right, Up};

#[test]
fn test_position_order() {
    assert!(Position { x: 1, y: 1 } >= Position { x: 2, y: 0 });
}

#[test]
fn test_distance_to_straight_line() {
    let p = Position::default();
    for d in Direction::all() {
        assert_eq!(p.distance_to_straight_line(p.step(d)), Some((d, 1)))
    }
}

#[test]
fn distance_on_lines_and_off_them() {
    let a = Position::new(3, 4);
    assert_eq!(a.distance_to_straight_line(Position::new(3, 1)), Some((Direction::Up, 3)));
    assert_eq!(a.distance_to_straight_line(Position::new(3, 8)), Some((Direction::Down, 4)));
    assert_eq!(a.distance_to_straight_line(Position::new(0, 4)), Some((Direction::Left, 3)));
    assert_eq!(a.distance_to_straight_line(Position::new(9, 4)), Some((Direction::Right, 6)));
    assert_eq!(a.distance_to_straight_line(Position::new(4, 5)), None);
    assert_eq!(a.distance_to_straight_line(a), Some((Direction::Up, 0)));
}

#[test]
fn distance_across_the_whole_range() {
    let a = Position::new(-128, 0);
    let b = Position::new(127, 0);
    assert_eq!(a.distance_to_straight_line(b), Some((Direction::Right, 255)));
    assert_eq!(b.distance_to_straight_line(a), Some((Direction::Left, 255)));
}

#[test]
fn distance_to_each_neighbour_inside_the_grid() {
    let p = Position::new(7, 4);
    for d in Direction::all() {
        assert_eq!(p.distance_to_straight_line(p.step(d)), Some((d, 1)));
    }
}

#[test]
fn step_and_step_back() {
    let p = Position::new(5, 5);
    for d in Direction::all() {
        assert_eq!(p.step(d).step(d.neg()), p);
    }
    assert_eq!(p.step(Direction::Up), Position::new(5, 4));
    assert_eq!(p.step(Direction::Left), Position::new(4, 5));
    assert_eq!(p.step(Direction::Down), Position::new(5, 6));
    assert_eq!(p.step(Direction::Right), Position::new(6, 5));
    assert_eq!(p.step_opt(None), p);
    assert_eq!(p.step_opt(Some(Direction::Down)), Position::new(5, 6));
}

#[test]
fn checked_step_at_the_edge_of_the_range() {
    assert_eq!(Position::new(127, 0).checked_step(Direction::Right), None);
    assert_eq!(Position::new(0, -128).checked_step(Direction::Up), None);
    assert_eq!(Position::new(126, 0).checked_step(Direction::Right), Some(Position::new(127, 0)));
}

#[test]
fn turning_follows_the_cycle() {
    assert_eq!(Direction::all(), [Up, Left, Down, Right]);
    assert_eq!(Up.turn_left(), Left);
    assert_eq!(Left.turn_left(), Down);
    assert_eq!(Down.turn_left(), Right);
    assert_eq!(Right.turn_left(), Up);
    for d in Direction::all() {
        assert_eq!(d.turn_left().turn_right(), d);
        assert_eq!(d.turn_left().turn_left(), d.neg());
        assert_eq!(d.neg().neg(), d);
    }
    assert_eq!(Up.neg(), Down);
    assert_eq!(Left.neg(), Right);
    assert_eq!(Right.as_index(), 3);
}

#[test]
fn offsets_are_unit_vectors() {
    assert_eq!(Direction::Up.offset(), Position::new(0, -1));
    assert_eq!(Direction::Down.offset(), Position::new(0, 1));
    assert_eq!(Direction::Left.offset(), Position::new(-1, 0));
    assert_eq!(Direction::Right.offset(), Position::new(1, 0));
}

#[test]
fn inner_positions_and_indices() {
    assert!(Position::new(0, 0).is_inner());
    assert!(Position::new(14, 8).is_inner());
    assert!(!Position::new(15, 8).is_inner());
    assert!(!Position::new(0, -1).is_inner());
    assert!(Position::new(0, 3).is_start_of_inner_row());
    assert!(!Position::new(0, 0).is_start_of_inner_row());
    assert_eq!(Position::new(3, 2).into_clamped_usize(15, 9), Some((3, 2)));
    assert_eq!(Position::new(15, 2).into_clamped_usize(15, 9), None);
    assert_eq!(Position::new(-1, 2).into_clamped_usize(15, 9), None);
    assert_eq!(Position::new(3, 4).plus(Position::new(-2, 5)), Position::new(1, 9));
}

#[test]
fn iter_lists_the_grid_row_by_row() {
    let cells = Position::iter();
    assert_eq!(cells.len(), 135);
    assert_eq!(cells[0], Position::new(0, 0));
    assert_eq!(cells[14], Position::new(14, 0));
    assert_eq!(cells[15], Position::new(0, 1));
    assert_eq!(cells[134], Position::new(14, 8));
    let mut p = Position::new(-1, 0);
    let mut walked = Vec::new();
    while let Some(q) = p.next() {
        walked.push(q);
    }
    assert_eq!(walked, cells);
}
