use snake_logic::{is_safe_move, Battlesnake, Board, Coord, Move};

fn at(x: i32, y: i32) -> Coord {
    Coord { x, y }
}

fn snake(name: &str, body: Vec<Coord>) -> Battlesnake {
    let head = body[0];
    let length = body.len() as u32;
    Battlesnake { id: name.to_string(), name: name.to_string(), health: 90, body, head, length }
}

fn board(width: i32, height: i32, snakes: Vec<Battlesnake>) -> Board {
    Board { height, width, food: vec![], snakes }
}

#[test]
fn stepping_off_any_edge_is_unsafe() {
    let b = board(11, 7, vec![]);
    assert!(!is_safe_move(Move::LEFT, &snake("a", vec![at(0, 3)]), &b));
    assert!(!is_safe_move(Move::DOWN, &snake("a", vec![at(4, 0)]), &b));
    assert!(!is_safe_move(Move::RIGHT, &snake("a", vec![at(10, 3)]), &b));
    assert!(!is_safe_move(Move::UP, &snake("a", vec![at(4, 6)]), &b));
}

#[test]
fn staying_on_the_board_is_safe() {
    let b = board(11, 7, vec![]);
    assert!(is_safe_move(Move::RIGHT, &snake("a", vec![at(0, 3)]), &b));
    assert!(is_safe_move(Move::UP, &snake("a", vec![at(4, 0)]), &b));
    assert!(is_safe_move(Move::LEFT, &snake("a", vec![at(10, 3)]), &b));
    assert!(is_safe_move(Move::DOWN, &snake("a", vec![at(4, 6)]), &b));
    assert!(is_safe_move(Move::RIGHT, &snake("a", vec![at(9, 3)]), &b));
    assert!(is_safe_move(Move::UP, &snake("a", vec![at(4, 5)]), &b));
}

#[test]
fn width_and_height_are_not_swapped() {
    let b = board(11, 7, vec![]);
    assert!(is_safe_move(Move::RIGHT, &snake("a", vec![at(8, 6)]), &b));
    assert!(!is_safe_move(Move::UP, &snake("a", vec![at(8, 6)]), &b));
}

#[test]
fn own_body_is_unsafe() {
    let b = board(11, 11, vec![]);
    let you = snake("you", vec![at(5, 5), at(4, 5), at(4, 6), at(5, 6)]);
    assert!(!is_safe_move(Move::LEFT, &you, &b));
    assert!(!is_safe_move(Move::UP, &you, &b));
    assert!(is_safe_move(Move::RIGHT, &you, &b));
    assert!(is_safe_move(Move::DOWN, &you, &b));
}

#[test]
fn reversing_onto_the_neck_is_unsafe() {
    let b = board(11, 11, vec![]);
    assert!(!is_safe_move(Move::LEFT, &snake("you", vec![at(5, 5), at(4, 5)]), &b));
    assert!(!is_safe_move(Move::RIGHT, &snake("you", vec![at(5, 5), at(6, 5)]), &b));
    assert!(!is_safe_move(Move::DOWN, &snake("you", vec![at(5, 5), at(5, 4)]), &b));
    assert!(!is_safe_move(Move::UP, &snake("you", vec![at(5, 5), at(5, 6)]), &b));
}

#[test]
fn opponent_body_is_unsafe() {
    let other = snake("other", vec![at(7, 7), at(6, 7), at(6, 6), at(6, 5)]);
    let b = board(11, 11, vec![other]);
    let you = snake("you", vec![at(5, 5), at(5, 4)]);
    assert!(!is_safe_move(Move::RIGHT, &you, &b));
    assert!(is_safe_move(Move::LEFT, &you, &b));
    assert!(is_safe_move(Move::UP, &you, &b));
}

#[test]
fn opponent_head_is_unsafe_even_without_body() {
    let other = Battlesnake {
        id: "other".to_string(),
        name: "other".to_string(),
        health: 50,
        body: vec![],
        head: at(5, 6),
        length: 0,
    };
    let b = board(11, 11, vec![other]);
    let you = snake("you", vec![at(5, 5), at(5, 4)]);
    assert!(!is_safe_move(Move::UP, &you, &b));
    assert!(is_safe_move(Move::LEFT, &you, &b));
}

#[test]
fn later_opponents_are_looked_at_too() {
    let first = snake("first", vec![at(0, 0), at(0, 1)]);
    let second = snake("second", vec![at(9, 9), at(9, 8)]);
    let third = snake("third", vec![at(4, 4), at(4, 5)]);
    let b = board(11, 11, vec![first, second, third]);
    let you = snake("you", vec![at(5, 5), at(5, 4)]);
    assert!(!is_safe_move(Move::LEFT, &you, &b));
    assert!(is_safe_move(Move::RIGHT, &you, &b));
}

#[test]
fn the_snake_itself_may_be_listed_on_the_board() {
    let b = board(11, 11, vec![snake("you", vec![at(5, 5), at(5, 4)])]);
    let you = snake("you", vec![at(5, 5), at(5, 4)]);
    assert!(!is_safe_move(Move::DOWN, &you, &b));
    assert!(is_safe_move(Move::UP, &you, &b));
    assert!(is_safe_move(Move::LEFT, &you, &b));
}

#[test]
fn standing_still_is_never_safe() {
    let b = board(11, 11, vec![]);
    assert!(!is_safe_move(Move::NONE, &snake("you", vec![at(5, 5)]), &b));
    assert!(!is_safe_move(Move::NONE, &snake("you", vec![at(-1, 5)]), &b));
}

#[test]
fn single_segment_checks_bounds_and_opponents_only() {
    let other = snake("other", vec![at(1, 0), at(2, 0)]);
    let b = board(11, 11, vec![other]);
    let you = snake("you", vec![at(0, 0)]);
    assert!(!is_safe_move(Move::LEFT, &you, &b));
    assert!(!is_safe_move(Move::DOWN, &you, &b));
    assert!(!is_safe_move(Move::RIGHT, &you, &b));
    assert!(is_safe_move(Move::UP, &you, &b));
}

#[test]
fn coordinates_at_the_limits_do_not_overflow() {
    let b = board(i32::MAX, i32::MAX, vec![]);
    assert!(!is_safe_move(Move::RIGHT, &snake("a", vec![at(i32::MAX, 0)]), &b));
    assert!(!is_safe_move(Move::UP, &snake("a", vec![at(0, i32::MAX)]), &b));
    assert!(!is_safe_move(Move::LEFT, &snake("a", vec![at(i32::MIN, 0)]), &b));
    assert!(!is_safe_move(Move::DOWN, &snake("a", vec![at(0, i32::MIN)]), &b));
    assert!(is_safe_move(Move::RIGHT, &snake("a", vec![at(i32::MAX - 2, 0)]), &b));
    assert!(!is_safe_move(Move::RIGHT, &snake("a", vec![at(i32::MAX - 1, 0)]), &b));
}

#[test]
fn an_empty_board_has_no_safe_cell() {
    let you = snake("you", vec![at(0, 0)]);
    for direction in [Move::LEFT, Move::RIGHT, Move::UP, Move::DOWN] {
        assert!(!is_safe_move(direction, &you, &board(0, 0, vec![])));
        assert!(!is_safe_move(direction, &you, &board(-3, 5, vec![])));
    }
}
