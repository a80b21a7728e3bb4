use snake_game::movement::{is_valid_move, movement_system, DirectionKeys};
use snake_game::setup::{setup, Direction, Game};
use snake_game::snake::advance;

const NONE: DirectionKeys = DirectionKeys { left: false, right: false, up: false, down: false };
const LEFT: DirectionKeys = DirectionKeys { left: true, right: false, up: false, down: false };
const RIGHT: DirectionKeys = DirectionKeys { left: false, right: true, up: false, down: false };
const UP: DirectionKeys = DirectionKeys { left: false, right: false, up: true, down: false };
const DOWN: DirectionKeys = DirectionKeys { left: false, right: false, up: false, down: true };

const HEADINGS: [Direction; 4] =
    [Direction::Left, Direction::Right, Direction::Up, Direction::Down];

fn heading(direction: Direction) -> Game {
    let mut game = setup();
    game.direction = direction;
    game
}

fn reverse(direction: Direction) -> Direction {
    match direction {
        Direction::Left => Direction::Right,
        Direction::Right => Direction::Left,
        Direction::Up => Direction::Down,
        Direction::Down => Direction::Up,
    }
}

fn all_keys() -> Vec<DirectionKeys> {
    let mut all = Vec::new();
    for bits in 0..16u8 {
        all.push(DirectionKeys {
            left: bits & 1 != 0,
            right: bits & 2 != 0,
            up: bits & 4 != 0,
            down: bits & 8 != 0,
        });
    }
    all
}

#[test]
fn reversal_is_rejected() {
    let mut game = heading(Direction::Right);
    movement_system(&LEFT, &mut game);
    assert_eq!(game.direction, Direction::Right);
    assert!(!game.direction_changed);
}

#[test]
fn second_request_before_the_move_is_ignored() {
    let mut game = heading(Direction::Right);
    movement_system(&UP, &mut game);
    assert_eq!(game.direction, Direction::Up);
    assert!(game.direction_changed);
    movement_system(&DOWN, &mut game);
    assert_eq!(game.direction, Direction::Up);
    movement_system(&LEFT, &mut game);
    assert_eq!(game.direction, Direction::Up);
    assert!(game.direction_changed);
}

#[test]
fn default_heading_is_right() {
    assert_eq!(Direction::default(), Direction::Right);
}

#[test]
fn turn_is_valid_only_onto_the_other_axis() {
    for current in [Direction::Left, Direction::Right] {
        assert!(is_valid_move(&current, &UP));
        assert!(is_valid_move(&current, &DOWN));
        assert!(!is_valid_move(&current, &LEFT));
        assert!(!is_valid_move(&current, &RIGHT));
        assert!(!is_valid_move(&current, &NONE));
    }
    for current in [Direction::Up, Direction::Down] {
        assert!(is_valid_move(&current, &LEFT));
        assert!(is_valid_move(&current, &RIGHT));
        assert!(!is_valid_move(&current, &UP));
        assert!(!is_valid_move(&current, &DOWN));
        assert!(!is_valid_move(&current, &NONE));
    }
}

#[test]
fn same_heading_again_does_not_set_the_latch() {
    let mut game = heading(Direction::Right);
    movement_system(&RIGHT, &mut game);
    assert_eq!(game.direction, Direction::Right);
    assert!(!game.direction_changed);
    movement_system(&DOWN, &mut game);
    assert_eq!(game.direction, Direction::Down);
    assert!(game.direction_changed);
}

#[test]
fn no_key_changes_nothing() {
    for current in HEADINGS {
        let mut game = heading(current);
        movement_system(&NONE, &mut game);
        assert_eq!(game.direction, current);
        assert!(!game.direction_changed);
    }
}

#[test]
fn simultaneous_keys_go_by_priority() {
    let both_vertical = DirectionKeys { left: false, right: false, up: true, down: true };
    let mut game = heading(Direction::Left);
    movement_system(&both_vertical, &mut game);
    assert_eq!(game.direction, Direction::Up);

    let both_horizontal = DirectionKeys { left: true, right: true, up: false, down: false };
    let mut game = heading(Direction::Down);
    movement_system(&both_horizontal, &mut game);
    assert_eq!(game.direction, Direction::Left);

    let everything = DirectionKeys { left: true, right: true, up: true, down: true };
    let mut game = heading(Direction::Up);
    movement_system(&everything, &mut game);
    assert_eq!(game.direction, Direction::Left);
    let mut game = heading(Direction::Right);
    movement_system(&everything, &mut game);
    assert_eq!(game.direction, Direction::Up);
}

#[test]
fn rejected_key_does_not_shadow_an_allowed_one() {
    let left_and_up = DirectionKeys { left: true, right: false, up: true, down: false };
    let mut game = heading(Direction::Right);
    assert!(is_valid_move(&game.direction, &left_and_up));
    movement_system(&left_and_up, &mut game);
    assert_eq!(game.direction, Direction::Up);
    assert!(game.direction_changed);

    let right_and_down = DirectionKeys { left: false, right: true, up: false, down: true };
    let mut game = heading(Direction::Left);
    movement_system(&right_and_down, &mut game);
    assert_eq!(game.direction, Direction::Down);
}

#[test]
fn heading_is_never_reversed_by_one_frame() {
    for current in HEADINGS {
        for latch in [false, true] {
            for keys in all_keys() {
                let mut game = heading(current);
                game.direction_changed = latch;
                movement_system(&keys, &mut game);
                assert_ne!(game.direction, reverse(current));
                if latch {
                    assert_eq!(game.direction, current);
                    assert!(game.direction_changed);
                }
                assert_eq!(game.direction_changed, latch || game.direction != current);
            }
        }
    }
}

#[test]
fn at_most_one_change_between_two_moves() {
    let keys = all_keys();
    for current in HEADINGS {
        for first in 0..keys.len() {
            for second in 0..keys.len() {
                for third in [3usize, 5, 10, 12, 15] {
                    let mut game = heading(current);
                    let mut changes = 0;
                    for frame in [first, second, third] {
                        let before = game.direction;
                        movement_system(&keys[frame], &mut game);
                        if game.direction != before {
                            changes += 1;
                        }
                    }
                    assert!(changes <= 1);
                    assert_ne!(game.direction, reverse(current));
                }
            }
        }
    }
}

#[test]
fn new_request_is_honoured_after_the_move() {
    let mut game = heading(Direction::Right);
    movement_system(&UP, &mut game);
    movement_system(&LEFT, &mut game);
    assert_eq!(game.direction, Direction::Up);
    advance(&mut game);
    assert!(!game.direction_changed);
    movement_system(&LEFT, &mut game);
    assert_eq!(game.direction, Direction::Left);
    assert!(game.direction_changed);
}

#[test]
fn steering_leaves_body_and_prize_alone() {
    let mut game = setup();
    let before = game.clone();
    movement_system(&DOWN, &mut game);
    assert_eq!(game.parts, before.parts);
    assert_eq!(game.prize, before.prize);
    assert_eq!(game.direction, Direction::Down);
}
