use snake_game::config::{BLOCK_SIZE, MAX_CELL_X, MAX_CELL_Y, PLAYFIELD_HEIGHT, PLAYFIELD_WIDTH};
use snake_game::prize::{prize_position, spawn_prize};
use snake_game::setup::{setup, Game, MoveTimer, Position, Prize};

fn fired() -> MoveTimer {
    MoveTimer { interval: 100, elapsed: 0, finished: true }
}

fn idle() -> MoveTimer {
    MoveTimer { interval: 100, elapsed: 40, finished: false }
}

fn without_prize() -> Game {
    let mut game = setup();
    game.prize = Prize { cell: None, entity: None };
    game
}

#[test]
fn cell_limits_come_from_the_playfield() {
    assert_eq!(MAX_CELL_X, PLAYFIELD_WIDTH / 2 / BLOCK_SIZE - 1);
    assert_eq!(MAX_CELL_Y, PLAYFIELD_HEIGHT / 2 / BLOCK_SIZE - 1);
    assert_eq!(MAX_CELL_X, 31);
    assert_eq!(MAX_CELL_Y, 17);
}

#[test]
fn prize_position_scales_and_signs() {
    assert_eq!(prize_position(3, 5, false, false), Position { x: 60, y: 100 });
    assert_eq!(prize_position(3, 5, true, false), Position { x: -60, y: 100 });
    assert_eq!(prize_position(3, 5, false, true), Position { x: 60, y: -100 });
    assert_eq!(prize_position(3, 5, true, true), Position { x: -60, y: -100 });
}

#[test]
fn prize_position_at_the_limits() {
    assert_eq!(prize_position(31, 17, false, false), Position { x: 620, y: 340 });
    assert_eq!(prize_position(31, 17, true, true), Position { x: -620, y: -340 });
    assert_eq!(prize_position(0, 0, true, true), Position { x: 0, y: 0 });
    assert_eq!(prize_position(0, 0, false, false), Position { x: 0, y: 0 });
}

#[test]
fn no_prize_is_placed_over_another() {
    let mut game = setup();
    let before = game.clone();
    assert_eq!(spawn_prize(&mut game, &fired()), None);
    assert_eq!(game.prize, before.prize);
    assert_eq!(game.prize.cell, Some(Position { x: 0, y: 200 }));
    assert_eq!(game.parts, before.parts);

    game.prize.entity = Some(3);
    for _ in 0..50 {
        assert_eq!(spawn_prize(&mut game, &fired()), None);
        assert_eq!(game.prize, Prize { cell: Some(Position { x: 0, y: 200 }), entity: Some(3) });
    }
}

#[test]
fn no_prize_is_placed_between_ticks() {
    let mut game = without_prize();
    for _ in 0..50 {
        assert_eq!(spawn_prize(&mut game, &idle()), None);
        assert!(!game.prize_present());
    }
}

#[test]
fn missing_prize_is_replaced_on_a_tick() {
    let mut game = without_prize();
    let before = game.clone();
    let placed = spawn_prize(&mut game, &fired());
    assert!(placed.is_some());
    assert_eq!(game.prize, Prize { cell: placed, entity: None });
    assert!(game.prize_present());
    assert!(game.is_prize_at(placed.unwrap()));
    assert_eq!(game.parts, before.parts);
    assert_eq!(game.direction, before.direction);
    assert_eq!(game.direction_changed, before.direction_changed);
}

#[test]
fn spawned_prizes_lie_on_cells_of_the_playfield() {
    for _ in 0..2000 {
        let mut game = without_prize();
        let p = spawn_prize(&mut game, &fired()).unwrap();
        assert!(p.x.abs() <= 620);
        assert!(p.y.abs() <= 340);
        assert_eq!(p.x % 20, 0);
        assert_eq!(p.y % 20, 0);
        assert_eq!(game.prize.cell, Some(p));
    }
}

#[test]
fn spawned_prizes_vary() {
    let mut xs = std::collections::BTreeSet::new();
    let mut ys = std::collections::BTreeSet::new();
    for _ in 0..2000 {
        let mut game = without_prize();
        let p = spawn_prize(&mut game, &fired()).unwrap();
        xs.insert(p.x);
        ys.insert(p.y);
    }
    assert!(xs.len() > 10);
    assert!(ys.len() > 10);
    assert!(xs.iter().any(|x| *x < 0));
    assert!(xs.iter().any(|x| *x > 0));
    assert!(ys.iter().any(|y| *y < 0));
    assert!(ys.iter().any(|y| *y > 0));
    assert!(xs.iter().any(|x| x.abs() != 620));
    assert!(ys.iter().any(|y| y.abs() != 340));
}
