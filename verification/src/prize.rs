//! Prize placement: when the board has no prize and the clock has just
//! fired, a new one is put on a random cell of the playfield.
//!
//! No cell is excluded: a prize may land on the snake.

use crate::config::{BLOCK_SIZE, MAX_CELL_X, MAX_CELL_Y};
use crate::setup::{Game, GameView, MoveTimer, Position, Prize};
use rand::rngs::ThreadRng;
use rand::Rng;
use vstd::prelude::*;

verus! {

/// `rand::rngs::ThreadRng`, the handle to the generator of the current
/// thread. Nothing is known of its state.
#[verifier::external_type_specification]
#[verifier::external_body]
pub struct ExThreadRng(rand::rngs::ThreadRng);

/// `rand::rng` hands out the generator of the current thread. Nothing is
/// claimed of it. The first call on a thread seeds the generator from the
/// operating system and panics if that source fails.
pub assume_specification[ rand::rng ]() -> (generator: ThreadRng)
;

/// `Rng::random_range` over the inclusive range `low..=high`: some value of
/// the range, which must not be empty. Which value is left open.
#[verifier::external_body]
fn random_in_range(generator: &mut ThreadRng, low: i32, high: i32) -> (value: i32)
    requires
        low <= high,
    ensures
        low <= value <= high,
{
    generator.random_range(low..=high)
}

/// `Rng::random_ratio`: true with a chance of `numerator` in `denominator`,
/// so always for a chance of one and never for a chance of zero. The
/// denominator must not be zero nor less than the numerator.
#[verifier::external_body]
fn random_ratio(generator: &mut ThreadRng, numerator: u32, denominator: u32) -> (hit: bool)
    requires
        0 < denominator,
        numerator <= denominator,
    ensures
        numerator == denominator ==> hit,
        numerator == 0 ==> !hit,
{
    generator.random_ratio(numerator, denominator)
}

/// The cells on which a prize may be placed: whole cells, at most
/// `MAX_CELL_X` to either side of the centre and `MAX_CELL_Y` above or
/// below it.
pub open spec fn in_spawn_area(position: Position) -> bool {
    &&& -(MAX_CELL_X * BLOCK_SIZE) <= position.x <= MAX_CELL_X * BLOCK_SIZE
    &&& -(MAX_CELL_Y * BLOCK_SIZE) <= position.y <= MAX_CELL_Y * BLOCK_SIZE
    &&& position.x % BLOCK_SIZE == 0
    &&& position.y % BLOCK_SIZE == 0
}

/// The position that two drawn cell indices and two drawn signs stand for.
pub open spec fn spec_prize_position(
    cell_x: i32,
    cell_y: i32,
    negate_x: bool,
    negate_y: bool,
) -> Position {
    Position {
        x: (if negate_x {
            -(cell_x * BLOCK_SIZE)
        } else {
            cell_x * BLOCK_SIZE
        }) as i32,
        y: (if negate_y {
            -(cell_y * BLOCK_SIZE)
        } else {
            cell_y * BLOCK_SIZE
        }) as i32,
    }
}

impl GameView {
    /// The state with a new, not yet drawn prize at `position`.
    pub open spec fn place_prize(self, position: Position) -> GameView {
        GameView {
            prize: Prize { cell: Some(position), entity: None },
            parts: self.parts,
            direction: self.direction,
            direction_changed: self.direction_changed,
        }
    }
}

/// Turns what was drawn into a position: each cell index is scaled to world
/// units and negated where its sign says so.
pub fn prize_position(
    cell_x: i32,
    cell_y: i32,
    negate_x: bool,
    negate_y: bool,
) -> (position: Position)
    requires
        0 <= cell_x <= MAX_CELL_X,
        0 <= cell_y <= MAX_CELL_Y,
    ensures
        position == spec_prize_position(cell_x, cell_y, negate_x, negate_y),
        negate_x ==> position.x == -(cell_x * BLOCK_SIZE),
        !negate_x ==> position.x == cell_x * BLOCK_SIZE,
        negate_y ==> position.y == -(cell_y * BLOCK_SIZE),
        !negate_y ==> position.y == cell_y * BLOCK_SIZE,
        in_spawn_area(position),
{
    let mut x: i32 = cell_x * BLOCK_SIZE;
    let mut y: i32 = cell_y * BLOCK_SIZE;
    if negate_x {
        x = -x;
    }
    if negate_y {
        y = -y;
    }
    Position { x, y }
}

/// The spawn area in numbers: no further than 620 units to either side and
/// 340 units up or down, on multiples of 20.
pub proof fn lemma_spawn_area_bounds(position: Position)
    requires
        in_spawn_area(position),
    ensures
        -620 <= position.x <= 620,
        -340 <= position.y <= 340,
        position.x % 20 == 0,
        position.y % 20 == 0,
{
}

/// The spawn area holds exactly the positions that a draw can give: each of
/// its cells comes from some pair of cell indices within the limits and some
/// pair of signs.
pub proof fn lemma_spawn_area_is_drawn(position: Position)
    requires
        in_spawn_area(position),
    ensures
        exists|cell_x: i32, cell_y: i32, negate_x: bool, negate_y: bool|
            0 <= cell_x <= MAX_CELL_X && 0 <= cell_y <= MAX_CELL_Y
                && #[trigger] spec_prize_position(cell_x, cell_y, negate_x, negate_y) == position,
{
    let negate_x = position.x < 0;
    let negate_y = position.y < 0;
    let cell_x = (if negate_x {
        -position.x
    } else {
        position.x as int
    }) / 20;
    let cell_y = (if negate_y {
        -position.y
    } else {
        position.y as int
    }) / 20;
    assert(spec_prize_position(cell_x as i32, cell_y as i32, negate_x, negate_y) == position);
}

/// Puts a new prize on the board if there is none and the clock has just
/// fired; otherwise leaves the game as it is. The new prize lies on a cell of
/// the spawn area, drawn at random; its position is returned.
pub fn spawn_prize(game: &mut Game, timer: &MoveTimer) -> (placed: Option<Position>)
    ensures
        placed.is_some() <==> old(game).prize.cell.is_none() && timer.finished,
        placed.is_none() ==> final(game)@ == old(game)@,
        placed.is_some() ==> final(game)@ == old(game)@.place_prize(placed.unwrap()),
        placed.is_some() ==> in_spawn_area(placed.unwrap()),
        old(game).prize.cell.is_some() ==> final(game)@ == old(game)@,
        final(game).wf() == old(game).wf(),
{
    if game.prize_present() {
        return None;
    }
    if !timer.just_finished() {
        return None;
    }
    let mut generator = rand::rng();
    let cell_x = random_in_range(&mut generator, 0, MAX_CELL_X);
    let cell_y = random_in_range(&mut generator, 0, MAX_CELL_Y);
    let negate_x = random_ratio(&mut generator, 1, 2);
    let negate_y = random_ratio(&mut generator, 1, 2);
    let position = prize_position(cell_x, cell_y, negate_x, negate_y);
    game.prize = Prize { cell: Some(position), entity: None };
    Some(position)
}

} // verus!
