//! The move of the snake: one cell along its heading at each firing of the
//! clock, growing by one segment where the head lands on the prize.
//!
//! The tail is dropped on every move that eats nothing, whether or not a
//! prize is on the board, so the length changes only by eating. The snake
//! may cross its own body and leave the playfield; neither ends the game.

use crate::config::BLOCK_SIZE;
use crate::setup::{Direction, Game, GameView, MoveTimer, Part, Position, Prize};
use vstd::prelude::*;

verus! {

/// What one move did, for whoever draws the game.
#[derive(Clone, Copy, Debug, PartialEq, Eq, Structural)]
pub struct Step {
    /// The cell of the new head.
    pub head: Position,
    /// The handle of the segment that was the head before the move.
    pub previous_head: Option<u64>,
    /// Whether the head landed on the prize, which is then gone.
    pub ate_prize: bool,
    /// The handle that left the game: the eaten prize's, else the dropped
    /// tail's.
    pub removed: Option<u64>,
}

impl GameView {
    /// The horizontal coordinate one cell ahead of the head.
    pub open spec fn next_x(self) -> int {
        self.head().x + self.direction.unit().0 * BLOCK_SIZE
    }

    /// The vertical coordinate one cell ahead of the head.
    pub open spec fn next_y(self) -> int {
        self.head().y + self.direction.unit().1 * BLOCK_SIZE
    }

    /// There is a head, and the cell ahead of it has coordinates that the
    /// machine can hold.
    pub open spec fn can_advance(self) -> bool {
        &&& self.wf()
        &&& i32::MIN <= self.next_x() <= i32::MAX
        &&& i32::MIN <= self.next_y() <= i32::MAX
    }

    /// The cell ahead of the head.
    pub open spec fn next_head(self) -> Position {
        Position { x: self.next_x() as i32, y: self.next_y() as i32 }
    }

    /// Whether the next move lands the head on the prize.
    pub open spec fn eats(self) -> bool {
        self.prize.cell == Some(self.next_head())
    }

    /// The body with a new head ahead of the old one.
    pub open spec fn grown(self) -> Seq<Part> {
        seq![Part { position: self.next_head(), entity: None }] + self.parts
    }

    /// The state after one move.
    pub open spec fn advance(self) -> GameView {
        if self.eats() {
            GameView {
                prize: Prize { cell: None, entity: None },
                parts: self.grown(),
                direction: self.direction,
                direction_changed: false,
            }
        } else {
            GameView {
                prize: self.prize,
                parts: self.grown().drop_last(),
                direction: self.direction,
                direction_changed: false,
            }
        }
    }

    /// The report of one move.
    pub open spec fn step(self) -> Step {
        Step {
            head: self.next_head(),
            previous_head: self.parts[0].entity,
            ate_prize: self.eats(),
            removed: if self.eats() {
                self.prize.entity
            } else {
                self.parts.last().entity
            },
        }
    }
}

impl Game {
    /// Whether the snake can move, see [`GameView::can_advance`].
    pub fn can_advance(&self) -> (possible: bool)
        ensures
            possible == self@.can_advance(),
    {
        if self.parts.len() == 0 {
            return false;
        }
        let head = self.parts[0].position;
        match self.direction {
            Direction::Left => head.x >= i32::MIN + BLOCK_SIZE,
            Direction::Right => head.x <= i32::MAX - BLOCK_SIZE,
            Direction::Up => head.y <= i32::MAX - BLOCK_SIZE,
            Direction::Down => head.y >= i32::MIN + BLOCK_SIZE,
        }
    }
}

/// Moves the snake by one cell: a new head is put ahead of the old one; if it
/// lands on the prize the prize is consumed and the snake keeps its tail,
/// otherwise the tail is dropped. The heading's latch is cleared.
pub fn advance(game: &mut Game) -> (step: Step)
    requires
        old(game)@.can_advance(),
    ensures
        final(game)@ == old(game)@.advance(),
        step == old(game)@.step(),
        final(game).wf(),
        final(game)@.head() == step.head,
        !final(game).direction_changed,
        final(game).direction == old(game).direction,
        !step.ate_prize ==> final(game).parts@.len() == old(game).parts@.len(),
        !step.ate_prize ==> final(game).prize == old(game).prize,
        step.ate_prize ==> final(game).parts@.len() == old(game).parts@.len() + 1,
        step.ate_prize ==> final(game).prize.cell.is_none(),
        step.ate_prize <==> old(game).prize.cell == Some(step.head),
{
    let head = game.parts[0];
    let last = game.parts[game.parts.len() - 1];
    let new_head = match game.direction {
        Direction::Left => Position { x: head.position.x - BLOCK_SIZE, y: head.position.y },
        Direction::Right => Position { x: head.position.x + BLOCK_SIZE, y: head.position.y },
        Direction::Up => Position { x: head.position.x, y: head.position.y + BLOCK_SIZE },
        Direction::Down => Position { x: head.position.x, y: head.position.y - BLOCK_SIZE },
    };
    game.parts.push_front(Part { position: new_head, entity: None });
    let ate_prize = game.is_prize_at(new_head);
    let removed = if ate_prize {
        let eaten = game.prize.entity;
        game.prize = Prize { cell: None, entity: None };
        eaten
    } else {
        game.parts.pop_back();
        last.entity
    };
    game.direction_changed = false;
    Step { head: new_head, previous_head: head.entity, ate_prize, removed }
}

/// A move changes the length of the body by eating alone: without it the
/// dropped tail makes up for the new head and the prize stays as it was; with
/// it the body is one segment longer and the prize is gone. Either way the
/// new head is the cell that was ahead, the rest follows in its old order,
/// and the latch is clear.
pub proof fn lemma_advance_length(state: GameView)
    requires
        state.wf(),
    ensures
        !state.eats() ==> state.advance().parts.len() == state.parts.len(),
        !state.eats() ==> state.advance().prize == state.prize,
        state.eats() ==> state.advance().parts.len() == state.parts.len() + 1,
        state.eats() ==> state.advance().prize.cell.is_none(),
        state.advance().wf(),
        state.advance().head() == state.next_head(),
        forall|i: int|
            1 <= i < state.advance().parts.len()
                ==> state.advance().parts[i] == state.parts[i - 1],
        !state.advance().direction_changed,
        state.advance().direction == state.direction,
{
}

/// One frame of the snake's motion: the clock is advanced by `delta`
/// nanoseconds, and the snake moves if that completes a period.
pub fn update_snake(timer: &mut MoveTimer, game: &mut Game, delta: u64) -> (step: Option<Step>)
    requires
        old(timer).fires(delta) ==> old(game)@.can_advance(),
    ensures
        *final(timer) == old(timer).ticked(delta),
        old(timer).fires(delta) ==> step == Some(old(game)@.step()),
        old(timer).fires(delta) ==> final(game)@ == old(game)@.advance(),
        !old(timer).fires(delta) ==> step.is_none(),
        !old(timer).fires(delta) ==> final(game)@ == old(game)@,
        old(game).wf() ==> final(game).wf(),
        step.is_none() || !step.unwrap().ate_prize
            ==> final(game).parts@.len() == old(game).parts@.len(),
        step.is_some() && step.unwrap().ate_prize
            ==> final(game).parts@.len() == old(game).parts@.len() + 1,
        step.is_some() && step.unwrap().ate_prize ==> final(game).prize.cell.is_none(),
{
    if timer.tick(delta) {
        Some(advance(game))
    } else {
        None
    }
}

} // verus!
