//! The state of one game: the snake's body, the prize, the heading and its
//! latch, and the clock that paces the moves.

use std::collections::VecDeque;
use vstd::arithmetic::div_mod::lemma_small_mod;
use vstd::prelude::*;

verus! {

/// A point of the playfield, in world units. The snake and the prize sit on
/// multiples of the block size.
#[derive(Clone, Copy, Debug, PartialEq, Eq, Structural)]
pub struct Position {
    pub x: i32,
    pub y: i32,
}

/// The axis-aligned direction in which the snake travels.
#[derive(Clone, Copy, Debug, PartialEq, Eq, Structural)]
pub enum Direction {
    Left,
    Right,
    Up,
    Down,
}

impl Direction {
    /// The heading that points the other way on the same axis.
    pub open spec fn opposite(self) -> Direction {
        match self {
            Direction::Left => Direction::Right,
            Direction::Right => Direction::Left,
            Direction::Up => Direction::Down,
            Direction::Down => Direction::Up,
        }
    }

    /// True for `Left` and `Right`, false for `Up` and `Down`.
    pub open spec fn is_horizontal(self) -> bool {
        self == Direction::Left || self == Direction::Right
    }

    /// The step of one cell along the heading, as `(dx, dy)` in cells.
    pub open spec fn unit(self) -> (int, int) {
        match self {
            Direction::Left => (-1, 0),
            Direction::Right => (1, 0),
            Direction::Up => (0, 1),
            Direction::Down => (0, -1),
        }
    }
}

impl Default for Direction {
    /// A snake starts out heading right.
    fn default() -> (direction: Direction)
        ensures
            direction == Direction::Right,
    {
        Direction::Right
    }
}

/// One cell of the snake's body. The handle is whatever the renderer gave
/// for the cell's drawing; the game stores it and never looks inside.
#[derive(Clone, Copy, Debug, PartialEq, Eq, Structural)]
pub struct Part {
    pub position: Position,
    pub entity: Option<u64>,
}

/// The prize: on the board at `cell`, or absent. The handle is the
/// renderer's, as for a `Part`.
#[derive(Clone, Copy, Debug, PartialEq, Eq, Structural)]
pub struct Prize {
    pub cell: Option<Position>,
    pub entity: Option<u64>,
}

/// The whole state of a game. `parts` runs from the head, at the front, to
/// the tail; `direction_changed` is the latch that a change of heading sets
/// and the next move clears.
#[derive(Debug)]
pub struct Game {
    pub prize: Prize,
    pub parts: VecDeque<Part>,
    pub direction: Direction,
    pub direction_changed: bool,
}

/// The mathematical value of a `Game`: the same fields, with the body as a
/// sequence.
pub struct GameView {
    pub prize: Prize,
    pub parts: Seq<Part>,
    pub direction: Direction,
    pub direction_changed: bool,
}

impl View for Game {
    type V = GameView;

    open spec fn view(&self) -> GameView {
        GameView {
            prize: self.prize,
            parts: self.parts@,
            direction: self.direction,
            direction_changed: self.direction_changed,
        }
    }
}

impl Clone for Game {
    /// A copy of the state, handles included.
    fn clone(&self) -> (copy: Game)
        ensures
            copy@ == self@,
    {
        let parts = self.parts.clone();
        assert(parts@ =~= self.parts@);
        Game {
            prize: self.prize,
            parts,
            direction: self.direction,
            direction_changed: self.direction_changed,
        }
    }
}

impl GameView {
    /// A game in play has a head: the body is never empty.
    pub open spec fn wf(self) -> bool {
        self.parts.len() > 0
    }

    /// The cell of the head.
    pub open spec fn head(self) -> Position {
        self.parts[0].position
    }

    /// The state with `entity` stored as the handle of the head's drawing.
    /// Without a head there is nothing to store it with.
    pub open spec fn with_head_entity(self, entity: u64) -> GameView {
        if self.parts.len() == 0 {
            self
        } else {
            GameView {
                prize: self.prize,
                parts: self.parts.update(
                    0,
                    Part { position: self.parts[0].position, entity: Some(entity) },
                ),
                direction: self.direction,
                direction_changed: self.direction_changed,
            }
        }
    }

    /// The state with `entity` stored as the handle of the prize's drawing.
    /// Without a prize there is nothing to store it with.
    pub open spec fn with_prize_entity(self, entity: u64) -> GameView {
        if self.prize.cell.is_none() {
            self
        } else {
            GameView {
                prize: Prize { cell: self.prize.cell, entity: Some(entity) },
                parts: self.parts,
                direction: self.direction,
                direction_changed: self.direction_changed,
            }
        }
    }

    /// The state in which every game starts: one segment at the origin,
    /// a prize ten cells above it, heading right, the latch clear.
    pub open spec fn initial() -> GameView {
        GameView {
            prize: Prize { cell: Some(Position { x: 0, y: 200 }), entity: None },
            parts: seq![Part { position: Position { x: 0, y: 0 }, entity: None }],
            direction: Direction::Right,
            direction_changed: false,
        }
    }
}

impl Game {
    /// Well-formedness of the state, see [`GameView::wf`].
    pub open spec fn wf(&self) -> bool {
        self@.wf()
    }

    /// The cell of the head.
    pub fn head_position(&self) -> (position: Position)
        requires
            self.wf(),
        ensures
            position == self@.head(),
    {
        self.parts[0].position
    }

    /// Whether a prize is on the board.
    pub fn prize_present(&self) -> (present: bool)
        ensures
            present == self.prize.cell.is_some(),
    {
        self.prize.cell.is_some()
    }

    /// Whether the prize is on the board at `position`: both coordinates
    /// must match.
    pub fn is_prize_at(&self, position: Position) -> (found: bool)
        ensures
            found == (self.prize.cell == Some(position)),
    {
        match self.prize.cell {
            Some(cell) => cell.x == position.x && cell.y == position.y,
            None => false,
        }
    }

    /// Stores the handle that the renderer gave for the head.
    pub fn set_head_entity(&mut self, entity: u64)
        ensures
            final(self)@ == old(self)@.with_head_entity(entity),
            final(self).wf() == old(self).wf(),
    {
        match self.parts.pop_front() {
            Some(head) => {
                self.parts.push_front(Part { position: head.position, entity: Some(entity) });
                assert(self.parts@ =~= old(self).parts@.update(
                    0,
                    Part { position: head.position, entity: Some(entity) },
                ));
            },
            None => {},
        }
    }

    /// Stores the handle that the renderer gave for the prize.
    pub fn set_prize_entity(&mut self, entity: u64)
        ensures
            final(self)@ == old(self)@.with_prize_entity(entity),
            final(self).wf() == old(self).wf(),
    {
        if self.prize.cell.is_some() {
            self.prize.entity = Some(entity);
        }
    }
}

/// A new game in its starting state.
pub fn setup() -> (game: Game)
    ensures
        game@ == GameView::initial(),
        game.wf(),
{
    let mut parts: VecDeque<Part> = VecDeque::new();
    parts.push_front(Part { position: Position { x: 0, y: 0 }, entity: None });
    let game = Game {
        prize: Prize { cell: Some(Position { x: 0, y: 200 }), entity: None },
        parts,
        direction: Direction::default(),
        direction_changed: false,
    };
    game
}

/// A repeating countdown that paces the moves. Times are in nanoseconds:
/// `interval` is the length of one period, `elapsed` the time run in the
/// current period, `finished` whether the last `tick` completed a period.
#[derive(Clone, Copy, Debug, PartialEq, Eq, Structural)]
pub struct MoveTimer {
    pub interval: u64,
    pub elapsed: u64,
    pub finished: bool,
}

impl MoveTimer {
    /// A clock between two firings has not yet run its whole period; one
    /// without a period has run no time at all.
    pub open spec fn wf(self) -> bool {
        if self.interval == 0 {
            self.elapsed == 0
        } else {
            self.elapsed < self.interval
        }
    }

    /// Whether advancing the clock by `delta` completes the current period.
    pub open spec fn fires(self, delta: u64) -> bool {
        self.elapsed + delta >= self.interval
    }

    /// The clock after advancing it by `delta`. What runs over the end of a
    /// period is carried into the next one; several periods completed within
    /// one advance count as a single firing.
    pub open spec fn ticked(self, delta: u64) -> MoveTimer {
        MoveTimer {
            interval: self.interval,
            elapsed: if self.interval == 0 {
                0
            } else {
                ((self.elapsed + delta) % (self.interval as int)) as u64
            },
            finished: self.fires(delta),
        }
    }

    /// A clock at the start of its first period.
    pub fn new(interval: u64) -> (timer: MoveTimer)
        ensures
            timer == (MoveTimer { interval, elapsed: 0, finished: false }),
            timer.wf(),
    {
        MoveTimer { interval, elapsed: 0, finished: false }
    }

    /// Advances the clock by the time that passed since the last frame and
    /// tells whether a period was completed.
    pub fn tick(&mut self, delta: u64) -> (fired: bool)
        ensures
            *final(self) == old(self).ticked(delta),
            fired == old(self).fires(delta),
            final(self).wf(),
            old(self).wf() ==> (fired <==> delta >= old(self).interval - old(self).elapsed),
            old(self).wf() && !fired ==> final(self).elapsed == old(self).elapsed + delta,
    {
        let total: u128 = self.elapsed as u128 + delta as u128;
        let fired = total >= self.interval as u128;
        if self.interval == 0 {
            self.elapsed = 0;
        } else {
            proof {
                if !fired {
                    lemma_small_mod(total as nat, self.interval as nat);
                }
            }
            self.elapsed = (total % (self.interval as u128)) as u64;
        }
        self.finished = fired;
        fired
    }

    /// Whether the last `tick` completed a period.
    pub fn just_finished(&self) -> (finished: bool)
        ensures
            finished == self.finished,
    {
        self.finished
    }

    /// The time left in the current period.
    pub fn remaining(&self) -> (left: u64)
        ensures
            self.elapsed <= self.interval ==> left == self.interval - self.elapsed,
            self.elapsed > self.interval ==> left == 0,
    {
        if self.elapsed <= self.interval {
            self.interval - self.elapsed
        } else {
            0
        }
    }
}

} // verus!
