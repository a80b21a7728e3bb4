//! Direction control: the keys pressed in a frame become at most one change
//! of heading between two moves, and never a reversal.

use crate::setup::{Direction, Game, GameView};
use vstd::prelude::*;

verus! {

/// The direction keys that went down in the current frame.
#[derive(Clone, Copy, Debug, PartialEq, Eq, Structural)]
pub struct DirectionKeys {
    pub left: bool,
    pub right: bool,
    pub up: bool,
    pub down: bool,
}

impl DirectionKeys {
    /// Whether the key for `direction` went down.
    pub open spec fn requests(self, direction: Direction) -> bool {
        match direction {
            Direction::Left => self.left,
            Direction::Right => self.right,
            Direction::Up => self.up,
            Direction::Down => self.down,
        }
    }
}

/// The rank of a direction among requests of the same frame: the lowest is
/// tried first.
pub open spec fn priority(direction: Direction) -> int {
    match direction {
        Direction::Left => 0,
        Direction::Right => 1,
        Direction::Up => 2,
        Direction::Down => 3,
    }
}

/// A request is accepted only onto the other axis: a snake heading left or
/// right may turn up or down, one heading up or down may turn left or right.
pub open spec fn accepts(current: Direction, requested: Direction) -> bool {
    current.is_horizontal() != requested.is_horizontal()
}

/// The request that is honoured when `keys` arrive while the snake heads
/// `current`: the first one, by priority, that is accepted.
pub open spec fn granted(current: Direction, keys: DirectionKeys) -> Option<Direction> {
    if keys.left && accepts(current, Direction::Left) {
        Some(Direction::Left)
    } else if keys.right && accepts(current, Direction::Right) {
        Some(Direction::Right)
    } else if keys.up && accepts(current, Direction::Up) {
        Some(Direction::Up)
    } else if keys.down && accepts(current, Direction::Down) {
        Some(Direction::Down)
    } else {
        None
    }
}

impl GameView {
    /// The state after the keys of one frame: with the latch clear and a
    /// request granted, the heading is the granted one and the latch is set;
    /// otherwise nothing changes.
    pub open spec fn steer(self, keys: DirectionKeys) -> GameView {
        if self.direction_changed {
            self
        } else {
            match granted(self.direction, keys) {
                Some(direction) => GameView {
                    prize: self.prize,
                    parts: self.parts,
                    direction,
                    direction_changed: true,
                },
                None => self,
            }
        }
    }

    /// The state after the keys of several frames in a row, with no move in
    /// between.
    pub open spec fn steer_all(self, frames: Seq<DirectionKeys>) -> GameView
        decreases frames.len(),
    {
        if frames.len() == 0 {
            self
        } else {
            self.steer(frames[0]).steer_all(frames.drop_first())
        }
    }

    /// How many of the frames changed the heading.
    pub open spec fn heading_changes(self, frames: Seq<DirectionKeys>) -> nat
        decreases frames.len(),
    {
        if frames.len() == 0 {
            0
        } else {
            let next = self.steer(frames[0]);
            let changed: nat = if next.direction != self.direction {
                1
            } else {
                0
            };
            changed + next.heading_changes(frames.drop_first())
        }
    }
}

/// Whether some key of this frame asks for a turn that the current heading
/// allows.
pub fn is_valid_move(direction: &Direction, input: &DirectionKeys) -> (valid: bool)
    ensures
        valid == granted(*direction, *input).is_some(),
        valid == exists|requested: Direction|
            input.requests(requested) && accepts(*direction, requested),
{
    match direction {
        Direction::Left | Direction::Right => input.up || input.down,
        Direction::Up | Direction::Down => input.left || input.right,
    }
}

/// Applies the keys of one frame to the heading. Nothing happens while the
/// latch is set or when no key asks for an allowed turn; otherwise the first
/// allowed request, in the order left, right, up, down, becomes the heading
/// and the latch is set until the next move.
pub fn movement_system(keyboard_input: &DirectionKeys, game: &mut Game)
    ensures
        final(game)@ == old(game)@.steer(*keyboard_input),
        final(game).direction != old(game).direction.opposite(),
        final(game).direction != old(game).direction ==> !old(game).direction_changed,
        final(game).direction != old(game).direction ==> final(game).direction_changed,
        old(game).direction_changed ==> final(game)@ == old(game)@,
        final(game).wf() == old(game).wf(),
{
    if game.direction_changed || !is_valid_move(&game.direction, keyboard_input) {
        return;
    }
    let horizontal = match game.direction {
        Direction::Left | Direction::Right => true,
        Direction::Up | Direction::Down => false,
    };
    if keyboard_input.left && !horizontal {
        game.direction = Direction::Left;
    } else if keyboard_input.right && !horizontal {
        game.direction = Direction::Right;
    } else if keyboard_input.up && horizontal {
        game.direction = Direction::Up;
    } else if keyboard_input.down && horizontal {
        game.direction = Direction::Down;
    }
    game.direction_changed = true;
}

/// The granted request is a pressed and accepted one, and no pressed and
/// accepted one ranks before it; and whichever request is pressed, accepted
/// and ranked before all others of that sort is the granted one.
pub proof fn lemma_granted_is_first_accepted(current: Direction, keys: DirectionKeys)
    ensures
        forall|requested: Direction|
            granted(current, keys) == Some(requested) <==> {
                &&& keys.requests(requested)
                &&& accepts(current, requested)
                &&& forall|other: Direction|
                    keys.requests(other) && accepts(current, other)
                        ==> priority(requested) <= priority(other)
            },
{
}

/// Once the latch is set, no keys change anything until the next move.
pub proof fn lemma_latched_ignores_keys(state: GameView, frames: Seq<DirectionKeys>)
    requires
        state.direction_changed,
    ensures
        state.steer_all(frames) == state,
        state.heading_changes(frames) == 0,
    decreases frames.len(),
{
    if frames.len() > 0 {
        lemma_latched_ignores_keys(state, frames.drop_first());
    }
}

/// Between two moves at most one change of heading is applied, however many
/// frames of keys arrive.
pub proof fn lemma_at_most_one_heading_change(state: GameView, frames: Seq<DirectionKeys>)
    ensures
        state.heading_changes(frames) <= 1,
    decreases frames.len(),
{
    if frames.len() > 0 {
        let next = state.steer(frames[0]);
        if next.direction_changed {
            lemma_latched_ignores_keys(next, frames.drop_first());
        } else {
            lemma_at_most_one_heading_change(next, frames.drop_first());
        }
    }
}

/// Whatever keys arrive between two moves, the heading never ends up as the
/// reverse of what it was, and the body and the prize stay as they were.
pub proof fn lemma_never_reversed(state: GameView, frames: Seq<DirectionKeys>)
    ensures
        state.steer_all(frames).direction != state.direction.opposite(),
        state.steer_all(frames).parts == state.parts,
        state.steer_all(frames).prize == state.prize,
    decreases frames.len(),
{
    if frames.len() > 0 {
        let next = state.steer(frames[0]);
        if next.direction_changed {
            lemma_latched_ignores_keys(next, frames.drop_first());
        } else {
            lemma_never_reversed(next, frames.drop_first());
        }
    }
}

/// With the latch clear, the heading after a run of frames is the one
/// granted by the first frame that is granted anything: later requests count
/// for nothing.
pub proof fn lemma_first_granted_request_wins(
    state: GameView,
    frames: Seq<DirectionKeys>,
    first: int,
)
    requires
        !state.direction_changed,
        0 <= first < frames.len(),
        granted(state.direction, frames[first]).is_some(),
        forall|earlier: int|
            0 <= earlier < first ==> granted(state.direction, #[trigger] frames[earlier]).is_none(),
    ensures
        state.steer_all(frames).direction == granted(state.direction, frames[first]).unwrap(),
        state.steer_all(frames).direction_changed,
    decreases frames.len(),
{
    let next = state.steer(frames[0]);
    let rest = frames.drop_first();
    if first == 0 {
        lemma_latched_ignores_keys(next, rest);
    } else {
        assert forall|earlier: int| 0 <= earlier < first - 1 implies granted(
            state.direction,
            #[trigger] rest[earlier],
        ).is_none() by {
            assert(rest[earlier] == frames[earlier + 1]);
        }
        lemma_first_granted_request_wins(state, rest, first - 1);
    }
}

} // verus!
