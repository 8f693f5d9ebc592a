//! The tick scheduler: advances the whole simulation by one fixed step.
//! Each tick drains the pending input events (edge-triggered velocity
//! changes and the quit signal), moves both paddles, resolves ball
//! collisions against the four obstacles in fixed order, and then either
//! records a goal and resets the ball or commits normal motion. The step
//! size is a constant, never derived from wall-clock time, so the physics
//! is deterministic.

use vstd::prelude::*;
use crate::ball::{reset_ball, resolved_velocity, Ball};
use crate::border::Border;
use crate::geometry::{ARENA_WIDTH, DT_FACTOR, POS_LIMIT, VEL_LIMIT};
use crate::obstacle::Obstacle;
use crate::player::{moved_y_spec, Player, PADDLE_STEP_LIMIT, PADDLE_VEL_LIMIT};
use crate::score::ScoreBoard;

verus! {

/// Speed a pressed movement key assigns to a paddle, in world units per
/// second.
pub const PADDLE_SPEED: i64 = 40;

/// Displacement of the fastest ball step the model admits, in
/// micro-units: `VEL_LIMIT` times `DT_FACTOR`.
pub const BALL_STEP_LIMIT: i64 = 100_000_000_000_000;

/// The keys the simulation understands. `W`/`S` steer the first paddle,
/// `Up`/`Down` the second, `Escape` quits; every other key is `Other`.
#[derive(Clone, Copy, PartialEq, Eq, Structural, Debug)]
pub enum GameKey {
    Escape,
    Up,
    Down,
    W,
    S,
    Other,
}

/// A discrete input edge event, delivered once per transition. The
/// `repeat` flag marks a key-down resampled by the host while the key is
/// held; such events must not re-assign a velocity.
#[derive(Clone, Copy, PartialEq, Eq, Structural, Debug)]
pub enum InputEvent {
    KeyDown { key: GameKey, repeat: bool },
    KeyUp { key: GameKey, repeat: bool },
}

/// The event asks to terminate the match: escape pressed, held or not.
pub open spec fn is_quit_event(e: InputEvent) -> bool {
    e matches InputEvent::KeyDown { key, .. } && key == GameKey::Escape
}

/// Some drained event asks to terminate the match.
pub open spec fn quit_requested(es: Seq<InputEvent>) -> bool {
    exists|i: int| 0 <= i < es.len() && is_quit_event(es[i])
}

/// One event's effect on the velocity of the paddle steered by `up_key`
/// and `down_key`: an initial press assigns the fixed speed in the key's
/// direction, a release of either key assigns exactly zero, and every
/// other event leaves the velocity alone.
pub open spec fn paddle_vel_step(v: int, e: InputEvent, up_key: GameKey, down_key: GameKey) -> int {
    match e {
        InputEvent::KeyDown { key, repeat } => if key == up_key && !repeat {
            -(PADDLE_SPEED as int)
        } else if key == down_key && !repeat {
            PADDLE_SPEED as int
        } else {
            v
        },
        InputEvent::KeyUp { key, repeat } => if (key == up_key || key == down_key) && !repeat {
            0
        } else {
            v
        },
    }
}

/// A paddle's velocity after a tick's events are drained in order: the
/// most recent edge wins, never a sum.
pub open spec fn paddle_vel_after(
    v: int,
    es: Seq<InputEvent>,
    up_key: GameKey,
    down_key: GameKey,
) -> int
    decreases es.len(),
{
    if es.len() == 0 {
        v
    } else {
        paddle_vel_step(
            paddle_vel_after(v, es.drop_last(), up_key, down_key),
            es.last(),
            up_key,
            down_key,
        )
    }
}

/// The ball has crossed the left goal boundary.
pub open spec fn goal_on_left(b: Ball) -> bool {
    b.rect.x < 0
}

/// The ball has crossed the right goal boundary; the left boundary takes
/// precedence when both would hold.
pub open spec fn goal_on_right(b: Ball) -> bool {
    !goal_on_left(b) && b.rect.spec_right_x() > ARENA_WIDTH as int
}

/// Advance the whole simulation by one fixed step: drain the input
/// events, move both paddles, resolve ball collisions in the fixed
/// obstacle order, then test the goal boundaries. A breach increments the
/// opposing player's score and resets the ball to its origin in place of
/// normal motion; otherwise the ball moves by its resolved velocity.
/// Returns whether the match should terminate.
pub fn tick(
    events: &Vec<InputEvent>,
    first_player: &mut Player,
    second_player: &mut Player,
    upper: &Border,
    lower: &Border,
    ball: &mut Ball,
    score_board: &mut ScoreBoard,
) -> (quit: bool)
    requires
        old(first_player).wf(),
        old(second_player).wf(),
        upper.obs_wf(),
        lower.obs_wf(),
        old(ball).wf(),
        -POS_LIMIT + PADDLE_STEP_LIMIT <= old(first_player).rect.y <= POS_LIMIT
            - PADDLE_STEP_LIMIT,
        -POS_LIMIT + PADDLE_STEP_LIMIT <= old(second_player).rect.y <= POS_LIMIT
            - PADDLE_STEP_LIMIT,
        -POS_LIMIT + BALL_STEP_LIMIT <= old(ball).rect.x <= POS_LIMIT - BALL_STEP_LIMIT,
        -POS_LIMIT + BALL_STEP_LIMIT <= old(ball).rect.y <= POS_LIMIT - BALL_STEP_LIMIT,
        -(VEL_LIMIT - 2 * PADDLE_VEL_LIMIT) <= old(ball).velocity.y <= VEL_LIMIT - 2
            * PADDLE_VEL_LIMIT,
        old(score_board).first < u32::MAX,
        old(score_board).second < u32::MAX,
    ensures
        quit == quit_requested(events@),
        final(first_player).velocity as int == paddle_vel_after(
            old(first_player).velocity as int,
            events@,
            GameKey::W,
            GameKey::S,
        ),
        final(second_player).velocity as int == paddle_vel_after(
            old(second_player).velocity as int,
            events@,
            GameKey::Up,
            GameKey::Down,
        ),
        final(first_player).rect.y as int == moved_y_spec(
            old(first_player).rect.y as int,
            old(first_player).rect.spec_bottom_y(),
            final(first_player).velocity as int,
        ),
        final(second_player).rect.y as int == moved_y_spec(
            old(second_player).rect.y as int,
            old(second_player).rect.spec_bottom_y(),
            final(second_player).velocity as int,
        ),
        final(first_player).rect.x == old(first_player).rect.x,
        final(first_player).rect.width == old(first_player).rect.width,
        final(first_player).rect.height == old(first_player).rect.height,
        final(first_player).norm == old(first_player).norm,
        final(first_player).wf(),
        final(second_player).rect.x == old(second_player).rect.x,
        final(second_player).rect.width == old(second_player).rect.width,
        final(second_player).rect.height == old(second_player).rect.height,
        final(second_player).norm == old(second_player).norm,
        final(second_player).wf(),
        goal_on_left(*old(ball)) ==> {
            &&& *final(ball) == reset_ball(*old(ball))
            &&& final(score_board).second == old(score_board).second + 1
            &&& final(score_board).first == old(score_board).first
            &&& final(score_board).needs_refresh
        },
        goal_on_right(*old(ball)) ==> {
            &&& *final(ball) == reset_ball(*old(ball))
            &&& final(score_board).first == old(score_board).first + 1
            &&& final(score_board).second == old(score_board).second
            &&& final(score_board).needs_refresh
        },
        !goal_on_left(*old(ball)) && !goal_on_right(*old(ball)) ==> {
            &&& *final(score_board) == *old(score_board)
            &&& final(ball).velocity.x as int == resolved_velocity(
                *old(ball),
                *final(first_player),
                *final(second_player),
                *upper,
                *lower,
            ).0
            &&& final(ball).velocity.y as int == resolved_velocity(
                *old(ball),
                *final(first_player),
                *final(second_player),
                *upper,
                *lower,
            ).1
            &&& final(ball).rect.x as int == old(ball).rect.x + resolved_velocity(
                *old(ball),
                *final(first_player),
                *final(second_player),
                *upper,
                *lower,
            ).0 * DT_FACTOR
            &&& final(ball).rect.y as int == old(ball).rect.y + resolved_velocity(
                *old(ball),
                *final(first_player),
                *final(second_player),
                *upper,
                *lower,
            ).1 * DT_FACTOR
            &&& final(ball).rect.width == old(ball).rect.width
            &&& final(ball).rect.height == old(ball).rect.height
        },
        final(ball).wf(),
{
    let mut quit = false;
    let mut idx: usize = 0;
    while idx < events.len()
        invariant
            idx <= events@.len(),
            quit == quit_requested(events@.subrange(0, idx as int)),
            first_player.velocity as int == paddle_vel_after(
                old(first_player).velocity as int,
                events@.subrange(0, idx as int),
                GameKey::W,
                GameKey::S,
            ),
            second_player.velocity as int == paddle_vel_after(
                old(second_player).velocity as int,
                events@.subrange(0, idx as int),
                GameKey::Up,
                GameKey::Down,
            ),
            -PADDLE_VEL_LIMIT <= first_player.velocity <= PADDLE_VEL_LIMIT,
            -PADDLE_VEL_LIMIT <= second_player.velocity <= PADDLE_VEL_LIMIT,
            first_player.rect == old(first_player).rect,
            first_player.norm == old(first_player).norm,
            second_player.rect == old(second_player).rect,
            second_player.norm == old(second_player).norm,
            *ball == *old(ball),
            *score_board == *old(score_board),
        decreases events@.len() - idx,
    {
        let e = events[idx];
        proof {
            assert(events@.subrange(0, (idx + 1) as int).drop_last() =~= events@.subrange(
                0,
                idx as int,
            ));
            assert(events@.subrange(0, (idx + 1) as int).last() == events@[idx as int]);
        }
        match e {
            InputEvent::KeyDown { key: GameKey::Escape, repeat: _ } => quit = true,
            InputEvent::KeyDown { key: GameKey::Up, repeat: false } => second_player.set_velocity(
                -PADDLE_SPEED,
            ),
            InputEvent::KeyDown { key: GameKey::Down, repeat: false } => second_player
                .set_velocity(PADDLE_SPEED),
            InputEvent::KeyDown { key: GameKey::W, repeat: false } => first_player.set_velocity(
                -PADDLE_SPEED,
            ),
            InputEvent::KeyDown { key: GameKey::S, repeat: false } => first_player.set_velocity(
                PADDLE_SPEED,
            ),
            InputEvent::KeyUp { key: GameKey::Up, repeat: false } => second_player.set_velocity(0),
            InputEvent::KeyUp { key: GameKey::Down, repeat: false } => second_player.set_velocity(
                0,
            ),
            InputEvent::KeyUp { key: GameKey::W, repeat: false } => first_player.set_velocity(0),
            InputEvent::KeyUp { key: GameKey::S, repeat: false } => first_player.set_velocity(0),
            _ => {},
        }
        idx = idx + 1;
    }
    proof {
        assert(events@.subrange(0, events@.len() as int) =~= events@);
    }
    first_player.move_player();
    second_player.move_player();
    ball.calc_velocity(first_player, second_player, upper, lower);
    if ball.rect.x < 0 {
        score_board.inc_second();
        ball.set_to_origin();
    } else {
        let right = ball.rect.right_x();
        if right > ARENA_WIDTH {
            score_board.inc_first();
            ball.set_to_origin();
        } else {
            ball.move_ball();
        }
    }
    quit
}

} // verus!

