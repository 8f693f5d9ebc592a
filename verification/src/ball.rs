//! The ball: position, size and velocity, with motion integration and
//! collision resolution against the arena's obstacles.

use vstd::prelude::*;
use crate::border::Border;
use crate::geometry::{Rectangle, DT_FACTOR, POS_LIMIT, SCALE, VEL_LIMIT};
use crate::obstacle::Obstacle;
use crate::player::{Player, PADDLE_VEL_LIMIT};
use crate::vec2::{lemma_reflect_flips_one_component, Vec2};

verus! {

/// Horizontal start position of the ball, in micro-units (200 world units).
pub const BALL_START_X: i64 = 200_000_000;

/// Vertical start position of the ball, in micro-units (200 world units).
pub const BALL_START_Y: i64 = 200_000_000;

/// Horizontal serve velocity of the ball, in world units per second.
pub const BALL_START_VX: i64 = 20;

/// Vertical serve velocity of the ball, in world units per second.
pub const BALL_START_VY: i64 = 0;

/// Width and height of the ball, in world units.
pub const BALL_EXTENT: u32 = 25;

/// The ball: a rectangle and a velocity. Created once at match start and
/// reset to the same origin state whenever a goal is scored.
pub struct Ball {
    pub rect: Rectangle,
    pub velocity: Vec2,
}

/// The ball's velocity after collision resolution against the four
/// obstacles in the fixed order first paddle, second paddle, upper wall,
/// lower wall: every obstacle in contact applies its bounce, in that
/// order, even when an earlier one already altered the velocity. Contact
/// is judged against the ball's geometry, which resolution never moves.
pub open spec fn resolved_velocity(
    b: Ball,
    first: Player,
    second: Player,
    upper: Border,
    lower: Border,
) -> (int, int) {
    let vx0 = b.velocity.x as int;
    let vy0 = b.velocity.y as int;
    let (vx1, vy1) = if first.spec_collision(&b) {
        (first.spec_bounced_x(vx0, vy0), first.spec_bounced_y(vx0, vy0))
    } else {
        (vx0, vy0)
    };
    let (vx2, vy2) = if second.spec_collision(&b) {
        (second.spec_bounced_x(vx1, vy1), second.spec_bounced_y(vx1, vy1))
    } else {
        (vx1, vy1)
    };
    let (vx3, vy3) = if upper.spec_collision(&b) {
        (upper.spec_bounced_x(vx2, vy2), upper.spec_bounced_y(vx2, vy2))
    } else {
        (vx2, vy2)
    };
    let (vx4, vy4) = if lower.spec_collision(&b) {
        (lower.spec_bounced_x(vx3, vy3), lower.spec_bounced_y(vx3, vy3))
    } else {
        (vx3, vy3)
    };
    (vx4, vy4)
}

/// The origin state a goal resets the ball to: the fixed start position and
/// the fixed nonzero serve velocity. Width and height are never changed.
pub open spec fn reset_ball(b: Ball) -> Ball {
    Ball {
        rect: Rectangle {
            x: BALL_START_X,
            y: BALL_START_Y,
            width: b.rect.width,
            height: b.rect.height,
        },
        velocity: Vec2 { x: BALL_START_VX, y: BALL_START_VY },
    }
}

impl Ball {
    /// Geometry and velocity are within the model's ranges.
    pub open spec fn wf(&self) -> bool {
        &&& self.rect.wf()
        &&& self.velocity.in_vel_range()
    }

    /// A fresh ball at the start position with the serve velocity.
    pub fn new() -> (b: Ball)
        ensures
            b.rect == (Rectangle {
                x: BALL_START_X,
                y: BALL_START_Y,
                width: BALL_EXTENT,
                height: BALL_EXTENT,
            }),
            b.velocity == (Vec2 { x: BALL_START_VX, y: BALL_START_VY }),
            b.wf(),
    {
        Ball {
            rect: Rectangle {
                x: BALL_START_X,
                y: BALL_START_Y,
                width: BALL_EXTENT,
                height: BALL_EXTENT,
            },
            velocity: Vec2 { x: BALL_START_VX, y: BALL_START_VY },
        }
    }

    /// One fixed step of motion integration: position advances by the
    /// velocity times the fixed timestep. No bounds check happens here;
    /// goal detection is the tick scheduler's responsibility.
    pub fn move_ball(&mut self)
        requires
            old(self).wf(),
            -POS_LIMIT <= old(self).rect.x + old(self).velocity.x * DT_FACTOR <= POS_LIMIT,
            -POS_LIMIT <= old(self).rect.y + old(self).velocity.y * DT_FACTOR <= POS_LIMIT,
        ensures
            final(self).rect.x == old(self).rect.x + old(self).velocity.x * DT_FACTOR,
            final(self).rect.y == old(self).rect.y + old(self).velocity.y * DT_FACTOR,
            final(self).rect.width == old(self).rect.width,
            final(self).rect.height == old(self).rect.height,
            final(self).velocity == old(self).velocity,
            final(self).wf(),
    {
        self.rect.x = self.rect.x + self.velocity.x * DT_FACTOR;
        self.rect.y = self.rect.y + self.velocity.y * DT_FACTOR;
    }

    /// Resolve the ball against the four obstacles in the fixed order
    /// first paddle, second paddle, upper wall, lower wall. Every obstacle
    /// whose contact test holds applies its bounce unconditionally, even
    /// when an earlier obstacle in the same call already altered the
    /// velocity: sequential reflections compose. Only the velocity
    /// changes; the ball's geometry stays where it is.
    pub fn calc_velocity(
        &mut self,
        first: &Player,
        second: &Player,
        upper: &Border,
        lower: &Border,
    )
        requires
            old(self).wf(),
            first.obs_wf(),
            second.obs_wf(),
            upper.obs_wf(),
            lower.obs_wf(),
            -(VEL_LIMIT - 2 * PADDLE_VEL_LIMIT) <= old(self).velocity.y <= VEL_LIMIT - 2
                * PADDLE_VEL_LIMIT,
        ensures
            final(self).rect == old(self).rect,
            final(self).velocity.x as int == resolved_velocity(
                *old(self),
                *first,
                *second,
                *upper,
                *lower,
            ).0,
            final(self).velocity.y as int == resolved_velocity(
                *old(self),
                *first,
                *second,
                *upper,
                *lower,
            ).1,
            final(self).wf(),
    {
        if first.collision(self) {
            proof {
                lemma_reflect_flips_one_component(
                    self.velocity.x as int,
                    self.velocity.y as int,
                    first.norm,
                );
            }
            first.bounce_ball(self);
        }
        if second.collision(self) {
            proof {
                lemma_reflect_flips_one_component(
                    self.velocity.x as int,
                    self.velocity.y as int,
                    second.norm,
                );
            }
            second.bounce_ball(self);
        }
        if upper.collision(self) {
            proof {
                lemma_reflect_flips_one_component(
                    self.velocity.x as int,
                    self.velocity.y as int,
                    upper.spec_norm(),
                );
            }
            upper.bounce_ball(self);
        }
        if lower.collision(self) {
            proof {
                lemma_reflect_flips_one_component(
                    self.velocity.x as int,
                    self.velocity.y as int,
                    lower.spec_norm(),
                );
            }
            lower.bounce_ball(self);
        }
    }

    /// Restore the fixed start position and the fixed serve velocity,
    /// leaving width and height untouched.
    pub fn set_to_origin(&mut self)
        ensures
            *final(self) == reset_ball(*old(self)),
    {
        self.rect.x = BALL_START_X;
        self.rect.y = BALL_START_Y;
        self.velocity = Vec2 { x: BALL_START_VX, y: BALL_START_VY };
    }
}

/// A ball moving left that overlaps the left paddle's rectangle on both
/// axes has its horizontal velocity sign flipped by one collision
/// resolution pass, provided the right paddle is out of contact and the
/// walls carry the standard vertical normals, which leave the horizontal
/// component alone.
pub proof fn lemma_left_paddle_reflects(
    b: Ball,
    first: Player,
    second: Player,
    upper: Border,
    lower: Border,
)
    requires
        b.velocity.x < 0,
        first.norm == (Vec2 { x: 1, y: 0 }),
        first.spec_collision(&b),
        !second.spec_collision(&b),
        upper.spec_norm() == (Vec2 { x: 0, y: -1i64 }),
        lower.spec_norm() == (Vec2 { x: 0, y: 1 }),
    ensures
        resolved_velocity(b, first, second, upper, lower).0 == -(b.velocity.x as int),
        resolved_velocity(b, first, second, upper, lower).0 > 0,
{
}

} // verus!
