//! The obstacle capability: anything the ball can collide with supplies a
//! contact test, a contact normal, and a bounce effect on the ball's
//! velocity. Paddles and walls implement it; the tick scheduler resolves
//! the ball against every obstacle in a fixed order.

use vstd::prelude::*;
use crate::ball::Ball;
use crate::geometry::VEL_LIMIT;
use crate::vec2::{is_unit, Vec2};

verus! {

pub trait Obstacle {
    /// Model of the contact test: does the ball touch this obstacle?
    /// It reads only the ball's geometry, never its velocity.
    spec fn spec_collision(&self, ball: &Ball) -> bool;

    /// Model of the contact normal: the unit vector the ball's velocity is
    /// mirrored about at the moment of contact.
    spec fn spec_normal(&self) -> Vec2;

    /// Horizontal component of the velocity after this obstacle's bounce
    /// response is applied to the velocity `(vx, vy)`.
    spec fn spec_bounced_x(&self, vx: int, vy: int) -> int;

    /// Vertical component of the velocity after this obstacle's bounce
    /// response is applied to the velocity `(vx, vy)`.
    spec fn spec_bounced_y(&self, vx: int, vy: int) -> int;

    /// Well-formedness the obstacle maintains; it makes the contact normal
    /// a unit vector.
    spec fn obs_wf(&self) -> bool;

    /// Contact test: a pure predicate over the obstacle and the ball's
    /// geometry.
    fn collision(&self, ball: &Ball) -> (r: bool)
        requires
            self.obs_wf(),
            ball.wf(),
        ensures
            r == self.spec_collision(ball),
    ;

    /// The contact normal for a ball in contact with this obstacle.
    fn normal(&self, ball: &Ball) -> (n: Vec2)
        requires
            self.obs_wf(),
        ensures
            n == self.spec_normal(),
            is_unit(n),
    ;

    /// Apply this obstacle's bounce response to the ball's velocity. The
    /// ball's geometry is left untouched.
    fn bounce_ball(&self, ball: &mut Ball)
        requires
            self.obs_wf(),
            old(ball).wf(),
            -VEL_LIMIT <= self.spec_bounced_x(
                old(ball).velocity.x as int,
                old(ball).velocity.y as int,
            ) <= VEL_LIMIT,
            -VEL_LIMIT <= self.spec_bounced_y(
                old(ball).velocity.x as int,
                old(ball).velocity.y as int,
            ) <= VEL_LIMIT,
        ensures
            final(ball).rect == old(ball).rect,
            final(ball).velocity.x == self.spec_bounced_x(
                old(ball).velocity.x as int,
                old(ball).velocity.y as int,
            ),
            final(ball).velocity.y == self.spec_bounced_y(
                old(ball).velocity.x as int,
                old(ball).velocity.y as int,
            ),
            final(ball).wf(),
    ;
}

} // verus!
