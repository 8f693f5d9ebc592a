//! The arena's walls: an upper and a lower border spanning the full arena
//! width, immutable for the match duration. A wall bounces the ball by pure
//! reflection about its fixed normal, with no added term.

use vstd::prelude::*;
use crate::ball::Ball;
use crate::geometry::SCALE;
use crate::obstacle::Obstacle;
use crate::vec2::{is_unit, reflect_xi, reflect_yi, Vec2};

verus! {

/// Largest `bottom` coordinate of a lower border, in world units.
pub const MAX_BORDER_Y: i64 = 1_000_000;

/// A wall. The upper border sits at the top of the arena; the lower border
/// sits at the boundary row `bottom`. `width` is the drawing span in world
/// units and plays no part in the contact test: walls span the full arena
/// width.
pub enum Border {
    Upper { norm: Vec2, width: i64 },
    Lower { norm: Vec2, bottom: i64, width: i64 },
}

impl Border {
    /// The fixed normal of this wall.
    pub open spec fn spec_norm(&self) -> Vec2 {
        match *self {
            Border::Upper { norm, .. } => norm,
            Border::Lower { norm, .. } => norm,
        }
    }
}

impl Obstacle for Border {
    /// The upper wall contacts a ball above the arena; the lower wall
    /// contacts a ball whose bottom edge is below the boundary row. There
    /// is no horizontal test.
    open spec fn spec_collision(&self, ball: &Ball) -> bool {
        match *self {
            Border::Upper { .. } => ball.rect.y < 0,
            Border::Lower { bottom, .. } => ball.rect.spec_bottom_y() > bottom * (SCALE as int),
        }
    }

    open spec fn spec_normal(&self) -> Vec2 {
        self.spec_norm()
    }

    /// A wall bounce is pure reflection about the wall's normal.
    open spec fn spec_bounced_x(&self, vx: int, vy: int) -> int {
        reflect_xi(vx, vy, self.spec_norm().x as int, self.spec_norm().y as int)
    }

    open spec fn spec_bounced_y(&self, vx: int, vy: int) -> int {
        reflect_yi(vx, vy, self.spec_norm().x as int, self.spec_norm().y as int)
    }

    /// The normal is a unit vector and the boundary row of a lower border
    /// is within the model's range.
    open spec fn obs_wf(&self) -> bool {
        &&& is_unit(self.spec_norm())
        &&& match *self {
            Border::Upper { .. } => true,
            Border::Lower { bottom, .. } => 0 <= bottom <= MAX_BORDER_Y,
        }
    }

    fn collision(&self, ball: &Ball) -> (r: bool) {
        match self {
            Border::Upper { .. } => ball.rect.y < 0,
            Border::Lower { bottom, .. } => ball.rect.bottom_y() > *bottom * SCALE,
        }
    }

    fn normal(&self, _ball: &Ball) -> (n: Vec2) {
        match self {
            Border::Lower { norm, .. } => *norm,
            Border::Upper { norm, .. } => *norm,
        }
    }

    fn bounce_ball(&self, ball: &mut Ball) {
        let n = self.normal(ball);
        ball.velocity = crate::vec2::reflection(&ball.velocity, &n);
    }
}

/// A ball above the arena is in contact with the upper wall, and
/// resolving against that wall flips the sign of the vertical velocity
/// component while leaving the horizontal one unchanged.
pub proof fn lemma_upper_wall_flips_vertical(b: Ball, w: Border)
    requires
        w is Upper,
        w.spec_norm() == (Vec2 { x: 0, y: -1i64 }),
        b.rect.y < 0,
    ensures
        w.spec_collision(&b),
        w.spec_bounced_x(b.velocity.x as int, b.velocity.y as int) == b.velocity.x as int,
        w.spec_bounced_y(b.velocity.x as int, b.velocity.y as int) == -(b.velocity.y as int),
{
}

} // verus!
