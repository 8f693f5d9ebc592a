//! The paddle controller: a rectangle, a fixed facing normal, and a scalar
//! vertical velocity set by edge-triggered input. Motion is clamped at the
//! arena boundaries with an epsilon-tolerant boundary test. The contact
//! test against the ball sorts the four edge coordinates of each axis and
//! checks whether the two smallest entries belong to the same rectangle.

use vstd::prelude::*;
use core::cmp::Ordering;
use crate::ball::Ball;
use crate::geometry::{
    approx_equal, lemma_units_monotone, spec_approx_equal, to_units, units_of, Rectangle,
    ARENA_HEIGHT, DT_FACTOR, EPSILON, POS_LIMIT, SCALE,
};
use crate::obstacle::Obstacle;
use crate::vec2::{is_unit, reflect_xi, reflect_yi, reflection, Vec2};

verus! {

/// Largest paddle speed magnitude the model admits, in world units per
/// second.
pub const PADDLE_VEL_LIMIT: i64 = 1_000_000;

/// Largest displacement of a paddle in one step, in micro-units:
/// `PADDLE_VEL_LIMIT` times `DT_FACTOR`.
pub const PADDLE_STEP_LIMIT: i64 = 10_000_000_000;

/// A paddle: geometry, the fixed facing normal (the left paddle faces
/// toward positive x, the right paddle toward negative x), and the scalar
/// vertical velocity assigned by input edge events.
pub struct Player {
    pub rect: Rectangle,
    pub norm: Vec2,
    pub velocity: i64,
}

/// Orders two `(coordinate, owner)` edge entries by coordinate alone, so
/// that entries with equal coordinates keep their relative order under a
/// stable sort.
pub fn compare(first: (i32, i32), second: (i32, i32)) -> (r: Ordering)
    ensures
        (r == Ordering::Greater) <==> first.0 > second.0,
        (r == Ordering::Less) <==> first.0 < second.0,
        (r == Ordering::Equal) <==> first.0 == second.0,
{
    let (first_position, _first_index) = first;
    let (second_position, _second_index) = second;
    first_position.cmp(&second_position)
}

fn is_greater(o: Ordering) -> (r: bool)
    ensures
        r == (o == Ordering::Greater),
{
    match o {
        Ordering::Greater => true,
        _ => false,
    }
}

/// One axis of the separation test, over coordinates truncated to whole
/// world units. The four edge entries are sorted stably by coordinate;
/// the intervals are separated exactly when the two smallest entries
/// belong to the same rectangle. When two edges share a truncated
/// coordinate the stable order of the entries decides: a paddle edge
/// sorts before a ball edge, so touching at the paddle's high edge counts
/// as separated while touching at the ball's high edge counts as contact.
fn axis_separated(p_lo: i32, p_hi: i32, b_lo: i32, b_hi: i32) -> (r: bool)
    requires
        p_lo <= p_hi,
        b_lo <= b_hi,
    ensures
        r == (p_hi <= b_lo || b_hi < p_lo),
{
    let mut e0 = (p_lo, 0);
    let mut e1 = (p_hi, 0);
    let mut e2 = (b_lo, 1);
    let mut e3 = (b_hi, 1);
    if is_greater(compare(e0, e1)) {
        let t = e0;
        e0 = e1;
        e1 = t;
    }
    if is_greater(compare(e1, e2)) {
        let t = e1;
        e1 = e2;
        e2 = t;
    }
    if is_greater(compare(e0, e1)) {
        let t = e0;
        e0 = e1;
        e1 = t;
    }
    if is_greater(compare(e2, e3)) {
        let t = e2;
        e2 = e3;
        e3 = t;
    }
    if is_greater(compare(e1, e2)) {
        let t = e1;
        e1 = e2;
        e2 = t;
    }
    if is_greater(compare(e0, e1)) {
        let t = e0;
        e0 = e1;
        e1 = t;
    }
    let axis_ok = match (e0.1, e1.1) {
        (0, 0) => true,
        (1, 1) => true,
        _ => false,
    };
    axis_ok
}

/// The two rectangles' horizontal intervals, truncated to whole world
/// units, do not overlap. Ties follow the stable sort of the edge
/// entries: touching at the paddle's right edge is separation, touching
/// at the ball's right edge is contact.
pub open spec fn h_separated(p: Rectangle, b: Rectangle) -> bool {
    units_of(p.spec_right_x()) <= units_of(b.x as int) || units_of(b.spec_right_x()) < units_of(
        p.x as int,
    )
}

/// The two rectangles' vertical intervals, truncated to whole world
/// units, do not overlap.
pub open spec fn v_separated(p: Rectangle, b: Rectangle) -> bool {
    units_of(p.spec_bottom_y()) <= units_of(b.y as int) || units_of(b.spec_bottom_y())
        < units_of(p.y as int)
}

/// Contact between paddle and ball: overlap on both axes at once.
pub open spec fn rects_contact(p: Rectangle, b: Rectangle) -> bool {
    !h_separated(p, b) && !v_separated(p, b)
}

/// The paddle's vertical position after one fixed step: it advances by
/// the velocity times the step only when moving away from a boundary it
/// already touches. `y` and `bottom` are the paddle's top and bottom
/// edges in micro-units, `vel` its velocity in world units per second.
pub open spec fn moved_y_spec(y: int, bottom: int, vel: int) -> int {
    if vel < 0 && !(spec_approx_equal(y, 0) || y < 0) {
        y + vel * DT_FACTOR
    } else if vel > 0 && !(spec_approx_equal(bottom, ARENA_HEIGHT as int) || bottom
        > ARENA_HEIGHT) {
        y + vel * DT_FACTOR
    } else {
        y
    }
}

impl Player {
    /// Geometry in range, the facing normal a unit vector, the speed
    /// within the model's paddle range.
    pub open spec fn wf(&self) -> bool {
        &&& self.rect.wf()
        &&& is_unit(self.norm)
        &&& -PADDLE_VEL_LIMIT <= self.velocity <= PADDLE_VEL_LIMIT
    }

    /// The paddle touches the upper arena boundary, within the epsilon
    /// tolerance, or lies beyond it.
    pub open spec fn spec_top_collision(&self) -> bool {
        spec_approx_equal(self.rect.y as int, 0) || self.rect.y < 0
    }

    /// The paddle touches the lower arena boundary, within the epsilon
    /// tolerance, or lies beyond it.
    pub open spec fn spec_bottom_collision(&self) -> bool {
        spec_approx_equal(self.rect.spec_bottom_y(), ARENA_HEIGHT as int)
            || self.rect.spec_bottom_y() > ARENA_HEIGHT
    }

    /// The paddle's vertical position after one fixed step.
    pub open spec fn spec_moved_y(&self) -> int {
        moved_y_spec(self.rect.y as int, self.rect.spec_bottom_y(), self.velocity as int)
    }

    /// A paddle at rest with the given geometry and facing normal.
    pub fn new(rect: Rectangle, norm: Vec2) -> (p: Player)
        ensures
            p.rect == rect,
            p.norm == norm,
            p.velocity == 0,
    {
        Player { rect, norm, velocity: 0 }
    }

    pub fn top_collision(&self) -> (r: bool)
        requires
            self.rect.wf(),
        ensures
            r == self.spec_top_collision(),
    {
        approx_equal(self.rect.y, 0) || self.rect.y < 0
    }

    pub fn bottom_collision(&self) -> (r: bool)
        requires
            self.rect.wf(),
        ensures
            r == self.spec_bottom_collision(),
    {
        let bottom = self.rect.y + (self.rect.height as i64) * SCALE;
        approx_equal(bottom, ARENA_HEIGHT) || bottom > ARENA_HEIGHT
    }

    /// One fixed step of paddle motion: move by the velocity times the
    /// step, blocked in the direction of a boundary the paddle already
    /// touches.
    pub fn move_player(&mut self)
        requires
            old(self).wf(),
            -POS_LIMIT + PADDLE_STEP_LIMIT <= old(self).rect.y <= POS_LIMIT - PADDLE_STEP_LIMIT,
        ensures
            final(self).rect.y == old(self).spec_moved_y(),
            final(self).rect.x == old(self).rect.x,
            final(self).rect.width == old(self).rect.width,
            final(self).rect.height == old(self).rect.height,
            final(self).norm == old(self).norm,
            final(self).velocity == old(self).velocity,
            final(self).wf(),
    {
        if !self.top_collision() && self.velocity < 0 {
            self.rect.y = self.rect.y + DT_FACTOR * self.velocity;
        }
        if !self.bottom_collision() && self.velocity > 0 {
            self.rect.y = self.rect.y + DT_FACTOR * self.velocity;
        }
    }

    /// Overwrite the paddle's velocity; called on input edge transitions,
    /// so the most recent edge always wins.
    pub fn set_velocity(&mut self, velocity: i64)
        requires
            -PADDLE_VEL_LIMIT <= velocity <= PADDLE_VEL_LIMIT,
        ensures
            final(self).velocity == velocity,
            final(self).rect == old(self).rect,
            final(self).norm == old(self).norm,
    {
        self.velocity = velocity
    }
}

impl Obstacle for Player {
    /// Contact is axis-interval overlap on both axes at once, over the
    /// truncated edge coordinates.
    open spec fn spec_collision(&self, ball: &Ball) -> bool {
        rects_contact(self.rect, ball.rect)
    }

    open spec fn spec_normal(&self) -> Vec2 {
        self.norm
    }

    open spec fn spec_bounced_x(&self, vx: int, vy: int) -> int {
        reflect_xi(vx, vy, self.norm.x as int, self.norm.y as int)
    }

    /// A paddle bounce adds the paddle's own velocity as a vertical
    /// component to the reflected ball velocity.
    open spec fn spec_bounced_y(&self, vx: int, vy: int) -> int {
        reflect_yi(vx, vy, self.norm.x as int, self.norm.y as int) + self.velocity
    }

    open spec fn obs_wf(&self) -> bool {
        self.wf()
    }

    fn collision(&self, ball: &Ball) -> (r: bool) {
        proof {
            lemma_units_monotone(self.rect.x as int, self.rect.spec_right_x());
            lemma_units_monotone(ball.rect.x as int, ball.rect.spec_right_x());
            lemma_units_monotone(self.rect.y as int, self.rect.spec_bottom_y());
            lemma_units_monotone(ball.rect.y as int, ball.rect.spec_bottom_y());
        }
        let horizontal_ok = axis_separated(
            to_units(self.rect.x),
            to_units(self.rect.right_x()),
            to_units(ball.rect.x),
            to_units(ball.rect.right_x()),
        );
        let vertical_ok = axis_separated(
            to_units(self.rect.y),
            to_units(self.rect.bottom_y()),
            to_units(ball.rect.y),
            to_units(ball.rect.bottom_y()),
        );
        !horizontal_ok && !vertical_ok
    }

    fn normal(&self, _ball: &Ball) -> (n: Vec2) {
        self.norm
    }

    fn bounce_ball(&self, ball: &mut Ball) {
        let n = self.normal(ball);
        let refl = reflection(&ball.velocity, &n);
        ball.velocity = Vec2 { x: refl.x, y: refl.y + self.velocity };
    }
}

/// At the upper boundary a further upward command does not move the
/// paddle.
pub proof fn lemma_paddle_blocked_at_top(p: Player)
    requires
        p.rect.y == 0,
        p.velocity < 0,
    ensures
        p.spec_moved_y() == p.rect.y,
{
}

/// At the upper boundary a downward command does move the paddle, as long
/// as the paddle does not also touch the lower boundary.
pub proof fn lemma_paddle_moves_down_from_top(p: Player)
    requires
        p.rect.y == 0,
        p.velocity > 0,
        p.rect.spec_bottom_y() + EPSILON <= ARENA_HEIGHT,
    ensures
        p.spec_moved_y() == p.rect.y + p.velocity * DT_FACTOR,
        p.spec_moved_y() > p.rect.y,
{
}

/// The contact test is a pure predicate: two evaluations on unchanged
/// paddle and ball state return the same value, since each call returns
/// exactly the model predicate.
pub proof fn lemma_contact_test_repeatable(p: Player, b: Ball, r1: bool, r2: bool)
    requires
        r1 == p.spec_collision(&b),
        r2 == p.spec_collision(&b),
    ensures
        r1 == r2,
{
}

} // verus!

