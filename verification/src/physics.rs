//! The per-step integrator and collision resolver.
//!
//! One `update` advances the ball by exactly one step, in a fixed order:
//! integrate the velocity, reflect off the playfield's vertical bounds,
//! deflect away from the left then the right paddle, reset when the ball
//! escaped the horizontal margin, and finally apply gravity to the velocity.
//! The order decides which correction wins when several fire in one step.

use vstd::prelude::*;
use vstd::math::abs;
use crate::box_collider::boxes_overlap;
use crate::engine::Scene;
use crate::units::{clamped_speed, div_toward_zero};
use crate::units::{DT_LIMIT, GRAVITY_LIMIT, SPEED_LIMIT, TIME_SCALE, UNIT};
use crate::units::{
    clamp_speed,
    div_trunc,
    lemma_div_toward_zero_bounds,
    lemma_div_toward_zero_scaled_bound,
};
use crate::rigid_body::Componant;
use crate::vec2::Vec2;

verus! {

/// Horizontal restart velocity the ball receives after an out-of-bounds
/// reset (0.02 world units per second).
pub const RESTART_VELOCITY_X: i64 = 20;

/// Vertical restart velocity the ball receives after an out-of-bounds reset
/// (0.015 world units per second).
pub const RESTART_VELOCITY_Y: i64 = 15;

/// Largest magnitude one integration step can move the ball along one axis.
pub const STEP_DELTA_LIMIT: i64 = 3_000_000_000_000_000;

/// The ball's position and velocity at some stage within a step.
pub ghost struct BallMotion {
    pub px: int,
    pub py: int,
    pub vx: int,
    pub vy: int,
}

/// The motion a component currently holds.
pub open spec fn motion_of(c: Componant) -> BallMotion {
    BallMotion {
        px: c.position.x as int,
        py: c.position.y as int,
        vx: c.velocity.x as int,
        vy: c.velocity.y as int,
    }
}

/// Distance one step carries a coordinate: velocity times timestep times the
/// fixed time scale, rescaled to fixed-point units.
pub open spec fn step_delta(v: int, dt: int) -> int {
    div_toward_zero(v * dt * TIME_SCALE, UNIT as int)
}

/// Stage one: move the ball along its velocity.
pub open spec fn integrated(m: BallMotion, dt: int) -> BallMotion {
    BallMotion { px: m.px + step_delta(m.vx, dt), py: m.py + step_delta(m.vy, dt), ..m }
}

/// The ball's top edge reaches or passes the playfield top.
pub open spec fn hits_top(m: BallMotion, hy: int, top: int) -> bool {
    m.py + hy >= top
}

/// The ball's bottom edge reaches or passes the playfield bottom.
pub open spec fn hits_bottom(m: BallMotion, hy: int, bottom: int) -> bool {
    m.py - hy <= bottom
}

/// Stage two, first half: clamp the top edge onto the bound and negate the
/// vertical velocity when the top is reached.
pub open spec fn reflected_top(m: BallMotion, hy: int, top: int) -> BallMotion {
    if hits_top(m, hy, top) {
        BallMotion { py: top - hy, vy: -m.vy, ..m }
    } else {
        m
    }
}

/// Stage two, second half: the symmetric rule for the bottom edge, checked
/// independently of the top.
pub open spec fn reflected_bottom(m: BallMotion, hy: int, bottom: int) -> BallMotion {
    if hits_bottom(m, hy, bottom) {
        BallMotion { py: bottom + hy, vy: -m.vy, ..m }
    } else {
        m
    }
}

/// The ball's box, at the stage's position, overlaps the paddle's box.
pub open spec fn touches_paddle(m: BallMotion, half: Vec2, paddle: Componant) -> bool {
    boxes_overlap(
        m.px,
        m.py,
        half.x as int,
        half.y as int,
        paddle.position.x as int,
        paddle.position.y as int,
        paddle.collider.half_size.x as int,
        paddle.collider.half_size.y as int,
    )
}

/// Stage three: on overlap with the left paddle, force the horizontal
/// velocity to its positive magnitude and snap the ball flush against the
/// paddle's right edge.
pub open spec fn deflected_left(m: BallMotion, half: Vec2, paddle: Componant) -> BallMotion {
    if touches_paddle(m, half, paddle) {
        BallMotion {
            px: paddle.position.x + paddle.collider.half_size.x + half.x,
            vx: abs(m.vx) as int,
            ..m
        }
    } else {
        m
    }
}

/// Stage four: on overlap with the right paddle, force the horizontal
/// velocity to its negative magnitude and snap flush against the paddle's
/// left edge.
pub open spec fn deflected_right(m: BallMotion, half: Vec2, paddle: Componant) -> BallMotion {
    if touches_paddle(m, half, paddle) {
        BallMotion {
            px: paddle.position.x - paddle.collider.half_size.x - half.x,
            vx: -abs(m.vx),
            ..m
        }
    } else {
        m
    }
}

/// The ball left the playfield horizontally: a point was scored.
pub open spec fn out_of_bounds(m: BallMotion, margin: int) -> bool {
    m.px < -margin || m.px > margin
}

/// Stage five: outside the horizontal margin, restart from the centre with
/// the fixed restart velocity.
pub open spec fn reset_if_out(m: BallMotion, margin: int) -> BallMotion {
    if out_of_bounds(m, margin) {
        BallMotion {
            px: 0,
            py: 0,
            vx: RESTART_VELOCITY_X as int,
            vy: RESTART_VELOCITY_Y as int,
        }
    } else {
        m
    }
}

/// Stage six: subtract the gravity term from the vertical velocity,
/// saturated to the representable speed range; it shapes the next step's
/// integration, not this one's position.
pub open spec fn gravity_applied(m: BallMotion, gravity: int, dt: int) -> BallMotion {
    BallMotion { vy: clamped_speed(m.vy - div_toward_zero(gravity * dt, UNIT as int)), ..m }
}

/// The ball's motion over `s` after stage one.
pub open spec fn motion_after_integrate(s: Scene, dt: int) -> BallMotion {
    integrated(motion_of(s.ball), dt)
}

/// The ball's motion over `s` after both vertical boundary checks.
pub open spec fn motion_after_vertical(s: Scene, dt: int) -> BallMotion {
    let hy = s.ball.collider.half_size.y as int;
    reflected_bottom(
        reflected_top(motion_after_integrate(s, dt), hy, s.top as int),
        hy,
        s.bottom as int,
    )
}

/// The ball's motion over `s` after the left paddle check.
pub open spec fn motion_after_left(s: Scene, dt: int) -> BallMotion {
    deflected_left(motion_after_vertical(s, dt), s.ball.collider.half_size, s.player1)
}

/// The ball's motion over `s` after both paddle checks.
pub open spec fn motion_after_paddles(s: Scene, dt: int) -> BallMotion {
    deflected_right(motion_after_left(s, dt), s.ball.collider.half_size, s.player2)
}

/// The ball's motion over `s` after the out-of-bounds check.
pub open spec fn motion_after_reset(s: Scene, dt: int) -> BallMotion {
    reset_if_out(motion_after_paddles(s, dt), s.margin as int)
}

/// The ball's motion after one whole step over `s`, stages in their fixed
/// order.
pub open spec fn stepped_motion(s: Scene, gravity: int, dt: int) -> BallMotion {
    gravity_applied(motion_after_reset(s, dt), gravity, dt)
}

/// `post` is `pre` advanced by exactly one step: the ball carries the
/// stepped motion and every other part of the scene is untouched.
pub open spec fn scene_stepped(pre: Scene, post: Scene, gravity: int, dt: int) -> bool {
    let m = stepped_motion(pre, gravity, dt);
    &&& post.size == pre.size
    &&& post.player1 == pre.player1
    &&& post.player2 == pre.player2
    &&& post.ball_body == pre.ball_body
    &&& post.top == pre.top
    &&& post.bottom == pre.bottom
    &&& post.margin == pre.margin
    &&& post.ball.collider == pre.ball.collider
    &&& post.ball.position.x == m.px
    &&& post.ball.position.y == m.py
    &&& post.ball.velocity.x == m.vx
    &&& post.ball.velocity.y == m.vy
}

/// The integrator and collision resolver; it owns the scene it advances.
#[derive(Clone, Copy, Debug)]
pub struct Physics {
    pub gravity: i64,
    pub scene: Scene,
}

/// One axis of the integration stage, carried out on fixed-point values.
fn step_move(v: i64, dt: i64) -> (r: i64)
    requires
        -SPEED_LIMIT <= v <= SPEED_LIMIT,
        0 <= dt <= DT_LIMIT,
    ensures
        r == step_delta(v as int, dt as int),
        -STEP_DELTA_LIMIT <= r <= STEP_DELTA_LIMIT,
{
    proof {
        assert(-100_000_000_000_000_000 <= v * dt <= 100_000_000_000_000_000) by (nonlinear_arith)
            requires
                -100_000_000_000 <= v <= 100_000_000_000,
                0 <= dt <= 1_000_000,
        ;
    }
    let p: i64 = v * dt * TIME_SCALE;
    proof {
        lemma_div_toward_zero_scaled_bound(p as int, UNIT as int, STEP_DELTA_LIMIT as int);
    }
    div_trunc(p, UNIT as u64)
}

/// The gravity term of one step: acceleration times timestep, rescaled.
fn gravity_term(gravity: i64, dt: i64) -> (r: i64)
    requires
        0 <= gravity <= GRAVITY_LIMIT,
        0 <= dt <= DT_LIMIT,
    ensures
        r == div_toward_zero(gravity * dt, UNIT as int),
        0 <= r <= 1_000_000_000_000_000,
{
    proof {
        assert(0 <= gravity * dt <= 1_000_000_000_000_000) by (nonlinear_arith)
            requires
                0 <= gravity <= 1_000_000_000,
                0 <= dt <= 1_000_000,
        ;
    }
    let p: i64 = gravity * dt;
    div_trunc(p, UNIT as u64)
}

/// Magnitude of a velocity component.
fn speed_abs(v: i64) -> (r: i64)
    requires
        -SPEED_LIMIT <= v <= SPEED_LIMIT,
    ensures
        r == abs(v as int),
{
    if v < 0 {
        -v
    } else {
        v
    }
}

impl Physics {
    /// A physics value is well formed when its scene is and its gravity lies
    /// in the representable range.
    pub open spec fn wf(self) -> bool {
        &&& self.scene.wf()
        &&& 0 <= self.gravity <= GRAVITY_LIMIT
    }

    /// Advance the ball by exactly one step; nothing else in the scene moves.
    pub fn update(&mut self, dt: i64)
        requires
            old(self).wf(),
            0 <= dt <= DT_LIMIT,
        ensures
            final(self).wf(),
            final(self).gravity == old(self).gravity,
            scene_stepped(old(self).scene, final(self).scene, old(self).gravity as int, dt as int),
    {
        let s = self.scene;
        let half = s.ball.collider.half_size;
        let mut px = s.ball.position.x;
        let mut py = s.ball.position.y;
        let mut vx = s.ball.velocity.x;
        let mut vy = s.ball.velocity.y;

        px = px + step_move(vx, dt);
        py = py + step_move(vy, dt);

        if py + half.y >= s.top {
            py = s.top - half.y;
            vy = -vy;
        }
        if py - half.y <= s.bottom {
            py = s.bottom + half.y;
            vy = -vy;
        }
        if s.ball.collider.collide(Vec2 { x: px, y: py }, &s.player1.collider, s.player1.position) {
            vx = speed_abs(vx);
            px = s.player1.position.x + s.player1.collider.half_size.x + half.x;
        }
        if s.ball.collider.collide(Vec2 { x: px, y: py }, &s.player2.collider, s.player2.position) {
            vx = speed_abs(vx);
            vx = -vx;
            px = s.player2.position.x - s.player2.collider.half_size.x - half.x;
        }

        if px < -s.margin || px > s.margin {
            px = 0;
            py = 0;
            vx = RESTART_VELOCITY_X;
            vy = RESTART_VELOCITY_Y;
        }

        let g = gravity_term(self.gravity, dt);
        vy = clamp_speed(vy - g);

        self.scene.ball.position = Vec2 { x: px, y: py };
        self.scene.ball.velocity = Vec2 { x: vx, y: vy };
    }
}

/// Vertical containment: after a step over a well-formed scene the ball's
/// box sits between the playfield bounds — it never visibly escapes
/// vertically, whichever corrections fired.
pub proof fn lemma_vertical_containment(pre: Scene, post: Scene, gravity: int, dt: int)
    requires
        pre.wf(),
        scene_stepped(pre, post, gravity, dt),
    ensures
        post.ball.position.y + pre.ball.collider.half_size.y <= pre.top,
        post.ball.position.y - pre.ball.collider.half_size.y >= pre.bottom,
{
}

/// Reflection sign law: when exactly one vertical boundary fires in a step,
/// the ball does not leave the playfield, and the gravity term is too small
/// to cancel the bounce, the vertical velocity changes sign over the step.
pub proof fn lemma_reflection_sign(pre: Scene, post: Scene, gravity: int, dt: int)
    requires
        pre.wf(),
        scene_stepped(pre, post, gravity, dt),
        0 <= gravity,
        0 <= dt,
        hits_top(
            motion_after_integrate(pre, dt),
            pre.ball.collider.half_size.y as int,
            pre.top as int,
        ) != hits_bottom(
            motion_after_vertical(pre, dt),
            pre.ball.collider.half_size.y as int,
            pre.bottom as int,
        ),
        !out_of_bounds(motion_after_paddles(pre, dt), pre.margin as int),
        pre.ball.velocity.y != 0,
        pre.ball.velocity.y < 0 ==> div_toward_zero(gravity * dt, UNIT as int)
            < -pre.ball.velocity.y,
    ensures
        pre.ball.velocity.y > 0 ==> post.ball.velocity.y < 0,
        pre.ball.velocity.y < 0 ==> post.ball.velocity.y > 0,
{
    assert(gravity * dt >= 0) by (nonlinear_arith)
        requires
            gravity >= 0,
            dt >= 0,
    ;
    lemma_div_toward_zero_bounds(gravity * dt, UNIT as int);
}

/// Paddle deflection law, left side: when the ball's box overlaps the left
/// paddle's box at the stage where the step tests it, the right paddle does
/// not fire, the ball stays inside the margin and it had any horizontal
/// motion, the horizontal velocity after the step is strictly positive.
pub proof fn lemma_left_paddle_deflection(pre: Scene, post: Scene, gravity: int, dt: int)
    requires
        pre.wf(),
        scene_stepped(pre, post, gravity, dt),
        touches_paddle(motion_after_vertical(pre, dt), pre.ball.collider.half_size, pre.player1),
        !touches_paddle(motion_after_left(pre, dt), pre.ball.collider.half_size, pre.player2),
        !out_of_bounds(motion_after_paddles(pre, dt), pre.margin as int),
        pre.ball.velocity.x != 0,
    ensures
        post.ball.velocity.x > 0,
{
}

/// Paddle deflection law, right side: when the ball's box overlaps the
/// right paddle's box at the stage where the step tests it, the ball stays
/// inside the margin and it had any horizontal motion, the horizontal
/// velocity after the step is strictly negative.
pub proof fn lemma_right_paddle_deflection(pre: Scene, post: Scene, gravity: int, dt: int)
    requires
        pre.wf(),
        scene_stepped(pre, post, gravity, dt),
        touches_paddle(motion_after_left(pre, dt), pre.ball.collider.half_size, pre.player2),
        !out_of_bounds(motion_after_paddles(pre, dt), pre.margin as int),
        pre.ball.velocity.x != 0,
    ensures
        post.ball.velocity.x < 0,
{
}

/// Reset law: when the ball sits outside the horizontal margin at the stage
/// where the step tests it, the step ends with the ball in the centre and
/// the fixed restart velocity, less the step's gravity term.
pub proof fn lemma_reset(pre: Scene, post: Scene, gravity: int, dt: int)
    requires
        pre.wf(),
        scene_stepped(pre, post, gravity, dt),
        out_of_bounds(motion_after_paddles(pre, dt), pre.margin as int),
    ensures
        post.ball.position.x == 0,
        post.ball.position.y == 0,
        post.ball.velocity.x == RESTART_VELOCITY_X,
        post.ball.velocity.y == clamped_speed(
            RESTART_VELOCITY_Y - div_toward_zero(gravity * dt, UNIT as int),
        ),
        div_toward_zero(gravity * dt, UNIT as int) == 0 ==> post.ball.velocity.y
            == RESTART_VELOCITY_Y,
{
}

/// Idempotence of the no-op step: with zero velocity, zero gravity and the
/// ball clear of every boundary, paddle and margin, a step changes nothing,
/// so repeated steps leave the ball where it is.
pub proof fn lemma_noop_step(pre: Scene, post: Scene, dt: int)
    requires
        pre.wf(),
        scene_stepped(pre, post, 0, dt),
        pre.ball.velocity.x == 0,
        pre.ball.velocity.y == 0,
        pre.ball.position.y + pre.ball.collider.half_size.y < pre.top,
        pre.ball.position.y - pre.ball.collider.half_size.y > pre.bottom,
        !touches_paddle(motion_of(pre.ball), pre.ball.collider.half_size, pre.player1),
        !touches_paddle(motion_of(pre.ball), pre.ball.collider.half_size, pre.player2),
        -pre.margin <= pre.ball.position.x <= pre.margin,
    ensures
        post.ball == pre.ball,
        post.player1 == pre.player1,
        post.player2 == pre.player2,
        post.ball_body == pre.ball_body,
        post.size == pre.size,
        post.top == pre.top,
        post.bottom == pre.bottom,
        post.margin == pre.margin,
{
    assert(step_delta(0, dt) == 0) by {
        assert(0 * dt * TIME_SCALE == 0) by (nonlinear_arith);
        assert(div_toward_zero(0, UNIT as int) == 0);
    }
    assert(div_toward_zero(0 * dt, UNIT as int) == 0) by {
        assert(0 * dt == 0) by (nonlinear_arith);
    }
    assert(motion_after_integrate(pre, dt) == motion_of(pre.ball));
}

} // verus!
