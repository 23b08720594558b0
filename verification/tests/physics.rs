use pong_core::box_collider::Collider;
use pong_core::engine::Scene;
use pong_core::physics::Physics;
use pong_core::rigid_body::{Componant, RigidBody};
use pong_core::vec2::Vec2;

/// A playfield from -1 to 1 with both paddles near the edges and the ball
/// as given; distances in thousandths of a world unit.
fn scene_with_ball(position: Vec2, velocity: Vec2, half: i64) -> Scene {
    Scene {
        size: (800, 600),
        ball: Componant {
            position,
            velocity,
            collider: Collider::new((half, half)),
        },
        player1: Componant {
            position: Vec2 { x: -850, y: 0 },
            velocity: Vec2 { x: 0, y: 0 },
            collider: Collider::new((30, 200)),
        },
        player2: Componant {
            position: Vec2 { x: 850, y: 0 },
            velocity: Vec2 { x: 0, y: 0 },
            collider: Collider::new((30, 200)),
        },
        ball_body: RigidBody {
            mass: 200,
            restitution: 1000,
        },
        top: 1000,
        bottom: -1000,
        margin: 1200,
    }
}

#[test]
fn straight_vertical_bounce() {
    // ball at (0, 0.95), velocity (0, 0.1), half-extent 0.05, dt = 0.1
    let scene = scene_with_ball(Vec2 { x: 0, y: 950 }, Vec2 { x: 0, y: 100 }, 50);
    let mut physics = Physics { gravity: 0, scene };
    physics.update(100);
    assert_eq!(physics.scene.ball.position.y, 950);
    assert_eq!(physics.scene.ball.position.x, 0);
    assert_eq!(physics.scene.ball.velocity.y, -100);
    assert_eq!(physics.scene.ball.velocity.x, 0);
}

#[test]
fn bottom_bounce_flips_velocity_up() {
    let scene = scene_with_ball(Vec2 { x: 0, y: -950 }, Vec2 { x: 0, y: -100 }, 50);
    let mut physics = Physics { gravity: 0, scene };
    physics.update(100);
    assert_eq!(physics.scene.ball.position.y, -950);
    assert_eq!(physics.scene.ball.velocity.y, 100);
}

#[test]
fn left_paddle_collision_snaps_and_deflects() {
    // paddle at x = -0.85 half 0.03; ball at x = -0.8 half 0.1, velocity (-0.3, 0)
    let scene = scene_with_ball(Vec2 { x: -800, y: 0 }, Vec2 { x: -300, y: 0 }, 100);
    let mut physics = Physics { gravity: 0, scene };
    physics.update(16);
    // -0.85 + 0.03 + 0.1 = -0.72
    assert_eq!(physics.scene.ball.position.x, -720);
    assert!(physics.scene.ball.velocity.x > 0);
    assert_eq!(physics.scene.ball.velocity.x, 300);
    assert_eq!(physics.scene.ball.velocity.y, 0);
}

#[test]
fn right_paddle_collision_snaps_and_deflects() {
    let scene = scene_with_ball(Vec2 { x: 800, y: 0 }, Vec2 { x: 300, y: 0 }, 100);
    let mut physics = Physics { gravity: 0, scene };
    physics.update(16);
    assert_eq!(physics.scene.ball.position.x, 720);
    assert!(physics.scene.ball.velocity.x < 0);
    assert_eq!(physics.scene.ball.velocity.x, -300);
}

#[test]
fn touching_paddle_with_no_horizontal_motion_keeps_zero_velocity() {
    // the ball's box exactly touches the left paddle's outer edge; the
    // deflection fires (closed-interval overlap) but the magnitude of a
    // zero velocity stays zero
    let scene = scene_with_ball(Vec2 { x: -720, y: 0 }, Vec2 { x: 0, y: 0 }, 100);
    let mut physics = Physics { gravity: 0, scene };
    physics.update(16);
    assert_eq!(physics.scene.ball.position.x, -720);
    assert_eq!(physics.scene.ball.velocity.x, 0);
}

#[test]
fn reset_beyond_margin_restarts_from_centre() {
    // ball at x = 1.3, beyond the 1.2 margin, velocity (-0.5, 0.1)
    let scene = scene_with_ball(Vec2 { x: 1300, y: 0 }, Vec2 { x: -500, y: 100 }, 100);
    let mut physics = Physics { gravity: 0, scene };
    physics.update(1);
    assert_eq!(physics.scene.ball.position.x, 0);
    assert_eq!(physics.scene.ball.position.y, 0);
    assert_eq!(physics.scene.ball.velocity.x, 20);
    assert_eq!(physics.scene.ball.velocity.y, 15);
}

#[test]
fn margin_is_exclusive() {
    // exactly on the margin: no reset
    let scene = scene_with_ball(Vec2 { x: 1200, y: 0 }, Vec2 { x: 0, y: 0 }, 100);
    let mut physics = Physics { gravity: 0, scene };
    physics.update(16);
    assert_eq!(physics.scene.ball.position.x, 1200);
    // one thousandth beyond: reset
    let scene = scene_with_ball(Vec2 { x: 1201, y: 0 }, Vec2 { x: 0, y: 0 }, 100);
    let mut physics = Physics { gravity: 0, scene };
    physics.update(16);
    assert_eq!(physics.scene.ball.position.x, 0);
    assert_eq!(physics.scene.ball.velocity.x, 20);
    assert_eq!(physics.scene.ball.velocity.y, 15);
}

#[test]
fn vertical_containment_after_fast_step() {
    // a large step would carry the ball far above the top; the step clamps
    // the box back inside the bounds
    let scene = scene_with_ball(Vec2 { x: 0, y: 900 }, Vec2 { x: 0, y: 90000 }, 50);
    let mut physics = Physics { gravity: 0, scene };
    physics.update(100);
    let ball = physics.scene.ball;
    assert!(ball.position.y + 50 <= 1000);
    assert!(ball.position.y - 50 >= -1000);
    assert_eq!(ball.position.y, 950);
}

#[test]
fn near_both_edges_fires_both_reflections() {
    // a playfield only as tall as the ball: the top clamp pushes the box
    // onto the bottom bound, both reflections fire, and the two negations
    // cancel
    let mut scene = scene_with_ball(Vec2 { x: 0, y: 0 }, Vec2 { x: 0, y: 50 }, 100);
    scene.top = 100;
    scene.bottom = -100;
    let mut physics = Physics { gravity: 0, scene };
    physics.update(100);
    assert_eq!(physics.scene.ball.position.y, 0);
    assert_eq!(physics.scene.ball.velocity.y, 50);
}

#[test]
fn gravity_lowers_velocity_after_the_move() {
    // gravity 8.6, dt 0.016: the term is trunc(8600 * 16 / 1000) = 137,
    // applied to the velocity only, not this step's position
    let scene = scene_with_ball(Vec2 { x: 0, y: 0 }, Vec2 { x: 0, y: 0 }, 100);
    let mut physics = Physics { gravity: 8600, scene };
    physics.update(16);
    assert_eq!(physics.scene.ball.position.y, 0);
    assert_eq!(physics.scene.ball.velocity.y, -137);
}

#[test]
fn noop_step_is_idempotent() {
    // zero velocity, zero gravity, ball away from all boundaries
    let scene = scene_with_ball(Vec2 { x: 100, y: 200 }, Vec2 { x: 0, y: 0 }, 100);
    let mut physics = Physics { gravity: 0, scene };
    for _ in 0..10 {
        physics.update(16);
        assert_eq!(physics.scene.ball.position.x, 100);
        assert_eq!(physics.scene.ball.position.y, 200);
        assert_eq!(physics.scene.ball.velocity.x, 0);
        assert_eq!(physics.scene.ball.velocity.y, 0);
    }
}

#[test]
fn paddles_never_move_during_a_step() {
    let scene = scene_with_ball(Vec2 { x: -800, y: 0 }, Vec2 { x: -300, y: 0 }, 100);
    let mut physics = Physics { gravity: 8600, scene };
    physics.update(16);
    assert_eq!(physics.scene.player1.position.x, -850);
    assert_eq!(physics.scene.player1.position.y, 0);
    assert_eq!(physics.scene.player2.position.x, 850);
    assert_eq!(physics.scene.player2.position.y, 0);
    assert_eq!(physics.scene.top, 1000);
    assert_eq!(physics.scene.bottom, -1000);
    assert_eq!(physics.scene.margin, 1200);
}
