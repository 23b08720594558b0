//! The scene and the simulation driver.
//!
//! The scene holds exactly one ball and two paddles together with the
//! playfield bounds; the engine owns the physics and a fixed timestep and
//! exposes one `update` per presentation frame, read access to the entity
//! positions, and the discrete paddle and reset inputs.

use vstd::prelude::*;
use crate::box_collider::Collider;
use crate::physics::{Physics, scene_stepped, RESTART_VELOCITY_X, RESTART_VELOCITY_Y};
use crate::rigid_body::{Componant, RigidBody};
use crate::units::{clamped_paddle, BOUND_LIMIT, DT_LIMIT, PADDLE_POS_LIMIT};
use crate::units::clamp_paddle;
use crate::vec2::Vec2;

verus! {

/// Fixed timestep of the engine (0.016 seconds).
pub const FIXED_DT: i64 = 16;

/// Downward acceleration of the canonical configuration (8.6 units/s^2).
pub const GRAVITY: i64 = 8600;

/// Vertical playfield bounds of the canonical configuration.
pub const PLAYFIELD_TOP: i64 = 1000;

/// Lower vertical playfield bound of the canonical configuration.
pub const PLAYFIELD_BOTTOM: i64 = -1000;

/// Horizontal out-of-bounds margin of the canonical configuration, wider
/// than the playfield.
pub const OUT_OF_BOUNDS_MARGIN: i64 = 1200;

/// Distance one discrete input moves a paddle (0.03 world units).
pub const PADDLE_STEP: i64 = 30;

/// Paddle half-extent of the canonical configuration.
pub const PADDLE_HALF_X: i64 = 200;

/// Vertical paddle half-extent of the canonical configuration.
pub const PADDLE_HALF_Y: i64 = 2000;

/// Ball half-extent of the canonical configuration (square box).
pub const BALL_HALF: i64 = 100;

/// Horizontal rest position of the left paddle.
pub const PLAYER1_X: i64 = -1000;

/// Horizontal rest position of the right paddle.
pub const PLAYER2_X: i64 = 10000;

/// Mass the scene records for the ball (0.2).
pub const BALL_MASS: i64 = 200;

/// Restitution the scene records for the ball (1.0).
pub const BALL_RESTITUTION: i64 = 1000;

/// The fixed set of simulated entities plus the playfield geometry. Bounds
/// never change after construction; only positions and velocities mutate.
#[derive(Clone, Copy, Debug)]
pub struct Scene {
    pub size: (u32, u32),
    pub ball: Componant,
    pub player1: Componant,
    pub player2: Componant,
    pub ball_body: RigidBody,
    pub top: i64,
    pub bottom: i64,
    pub margin: i64,
}

impl Scene {
    /// A scene is well formed when its entities are, the paddles sit inside
    /// the paddle range, the bounds lie in the representable range, and a
    /// ball centred at the origin fits between the vertical bounds (the
    /// reset target must be a legal position).
    pub open spec fn wf(self) -> bool {
        &&& self.ball.wf()
        &&& self.player1.wf()
        &&& self.player2.wf()
        &&& self.ball_body.wf()
        &&& -PADDLE_POS_LIMIT <= self.player1.position.x <= PADDLE_POS_LIMIT
        &&& -PADDLE_POS_LIMIT <= self.player1.position.y <= PADDLE_POS_LIMIT
        &&& -PADDLE_POS_LIMIT <= self.player2.position.x <= PADDLE_POS_LIMIT
        &&& -PADDLE_POS_LIMIT <= self.player2.position.y <= PADDLE_POS_LIMIT
        &&& -BOUND_LIMIT <= self.bottom
        &&& self.top <= BOUND_LIMIT
        &&& self.ball.collider.half_size.y <= self.top
        &&& self.bottom <= -self.ball.collider.half_size.y
        &&& 0 <= self.margin <= BOUND_LIMIT
    }
}

/// The simulation driver: owns the physics and the fixed timestep, and is
/// the single entry point the presentation layer calls each frame.
#[derive(Clone, Copy, Debug)]
pub struct Engine {
    pub physics: Physics,
    pub dt: i64,
}

impl Engine {
    /// An engine is well formed when its physics is and its timestep lies in
    /// the representable range.
    pub open spec fn wf(self) -> bool {
        &&& self.physics.wf()
        &&& 0 <= self.dt <= DT_LIMIT
    }

    /// Build the canonical engine: ball at rest in the centre, the left
    /// paddle on the playfield's edge, the right paddle parked outside it.
    pub fn new() -> (r: Engine)
        ensures
            r.wf(),
            r.dt == FIXED_DT,
            r.physics.gravity == GRAVITY,
            r.physics.scene.size == ((800u32, 600u32)),
            r.physics.scene.top == PLAYFIELD_TOP,
            r.physics.scene.bottom == PLAYFIELD_BOTTOM,
            r.physics.scene.margin == OUT_OF_BOUNDS_MARGIN,
            r.physics.scene.ball.position == (Vec2 { x: 0, y: 0 }),
            r.physics.scene.ball.velocity == (Vec2 { x: 0, y: 0 }),
            r.physics.scene.ball.collider.half_size == (Vec2 { x: BALL_HALF, y: BALL_HALF }),
            r.physics.scene.player1.position == (Vec2 { x: PLAYER1_X, y: 0 }),
            r.physics.scene.player1.velocity == (Vec2 { x: 0, y: 0 }),
            r.physics.scene.player1.collider.half_size == (
            Vec2 { x: PADDLE_HALF_X, y: PADDLE_HALF_Y }),
            r.physics.scene.player2.position == (Vec2 { x: PLAYER2_X, y: 0 }),
            r.physics.scene.player2.velocity == (Vec2 { x: 0, y: 0 }),
            r.physics.scene.player2.collider.half_size == (
            Vec2 { x: PADDLE_HALF_X, y: PADDLE_HALF_Y }),
            r.physics.scene.ball_body == (RigidBody { mass: BALL_MASS, restitution: BALL_RESTITUTION }),
    {
        let player1 = Componant {
            position: Vec2 { x: PLAYER1_X, y: 0 },
            velocity: Vec2::zero(),
            collider: Collider::new((PADDLE_HALF_X, PADDLE_HALF_Y)),
        };
        let player2 = Componant {
            position: Vec2 { x: PLAYER2_X, y: 0 },
            velocity: Vec2::zero(),
            collider: Collider::new((PADDLE_HALF_X, PADDLE_HALF_Y)),
        };
        let ball = Componant {
            position: Vec2::zero(),
            velocity: Vec2::zero(),
            collider: Collider::new((BALL_HALF, BALL_HALF)),
        };
        let scene = Scene {
            size: (800, 600),
            ball,
            player1,
            player2,
            ball_body: RigidBody { mass: BALL_MASS, restitution: BALL_RESTITUTION },
            top: PLAYFIELD_TOP,
            bottom: PLAYFIELD_BOTTOM,
            margin: OUT_OF_BOUNDS_MARGIN,
        };
        Engine { physics: Physics { gravity: GRAVITY, scene }, dt: FIXED_DT }
    }

    /// Run exactly one physics step with the fixed timestep; the engine does
    /// no other simulation work.
    pub fn update(&mut self)
        requires
            old(self).wf(),
        ensures
            final(self).wf(),
            final(self).dt == old(self).dt,
            final(self).physics.gravity == old(self).physics.gravity,
            scene_stepped(
                old(self).physics.scene,
                final(self).physics.scene,
                old(self).physics.gravity as int,
                old(self).dt as int,
            ),
    {
        let dt = self.dt;
        self.physics.update(dt);
    }

    /// The ball's position, for the presentation layer's transform feed.
    pub fn ball_position(&self) -> (r: Vec2)
        ensures
            r == self.physics.scene.ball.position,
    {
        self.physics.scene.ball.position
    }

    /// The left paddle's position, for the presentation layer.
    pub fn player1_position(&self) -> (r: Vec2)
        ensures
            r == self.physics.scene.player1.position,
    {
        self.physics.scene.player1.position
    }

    /// The right paddle's position, for the presentation layer.
    pub fn player2_position(&self) -> (r: Vec2)
        ensures
            r == self.physics.scene.player2.position,
    {
        self.physics.scene.player2.position
    }

    /// Move the left paddle up by one discrete input step, saturating at the
    /// paddle range; nothing else in the scene changes.
    pub fn move_player1_up(&mut self)
        requires
            old(self).wf(),
        ensures
            final(self).wf(),
            *final(self) == (Engine {
                physics: Physics {
                    scene: Scene {
                        player1: Componant {
                            position: Vec2 {
                                y: (clamped_paddle(
                                    old(self).physics.scene.player1.position.y + PADDLE_STEP,
                                ) as i64),
                                ..old(self).physics.scene.player1.position
                            },
                            ..old(self).physics.scene.player1
                        },
                        ..old(self).physics.scene
                    },
                    ..old(self).physics
                },
                ..*old(self)
            }),
    {
        let y = self.physics.scene.player1.position.y;
        self.physics.scene.player1.position.y = clamp_paddle(y + PADDLE_STEP);
    }

    /// Move the left paddle down by one discrete input step.
    pub fn move_player1_down(&mut self)
        requires
            old(self).wf(),
        ensures
            final(self).wf(),
            *final(self) == (Engine {
                physics: Physics {
                    scene: Scene {
                        player1: Componant {
                            position: Vec2 {
                                y: (clamped_paddle(
                                    old(self).physics.scene.player1.position.y - PADDLE_STEP,
                                ) as i64),
                                ..old(self).physics.scene.player1.position
                            },
                            ..old(self).physics.scene.player1
                        },
                        ..old(self).physics.scene
                    },
                    ..old(self).physics
                },
                ..*old(self)
            }),
    {
        let y = self.physics.scene.player1.position.y;
        self.physics.scene.player1.position.y = clamp_paddle(y - PADDLE_STEP);
    }

    /// Move the right paddle up by one discrete input step.
    pub fn move_player2_up(&mut self)
        requires
            old(self).wf(),
        ensures
            final(self).wf(),
            *final(self) == (Engine {
                physics: Physics {
                    scene: Scene {
                        player2: Componant {
                            position: Vec2 {
                                y: (clamped_paddle(
                                    old(self).physics.scene.player2.position.y + PADDLE_STEP,
                                ) as i64),
                                ..old(self).physics.scene.player2.position
                            },
                            ..old(self).physics.scene.player2
                        },
                        ..old(self).physics.scene
                    },
                    ..old(self).physics
                },
                ..*old(self)
            }),
    {
        let y = self.physics.scene.player2.position.y;
        self.physics.scene.player2.position.y = clamp_paddle(y + PADDLE_STEP);
    }

    /// Move the right paddle down by one discrete input step.
    pub fn move_player2_down(&mut self)
        requires
            old(self).wf(),
        ensures
            final(self).wf(),
            *final(self) == (Engine {
                physics: Physics {
                    scene: Scene {
                        player2: Componant {
                            position: Vec2 {
                                y: (clamped_paddle(
                                    old(self).physics.scene.player2.position.y - PADDLE_STEP,
                                ) as i64),
                                ..old(self).physics.scene.player2.position
                            },
                            ..old(self).physics.scene.player2
                        },
                        ..old(self).physics.scene
                    },
                    ..old(self).physics
                },
                ..*old(self)
            }),
    {
        let y = self.physics.scene.player2.position.y;
        self.physics.scene.player2.position.y = clamp_paddle(y - PADDLE_STEP);
    }

    /// Put the ball back in the centre with the fixed restart velocity, as
    /// the discrete reset input does.
    pub fn reset_ball(&mut self)
        requires
            old(self).wf(),
        ensures
            final(self).wf(),
            *final(self) == (Engine {
                physics: Physics {
                    scene: Scene {
                        ball: Componant {
                            position: Vec2 { x: 0, y: 0 },
                            velocity: Vec2 { x: RESTART_VELOCITY_X, y: RESTART_VELOCITY_Y },
                            ..old(self).physics.scene.ball
                        },
                        ..old(self).physics.scene
                    },
                    ..old(self).physics
                },
                ..*old(self)
            }),
    {
        self.physics.scene.ball.position = Vec2 { x: 0, y: 0 };
        self.physics.scene.ball.velocity = Vec2 { x: RESTART_VELOCITY_X, y: RESTART_VELOCITY_Y };
    }
}

} // verus!
