//! Entities of the scene: a component couples a position and velocity with
//! its collider; a rigid body carries the mass data the scene records for
//! the ball.

use vstd::prelude::*;
use crate::box_collider::Collider;
use crate::units::{clamped_speed, div_toward_zero, POS_LIMIT, SPEED_LIMIT};
use crate::units::{clamp_speed, div_trunc};
use crate::vec2::Vec2;

verus! {

/// Divisor of the gentle velocity nudge `set_velocity` applies: a hundred
/// thousandth of the requested component per call.
pub const VELOCITY_NUDGE_DIV: i64 = 100_000;

/// Mass data of the ball; the step itself never reads it, the scene only
/// records it.
#[derive(Clone, Copy, Debug, PartialEq, Eq, Structural)]
pub struct RigidBody {
    pub mass: i64,
    pub restitution: i64,
}

impl RigidBody {
    /// A rigid body is well formed when its mass is strictly positive and
    /// its restitution is not negative.
    pub open spec fn wf(self) -> bool {
        &&& 0 < self.mass
        &&& 0 <= self.restitution
    }
}

/// An entity of the scene: the ball or one of the two paddles.
#[derive(Clone, Copy, Debug, PartialEq, Eq, Structural)]
pub struct Componant {
    pub position: Vec2,
    pub velocity: Vec2,
    pub collider: Collider,
}

impl Componant {
    /// A component is well formed when its collider is and its position and
    /// velocity lie in the representable ranges.
    pub open spec fn wf(self) -> bool {
        &&& self.collider.wf()
        &&& -POS_LIMIT <= self.position.x <= POS_LIMIT
        &&& -POS_LIMIT <= self.position.y <= POS_LIMIT
        &&& -SPEED_LIMIT <= self.velocity.x <= SPEED_LIMIT
        &&& -SPEED_LIMIT <= self.velocity.y <= SPEED_LIMIT
    }

    /// The value a velocity component takes after one `set_velocity` call
    /// that requested `target`: while the stored component lies below the
    /// requested one or below its negation, it creeps toward it by a hundred
    /// thousandth of the request, saturated to the speed range.
    pub open spec fn nudged_velocity(stored: int, target: int) -> int {
        if stored < target || stored < -target {
            clamped_speed(stored + div_toward_zero(target, VELOCITY_NUDGE_DIV as int))
        } else {
            stored
        }
    }

    /// Nudge the stored velocity toward `velocity`, one small fraction per
    /// call; position and collider stay untouched.
    pub fn set_velocity(&mut self, velocity: Vec2)
        requires
            old(self).wf(),
            -SPEED_LIMIT <= velocity.x <= SPEED_LIMIT,
            -SPEED_LIMIT <= velocity.y <= SPEED_LIMIT,
        ensures
            final(self).wf(),
            final(self).position == old(self).position,
            final(self).collider == old(self).collider,
            final(self).velocity.x == Self::nudged_velocity(
                old(self).velocity.x as int,
                velocity.x as int,
            ),
            final(self).velocity.y == Self::nudged_velocity(
                old(self).velocity.y as int,
                velocity.y as int,
            ),
    {
        if self.velocity.x < velocity.x || self.velocity.x < -velocity.x {
            let nudge = div_trunc(velocity.x, VELOCITY_NUDGE_DIV as u64);
            self.velocity.x = clamp_speed(self.velocity.x + nudge);
        }
        if self.velocity.y < velocity.y || self.velocity.y < -velocity.y {
            let nudge = div_trunc(velocity.y, VELOCITY_NUDGE_DIV as u64);
            self.velocity.y = clamp_speed(self.velocity.y + nudge);
        }
    }
}

} // verus!
