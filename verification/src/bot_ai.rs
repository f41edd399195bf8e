//! The AI locomotion variant: ground-following pursuit of a fixed target
//! point.
//!
//! Each tick it computes the horizontal direction toward the target,
//! reports it so the engine layer can face the body that way, and — while
//! the target is farther than a small threshold — commands horizontal
//! velocity toward it scaled by the configured run speed, preserving
//! vertical velocity. The AI variant never jumps or attacks.

use vstd::prelude::*;

use crate::character_animation::CharacterAnimationInput;
use crate::math::{
    div_trunc, in_coord_range, lemma_component_le_norm, lemma_mul_bound, norm_of, trunc_div, Vec3,
    Vec3View,
};
use crate::movement_controller::{body_in_range, BodyState, VEL_LIMIT};
use crate::settings::{CharacterSpeedSettings, SPEED_LIMIT};

verus! {

/// The bot walks toward this point (in fixed-point thousandths; the target
/// keeps the bot's own height).
pub const TARGET_X: i64 = 1000;

pub const TARGET_Z: i64 = 1000;

/// The bot moves only while its horizontal distance to the target exceeds
/// this (a tenth of a unit).
pub const CHASE_MIN_DISTANCE: i64 = 100;

/// Largest magnitude a position component may have.
pub const POS_LIMIT: i64 = 10000000;

/// The direction from a position to the target: horizontal, since the
/// target keeps the position's height.
pub open spec fn spec_bot_direction(pos: Vec3View) -> Vec3View {
    Vec3View { x: TARGET_X - pos.x, y: 0, z: TARGET_Z - pos.z }
}

/// The linear velocity the bot commands: toward the target at run speed on
/// the horizontal axes with vertical velocity preserved, or unchanged when
/// the target is close enough.
pub open spec fn spec_bot_linvel(old_lin: Vec3View, pos: Vec3View, run: int) -> Vec3View {
    let dir = spec_bot_direction(pos);
    let dist = norm_of(dir);
    if dist > CHASE_MIN_DISTANCE {
        Vec3View {
            x: trunc_div(dir.x * run, dist),
            y: old_lin.y,
            z: trunc_div(dir.z * run, dist),
        }
    } else {
        old_lin
    }
}

/// Whether a position is within machine range.
pub open spec fn pos_in_range(v: Vec3View) -> bool {
    &&& -POS_LIMIT <= v.x <= POS_LIMIT
    &&& -POS_LIMIT <= v.y <= POS_LIMIT
    &&& -POS_LIMIT <= v.z <= POS_LIMIT
}

/// The steering policy of a bot: only its speed settings.
pub struct BotAi {
    pub speed: CharacterSpeedSettings,
}

impl BotAi {
    pub fn new(speed: CharacterSpeedSettings) -> (r: BotAi)
        ensures
            r.speed == speed,
    {
        BotAi { speed }
    }

    /// One steering tick: returns the animation intent and the horizontal
    /// facing direction the engine layer should orient the body toward.
    pub fn update(&mut self, self_position: &Vec3, body: &mut BodyState) -> (r: (
        CharacterAnimationInput,
        Vec3,
    ))
        requires
            pos_in_range(self_position@),
            body_in_range(*old(body)),
            old(self).speed.wf(),
        ensures
            *final(self) == *old(self),
            r.1@ == spec_bot_direction(self_position@),
            final(body).linear_velocity@ == spec_bot_linvel(
                old(body).linear_velocity@,
                self_position@,
                old(self).speed.run as int,
            ),
            final(body).angular_velocity == old(body).angular_velocity,
            r.0 == (CharacterAnimationInput {
                running: norm_of(spec_bot_direction(self_position@)) > CHASE_MIN_DISTANCE,
                jumping: false,
                just_started_jumping: false,
                attacking: false,
            }),
    {
        let target = Vec3::new(TARGET_X, self_position.y, TARGET_Z);
        let direction = target.minus(self_position);
        assert(direction@ == spec_bot_direction(self_position@));
        assert(in_coord_range(direction@));
        let distance = direction.norm();

        let running: bool;
        if distance > CHASE_MIN_DISTANCE {
            proof {
                lemma_component_le_norm(direction@);
                lemma_mul_bound(direction@.x, self.speed.run as int, POS_LIMIT + 1000, SPEED_LIMIT
                    as int);
                lemma_mul_bound(direction@.z, self.speed.run as int, POS_LIMIT + 1000, SPEED_LIMIT
                    as int);
            }
            let vx = div_trunc(direction.x * self.speed.run, distance);
            let vz = div_trunc(direction.z * self.speed.run, distance);
            body.linear_velocity = Vec3 { x: vx, y: body.linear_velocity.y, z: vz };
            running = true;
        } else {
            running = false;
        }

        let intent = CharacterAnimationInput {
            running,
            jumping: false,
            just_started_jumping: false,
            attacking: false,
        };
        (intent, direction)
    }
}

} // verus!
