//! The AI-controlled character: a character steered by the pursuit policy.

use vstd::prelude::*;

use crate::bot_ai::{pos_in_range, spec_bot_direction, spec_bot_linvel, BotAi, CHASE_MIN_DISTANCE};
use crate::character::{Character, GameTime};
use crate::character_animation::{
    spec_anims_advanced, spec_anims_rewound, spec_params_from, spec_pose, spec_with_params,
    CharacterAnimationInput, Pose,
};
use crate::machine::{spec_step, MAX_DELTA_MS};
use crate::math::{norm_of, Vec3};
use crate::movement_controller::{body_in_range, BodyState};

verus! {

/// An AI-controlled character.
pub struct Bot {
    pub character: Character,
    pub ai: BotAi,
}

/// The intent one bot tick computes: running exactly while the target is
/// far, never jumping or attacking.
pub open spec fn spec_bot_intent(pos: crate::math::Vec3View) -> CharacterAnimationInput {
    CharacterAnimationInput {
        running: norm_of(spec_bot_direction(pos)) > CHASE_MIN_DISTANCE,
        jumping: false,
        just_started_jumping: false,
        attacking: false,
    }
}

impl Bot {
    pub open spec fn wf(self) -> bool {
        &&& self.character.wf()
        &&& self.ai.speed.wf()
    }

    /// Compose a bot from its built parts.
    pub fn new(character: Character, ai: BotAi) -> (r: Bot)
        ensures
            r.character == character,
            r.ai == ai,
    {
        Bot { character, ai }
    }

    /// One bot tick: steer toward the target, then animate. Returns the
    /// pose and the horizontal facing direction for the engine layer.
    pub fn update(&mut self, time: GameTime, self_position: &Vec3, body: &mut BodyState) -> (r: (
        Pose,
        Vec3,
    ))
        requires
            old(self).wf(),
            pos_in_range(self_position@),
            body_in_range(*old(body)),
            time.delta_ms <= MAX_DELTA_MS,
        ensures
            final(self).wf(),
            final(self).ai == old(self).ai,
            final(self).character.body == old(self).character.body,
            final(self).character.health == old(self).character.health,
            r.1@ == spec_bot_direction(self_position@),
            final(body).linear_velocity@ == spec_bot_linvel(
                old(body).linear_velocity@,
                self_position@,
                old(self).ai.speed.run as int,
            ),
            final(body).angular_velocity == old(body).angular_velocity,
            final(self).character.animation.machine@ == spec_step(
                spec_with_params(
                    old(self).character.animation.machine@,
                    spec_params_from(spec_bot_intent(self_position@)),
                ),
                time.delta_ms as int,
            ),
            final(self).character.animation.animations == spec_anims_advanced(
                old(self).character.animation.animations,
                time.delta_ms as int,
            ),
            r.0 == spec_pose(
                final(self).character.animation.machine@,
                old(self).character.animation.animations,
            ),
    {
        let (animation_input, facing) = self.ai.update(self_position, body);
        let pose = self.character.update(time, animation_input);
        (pose, facing)
    }
}

} // verus!
