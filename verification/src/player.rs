//! The human-controlled character: a character, its input-driven movement
//! controller, and the attack latch.
//!
//! The camera rig is presentation and stays with the engine layer, which
//! hands this type the camera's look and side vectors each tick. The attack latch holds `attacking` true for a fixed
//! duration from the trigger, measured against the monotonic game clock,
//! and can only re-latch after it has elapsed.

use vstd::prelude::*;

use crate::character::{Character, GameTime};
use crate::character_animation::{
    spec_anims_advanced, spec_anims_rewound, spec_params_from, spec_pose, spec_with_params,
    CharacterAnimationInput, Pose,
};
use crate::keyboard_input::Action;
use crate::machine::{spec_step, MAX_DELTA_MS};
use crate::math::{Vec3, Vec3View};
use crate::movement_controller::{
    body_in_range, dir_in_range, spec_actions_after, spec_composed, spec_intent, spec_new_linvel,
    BodyState, MovementControlelr,
};

verus! {

/// How long one attack trigger keeps `attacking` true, in milliseconds.
pub const ATTACK_DURATION_MS: u64 = 1000;

/// The attack latch after one tick: a running latch clears once the
/// duration has elapsed since it started, and a cleared latch re-latches —
/// recording the new start time — exactly when the attack action is held.
/// The pair is the new (latched, start time) state.
pub open spec fn spec_attack_latch(
    was_attacking: bool,
    start: int,
    duration: int,
    elapsed: int,
    attack_held: bool,
) -> (bool, int) {
    let still = was_attacking && !(elapsed - start >= duration);
    if !still && attack_held {
        (true, elapsed)
    } else {
        (still, start)
    }
}

/// A human-controlled character.
pub struct Player {
    pub character: Character,
    pub movement_controller: MovementControlelr,
    pub is_attacking: bool,
    pub attack_duration: u64,
    pub attack_start_time: u64,
}

impl Player {
    pub open spec fn wf(self) -> bool {
        &&& self.character.wf()
        &&& self.movement_controller.speed.wf()
    }

    /// Compose a player from its built parts; the attack latch starts clear
    /// with the default duration.
    pub fn new(character: Character, movement_controller: MovementControlelr) -> (r: Player)
        ensures
            r.character == character,
            r.movement_controller == movement_controller,
            !r.is_attacking,
            r.attack_duration == ATTACK_DURATION_MS,
            r.attack_start_time == 0,
    {
        Player {
            character,
            movement_controller,
            is_attacking: false,
            attack_duration: ATTACK_DURATION_MS,
            attack_start_time: 0,
        }
    }

    /// Forward a key press or release to the movement controller.
    pub fn process_input_event(&mut self, key_code: u32, pressed: bool)
        ensures
            final(self).character == old(self).character,
            final(self).is_attacking == old(self).is_attacking,
            final(self).attack_duration == old(self).attack_duration,
            final(self).attack_start_time == old(self).attack_start_time,
            final(self).movement_controller.keymap@ == old(self).movement_controller.keymap@,
            final(self).movement_controller.speed == old(self).movement_controller.speed,
    {
        self.movement_controller.process_input_event(key_code, pressed);
    }

    /// Record a press or release of the attack trigger (the engine layer
    /// calls this for the left mouse button).
    pub fn process_attack_input(&mut self, pressed: bool)
        ensures
            final(self).movement_controller.actions.spec_get(Action::Attack) == pressed,
            forall|b: Action|
                b != Action::Attack ==> final(self).movement_controller.actions.spec_get(b) == old(
                    self,
                ).movement_controller.actions.spec_get(b),
            final(self).movement_controller.keymap@ == old(self).movement_controller.keymap@,
            final(self).movement_controller.speed == old(self).movement_controller.speed,
            final(self).character == old(self).character,
            final(self).is_attacking == old(self).is_attacking,
            final(self).attack_duration == old(self).attack_duration,
            final(self).attack_start_time == old(self).attack_start_time,
    {
        self.movement_controller.actions.set(Action::Attack, pressed);
    }

    /// One player tick: run the movement controller, advance the attack
    /// latch against the game clock, and feed the resulting intent to the
    /// character's animation.
    pub fn update(&mut self, time: GameTime, look: &Vec3, side: &Vec3, has_ground_contact: bool,
        body: &mut BodyState) -> (pose: Pose)
        requires
            old(self).wf(),
            dir_in_range(look@),
            dir_in_range(side@),
            body_in_range(*old(body)),
            time.delta_ms <= MAX_DELTA_MS,
            time.elapsed_ms >= old(self).attack_start_time,
        ensures
            final(self).wf(),
            final(self).character.body == old(self).character.body,
            final(self).character.health == old(self).character.health,
            final(self).movement_controller.keymap@ == old(self).movement_controller.keymap@,
            final(self).movement_controller.speed == old(self).movement_controller.speed,
            final(self).movement_controller.actions == spec_actions_after(
                old(self).movement_controller.actions,
            ),
            final(self).attack_duration == old(self).attack_duration,
            (final(self).is_attacking, final(self).attack_start_time as int) == spec_attack_latch(
                old(self).is_attacking,
                old(self).attack_start_time as int,
                old(self).attack_duration as int,
                time.elapsed_ms as int,
                old(self).movement_controller.actions.spec_get(Action::Attack),
            ),
            final(body).angular_velocity@ == (Vec3View { x: 0, y: 0, z: 0 }),
            final(body).linear_velocity@ == spec_new_linvel(
                old(body).linear_velocity@,
                spec_composed(
                    old(self).movement_controller.actions,
                    look@,
                    side@,
                    has_ground_contact,
                ),
                old(self).movement_controller.speed.run as int,
                old(self).movement_controller.speed.jump as int,
                has_ground_contact,
            ),
            pose == spec_pose(
                final(self).character.animation.machine@,
                spec_anims_rewound(
                    old(self).character.animation.animations,
                    spec_delivered_intent(*old(self), look@, side@, has_ground_contact, time)
                        .just_started_jumping,
                ),
            ),
            final(self).character.animation.machine@ == spec_step(
                spec_with_params(
                    old(self).character.animation.machine@,
                    spec_params_from(
                        spec_delivered_intent(*old(self), look@, side@, has_ground_contact, time),
                    ),
                ),
                time.delta_ms as int,
            ),
            final(self).character.animation.animations == spec_anims_advanced(
                spec_anims_rewound(
                    old(self).character.animation.animations,
                    spec_delivered_intent(*old(self), look@, side@, has_ground_contact, time)
                        .just_started_jumping,
                ),
                time.delta_ms as int,
            ),
    {
        let mut animation_input = self.movement_controller.update(
            look,
            side,
            has_ground_contact,
            body,
        );

        let elapsed_time = time.elapsed_ms;
        self.is_attacking = self.is_attacking && !(elapsed_time - self.attack_start_time
            >= self.attack_duration);
        if !self.is_attacking && self.movement_controller.action_state(Action::Attack) {
            self.is_attacking = true;
            self.attack_start_time = elapsed_time;
        }
        animation_input.attacking = self.is_attacking;

        self.character.update(time, animation_input)
    }
}

/// The intent one player tick hands the animation controller: the movement
/// controller's intent with `attacking` replaced by the advanced latch.
pub open spec fn spec_delivered_intent(
    p: Player,
    look: Vec3View,
    side: Vec3View,
    grounded: bool,
    time: GameTime,
) -> CharacterAnimationInput {
    let base = spec_intent(
        p.movement_controller.actions,
        spec_composed(p.movement_controller.actions, look, side, grounded),
        grounded,
    );
    let latch = spec_attack_latch(
        p.is_attacking,
        p.attack_start_time as int,
        p.attack_duration as int,
        time.elapsed_ms as int,
        p.movement_controller.actions.spec_get(Action::Attack),
    );
    CharacterAnimationInput {
        running: base.running,
        jumping: base.jumping,
        just_started_jumping: base.just_started_jumping,
        attacking: latch.0,
    }
}

/// The attack latch window: once latched at some start time, `attacking`
/// stays true for every tick whose elapsed time is within the duration, and
/// is false from the moment the duration has passed, provided the trigger
/// is not held for a new latch.
pub proof fn lemma_attack_latch_window(
    start: int,
    duration: int,
    elapsed: int,
    attack_held: bool,
)
    requires
        start <= elapsed,
    ensures
        elapsed - start < duration ==> spec_attack_latch(true, start, duration, elapsed, attack_held)
            == (true, start),
        elapsed - start >= duration && !attack_held ==> spec_attack_latch(
            true,
            start,
            duration,
            elapsed,
            attack_held,
        ).0 == false,
{
}

} // verus!
