//! The character facade: one body anchor, one animation controller, and
//! health, driven by the outer game loop one tick at a time.

use vstd::prelude::*;

use crate::character_animation::{
    spec_anims_advanced, spec_anims_rewound, spec_params_from, spec_pose, spec_with_params,
    CharacterAnimationController, CharacterAnimationInput, Pose,
};
use crate::character_body::CharacterBody;
use crate::machine::{spec_step, MAX_DELTA_MS};
use crate::math::Vec3;

verus! {

/// The body positions the physics collaborator reports for the current
/// tick, keyed by body handle.
pub type BodyPositions = Vec<(u64, Vec3)>;

/// The position of the body `handle` refers to at or after entry `i`.
pub open spec fn body_index_from(s: Seq<(u64, Vec3)>, handle: u64, i: int) -> Option<int>
    decreases s.len() - i,
{
    if i < 0 || i >= s.len() {
        None
    } else if s[i].0 == handle {
        Some(i)
    } else {
        body_index_from(s, handle, i + 1)
    }
}

/// The first entry of the store that `handle` refers to, if any.
pub open spec fn body_index_of(s: Seq<(u64, Vec3)>, handle: u64) -> Option<int> {
    body_index_from(s, handle, 0)
}

/// A character starts with this much health; nothing decrements it yet.
pub const DEFAULT_HEALTH: i64 = 100;

/// One tick's slice of game time: how long the game has run and the fixed
/// step this tick advances by, both in milliseconds.
#[derive(Clone, Copy, Debug, PartialEq, Eq, Structural)]
pub struct GameTime {
    pub elapsed_ms: u64,
    pub delta_ms: u64,
}

/// A playable or AI-driven character.
pub struct Character {
    pub body: CharacterBody,
    pub animation: CharacterAnimationController,
    pub health: i64,
}

impl Character {
    pub open spec fn wf(self) -> bool {
        self.animation.wf()
    }

    /// Compose a character from its fully built parts; health starts at its
    /// default.
    pub fn new(body: CharacterBody, animation: CharacterAnimationController) -> (r: Character)
        ensures
            r.body == body,
            r.animation == animation,
            r.health == DEFAULT_HEALTH,
    {
        Character { body, animation, health: DEFAULT_HEALTH }
    }

    /// One tick: apply the intent to the animation controller and return
    /// the blended pose for the engine layer to write onto the skeleton.
    pub fn update(&mut self, time: GameTime, animation_input: CharacterAnimationInput) -> (pose:
        Pose)
        requires
            old(self).wf(),
            time.delta_ms <= MAX_DELTA_MS,
        ensures
            final(self).wf(),
            final(self).body == old(self).body,
            final(self).health == old(self).health,
            final(self).animation.machine@ == spec_step(
                spec_with_params(
                    old(self).animation.machine@,
                    spec_params_from(animation_input),
                ),
                time.delta_ms as int,
            ),
            final(self).animation.animations == spec_anims_advanced(
                spec_anims_rewound(
                    old(self).animation.animations,
                    animation_input.just_started_jumping,
                ),
                time.delta_ms as int,
            ),
            pose == spec_pose(
                final(self).animation.machine@,
                spec_anims_rewound(
                    old(self).animation.animations,
                    animation_input.just_started_jumping,
                ),
            ),
    {
        self.animation.apply(time.delta_ms, animation_input)
    }

    /// The character's position as the physics store has it. A stale or
    /// foreign body handle surfaces as `None` rather than terminating.
    pub fn position(&self, bodies: &BodyPositions) -> (r: Option<Vec3>)
        ensures
            match body_index_of(bodies@, self.body.body) {
                None => r is None,
                Some(i) => r == Some(bodies@[i].1),
            },
    {
        let mut i: usize = 0;
        while i < bodies.len()
            invariant
                i <= bodies@.len(),
                body_index_from(bodies@, self.body.body, 0) == body_index_from(
                    bodies@,
                    self.body.body,
                    i as int,
                ),
            decreases bodies@.len() - i,
        {
            let (handle, position) = bodies[i];
            if handle == self.body.body {
                return Some(position);
            }
            i = i + 1;
        }
        None
    }

    /// Move the character's body in the physics store. Returns whether the
    /// handle was found; an unknown handle leaves the store untouched.
    pub fn set_position(&self, bodies: &mut BodyPositions, position: Vec3) -> (found: bool)
        ensures
            match body_index_of(old(bodies)@, self.body.body) {
                None => !found && final(bodies)@ == old(bodies)@,
                Some(i) => found && final(bodies)@ == old(bodies)@.update(
                    i,
                    (self.body.body, position),
                ),
            },
    {
        let mut i: usize = 0;
        while i < bodies.len()
            invariant
                i <= bodies@.len(),
                bodies@ == old(bodies)@,
                body_index_from(bodies@, self.body.body, 0) == body_index_from(
                    bodies@,
                    self.body.body,
                    i as int,
                ),
            decreases bodies@.len() - i,
        {
            if bodies[i].0 == self.body.body {
                bodies[i] = (self.body.body, position);
                return true;
            }
            i = i + 1;
        }
        false
    }
}

} // verus!
