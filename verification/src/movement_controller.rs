//! The human-input locomotion controller.
//!
//! Each tick it composes a movement vector from the held directional
//! actions along the camera's look and side vectors, consumes one jump
//! command per press while grounded, zeroes the body's angular velocity,
//! normalizes and scales the vector into a linear-velocity command, and
//! damps horizontal velocity while grounded to stand in for friction. It
//! returns the animation intent the state machine's guards consume.

use vstd::prelude::*;

use crate::character_animation::CharacterAnimationInput;
use crate::keyboard_input::{keymap_action_of, keymap_lookup, Action, ActionStates, KeyMap};
use crate::math::{
    div_trunc, in_coord_range, lemma_mul_bound, lemma_normalized_bounds, normalized_of, trunc_div,
    Vec3, Vec3View, UNIT,
};
use crate::settings::{CharacterSpeedSettings, SPEED_LIMIT};

verus! {

/// Largest magnitude a camera direction component may have: camera look and
/// side vectors are unit vectors, with room to spare.
pub const DIR_LIMIT: i64 = 1000000;

/// Largest magnitude a body velocity component may have.
pub const VEL_LIMIT: i64 = 1000000000000;

/// The velocity state of a character's rigid body, read before and written
/// after a locomotion tick.
#[derive(Clone, Copy, Debug, PartialEq, Eq, Structural)]
pub struct BodyState {
    pub linear_velocity: Vec3,
    pub angular_velocity: Vec3,
}

/// Componentwise vector sum, on views.
pub open spec fn v_add(a: Vec3View, b: Vec3View) -> Vec3View {
    Vec3View { x: a.x + b.x, y: a.y + b.y, z: a.z + b.z }
}

/// Componentwise vector difference, on views.
pub open spec fn v_sub(a: Vec3View, b: Vec3View) -> Vec3View {
    Vec3View { x: a.x - b.x, y: a.y - b.y, z: a.z - b.z }
}

/// The raw movement vector one tick composes: the held directional actions
/// sum the camera's side and look vectors, and a jump command while
/// grounded adds one unit straight up.
pub open spec fn spec_composed(
    actions: ActionStates,
    look: Vec3View,
    side: Vec3View,
    grounded: bool,
) -> Vec3View {
    let v = Vec3View { x: 0, y: 0, z: 0 };
    let v = if actions.spec_get(Action::Left) {
        v_add(v, side)
    } else {
        v
    };
    let v = if actions.spec_get(Action::Right) {
        v_sub(v, side)
    } else {
        v
    };
    let v = if actions.spec_get(Action::Forward) {
        v_add(v, look)
    } else {
        v
    };
    let v = if actions.spec_get(Action::Backward) {
        v_sub(v, look)
    } else {
        v
    };
    if actions.spec_get(Action::Jump) && grounded {
        v_add(v, Vec3View { x: 0, y: 1000, z: 0 })
    } else {
        v
    }
}

/// The linear velocity after one tick: a nonzero composed vector is
/// normalized and scaled by the run speed on the horizontal axes, with the
/// jump speed's share added to the preserved vertical velocity; a zero
/// composed vector commands nothing. While grounded, the horizontal
/// components are then damped by nine tenths to approximate friction.
pub open spec fn spec_new_linvel(
    old_lin: Vec3View,
    composed: Vec3View,
    run: int,
    jump: int,
    grounded: bool,
) -> Vec3View {
    let commanded = match normalized_of(composed) {
        None => old_lin,
        Some(n) => Vec3View {
            x: trunc_div(n.x * run, 1000),
            y: old_lin.y + trunc_div(n.y * jump, 1000),
            z: trunc_div(n.z * run, 1000),
        },
    };
    if grounded {
        Vec3View {
            x: trunc_div(commanded.x * 9, 10),
            y: commanded.y,
            z: trunc_div(commanded.z * 9, 10),
        }
    } else {
        commanded
    }
}

/// The animation intent one tick reports: running when the normalized
/// command has a nonzero horizontal component, airborne exactly when ground
/// contact is absent, and a jump start exactly when a held jump command is
/// consumed on the ground. Attacking is latched elsewhere.
pub open spec fn spec_intent(
    actions: ActionStates,
    composed: Vec3View,
    grounded: bool,
) -> CharacterAnimationInput {
    CharacterAnimationInput {
        running: match normalized_of(composed) {
            None => false,
            Some(n) => n.x != 0 || n.z != 0,
        },
        jumping: !grounded,
        just_started_jumping: actions.spec_get(Action::Jump) && grounded,
        attacking: false,
    }
}

/// The action states after one tick: the jump latch is consumed, so a
/// second tick without a fresh press sees no jump command.
pub open spec fn spec_actions_after(actions: ActionStates) -> ActionStates {
    ActionStates {
        forward: actions.forward,
        backward: actions.backward,
        left: actions.left,
        right: actions.right,
        jump: false,
        attack: actions.attack,
    }
}

/// Whether a body's velocity components are within machine range.
pub open spec fn body_in_range(b: BodyState) -> bool {
    &&& -VEL_LIMIT <= b.linear_velocity.x <= VEL_LIMIT
    &&& -VEL_LIMIT <= b.linear_velocity.y <= VEL_LIMIT
    &&& -VEL_LIMIT <= b.linear_velocity.z <= VEL_LIMIT
}

/// Whether a camera direction vector is within range.
pub open spec fn dir_in_range(v: Vec3View) -> bool {
    &&& -DIR_LIMIT <= v.x <= DIR_LIMIT
    &&& -DIR_LIMIT <= v.y <= DIR_LIMIT
    &&& -DIR_LIMIT <= v.z <= DIR_LIMIT
}

/// The input-driven locomotion controller: a key map, the held state of
/// each action, and the owning character's speed settings.
pub struct MovementControlelr {
    pub keymap: KeyMap,
    pub actions: ActionStates,
    pub speed: CharacterSpeedSettings,
}

impl MovementControlelr {
    /// A controller with no action held; the key map and speeds are
    /// injected by the caller.
    pub fn new(keymap: KeyMap, speed: CharacterSpeedSettings) -> (r: MovementControlelr)
        ensures
            r.keymap@ == keymap@,
            forall|a: Action| !r.actions.spec_get(a),
            r.speed == speed,
    {
        MovementControlelr { keymap, actions: ActionStates::new(), speed }
    }

    /// Record a key press or release: if the key code is bound, its action's
    /// held state becomes `pressed`.
    pub fn process_input_event(&mut self, key_code: u32, pressed: bool)
        ensures
            final(self).keymap@ == old(self).keymap@,
            final(self).speed == old(self).speed,
            match keymap_action_of(old(self).keymap@, key_code) {
                Some(a) => final(self).actions.spec_get(a) == pressed && forall|b: Action|
                    b != a ==> final(self).actions.spec_get(b) == old(self).actions.spec_get(b),
                None => final(self).actions == old(self).actions,
            },
    {
        match keymap_lookup(&self.keymap, key_code) {
            Some(a) => self.actions.set(a, pressed),
            None => {},
        }
    }

    /// Read whether an action is held.
    pub fn action_state(&self, action: Action) -> (r: bool)
        ensures
            r == self.actions.spec_get(action),
    {
        self.actions.get(action)
    }

    /// One locomotion tick. See the module description; the ensures pin
    /// down the composed vector, the velocity command with grounded
    /// damping, the consumed jump latch, and the reported intent.
    pub fn update(&mut self, look: &Vec3, side: &Vec3, has_ground_contact: bool, body: &mut
        BodyState) -> (r: CharacterAnimationInput)
        requires
            dir_in_range(look@),
            dir_in_range(side@),
            body_in_range(*old(body)),
            old(self).speed.wf(),
        ensures
            final(self).keymap@ == old(self).keymap@,
            final(self).speed == old(self).speed,
            final(self).actions == spec_actions_after(old(self).actions),
            final(body).angular_velocity@ == (Vec3View { x: 0, y: 0, z: 0 }),
            final(body).linear_velocity@ == spec_new_linvel(
                old(body).linear_velocity@,
                spec_composed(old(self).actions, look@, side@, has_ground_contact),
                old(self).speed.run as int,
                old(self).speed.jump as int,
                has_ground_contact,
            ),
            r == spec_intent(
                old(self).actions,
                spec_composed(old(self).actions, look@, side@, has_ground_contact),
                has_ground_contact,
            ),
    {
        let ghost composed = spec_composed(old(self).actions, look@, side@, has_ground_contact);

        let mut velocity = Vec3::zero();
        if self.actions.get(Action::Left) {
            velocity = velocity.plus(side);
        }
        if self.actions.get(Action::Right) {
            velocity = velocity.minus(side);
        }
        if self.actions.get(Action::Forward) {
            velocity = velocity.plus(look);
        }
        if self.actions.get(Action::Backward) {
            velocity = velocity.minus(look);
        }
        let mut just_started_jumping = false;
        if self.actions.get(Action::Jump) {
            if has_ground_contact {
                let up = Vec3::new(0, UNIT, 0);
                velocity = velocity.plus(&up);
                just_started_jumping = true;
            }
            self.actions.set(Action::Jump, false);
        }
        assert(self.actions == spec_actions_after(old(self).actions)) by {
            assert(self.actions.spec_get(Action::Forward) == old(self).actions.spec_get(
                Action::Forward,
            ));
            assert(self.actions.spec_get(Action::Backward) == old(self).actions.spec_get(
                Action::Backward,
            ));
            assert(self.actions.spec_get(Action::Left) == old(self).actions.spec_get(Action::Left));
            assert(self.actions.spec_get(Action::Right) == old(self).actions.spec_get(
                Action::Right,
            ));
            assert(self.actions.spec_get(Action::Attack) == old(self).actions.spec_get(
                Action::Attack,
            ));
            assert(!self.actions.spec_get(Action::Jump));
        }
        assert(velocity@ == composed);
        assert(in_coord_range(velocity@));

        body.angular_velocity = Vec3::zero();

        let mut running = false;
        match velocity.try_normalize() {
            Some(n) => {
                proof {
                    lemma_normalized_bounds(velocity@);
                    lemma_mul_bound(n@.x, self.speed.run as int, 1000, SPEED_LIMIT as int);
                    lemma_mul_bound(n@.y, self.speed.jump as int, 1000, SPEED_LIMIT as int);
                    lemma_mul_bound(n@.z, self.speed.run as int, 1000, SPEED_LIMIT as int);
                }
                running = n.x != 0 || n.z != 0;
                let vx = div_trunc(n.x * self.speed.run, UNIT);
                let vy = body.linear_velocity.y + div_trunc(n.y * self.speed.jump, UNIT);
                let vz = div_trunc(n.z * self.speed.run, UNIT);
                body.linear_velocity = Vec3 { x: vx, y: vy, z: vz };
            },
            None => {},
        }

        if has_ground_contact {
            body.linear_velocity.x = div_trunc(body.linear_velocity.x * 9, 10);
            body.linear_velocity.z = div_trunc(body.linear_velocity.z * 9, 10);
        }

        CharacterAnimationInput {
            running,
            jumping: !has_ground_contact,
            just_started_jumping,
            attacking: false,
        }
    }
}

/// A held jump command on the ground is consumed by one tick: that tick
/// reports a jump start and adds the upward unit to the composed vector,
/// and a second tick without a fresh press reports no jump start and
/// composes the same vector as if no jump were held — the upward impulse is
/// not re-applied.
pub proof fn lemma_jump_latch_consumed(actions: ActionStates, look: Vec3View, side: Vec3View)
    requires
        actions.spec_get(Action::Jump),
    ensures
        spec_intent(
            actions,
            spec_composed(actions, look, side, true),
            true,
        ).just_started_jumping,
        !spec_intent(
            spec_actions_after(actions),
            spec_composed(spec_actions_after(actions), look, side, true),
            true,
        ).just_started_jumping,
        spec_composed(spec_actions_after(actions), look, side, true) == spec_composed(
            spec_actions_after(actions),
            look,
            side,
            false,
        ),
{
}

} // verus!
