//! Character animation: the clip set and the controller that drives the
//! state machine from locomotion intent.
//!
//! The controller owns the four-state machine (idle, run, jump, attack) and
//! the clip set. Each tick it rewinds the one-shot jump clip when a jump
//! just started, writes every guard parameter from the intent, evaluates the
//! machine, and reports the blended pose. Clip local times advance by the
//! tick's delta only after the pose is read, the order an engine keeps when
//! it evaluates poses first and steps animations second.

use vstd::prelude::*;

use crate::machine::{
    spec_blend, spec_step, Blend, ClipId, Machine, MachineView, Param, Params, State, Transition,
    MAX_DELTA_MS, MAX_DURATION_MS,
};

verus! {

/// One animation clip: its length, looping policy, and playback position.
#[derive(Clone, Copy, Debug, PartialEq, Eq, Structural)]
pub struct Clip {
    pub duration_ms: u64,
    pub looping: bool,
    pub local_time_ms: u64,
}

impl Clip {
    /// A clip is playable: positive, capped duration, and a position inside
    /// it (strictly, for a looping clip).
    pub open spec fn wf(self) -> bool {
        &&& 0 < self.duration_ms <= MAX_DURATION_MS
        &&& self.local_time_ms <= self.duration_ms
        &&& self.looping ==> self.local_time_ms < self.duration_ms
    }
}

/// The clip after `delta` milliseconds of playback: looping clips wrap,
/// one-shot clips stop at their end.
pub open spec fn spec_clip_advanced(c: Clip, delta: int) -> Clip {
    if c.looping {
        Clip {
            duration_ms: c.duration_ms,
            looping: c.looping,
            local_time_ms: ((c.local_time_ms + delta) % (c.duration_ms as int)) as u64,
        }
    } else if c.local_time_ms + delta >= c.duration_ms {
        Clip { duration_ms: c.duration_ms, looping: c.looping, local_time_ms: c.duration_ms }
    } else {
        Clip {
            duration_ms: c.duration_ms,
            looping: c.looping,
            local_time_ms: (c.local_time_ms + delta) as u64,
        }
    }
}

impl Clip {
    /// A fresh clip at its start.
    pub fn new(duration_ms: u64, looping: bool) -> (r: Clip)
        requires
            0 < duration_ms <= MAX_DURATION_MS,
        ensures
            r == (Clip { duration_ms, looping, local_time_ms: 0u64 }),
            r.wf(),
    {
        Clip { duration_ms, looping, local_time_ms: 0 }
    }

    /// Move the playback position back to the clip's start.
    pub fn rewind(&mut self)
        ensures
            *final(self) == (Clip {
                duration_ms: old(self).duration_ms,
                looping: old(self).looping,
                local_time_ms: 0u64,
            }),
    {
        self.local_time_ms = 0;
    }

    /// Play `delta_ms` of the clip.
    pub fn advance(&mut self, delta_ms: u64)
        requires
            old(self).wf(),
            delta_ms <= MAX_DELTA_MS,
        ensures
            *final(self) == spec_clip_advanced(*old(self), delta_ms as int),
            final(self).wf(),
    {
        if self.looping {
            self.local_time_ms = (self.local_time_ms + delta_ms) % self.duration_ms;
        } else {
            let t = self.local_time_ms + delta_ms;
            if t >= self.duration_ms {
                self.local_time_ms = self.duration_ms;
            } else {
                self.local_time_ms = t;
            }
        }
    }
}

/// The fixed clip set of a character: idle, run, jump and attack, each
/// retargeted onto the character's skeleton by the loader before the
/// durations reach this type. The jump clip is one-shot; the others loop.
#[derive(Clone, Copy, Debug, PartialEq, Eq, Structural)]
pub struct CharacterAnimations {
    pub idle: Clip,
    pub run: Clip,
    pub jump: Clip,
    pub attack: Clip,
}

impl CharacterAnimations {
    /// Every clip is playable, the looping clips loop, and jump does not.
    pub open spec fn wf(self) -> bool {
        &&& self.idle.wf() && self.idle.looping
        &&& self.run.wf() && self.run.looping
        &&& self.jump.wf() && !self.jump.looping
        &&& self.attack.wf() && self.attack.looping
    }

    /// The clip a semantic name refers to.
    pub open spec fn spec_clip(self, id: ClipId) -> Clip {
        match id {
            ClipId::Idle => self.idle,
            ClipId::Run => self.run,
            ClipId::Jump => self.jump,
            ClipId::Attack => self.attack,
        }
    }

    /// Build the clip set from the four clip durations; all clips start at
    /// position zero, and only the jump clip is configured one-shot.
    pub fn new(
        idle_duration_ms: u64,
        run_duration_ms: u64,
        jump_duration_ms: u64,
        attack_duration_ms: u64,
    ) -> (r: CharacterAnimations)
        requires
            0 < idle_duration_ms <= MAX_DURATION_MS,
            0 < run_duration_ms <= MAX_DURATION_MS,
            0 < jump_duration_ms <= MAX_DURATION_MS,
            0 < attack_duration_ms <= MAX_DURATION_MS,
        ensures
            r.wf(),
            r.idle == (Clip { duration_ms: idle_duration_ms, looping: true, local_time_ms: 0u64 }),
            r.run == (Clip { duration_ms: run_duration_ms, looping: true, local_time_ms: 0u64 }),
            r.jump == (Clip { duration_ms: jump_duration_ms, looping: false, local_time_ms: 0u64 }),
            r.attack == (Clip {
                duration_ms: attack_duration_ms,
                looping: true,
                local_time_ms: 0u64,
            }),
    {
        CharacterAnimations {
            idle: Clip::new(idle_duration_ms, true),
            run: Clip::new(run_duration_ms, true),
            jump: Clip::new(jump_duration_ms, false),
            attack: Clip::new(attack_duration_ms, true),
        }
    }

    /// Read the clip a name refers to.
    pub fn get(&self, id: ClipId) -> (r: Clip)
        ensures
            r == self.spec_clip(id),
    {
        match id {
            ClipId::Idle => self.idle,
            ClipId::Run => self.run,
            ClipId::Jump => self.jump,
            ClipId::Attack => self.attack,
        }
    }

    /// Rewind one clip to its start, leaving the others untouched.
    pub fn rewind(&mut self, id: ClipId)
        ensures
            final(self).spec_clip(id) == (Clip {
                duration_ms: old(self).spec_clip(id).duration_ms,
                looping: old(self).spec_clip(id).looping,
                local_time_ms: 0u64,
            }),
            forall|j: ClipId| j != id ==> final(self).spec_clip(j) == old(self).spec_clip(j),
    {
        match id {
            ClipId::Idle => self.idle.rewind(),
            ClipId::Run => self.run.rewind(),
            ClipId::Jump => self.jump.rewind(),
            ClipId::Attack => self.attack.rewind(),
        }
    }

    /// Play `delta_ms` of every clip.
    pub fn advance_all(&mut self, delta_ms: u64)
        requires
            old(self).wf(),
            delta_ms <= MAX_DELTA_MS,
        ensures
            *final(self) == spec_anims_advanced(*old(self), delta_ms as int),
            final(self).wf(),
    {
        self.idle.advance(delta_ms);
        self.run.advance(delta_ms);
        self.jump.advance(delta_ms);
        self.attack.advance(delta_ms);
    }
}

/// Every clip of the set after `delta` milliseconds of playback.
pub open spec fn spec_anims_advanced(a: CharacterAnimations, delta: int) -> CharacterAnimations {
    CharacterAnimations {
        idle: spec_clip_advanced(a.idle, delta),
        run: spec_clip_advanced(a.run, delta),
        jump: spec_clip_advanced(a.jump, delta),
        attack: spec_clip_advanced(a.attack, delta),
    }
}

/// The clip set after the jump clip was rewound, which happens exactly when
/// a jump just started this tick.
pub open spec fn spec_anims_rewound(a: CharacterAnimations, just_started_jumping: bool)
    -> CharacterAnimations {
    if just_started_jumping {
        CharacterAnimations {
            idle: a.idle,
            run: a.run,
            jump: Clip {
                duration_ms: a.jump.duration_ms,
                looping: a.jump.looping,
                local_time_ms: 0u64,
            },
            attack: a.attack,
        }
    } else {
        a
    }
}

/// The per-tick animation intent the locomotion layer computes: whether the
/// character runs, is airborne, started a jump this very tick, and attacks.
#[derive(Clone, Copy, Debug, PartialEq, Eq, Structural)]
pub struct CharacterAnimationInput {
    pub running: bool,
    pub jumping: bool,
    pub just_started_jumping: bool,
    pub attacking: bool,
}

impl Default for CharacterAnimationInput {
    /// No intent: not running, grounded, no fresh jump, no attack.
    fn default() -> (r: CharacterAnimationInput)
        ensures
            !r.running && !r.jumping && !r.just_started_jumping && !r.attacking,
    {
        CharacterAnimationInput {
            running: false,
            jumping: false,
            just_started_jumping: false,
            attacking: false,
        }
    }
}

/// The guard values one intent induces, one per transition of the
/// controller's machine; where two guards out of one state can hold at
/// once, registration order decides which transition fires.
pub open spec fn spec_params_from(input: CharacterAnimationInput) -> Params {
    Params {
        idle_to_walk: input.running,
        walk_to_idle: !input.running,
        walk_to_jump: input.jumping,
        idle_to_jump: input.jumping,
        jump_to_walk: input.running && !input.jumping,
        jump_to_idle: !input.running && !input.jumping,
        walk_to_attack: input.attacking,
        idle_to_attack: input.attacking,
        jump_to_attack: !input.jumping && input.attacking,
        attack_to_walk: !input.attacking && input.running,
        attack_to_idle: !input.attacking && !input.running,
        attack_to_jump: !input.attacking && input.jumping,
    }
}

/// A machine with its guard parameters replaced.
pub open spec fn spec_with_params(m: MachineView, p: Params) -> MachineView {
    MachineView {
        states: m.states,
        transitions: m.transitions,
        params: p,
        entry_state: m.entry_state,
        active_state: m.active_state,
        active_transition: m.active_transition,
        transition_elapsed_ms: m.transition_elapsed_ms,
    }
}

/// One clip sampled at a playback position.
#[derive(Clone, Copy, Debug, PartialEq, Eq, Structural)]
pub struct ClipSample {
    pub clip: ClipId,
    pub time_ms: u64,
}

/// The blended skeletal pose of one tick: the active state's clip at its
/// position and, while a transition runs, the destination state's clip with
/// the blend weight in thousandths.
#[derive(Clone, Copy, Debug, PartialEq, Eq)]
pub struct Pose {
    pub source: ClipSample,
    pub dest: Option<ClipSample>,
    pub weight: u64,
}

/// The clip sample state `s` of machine `m` shows, read from clip set `a`.
pub open spec fn spec_sample(m: MachineView, a: CharacterAnimations, s: int) -> ClipSample {
    let c = m.states[s].clip;
    ClipSample { clip: c, time_ms: a.spec_clip(c).local_time_ms }
}

/// The pose machine `m` shows over clip set `a`.
pub open spec fn spec_pose(m: MachineView, a: CharacterAnimations) -> Pose {
    let b = spec_blend(m);
    Pose {
        source: spec_sample(m, a, b.source),
        dest: match b.dest {
            None => None,
            Some(d) => Some(spec_sample(m, a, d)),
        },
        weight: b.weight as u64,
    }
}

/// The animation controller: the clip set and the machine built over it.
pub struct CharacterAnimationController {
    pub animations: CharacterAnimations,
    pub machine: Machine,
}

/// Machine state indices the controller uses.
pub const IDLE_STATE: usize = 0;

pub const RUN_STATE: usize = 1;

pub const JUMP_STATE: usize = 2;

pub const ATTACK_STATE: usize = 3;

impl CharacterAnimationController {
    pub open spec fn wf(self) -> bool {
        &&& self.machine@.wf()
        &&& self.animations.wf()
    }

    /// Build the machine: four states and twelve guarded transitions,
    /// registered in the order that is also their priority order when
    /// several guards hold, with idle as entry state.
    pub fn new(animations: CharacterAnimations) -> (r: CharacterAnimationController)
        requires
            animations.wf(),
        ensures
            r.wf(),
            r.animations == animations,
            r.machine@.states =~= seq![
                State { clip: ClipId::Idle },
                State { clip: ClipId::Run },
                State { clip: ClipId::Jump },
                State { clip: ClipId::Attack },
            ],
            r.machine@.transitions =~= spec_controller_transitions(),
            r.machine@.entry_state == IDLE_STATE,
            r.machine@.active_state == IDLE_STATE,
            r.machine@.active_transition is None,
            r.machine@.transition_elapsed_ms == 0,
            forall|p: Param| !r.machine@.params.spec_get(p),
    {
        let mut machine = Machine::new();

        let idle_state = machine.add_state(State { clip: ClipId::Idle });
        let run_state = machine.add_state(State { clip: ClipId::Run });
        let jump_state = machine.add_state(State { clip: ClipId::Jump });
        let attack_state = machine.add_state(State { clip: ClipId::Attack });

        machine.add_transition(
            Transition {
                source: run_state,
                dest: idle_state,
                duration_ms: 500,
                param: Param::WalkToIdle,
            },
        );
        machine.add_transition(
            Transition {
                source: run_state,
                dest: jump_state,
                duration_ms: 250,
                param: Param::WalkToJump,
            },
        );
        machine.add_transition(
            Transition {
                source: idle_state,
                dest: run_state,
                duration_ms: 100,
                param: Param::IdleToWalk,
            },
        );
        machine.add_transition(
            Transition {
                source: idle_state,
                dest: jump_state,
                duration_ms: 250,
                param: Param::IdleToJump,
            },
        );
        machine.add_transition(
            Transition {
                source: jump_state,
                dest: run_state,
                duration_ms: 100,
                param: Param::JumpToWalk,
            },
        );
        machine.add_transition(
            Transition {
                source: jump_state,
                dest: idle_state,
                duration_ms: 500,
                param: Param::JumpToIdle,
            },
        );
        machine.add_transition(
            Transition {
                source: run_state,
                dest: attack_state,
                duration_ms: 100,
                param: Param::WalkToAttack,
            },
        );
        machine.add_transition(
            Transition {
                source: idle_state,
                dest: attack_state,
                duration_ms: 100,
                param: Param::IdleToAttack,
            },
        );
        machine.add_transition(
            Transition {
                source: jump_state,
                dest: attack_state,
                duration_ms: 100,
                param: Param::JumpToAttack,
            },
        );
        machine.add_transition(
            Transition {
                source: attack_state,
                dest: run_state,
                duration_ms: 100,
                param: Param::AttackToWalk,
            },
        );
        machine.add_transition(
            Transition {
                source: attack_state,
                dest: idle_state,
                duration_ms: 100,
                param: Param::AttackToIdle,
            },
        );
        machine.add_transition(
            Transition {
                source: attack_state,
                dest: jump_state,
                duration_ms: 100,
                param: Param::AttackToJump,
            },
        );
        machine.set_entry_state(idle_state);

        CharacterAnimationController { animations, machine }
    }

    /// One animation tick. When a jump just started, the jump clip is
    /// rewound before anything is sampled, so a re-triggered jump always
    /// replays from its first frame. Then every guard is written from the
    /// intent, the machine is evaluated, and the pose is read off before
    /// clip positions advance by the tick's delta.
    pub fn apply(&mut self, delta_ms: u64, input: CharacterAnimationInput) -> (pose: Pose)
        requires
            old(self).wf(),
            delta_ms <= MAX_DELTA_MS,
        ensures
            final(self).wf(),
            final(self).machine@ == spec_step(
                spec_with_params(old(self).machine@, spec_params_from(input)),
                delta_ms as int,
            ),
            final(self).animations == spec_anims_advanced(
                spec_anims_rewound(old(self).animations, input.just_started_jumping),
                delta_ms as int,
            ),
            pose == spec_pose(
                final(self).machine@,
                spec_anims_rewound(old(self).animations, input.just_started_jumping),
            ),
            input.just_started_jumping && pose.source.clip == ClipId::Jump ==> pose.source.time_ms
                == 0,
            input.just_started_jumping ==> match pose.dest {
                Some(d) => d.clip == ClipId::Jump ==> d.time_ms == 0,
                None => true,
            },
    {
        if input.just_started_jumping {
            self.animations.rewind(ClipId::Jump);
            proof {
                assert(self.animations.spec_clip(ClipId::Idle) == old(
                    self,
                ).animations.spec_clip(ClipId::Idle));
                assert(self.animations.spec_clip(ClipId::Run) == old(self).animations.spec_clip(
                    ClipId::Run,
                ));
                assert(self.animations.spec_clip(ClipId::Attack) == old(
                    self,
                ).animations.spec_clip(ClipId::Attack));
            }
        }
        assert(self.animations == spec_anims_rewound(
            old(self).animations,
            input.just_started_jumping,
        ));

        self.machine.set_parameter(Param::IdleToWalk, input.running);
        self.machine.set_parameter(Param::WalkToIdle, !input.running);
        self.machine.set_parameter(Param::WalkToJump, input.jumping);
        self.machine.set_parameter(Param::IdleToJump, input.jumping);
        self.machine.set_parameter(Param::JumpToWalk, input.running && !input.jumping);
        self.machine.set_parameter(Param::JumpToIdle, !input.running && !input.jumping);
        self.machine.set_parameter(Param::WalkToAttack, input.attacking);
        self.machine.set_parameter(Param::IdleToAttack, input.attacking);
        self.machine.set_parameter(Param::JumpToAttack, !input.jumping && input.attacking);
        self.machine.set_parameter(Param::AttackToWalk, !input.attacking && input.running);
        self.machine.set_parameter(Param::AttackToIdle, !input.attacking && !input.running);
        self.machine.set_parameter(Param::AttackToJump, !input.attacking && input.jumping);
        assert(self.machine@ == spec_with_params(old(self).machine@, spec_params_from(input)));

        let blend = self.machine.evaluate(delta_ms);

        let source_clip = self.machine.states[blend.source].clip;
        let source = ClipSample {
            clip: source_clip,
            time_ms: self.animations.get(source_clip).local_time_ms,
        };
        let dest = match blend.dest {
            Some(d) => {
                let dest_clip = self.machine.states[d].clip;
                Some(
                    ClipSample {
                        clip: dest_clip,
                        time_ms: self.animations.get(dest_clip).local_time_ms,
                    },
                )
            },
            None => None,
        };
        let pose = Pose { source, dest, weight: blend.weight };

        self.animations.advance_all(delta_ms);
        pose
    }
}

/// Advancing a playable clip by zero time leaves it where it is.
pub proof fn lemma_clip_advanced_zero(c: Clip)
    requires
        c.wf(),
    ensures
        spec_clip_advanced(c, 0) == c,
{
    if c.looping {
        vstd::arithmetic::div_mod::lemma_small_mod(c.local_time_ms as nat, c.duration_ms as nat);
    }
}

/// Advancing the clip set by zero time leaves every clip where it is.
pub proof fn lemma_anims_advanced_zero(a: CharacterAnimations)
    requires
        a.wf(),
    ensures
        spec_anims_advanced(a, 0) == a,
{
    lemma_clip_advanced_zero(a.idle);
    lemma_clip_advanced_zero(a.run);
    lemma_clip_advanced_zero(a.jump);
    lemma_clip_advanced_zero(a.attack);
}

/// Rewinding leaves the clip set well-formed.
pub proof fn lemma_anims_rewound_wf(a: CharacterAnimations, just_started_jumping: bool)
    requires
        a.wf(),
    ensures
        spec_anims_rewound(a, just_started_jumping).wf(),
{
}

/// An animation tick with a zero time delta is idempotent: fed the same
/// intent twice in a row with zero delta, the second tick leaves the
/// controller exactly where the first did and reports the same pose.
pub proof fn lemma_apply_zero_delta_idempotent(
    m: MachineView,
    a: CharacterAnimations,
    input: CharacterAnimationInput,
)
    requires
        m.wf(),
        a.wf(),
    ensures
        ({
            let p = spec_params_from(input);
            let m1 = spec_step(spec_with_params(m, p), 0);
            let a_r = spec_anims_rewound(a, input.just_started_jumping);
            let a1 = spec_anims_advanced(a_r, 0);
            &&& spec_step(spec_with_params(m1, p), 0) == m1
            &&& spec_anims_advanced(spec_anims_rewound(a1, input.just_started_jumping), 0) == a1
            &&& spec_pose(
                spec_step(spec_with_params(m1, p), 0),
                spec_anims_rewound(a1, input.just_started_jumping),
            ) == spec_pose(m1, a_r)
        }),
{
    let p = spec_params_from(input);
    let mp = spec_with_params(m, p);
    assert(mp.wf());
    crate::machine::lemma_step_wf(mp, 0);
    let m1 = spec_step(mp, 0);
    assert(spec_with_params(m1, p) == m1);
    crate::machine::lemma_advanced_zero(mp);
    crate::machine::lemma_advanced_zero(m1);
    crate::machine::lemma_started_idempotent(mp);

    let a_r = spec_anims_rewound(a, input.just_started_jumping);
    lemma_anims_rewound_wf(a, input.just_started_jumping);
    lemma_anims_advanced_zero(a_r);
    let a1 = spec_anims_advanced(a_r, 0);
    assert(spec_anims_rewound(a1, input.just_started_jumping) == a1);
    lemma_anims_advanced_zero(a1);
}

/// The transition table of the controller's machine, in registration order.
pub open spec fn spec_controller_transitions() -> Seq<Transition> {
    seq![
        Transition {
            source: RUN_STATE,
            dest: IDLE_STATE,
            duration_ms: 500u64,
            param: Param::WalkToIdle,
        },
        Transition {
            source: RUN_STATE,
            dest: JUMP_STATE,
            duration_ms: 250u64,
            param: Param::WalkToJump,
        },
        Transition {
            source: IDLE_STATE,
            dest: RUN_STATE,
            duration_ms: 100u64,
            param: Param::IdleToWalk,
        },
        Transition {
            source: IDLE_STATE,
            dest: JUMP_STATE,
            duration_ms: 250u64,
            param: Param::IdleToJump,
        },
        Transition {
            source: JUMP_STATE,
            dest: RUN_STATE,
            duration_ms: 100u64,
            param: Param::JumpToWalk,
        },
        Transition {
            source: JUMP_STATE,
            dest: IDLE_STATE,
            duration_ms: 500u64,
            param: Param::JumpToIdle,
        },
        Transition {
            source: RUN_STATE,
            dest: ATTACK_STATE,
            duration_ms: 100u64,
            param: Param::WalkToAttack,
        },
        Transition {
            source: IDLE_STATE,
            dest: ATTACK_STATE,
            duration_ms: 100u64,
            param: Param::IdleToAttack,
        },
        Transition {
            source: JUMP_STATE,
            dest: ATTACK_STATE,
            duration_ms: 100u64,
            param: Param::JumpToAttack,
        },
        Transition {
            source: ATTACK_STATE,
            dest: RUN_STATE,
            duration_ms: 100u64,
            param: Param::AttackToWalk,
        },
        Transition {
            source: ATTACK_STATE,
            dest: IDLE_STATE,
            duration_ms: 100u64,
            param: Param::AttackToIdle,
        },
        Transition {
            source: ATTACK_STATE,
            dest: JUMP_STATE,
            duration_ms: 100u64,
            param: Param::AttackToJump,
        },
    ]
}

} // verus!
