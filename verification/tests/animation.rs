use character_control::character_animation::{
    CharacterAnimationController, CharacterAnimationInput, CharacterAnimations, ATTACK_STATE,
    IDLE_STATE, JUMP_STATE, RUN_STATE,
};
use character_control::machine::{Blend, ClipId, Param};

fn controller() -> CharacterAnimationController {
    // idle 2s, run 1s, jump 800ms, attack 600ms
    CharacterAnimationController::new(CharacterAnimations::new(2000, 1000, 800, 600))
}

fn intent(running: bool, jumping: bool, just_started_jumping: bool, attacking: bool)
    -> CharacterAnimationInput {
    CharacterAnimationInput { running, jumping, just_started_jumping, attacking }
}

#[test]
fn entry_state_is_active_before_any_tick() {
    let c = controller();
    assert_eq!(c.machine.entry_state, IDLE_STATE);
    assert_eq!(c.machine.active_state, IDLE_STATE);
    assert!(c.machine.active_transition.is_none());
}

#[test]
fn controller_has_four_states_and_twelve_transitions() {
    let c = controller();
    assert_eq!(c.machine.states.len(), 4);
    assert_eq!(c.machine.transitions.len(), 12);
    assert_eq!(c.machine.states[IDLE_STATE].clip, ClipId::Idle);
    assert_eq!(c.machine.states[RUN_STATE].clip, ClipId::Run);
    assert_eq!(c.machine.states[JUMP_STATE].clip, ClipId::Jump);
    assert_eq!(c.machine.states[ATTACK_STATE].clip, ClipId::Attack);
}

#[test]
fn jump_clip_is_one_shot_and_others_loop() {
    let a = CharacterAnimations::new(2000, 1000, 800, 600);
    assert!(a.idle.looping && a.run.looping && a.attack.looping);
    assert!(!a.jump.looping);
    assert_eq!(a.jump.duration_ms, 800);
}

#[test]
fn unset_parameters_read_false_and_machine_stays_idle() {
    let mut c = controller();
    // No parameter has been set: every guard defaults to false except the
    // not-running/not-attacking style guards, which are only written by
    // apply. A bare machine evaluation starts nothing.
    let b = c.machine.evaluate(16);
    assert_eq!(b, Blend { source: IDLE_STATE, dest: None, weight: 0 });
    assert_eq!(c.machine.active_state, IDLE_STATE);
}

#[test]
fn running_guard_starts_idle_to_run_blend() {
    let mut c = controller();
    c.machine.set_parameter(Param::IdleToWalk, true);
    let b = c.machine.evaluate(0);
    // the transition begins on the same evaluation, at weight zero
    assert_eq!(b, Blend { source: IDLE_STATE, dest: Some(RUN_STATE), weight: 0 });
    // halfway through the 100 ms blend
    let b = c.machine.evaluate(50);
    assert_eq!(b, Blend { source: IDLE_STATE, dest: Some(RUN_STATE), weight: 500 });
    // the blend completes and run becomes the active state
    let b = c.machine.evaluate(50);
    assert_eq!(c.machine.active_state, RUN_STATE);
    assert_eq!(b, Blend { source: RUN_STATE, dest: None, weight: 0 });
}

#[test]
fn first_registered_transition_wins_on_guard_ties() {
    let mut c = controller();
    // From idle, idle->run is registered before idle->jump and idle->attack.
    c.machine.set_parameter(Param::IdleToWalk, true);
    c.machine.set_parameter(Param::IdleToJump, true);
    c.machine.set_parameter(Param::IdleToAttack, true);
    let b = c.machine.evaluate(0);
    assert_eq!(b.dest, Some(RUN_STATE));
}

#[test]
fn active_state_stays_declared_through_arbitrary_guard_writes() {
    let mut c = controller();
    let params = [
        Param::IdleToWalk,
        Param::WalkToIdle,
        Param::WalkToJump,
        Param::IdleToJump,
        Param::JumpToWalk,
        Param::JumpToIdle,
        Param::WalkToAttack,
        Param::IdleToAttack,
        Param::JumpToAttack,
        Param::AttackToWalk,
        Param::AttackToIdle,
        Param::AttackToJump,
    ];
    for step in 0..200u64 {
        let p = params[(step % 12) as usize];
        c.machine.set_parameter(p, step % 3 == 0);
        let b = c.machine.evaluate(37 * (step % 5));
        assert!(c.machine.active_state < c.machine.states.len());
        assert!(b.source < c.machine.states.len());
        if let Some(d) = b.dest {
            assert!(d < c.machine.states.len());
        }
    }
}

#[test]
fn apply_moves_idle_to_run_and_back() {
    let mut c = controller();
    // running: the idle->run blend starts and completes after 100 ms
    c.apply(0, intent(true, false, false, false));
    let pose = c.apply(100, intent(true, false, false, false));
    assert_eq!(c.machine.active_state, RUN_STATE);
    assert_eq!(pose.source.clip, ClipId::Run);
    // stopping: run->idle takes 500 ms
    let pose = c.apply(0, intent(false, false, false, false));
    assert_eq!(pose.dest.unwrap().clip, ClipId::Idle);
    c.apply(500, intent(false, false, false, false));
    assert_eq!(c.machine.active_state, IDLE_STATE);
}

#[test]
fn fresh_jump_rewinds_the_jump_clip_to_frame_zero() {
    let mut c = controller();
    // start a jump and let the jump clip play 300 ms into its 800 ms
    c.apply(0, intent(false, true, true, false));
    c.apply(300, intent(false, true, false, false));
    assert_eq!(c.animations.jump.local_time_ms, 300);
    // a re-triggered jump delivers just_started_jumping again: the pose
    // evaluated that tick shows the jump clip at exactly zero
    let pose = c.apply(16, intent(false, true, true, false));
    let mut saw_jump = false;
    if pose.source.clip == ClipId::Jump {
        assert_eq!(pose.source.time_ms, 0);
        saw_jump = true;
    }
    if let Some(d) = pose.dest {
        if d.clip == ClipId::Jump {
            assert_eq!(d.time_ms, 0);
            saw_jump = true;
        }
    }
    assert!(saw_jump);
}

#[test]
fn zero_delta_evaluation_is_idempotent() {
    let mut c = controller();
    // put the machine mid-blend first
    c.apply(0, intent(true, false, false, false));
    c.apply(40, intent(true, false, false, false));
    let tick = intent(true, false, false, false);
    let first = c.apply(0, tick);
    let second = c.apply(0, tick);
    assert_eq!(first, second);
}

#[test]
fn zero_delta_machine_evaluation_repeats_the_same_blend() {
    let mut c = controller();
    c.machine.set_parameter(Param::IdleToJump, true);
    let first = c.machine.evaluate(0);
    let second = c.machine.evaluate(0);
    assert_eq!(first, second);
}

#[test]
fn one_shot_jump_clip_stops_at_its_end_and_looping_clips_wrap() {
    let mut a = CharacterAnimations::new(2000, 1000, 800, 600);
    a.advance_all(900);
    assert_eq!(a.jump.local_time_ms, 800);
    assert_eq!(a.idle.local_time_ms, 900);
    assert_eq!(a.run.local_time_ms, 900);
    a.advance_all(200);
    assert_eq!(a.jump.local_time_ms, 800);
    assert_eq!(a.run.local_time_ms, 100);
    assert_eq!(a.attack.local_time_ms, 500);
}

#[test]
fn attack_guard_interrupts_running() {
    let mut c = controller();
    c.apply(0, intent(true, false, false, false));
    c.apply(100, intent(true, false, false, false));
    assert_eq!(c.machine.active_state, RUN_STATE);
    let pose = c.apply(0, intent(true, false, false, true));
    assert_eq!(pose.dest.unwrap().clip, ClipId::Attack);
    c.apply(100, intent(true, false, false, true));
    assert_eq!(c.machine.active_state, ATTACK_STATE);
    // attack ends while still running: attack->run
    let pose = c.apply(0, intent(true, false, false, false));
    assert_eq!(pose.dest.unwrap().clip, ClipId::Run);
}

#[test]
fn default_intent_is_entirely_inactive() {
    let i = CharacterAnimationInput::default();
    assert!(!i.running && !i.jumping && !i.just_started_jumping && !i.attacking);
}
