use character_control::bot::Bot;
use character_control::bot_ai::BotAi;
use character_control::character::{Character, GameTime};
use character_control::character_animation::{
    CharacterAnimationController, CharacterAnimations,
};
use character_control::character_body::CharacterBody;
use character_control::keyboard_input::{keymap_lookup, Action, ActionStates};
use character_control::math::Vec3;
use character_control::movement_controller::{BodyState, MovementControlelr};
use character_control::player::Player;
use character_control::settings::CharacterSpeedSettings;

const KEY_W: u32 = 17;
const KEY_S: u32 = 31;
const KEY_A: u32 = 30;
const KEY_D: u32 = 32;
const KEY_SPACE: u32 = 57;

fn keymap() -> Vec<(u32, Action)> {
    vec![
        (KEY_W, Action::Forward),
        (KEY_S, Action::Backward),
        (KEY_A, Action::Left),
        (KEY_D, Action::Right),
        (KEY_SPACE, Action::Jump),
    ]
}

fn speed() -> CharacterSpeedSettings {
    CharacterSpeedSettings { run: 3000, jump: 2000 }
}

fn still_body() -> BodyState {
    BodyState { linear_velocity: Vec3::zero(), angular_velocity: Vec3::new(1, 2, 3) }
}

fn look() -> Vec3 {
    Vec3::new(0, 0, -1000)
}

fn side() -> Vec3 {
    Vec3::new(1000, 0, 0)
}

fn tick(elapsed_ms: u64) -> GameTime {
    GameTime { elapsed_ms, delta_ms: 16 }
}

fn player() -> Player {
    let body = CharacterBody::new(1, 2, 3, 4, (400, 1800));
    let animations = CharacterAnimations::new(2000, 1000, 800, 600);
    let character = Character::new(body, CharacterAnimationController::new(animations));
    Player::new(character, MovementControlelr::new(keymap(), speed()))
}

#[test]
fn keymap_lookup_finds_first_binding() {
    let m = keymap();
    assert_eq!(keymap_lookup(&m, KEY_W), Some(Action::Forward));
    assert_eq!(keymap_lookup(&m, KEY_SPACE), Some(Action::Jump));
    assert_eq!(keymap_lookup(&m, 99), None);
}

#[test]
fn action_states_start_released_and_record_presses() {
    let mut a = ActionStates::new();
    assert!(!a.get(Action::Forward) && !a.get(Action::Jump));
    a.set(Action::Forward, true);
    assert!(a.get(Action::Forward));
    assert!(!a.get(Action::Backward));
    a.set(Action::Forward, false);
    assert!(!a.get(Action::Forward));
}

#[test]
fn forward_only_commands_run_speed_along_look() {
    // Forward held, look = (0, 0, -1), run speed 3.0: the velocity command
    // is (0, unchanged y, -3.0).
    let mut c = MovementControlelr::new(keymap(), speed());
    c.process_input_event(KEY_W, true);
    let mut body = BodyState {
        linear_velocity: Vec3::new(0, 500, 0),
        angular_velocity: Vec3::new(9, 9, 9),
    };
    let intent = c.update(&look(), &side(), false, &mut body);
    assert_eq!(body.linear_velocity, Vec3::new(0, 500, -3000));
    assert_eq!(body.angular_velocity, Vec3::zero());
    assert!(intent.running);
    assert!(intent.jumping); // airborne: no ground contact this tick
    assert!(!intent.just_started_jumping);
}

#[test]
fn grounded_idle_damps_horizontal_velocity_gradually() {
    let mut c = MovementControlelr::new(keymap(), speed());
    let mut body = BodyState {
        linear_velocity: Vec3::new(1000, 200, -500),
        angular_velocity: Vec3::zero(),
    };
    let intent = c.update(&look(), &side(), true, &mut body);
    assert!(!intent.running && !intent.jumping);
    // each grounded tick multiplies the horizontal components by 0.9
    assert_eq!(body.linear_velocity, Vec3::new(900, 200, -450));
    c.update(&look(), &side(), true, &mut body);
    assert_eq!(body.linear_velocity, Vec3::new(810, 200, -405));
    // decay is exponential, never an instantaneous stop
    assert_ne!(body.linear_velocity.x, 0);
}

#[test]
fn grounded_jump_press_is_consumed_by_one_update() {
    let mut c = MovementControlelr::new(keymap(), speed());
    c.process_input_event(KEY_SPACE, true);
    let mut body = still_body();
    let intent = c.update(&look(), &side(), true, &mut body);
    // the jump command was applied and reported
    assert!(intent.just_started_jumping);
    let boosted_y = body.linear_velocity.y;
    assert_eq!(boosted_y, 2000); // normalized up vector times jump speed
    // the latch is cleared: a second update without re-pressing jump
    // neither reports a jump start nor re-applies the upward impulse
    let intent = c.update(&look(), &side(), true, &mut body);
    assert!(!intent.just_started_jumping);
    assert_eq!(body.linear_velocity.y, boosted_y);
}

#[test]
fn airborne_jump_press_keeps_the_latch_for_landing() {
    let mut c = MovementControlelr::new(keymap(), speed());
    c.process_input_event(KEY_SPACE, true);
    let mut body = still_body();
    // airborne: the press is consumed without any upward impulse
    let intent = c.update(&look(), &side(), false, &mut body);
    assert!(!intent.just_started_jumping);
    assert!(intent.jumping);
    assert_eq!(body.linear_velocity.y, 0);
}

#[test]
fn opposite_directions_cancel_to_no_command() {
    let mut c = MovementControlelr::new(keymap(), speed());
    c.process_input_event(KEY_W, true);
    c.process_input_event(KEY_S, true);
    let mut body = BodyState {
        linear_velocity: Vec3::new(77, 88, 99),
        angular_velocity: Vec3::zero(),
    };
    let intent = c.update(&look(), &side(), false, &mut body);
    assert!(!intent.running);
    // no command this tick: airborne, so not even damping changes it
    assert_eq!(body.linear_velocity, Vec3::new(77, 88, 99));
}

#[test]
fn strafe_left_runs_along_side_vector() {
    let mut c = MovementControlelr::new(keymap(), speed());
    c.process_input_event(KEY_A, true);
    let mut body = still_body();
    let intent = c.update(&look(), &side(), false, &mut body);
    assert!(intent.running);
    assert_eq!(body.linear_velocity, Vec3::new(3000, 0, 0));
    // releasing left and pressing right mirrors the command
    c.process_input_event(KEY_A, false);
    c.process_input_event(KEY_D, true);
    let intent = c.update(&look(), &side(), false, &mut body);
    assert!(intent.running);
    assert_eq!(body.linear_velocity, Vec3::new(-3000, 0, 0));
}

#[test]
fn attack_latch_holds_for_its_duration_and_then_clears() {
    let mut p = player();
    let mut body = still_body();
    p.process_attack_input(true);
    p.update(tick(0), &look(), &side(), true, &mut body);
    assert!(p.is_attacking);
    assert_eq!(p.attack_start_time, 0);
    // released immediately: no re-trigger afterwards
    p.process_attack_input(false);
    p.update(tick(500), &look(), &side(), true, &mut body);
    assert!(p.is_attacking);
    p.update(tick(999), &look(), &side(), true, &mut body);
    assert!(p.is_attacking);
    p.update(tick(1000), &look(), &side(), true, &mut body);
    assert!(!p.is_attacking);
}

#[test]
fn attack_latch_ignores_further_input_while_running() {
    let mut p = player();
    let mut body = still_body();
    p.process_attack_input(true);
    p.update(tick(0), &look(), &side(), true, &mut body);
    assert!(p.is_attacking);
    // still held at 600: the latch neither clears nor restarts
    p.update(tick(600), &look(), &side(), true, &mut body);
    assert!(p.is_attacking);
    assert_eq!(p.attack_start_time, 0);
    // still held once the duration elapsed: it re-latches from now
    p.update(tick(1200), &look(), &side(), true, &mut body);
    assert!(p.is_attacking);
    assert_eq!(p.attack_start_time, 1200);
}

#[test]
fn player_tick_feeds_attack_into_the_pose_machine() {
    let mut p = player();
    let mut body = still_body();
    p.process_attack_input(true);
    p.update(tick(0), &look(), &side(), true, &mut body);
    // the idle->attack blend (100 ms) completes over the following ticks
    p.update(tick(16), &look(), &side(), true, &mut body);
    p.update(
        GameTime { elapsed_ms: 200, delta_ms: 200 },
        &look(),
        &side(),
        true,
        &mut body,
    );
    assert_eq!(
        p.character.animation.machine.active_state,
        character_control::character_animation::ATTACK_STATE
    );
}

#[test]
fn character_health_defaults_to_one_hundred() {
    let body = CharacterBody::new(1, 2, 3, 4, (400, 1800));
    let animations = CharacterAnimations::new(2000, 1000, 800, 600);
    let character = Character::new(body, CharacterAnimationController::new(animations));
    assert_eq!(character.health, 100);
}

#[test]
fn bot_chases_the_target_while_far() {
    let body = CharacterBody::new(5, 6, 7, 8, (400, 1800));
    let animations = CharacterAnimations::new(2000, 1000, 800, 600);
    let character = Character::new(body, CharacterAnimationController::new(animations));
    let mut bot = Bot::new(character, BotAi::new(CharacterSpeedSettings { run: 2000, jump: 0 }));
    let mut body = BodyState {
        linear_velocity: Vec3::new(0, -300, 0),
        angular_velocity: Vec3::new(4, 5, 6),
    };
    let position = Vec3::new(0, 500, 0);
    let (_pose, facing) = bot.update(tick(0), &position, &mut body);
    // direction to the target (1, y, 1) is horizontal
    assert_eq!(facing, Vec3::new(1000, 0, 1000));
    // distance is isqrt(2_000_000) = 1414; each horizontal component is
    // 1000 * 2000 / 1414, with vertical velocity preserved
    assert_eq!(body.linear_velocity, Vec3::new(1414, -300, 1414));
    // the bot does not touch angular velocity
    assert_eq!(body.angular_velocity, Vec3::new(4, 5, 6));
}

#[test]
fn bot_rests_near_the_target() {
    let ai_speed = CharacterSpeedSettings { run: 2000, jump: 0 };
    let mut ai = BotAi::new(ai_speed);
    let mut body = BodyState {
        linear_velocity: Vec3::new(123, 456, 789),
        angular_velocity: Vec3::zero(),
    };
    // 50 thousandths from the target: inside the 100-thousandth threshold
    let position = Vec3::new(950, 0, 1000);
    let (intent, facing) = ai.update(&position, &mut body);
    assert!(!intent.running);
    assert_eq!(facing, Vec3::new(50, 0, 0));
    assert_eq!(body.linear_velocity, Vec3::new(123, 456, 789));
}

#[test]
fn duplicate_key_bindings_use_the_first() {
    let m = vec![(KEY_W, Action::Forward), (KEY_W, Action::Jump)];
    assert_eq!(keymap_lookup(&m, KEY_W), Some(Action::Forward));
}

#[test]
fn character_position_is_looked_up_by_body_handle() {
    let ch = Character::new(
        CharacterBody::new(1, 2, 3, 4, (400, 1800)),
        CharacterAnimationController::new(CharacterAnimations::new(2000, 1000, 800, 600)),
    );
    let mut store = vec![(9, Vec3::new(7, 7, 7)), (1, Vec3::new(100, 0, -200))];
    assert_eq!(ch.position(&store), Some(Vec3::new(100, 0, -200)));
    assert!(ch.set_position(&mut store, Vec3::new(5, 6, 7)));
    assert_eq!(ch.position(&store), Some(Vec3::new(5, 6, 7)));
    assert_eq!(store[0].1, Vec3::new(7, 7, 7));
}

#[test]
fn character_position_surfaces_an_unknown_handle() {
    let ch = Character::new(
        CharacterBody::new(42, 2, 3, 4, (400, 1800)),
        CharacterAnimationController::new(CharacterAnimations::new(2000, 1000, 800, 600)),
    );
    let mut store = vec![(9, Vec3::new(7, 7, 7))];
    assert_eq!(ch.position(&store), None);
    assert!(!ch.set_position(&mut store, Vec3::zero()));
    assert_eq!(store, vec![(9, Vec3::new(7, 7, 7))]);
}
