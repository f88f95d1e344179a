//! The player's state machine, movement rules, and full-tick behaviour.

use platformer_core::animation::Animation;
use platformer_core::collision::{detect_collision, Collision};
use platformer_core::kinematics::{Orientation, Velocity};
use platformer_core::player::{
    handle_player_collision_changes, init_player, move_player, player_tick, update_player_state,
    Player, PlayerInput, PlayerSensor, PlayerState,
};

fn grounded_set() -> Collision<PlayerSensor> {
    let mut set: Collision<PlayerSensor> = Collision::new();
    set.add(PlayerSensor::Down);
    set
}

fn idle_animation() -> Animation {
    Animation::new(200, vec![0, 1, 2, 3], true)
}

fn finished_animation() -> Animation {
    let mut a = Animation::new(100, vec![42], false);
    a.finished = true;
    a
}

#[test]
fn init_player_defaults() {
    let c = init_player();
    assert_eq!(c.player, Player { move_speed: 1500, acceleration: 8000, jump_impulse: 4500 });
    assert_eq!(c.state, PlayerState::Idle);
    assert_eq!((c.velocity.x, c.velocity.y), (0, 0));
    assert_eq!(c.orientation, Orientation::Right);
    assert!(c.gravity);
    assert!(!c.sensors_spawned);
    assert_eq!(c.sensors.len(), 0);
}

#[test]
fn can_move_only_outside_attack() {
    assert!(PlayerState::Idle.can_move());
    assert!(PlayerState::Run.can_move());
    assert!(PlayerState::Rising.can_move());
    assert!(PlayerState::Falling.can_move());
    assert!(!PlayerState::Attack1.can_move());
}

#[test]
fn unfinished_attack_dominates_every_input() {
    // Any velocity, any contacts, any input: an unfinished attack keeps the
    // attack state (rule one of the priority order).
    for vx in [-1500i64, 0, 1500] {
        for vy in [-10i64, 0, 4500] {
            for grounded in [false, true] {
                for attack in [false, true] {
                    let mut state = PlayerState::Attack1;
                    let animation = idle_animation();  // finished == false
                    let input = PlayerInput { left: false, right: false, jump: false, attack };
                    let set = if grounded {
                        grounded_set()
                    } else {
                        Collision::new()
                    };
                    let changed = update_player_state(
                        &Velocity { x: vx, y: vy },
                        &set,
                        &mut state,
                        &animation,
                        &input,
                    );
                    assert_eq!(state, PlayerState::Attack1);
                    assert!(!changed);
                }
            }
        }
    }
}

#[test]
fn finished_attack_returns_to_idle() {
    let mut state = PlayerState::Attack1;
    let changed = update_player_state(
        &Velocity { x: 0, y: 0 },
        &grounded_set(),
        &mut state,
        &finished_animation(),
        &PlayerInput::none(),
    );
    assert_eq!(state, PlayerState::Idle);
    assert!(changed);
}

#[test]
fn state_machine_priority_order() {
    // The attack edge beats the airborne rules.
    let empty: Collision<PlayerSensor> = Collision::new();
    let mut state = PlayerState::Falling;
    update_player_state(
        &Velocity { x: 0, y: -5 },
        &empty,
        &mut state,
        &idle_animation(),
        &PlayerInput { left: false, right: false, jump: false, attack: true },
    );
    assert_eq!(state, PlayerState::Attack1);

    // Grounded: the attack edge starts an attack.
    let mut state = PlayerState::Run;
    update_player_state(
        &Velocity { x: 900, y: 0 },
        &grounded_set(),
        &mut state,
        &idle_animation(),
        &PlayerInput { left: false, right: false, jump: false, attack: true },
    );
    assert_eq!(state, PlayerState::Attack1);

    // Airborne and moving upward is Rising.
    let mut state = PlayerState::Idle;
    update_player_state(
        &Velocity { x: 0, y: 1 },
        &empty,
        &mut state,
        &idle_animation(),
        &PlayerInput::none(),
    );
    assert_eq!(state, PlayerState::Rising);

    // Airborne and not rising is Falling.
    let mut state = PlayerState::Idle;
    update_player_state(
        &Velocity { x: 900, y: 0 },
        &empty,
        &mut state,
        &idle_animation(),
        &PlayerInput::none(),
    );
    assert_eq!(state, PlayerState::Falling);

    // The airborne rules apply only when the ground sensor is inactive: a
    // grounded character with upward velocity and no trigger is Idle/Run.
    let mut state = PlayerState::Rising;
    update_player_state(
        &Velocity { x: 0, y: 1 },
        &grounded_set(),
        &mut state,
        &idle_animation(),
        &PlayerInput::none(),
    );
    assert_eq!(state, PlayerState::Idle);

    // Grounded, no attack: horizontal motion picks Run over Idle.
    let mut state = PlayerState::Idle;
    update_player_state(
        &Velocity { x: 900, y: 0 },
        &grounded_set(),
        &mut state,
        &idle_animation(),
        &PlayerInput::none(),
    );
    assert_eq!(state, PlayerState::Run);
}

#[test]
fn redundant_state_writes_are_reported_as_unchanged() {
    let mut state = PlayerState::Idle;
    let changed = update_player_state(
        &Velocity { x: 0, y: 0 },
        &grounded_set(),
        &mut state,
        &idle_animation(),
        &PlayerInput::none(),
    );
    assert!(!changed);
    assert_eq!(state, PlayerState::Idle);
}

#[test]
fn movement_eases_toward_held_direction() {
    let player = Player { move_speed: 1500, acceleration: 8000, jump_impulse: 4500 };
    let mut v = Velocity { x: 0, y: 0 };
    let input = PlayerInput { left: false, right: true, jump: false, attack: false };
    move_player(&mut v, &player, &grounded_set(), &PlayerState::Idle, &input, 16);
    // 8 units/s^2 over 16 ms: 0.128 units gained.
    assert_eq!(v.x, 128);
    // A long tick clamps exactly at the top speed.
    move_player(&mut v, &player, &grounded_set(), &PlayerState::Run, &input, 1000);
    assert_eq!(v.x, 1500);
}

#[test]
fn movement_is_suppressed_mid_attack() {
    let player = Player { move_speed: 1500, acceleration: 8000, jump_impulse: 4500 };
    let mut v = Velocity { x: 1000, y: 0 };
    let input = PlayerInput { left: false, right: true, jump: true, attack: false };
    move_player(&mut v, &player, &grounded_set(), &PlayerState::Attack1, &input, 100);
    // Eases toward zero, and the jump edge is ignored.
    assert_eq!(v.x, 200);
    assert_eq!(v.y, 0);
}

#[test]
fn jump_applies_only_grounded() {
    let player = Player { move_speed: 1500, acceleration: 8000, jump_impulse: 4500 };
    let input = PlayerInput { left: false, right: false, jump: true, attack: false };

    let mut v = Velocity { x: 0, y: 0 };
    move_player(&mut v, &player, &grounded_set(), &PlayerState::Idle, &input, 16);
    assert_eq!(v.y, 4500);

    let empty: Collision<PlayerSensor> = Collision::new();
    let mut v = Velocity { x: 0, y: -200 };
    move_player(&mut v, &player, &empty, &PlayerState::Falling, &input, 16);
    assert_eq!(v.y, -200);
}

#[test]
fn ceiling_bonk_zeroes_upward_velocity() {
    let player = Player { move_speed: 1500, acceleration: 8000, jump_impulse: 4500 };
    let mut set: Collision<PlayerSensor> = Collision::new();
    set.add(PlayerSensor::Up);
    let mut v = Velocity { x: 0, y: 3000 };
    move_player(&mut v, &player, &set, &PlayerState::Rising, &PlayerInput::none(), 16);
    assert_eq!(v.y, 0);
    // With ground contact as well, the impulse is kept.
    set.add(PlayerSensor::Down);
    let mut v = Velocity { x: 0, y: 3000 };
    move_player(&mut v, &player, &set, &PlayerState::Rising, &PlayerInput::none(), 16);
    assert_eq!(v.y, 3000);
}

#[test]
fn collision_change_toggles_player_gravity() {
    let mut gravity = true;
    let mut v = Velocity { x: 0, y: -300 };
    handle_player_collision_changes(&mut gravity, &mut v, &grounded_set());
    assert!(!gravity);
    assert_eq!(v.y, -500);

    let empty: Collision<PlayerSensor> = Collision::new();
    let mut gravity = false;
    let mut v = Velocity { x: 0, y: -500 };
    handle_player_collision_changes(&mut gravity, &mut v, &empty);
    assert!(gravity);
}

#[test]
fn first_tick_spawns_sensors_once() {
    let mut c = init_player();
    let hits = vec![false, true, false];
    player_tick(&mut c, &hits, &PlayerInput::none(), 16);
    assert!(c.sensors_spawned);
    assert_eq!(c.sensors.len(), 3);
    player_tick(&mut c, &hits, &PlayerInput::none(), 16);
    assert_eq!(c.sensors.len(), 3);
}

#[test]
fn grounded_jump_tick_rises() {
    let mut c = init_player();
    let hits = vec![false, true, false];
    // Land first: the set change removes gravity and settles.
    player_tick(&mut c, &hits, &PlayerInput::none(), 16);
    assert!(!c.gravity);
    assert_eq!(c.velocity.y, -500);
    assert_eq!(c.state, PlayerState::Idle);
    // Jump on the next tick: the impulse applies, but while the ground
    // sensor still fires the airborne rules do not, so the state holds.
    let input = PlayerInput { left: false, right: false, jump: true, attack: false };
    let frame = player_tick(&mut c, &hits, &input, 16);
    assert_eq!(c.velocity.y, 4500);
    assert_eq!(c.state, PlayerState::Idle);
    assert_eq!(frame, None);
    // The tick after, the sensor has left the ground: now Rising, and the
    // state change selects the rising animation and shows its first frame.
    let airborne = vec![false, false, false];
    let frame = player_tick(&mut c, &airborne, &PlayerInput::none(), 16);
    assert!(c.gravity);
    assert_eq!(c.velocity.y, 4500);
    assert_eq!(c.state, PlayerState::Rising);
    assert_eq!(frame, Some(16));
    assert_eq!(c.animation.frames, vec![16, 17]);
}

#[test]
fn tick_mirrors_sensors_one_tick_after_turning() {
    let mut c = init_player();
    let hits = vec![false, true, false];
    player_tick(&mut c, &hits, &PlayerInput::none(), 16);
    assert_eq!(c.orientation, Orientation::Right);
    // Hold left: the character turns and the mirror is queued.
    let input = PlayerInput { left: true, right: false, jump: false, attack: false };
    player_tick(&mut c, &hits, &input, 16);
    assert_eq!(c.orientation, Orientation::Left);
    assert!(c.pending_flip);
    assert_eq!(c.sensors[0].offset_x, 0);
    // The next tick applies the mirror (player offsets are all centered, so
    // only the flag is consumed).
    player_tick(&mut c, &hits, &input, 16);
    assert!(!c.pending_flip);
    assert_eq!(c.sensors[0].offset_x, 0);
}

#[test]
fn aggregation_inside_tick_matches_queries() {
    let mut c = init_player();
    let hits = vec![true, false, true];
    player_tick(&mut c, &hits, &PlayerInput::none(), 16);
    assert!(c.collision.get(&PlayerSensor::Up));
    assert!(!c.collision.get(&PlayerSensor::Down));
    assert!(c.collision.get(&PlayerSensor::Hitbox));
    let mut detached: Collision<PlayerSensor> = Collision::new();
    let changed = detect_collision(&mut detached, &hits);
    assert!(changed);
    assert!(detached.get(&PlayerSensor::Up));
}
