//! The knight's patrol rules, state machine, and full-tick behaviour.

use platformer_core::animation::Animation;
use platformer_core::collision::{Collision, CollisionSensor};
use platformer_core::kinematics::{Orientation, Velocity};
use platformer_core::knight::{
    handle_knight_collision_changes, init_knight, knight_tick, move_knight, update_knight_state,
    Knight, KnightSensor, KnightState,
};

fn set_of(tags: &[KnightSensor]) -> Collision<KnightSensor> {
    let mut set: Collision<KnightSensor> = Collision::new();
    for t in tags {
        set.add(*t);
    }
    set
}

fn hits_of(tags: &[KnightSensor]) -> Vec<bool> {
    let mut hits = vec![false; 9];
    for t in tags {
        hits[t.index()] = true;
    }
    hits
}

fn running_animation() -> Animation {
    Animation::new(100, vec![0, 1, 2, 3, 4, 5, 6, 7, 8, 9], true)
}

fn finished_animation() -> Animation {
    let mut a = Animation::new(200, vec![0, 0, 0, 1, 2, 3], false);
    a.finished = true;
    a
}

#[test]
fn init_knight_defaults() {
    let c = init_knight();
    assert_eq!(c.knight, Knight { move_speed: 500, direction: 1 });
    assert_eq!(c.state, KnightState::Idle);
    assert_eq!((c.velocity.x, c.velocity.y), (0, 0));
    assert_eq!(c.orientation, Orientation::Right);
    assert!(c.gravity);
    assert!(!c.sensors_spawned);
}

#[test]
fn grounded_patrol_walks_forward_with_support() {
    // Ledge support ahead and a clear path: keep walking the same way.
    let mut v = Velocity { x: 0, y: 0 };
    let mut k = Knight { move_speed: 500, direction: 1 };
    let set = set_of(&[KnightSensor::Down, KnightSensor::DownFront]);
    move_knight(&mut v, &mut k, &KnightState::Idle, &set, 16);
    assert_eq!(v.x, 500);
    assert_eq!(k.direction, 1);
}

#[test]
fn patrol_reverses_at_a_wall() {
    let mut v = Velocity { x: 500, y: 0 };
    let mut k = Knight { move_speed: 500, direction: 1 };
    let set = set_of(&[KnightSensor::Down, KnightSensor::DownFront, KnightSensor::Front]);
    move_knight(&mut v, &mut k, &KnightState::Running, &set, 16);
    assert_eq!(k.direction, -1);
    assert_eq!(v.x, -500);
}

#[test]
fn patrol_reverses_at_a_ledge() {
    // Ground below but no support diagonally ahead: turn around.
    let mut v = Velocity { x: 500, y: 0 };
    let mut k = Knight { move_speed: 500, direction: 1 };
    let set = set_of(&[KnightSensor::Down]);
    move_knight(&mut v, &mut k, &KnightState::Running, &set, 16);
    assert_eq!(k.direction, -1);
    assert_eq!(v.x, -500);
}

#[test]
fn airborne_knight_decays_toward_rest() {
    let mut v = Velocity { x: 500, y: -200 };
    let mut k = Knight { move_speed: 500, direction: 1 };
    let set = set_of(&[]);
    move_knight(&mut v, &mut k, &KnightState::Running, &set, 100);
    // 2 units/s^2 of deceleration over 100 ms: 0.2 units lost.
    assert_eq!(v.x, 300);
    assert_eq!(k.direction, 1);
    // A long enough tick stops exactly at rest, never past it.
    move_knight(&mut v, &mut k, &KnightState::Running, &set, 1000);
    assert_eq!(v.x, 0);
}

#[test]
fn attacking_knight_does_not_patrol() {
    let mut v = Velocity { x: 400, y: 0 };
    let mut k = Knight { move_speed: 500, direction: 1 };
    let set = set_of(&[KnightSensor::Down, KnightSensor::DownFront]);
    move_knight(&mut v, &mut k, &KnightState::Attack, &set, 100);
    assert_eq!(v.x, 200);
    assert_eq!(k.direction, 1);
}

#[test]
fn knight_unfinished_attack_dominates_every_input() {
    for vx in [-500i64, 0, 500] {
        for tags in [vec![], vec![KnightSensor::AttackZone], vec![
            KnightSensor::Down,
            KnightSensor::Front,
        ]] {
            let mut state = KnightState::Attack;
            let changed = update_knight_state(
                &Velocity { x: vx, y: 0 },
                &mut state,
                &set_of(&tags),
                &running_animation(),  // finished == false
            );
            assert_eq!(state, KnightState::Attack);
            assert!(!changed);
        }
    }
}

#[test]
fn knight_finished_attack_returns_to_idle() {
    let mut state = KnightState::Attack;
    let changed = update_knight_state(
        &Velocity { x: 0, y: 0 },
        &mut state,
        &set_of(&[KnightSensor::Down]),
        &finished_animation(),
    );
    assert_eq!(state, KnightState::Idle);
    assert!(changed);
}

#[test]
fn attack_zone_triggers_attack_only_when_not_attacking() {
    let mut state = KnightState::Running;
    update_knight_state(
        &Velocity { x: 500, y: 0 },
        &mut state,
        &set_of(&[KnightSensor::AttackZone]),
        &running_animation(),
    );
    assert_eq!(state, KnightState::Attack);

    // Already attacking and finished: the zone does not re-trigger at once.
    let mut state = KnightState::Attack;
    update_knight_state(
        &Velocity { x: 0, y: 0 },
        &mut state,
        &set_of(&[KnightSensor::AttackZone]),
        &finished_animation(),
    );
    assert_eq!(state, KnightState::Idle);
}

#[test]
fn moving_knight_runs_idle_knight_stands() {
    let mut state = KnightState::Idle;
    update_knight_state(&Velocity { x: 500, y: 0 }, &mut state, &set_of(&[]), &running_animation());
    assert_eq!(state, KnightState::Running);
    let mut state = KnightState::Running;
    update_knight_state(&Velocity { x: 0, y: 0 }, &mut state, &set_of(&[]), &running_animation());
    assert_eq!(state, KnightState::Idle);
}

#[test]
fn collision_change_toggles_knight_gravity() {
    let mut gravity = true;
    let mut v = Velocity { x: 0, y: -300 };
    handle_knight_collision_changes(&mut gravity, &mut v, &set_of(&[KnightSensor::Down]));
    assert!(!gravity);
    assert_eq!(v.y, -500);

    let mut gravity = false;
    let mut v = Velocity { x: 0, y: -500 };
    handle_knight_collision_changes(&mut gravity, &mut v, &set_of(&[]));
    assert!(gravity);
}

#[test]
fn grounded_knight_without_obstruction_flips_away_from_the_ledge() {
    // End to end: grounded, facing right, nothing ahead and no ledge support
    // ahead. One tick flips the patrol to the left at full speed.
    let mut c = init_knight();
    let hits = hits_of(&[KnightSensor::Down]);
    knight_tick(&mut c, &hits, 16);
    assert_eq!(c.knight.direction, -1);
    assert_eq!(c.velocity.x, -500);
    assert_eq!(c.state, KnightState::Running);
    assert_eq!(c.orientation, Orientation::Left);
    assert!(c.pending_flip);
    // Landing also settled the fall and detached gravity.
    assert!(!c.gravity);
    assert_eq!(c.velocity.y, -500);
}

#[test]
fn patrolling_knight_mirrors_sensors_after_turning() {
    let mut c = init_knight();
    let hits = hits_of(&[KnightSensor::Down]);
    knight_tick(&mut c, &hits, 16);
    // Facing right still: offsets as in the catalog.
    assert_eq!(c.sensors[8].offset_x, 15000);
    knight_tick(&mut c, &hits, 16);
    // The queued mirror ran: forward-facing offsets now point left.
    assert_eq!(c.sensors[8].offset_x, -15000);
    assert_eq!(c.sensors[2].offset_x, -6500);
    assert_eq!(c.sensors[3].offset_x, 6500);
}

#[test]
fn knight_entering_attack_zone_attacks_and_recovers() {
    let mut c = init_knight();
    let grounded = hits_of(&[KnightSensor::Down, KnightSensor::DownFront]);
    knight_tick(&mut c, &grounded, 16);
    assert_eq!(c.state, KnightState::Running);
    // The player steps into the attack zone.
    let in_zone = hits_of(&[KnightSensor::Down, KnightSensor::DownFront, KnightSensor::AttackZone]);
    let frame = knight_tick(&mut c, &in_zone, 16);
    assert_eq!(c.state, KnightState::Attack);
    assert_eq!(frame, Some(0));
    assert_eq!(c.animation.frames, vec![0, 0, 0, 1, 2, 3]);
    // While the attack animation runs, the knight keeps attacking and slows.
    let frame = knight_tick(&mut c, &in_zone, 1000);
    assert_eq!(c.state, KnightState::Attack);
    assert_eq!(frame, None);
    assert_eq!(c.velocity.x, 0);
    // Once the animation reports finished, the zone being clear and the
    // knight motionless, it stands down to Idle.
    c.animation.finished = true;
    knight_tick(&mut c, &hits_of(&[KnightSensor::Down, KnightSensor::DownFront]), 16);
    assert_eq!(c.state, KnightState::Idle);
}
