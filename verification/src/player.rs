//! The player character: its sensor catalog, its state machine, its
//! input-driven movement rules, and the one-tick update that chains them in
//! simulation order.

use vstd::prelude::*;

use crate::animation::{update_animation, Animation, AnimationBundle, AnimationState};
use crate::collision::{
    add_collision_sensor, detect_collision, flip_sensor, lemma_mirror_involution, sensor_list_wf,
    spec_mirror, spec_spawn, Collision, CollisionSensor, SensorSpec, Shape,
};
use crate::groups::{spec_ground_sensor_group, spec_player_hitbox_group};
use crate::kinematics::{
    apply_gravity, spec_apply_gravity, spec_orientation_after, spec_toggle_gravity, toggle_gravity,
    update_character_orientations, velocity_wf, Orientation, Velocity,
};
use crate::motion::{move_toward, spec_move_toward, SCALAR_MAX};

verus! {

/// The player's named sensors: ceiling probe, ground probe, and the
/// vulnerable hitbox that enemy attack sensors look for.
#[derive(PartialEq, Eq, Structural, Clone, Copy, Debug)]
pub enum PlayerSensor {
    Up,
    Down,
    Hitbox,
}

impl CollisionSensor for PlayerSensor {
    open spec fn spec_index(self) -> int {
        match self {
            PlayerSensor::Up => 0,
            PlayerSensor::Down => 1,
            PlayerSensor::Hitbox => 2,
        }
    }

    open spec fn spec_count() -> int {
        3
    }

    open spec fn spec_sensors() -> Seq<SensorSpec<PlayerSensor>> {
        seq![
            SensorSpec {
                tag: PlayerSensor::Up,
                shape: Shape::Cuboid { half_x: 3000, half_y: 1000 },
                offset_x: 0,
                offset_y: 14000,
                groups: spec_ground_sensor_group(),
            },
            SensorSpec {
                tag: PlayerSensor::Down,
                shape: Shape::Cuboid { half_x: 3000, half_y: 1000 },
                offset_x: 0,
                offset_y: -14000i64,
                groups: spec_ground_sensor_group(),
            },
            SensorSpec {
                tag: PlayerSensor::Hitbox,
                shape: Shape::CapsuleY { half_height: 10000, radius: 4000 },
                offset_x: 0,
                offset_y: 0,
                groups: spec_player_hitbox_group(),
            },
        ]
    }

    proof fn lemma_index_in_range(self) {
    }

    proof fn lemma_catalog_wf() {
        assert(Self::spec_sensors()[0].tag.spec_index() == 0);
        assert(Self::spec_sensors()[1].tag.spec_index() == 1);
        assert(Self::spec_sensors()[2].tag.spec_index() == 2);
    }

    fn index(&self) -> (i: usize) {
        match self {
            PlayerSensor::Up => 0,
            PlayerSensor::Down => 1,
            PlayerSensor::Hitbox => 2,
        }
    }

    fn count() -> (n: usize) {
        3
    }

    fn get_sensors() -> (r: Vec<SensorSpec<PlayerSensor>>) {
        let mut r: Vec<SensorSpec<PlayerSensor>> = Vec::new();
        r.push(
            SensorSpec {
                tag: PlayerSensor::Up,
                shape: Shape::Cuboid { half_x: 3000, half_y: 1000 },
                offset_x: 0,
                offset_y: 14000,
                groups: crate::groups::ground_sensor_group(),
            },
        );
        r.push(
            SensorSpec {
                tag: PlayerSensor::Down,
                shape: Shape::Cuboid { half_x: 3000, half_y: 1000 },
                offset_x: 0,
                offset_y: -14000,
                groups: crate::groups::ground_sensor_group(),
            },
        );
        r.push(
            SensorSpec {
                tag: PlayerSensor::Hitbox,
                shape: Shape::CapsuleY { half_height: 10000, radius: 4000 },
                offset_x: 0,
                offset_y: 0,
                groups: crate::groups::player_hitbox_group(),
            },
        );
        proof {
            assert(r@ =~= Self::spec_sensors());
        }
        r
    }
}

/// The player's fixed movement tunables, in thousandths of a unit per
/// second: top running speed, easing acceleration, and the vertical impulse
/// a jump applies.
#[derive(PartialEq, Eq, Structural, Clone, Copy, Debug)]
pub struct Player {
    pub move_speed: i64,
    pub acceleration: i64,
    pub jump_impulse: i64,
}

/// The tunables stay inside the simulation's scalar range.
pub open spec fn player_wf(p: Player) -> bool {
    &&& 0 <= p.move_speed <= SCALAR_MAX
    &&& 0 <= p.acceleration <= SCALAR_MAX
    &&& 0 <= p.jump_impulse <= SCALAR_MAX
}

/// The player's discrete states; exactly one is active per tick.
#[derive(PartialEq, Eq, Structural, Clone, Copy, Debug)]
pub enum PlayerState {
    Idle,
    Run,
    Rising,
    Falling,
    Attack1,
}

/// Whether a state lets the player steer and jump: every state but the
/// uninterruptible attack.
pub open spec fn spec_player_can_move(s: PlayerState) -> bool {
    s != PlayerState::Attack1
}

impl PlayerState {
    /// Whether this state lets the player steer and jump.
    pub fn can_move(&self) -> (r: bool)
        ensures
            r == spec_player_can_move(*self),
    {
        match self {
            PlayerState::Attack1 => false,
            _ => true,
        }
    }
}

impl AnimationState for PlayerState {
    open spec fn spec_period(self) -> int {
        match self {
            PlayerState::Attack1 => 100,
            _ => 200,
        }
    }

    open spec fn spec_frames(self) -> Seq<usize> {
        match self {
            PlayerState::Idle => seq![0usize, 1, 2, 3],
            PlayerState::Run => seq![8usize, 9, 10, 11, 12, 13],
            PlayerState::Rising => seq![16usize, 17],
            PlayerState::Falling => seq![22usize, 23],
            PlayerState::Attack1 => seq![42usize, 43, 44, 45, 46, 47],
        }
    }

    open spec fn spec_cyclic(self) -> bool {
        match self {
            PlayerState::Rising => false,
            PlayerState::Attack1 => false,
            _ => true,
        }
    }

    fn get_animation(&self) -> (a: Animation) {
        let frames: Vec<usize> = match self {
            PlayerState::Idle => vec![0, 1, 2, 3],
            PlayerState::Run => vec![8, 9, 10, 11, 12, 13],
            PlayerState::Rising => vec![16, 17],
            PlayerState::Falling => vec![22, 23],
            PlayerState::Attack1 => vec![42, 43, 44, 45, 46, 47],
        };
        let period_ms: i64 = match self {
            PlayerState::Attack1 => 100,
            _ => 200,
        };
        let cyclic: bool = match self {
            PlayerState::Rising => false,
            PlayerState::Attack1 => false,
            _ => true,
        };
        proof {
            assert(frames@ =~= self.spec_frames());
        }
        Animation::new(period_ms, frames, cyclic)
    }
}

/// The player's input for one tick. `left` and `right` are level-triggered
/// (held keys); `jump` and `attack` are edges, true only on the tick the key
/// went down.
#[derive(PartialEq, Eq, Structural, Clone, Copy, Debug)]
pub struct PlayerInput {
    pub left: bool,
    pub right: bool,
    pub jump: bool,
    pub attack: bool,
}

impl PlayerInput {
    /// No key pressed.
    pub fn none() -> (i: PlayerInput)
        ensures
            i == (PlayerInput { left: false, right: false, jump: false, attack: false }),
    {
        PlayerInput { left: false, right: false, jump: false, attack: false }
    }
}

/// Steering direction asked for this tick: +1 right, -1 left, 0 when both
/// or neither key is held or movement is suppressed.
pub open spec fn spec_player_direction(can_move: bool, left: bool, right: bool) -> int {
    if can_move {
        (if right {
            1int
        } else {
            0int
        }) - (if left {
            1int
        } else {
            0int
        })
    } else {
        0
    }
}

/// The velocity a movement update leaves, as (x, y): the horizontal
/// component eases toward the steered multiple of the top speed; a jump
/// impulse applies only on its input edge, only on the ground, only while
/// movement is allowed; and upward velocity is zeroed on a ceiling bonk (a
/// ceiling but no ground contact).
pub open spec fn spec_move_player(
    vx: int,
    vy: int,
    p: Player,
    down: bool,
    up: bool,
    can_move: bool,
    left: bool,
    right: bool,
    jump: bool,
    delta: int,
) -> (int, int) {
    let dir = spec_player_direction(can_move, left, right);
    let new_vx = spec_move_toward(vx, p.move_speed * dir, p.acceleration as int, delta);
    let vy1 = if jump && down && can_move {
        p.jump_impulse as int
    } else {
        vy
    };
    let vy2 = if !down && up && vy1 > 0 {
        0int
    } else {
        vy1
    };
    (new_vx, vy2)
}

/// The player's movement rules for one tick, writing the velocity the
/// kinematic controller will consume.
pub fn move_player(
    velocity: &mut Velocity,
    player: &Player,
    collision: &Collision<PlayerSensor>,
    state: &PlayerState,
    input: &PlayerInput,
    delta: i64,
)
    requires
        velocity_wf(*old(velocity)),
        player_wf(*player),
        collision.wf(),
        0 <= delta <= SCALAR_MAX,
    ensures
        (final(velocity).x as int, final(velocity).y as int) == spec_move_player(
            old(velocity).x as int,
            old(velocity).y as int,
            *player,
            collision.spec_contains(PlayerSensor::Down.spec_index()),
            collision.spec_contains(PlayerSensor::Up.spec_index()),
            spec_player_can_move(*state),
            input.left,
            input.right,
            input.jump,
            delta as int,
        ),
        velocity_wf(*final(velocity)),
{
    let can_move = state.can_move();
    let dir: i64 = if can_move {
        (if input.right {
            1
        } else {
            0
        }) - (if input.left {
            1
        } else {
            0
        })
    } else {
        0
    };
    let target: i64 = if dir == 1 {
        player.move_speed
    } else if dir == -1 {
        -player.move_speed
    } else {
        0
    };
    proof {
        let d = spec_player_direction(spec_player_can_move(*state), input.left, input.right);
        if d == 1 {
            assert(player.move_speed * d == player.move_speed * 1);
        } else if d == -1 {
            assert(player.move_speed * d == player.move_speed * (-1));
        } else {
            assert(d == 0);
            assert(player.move_speed * d == player.move_speed * 0);
        }
        assert(target == player.move_speed * d);
        crate::motion::lemma_move_toward_no_overshoot(
            velocity.x as int,
            target as int,
            crate::motion::spec_scaled_step(player.acceleration as int, delta as int),
        );
    }
    velocity.x = move_toward(velocity.x, target, player.acceleration, delta);

    let down = collision.get(&PlayerSensor::Down);
    let up = collision.get(&PlayerSensor::Up);
    if input.jump && down && can_move {
        velocity.y = player.jump_impulse;
    }
    if !down && up && velocity.y > 0 {
        velocity.y = 0;
    }
}

/// The state the player's state machine selects, evaluated top to bottom,
/// first match wins: an unfinished attack persists whatever the velocity or
/// contacts; an attack edge starts one; airborne (no ground contact) the
/// vertical velocity's sign picks Rising over Falling; grounded, horizontal
/// motion picks Run over Idle. This priority order is itself part of the
/// contract.
pub open spec fn spec_player_next_state(
    vx: int,
    vy: int,
    down: bool,
    cur: PlayerState,
    finished: bool,
    attack: bool,
) -> PlayerState {
    if cur == PlayerState::Attack1 && !finished {
        PlayerState::Attack1
    } else if attack {
        PlayerState::Attack1
    } else if !down {
        if vy > 0 {
            PlayerState::Rising
        } else {
            PlayerState::Falling
        }
    } else if vx == 0 {
        PlayerState::Idle
    } else {
        PlayerState::Run
    }
}

/// Runs the player's state machine and writes the new state only when it
/// differs from the current one, returning whether it did: downstream
/// systems react to state changes, so a redundant write would be a spurious
/// notification.
pub fn update_player_state(
    velocity: &Velocity,
    collision: &Collision<PlayerSensor>,
    state: &mut PlayerState,
    animation: &Animation,
    input: &PlayerInput,
) -> (changed: bool)
    requires
        collision.wf(),
    ensures
        *final(state) == spec_player_next_state(
            velocity.x as int,
            velocity.y as int,
            collision.spec_contains(PlayerSensor::Down.spec_index()),
            *old(state),
            animation.finished,
            input.attack,
        ),
        changed == (*final(state) != *old(state)),
{
    let new_state = if *state == PlayerState::Attack1 && !animation.finished {
        PlayerState::Attack1
    } else if input.attack {
        PlayerState::Attack1
    } else if !collision.get(&PlayerSensor::Down) {
        if velocity.y > 0 {
            PlayerState::Rising
        } else {
            PlayerState::Falling
        }
    } else if velocity.x == 0 {
        PlayerState::Idle
    } else {
        PlayerState::Run
    };
    if new_state != *state {
        *state = new_state;
        true
    } else {
        false
    }
}

/// The reactive gravity toggle for the player, run only on ticks when the
/// collision set changed: landing removes gravity and settles the vertical
/// velocity; losing ground contact re-attaches it.
pub fn handle_player_collision_changes(
    gravity: &mut bool,
    velocity: &mut Velocity,
    collision: &Collision<PlayerSensor>,
)
    requires
        velocity_wf(*old(velocity)),
        collision.wf(),
    ensures
        (*final(gravity), final(velocity).y as int) == spec_toggle_gravity(
            *old(gravity),
            old(velocity).y as int,
            collision.spec_contains(PlayerSensor::Down.spec_index()),
        ),
        final(velocity).x == old(velocity).x,
        velocity_wf(*final(velocity)),
{
    let down = collision.get(&PlayerSensor::Down);
    toggle_gravity(gravity, velocity, down);
}

/// A player character's full simulation state: tunables, discrete state,
/// kinematics, collision sensing, and the running animation.
pub struct PlayerCharacter {
    pub player: Player,
    pub state: PlayerState,
    pub velocity: Velocity,
    pub orientation: Orientation,
    /// Set when the orientation changed this tick; the sensor mirror
    /// consumes it at the start of the next tick.
    pub pending_flip: bool,
    /// Whether the gravity marker is attached.
    pub gravity: bool,
    pub collision: Collision<PlayerSensor>,
    /// The spawned child sensors, in catalog order.
    pub sensors: Vec<SensorSpec<PlayerSensor>>,
    pub sensors_spawned: bool,
    pub animation: Animation,
}

/// Invariant of a player character: tunables and velocity in range, one
/// collision flag per catalog entry, and the sensor offsets signed according
/// to the facing at all times — the catalog as written for a right-facing
/// character, mirrored for a left-facing one, where a facing change at the
/// end of a tick is accounted for by the queued mirror it leaves behind.
pub open spec fn player_character_wf(c: PlayerCharacter) -> bool {
    &&& player_wf(c.player)
    &&& velocity_wf(c.velocity)
    &&& c.collision.wf()
    &&& sensor_list_wf(c.sensors@)
    &&& (!c.sensors_spawned ==> c.orientation == Orientation::Right && !c.pending_flip)
    &&& (c.sensors_spawned ==> c.sensors@ == (if (c.orientation == Orientation::Left)
        != c.pending_flip {
        spec_mirror(PlayerSensor::spec_sensors())
    } else {
        PlayerSensor::spec_sensors()
    }))
    &&& c.animation.wf()
}

/// A freshly spawned player: idle, at rest, facing right, with gravity
/// attached, an empty collision set, and its sensors not yet spawned (they
/// appear on the first tick).
pub fn init_player() -> (c: PlayerCharacter)
    ensures
        player_character_wf(c),
        c.player == (Player { move_speed: 1500, acceleration: 8000, jump_impulse: 4500 }),
        c.state == PlayerState::Idle,
        c.velocity.x == 0 && c.velocity.y == 0,
        c.orientation == Orientation::Right,
        !c.pending_flip,
        c.gravity,
        forall|i: int| !c.collision.spec_contains(i),
        c.sensors@.len() == 0,
        !c.sensors_spawned,
        c.animation.frames@ == PlayerState::Idle.spec_frames(),
        c.animation.cursor == 0,
        !c.animation.finished,
{
    let bundle = AnimationBundle::new(PlayerState::Idle);
    PlayerCharacter {
        player: Player { move_speed: 1500, acceleration: 8000, jump_impulse: 4500 },
        state: bundle.state,
        velocity: Velocity::zero(),
        orientation: Orientation::Right,
        pending_flip: false,
        gravity: true,
        collision: Collision::new(),
        sensors: Vec::new(),
        sensors_spawned: false,
        animation: bundle.animation,
    }
}

/// Advances one player through one simulation tick, in dependency order:
/// sensor spawn (once), pending orientation mirror, gravity application,
/// collision aggregation from this tick's physics queries, the reactive
/// gravity toggle (only when the set changed), movement, the state machine,
/// animation selection (only when the state changed), and the facing update.
/// Returns the sprite frame to show when a new animation was selected.
pub fn player_tick(c: &mut PlayerCharacter, hits: &Vec<bool>, input: &PlayerInput, delta: i64) -> (frame:
    Option<usize>)
    requires
        player_character_wf(*old(c)),
        hits@.len() == PlayerSensor::spec_count(),
        0 <= delta <= SCALAR_MAX,
    ensures
        player_character_wf(*final(c)),
        final(c).player == old(c).player,
        final(c).sensors_spawned,
        final(c).sensors@ == ({
            let s1 = spec_spawn::<PlayerSensor>(old(c).sensors@, old(c).sensors_spawned).0;
            if old(c).pending_flip {
                spec_mirror(s1)
            } else {
                s1
            }
        }),
        final(c).collision.flags_seq() == hits@,
        ({
            let down = hits@[PlayerSensor::Down.spec_index()];
            let up = hits@[PlayerSensor::Up.spec_index()];
            let vy1 = if old(c).gravity {
                spec_apply_gravity(old(c).velocity.y as int, delta as int)
            } else {
                old(c).velocity.y as int
            };
            let set_changed = old(c).collision.flags_seq() != hits@;
            let toggled = if set_changed {
                spec_toggle_gravity(old(c).gravity, vy1, down)
            } else {
                (old(c).gravity, vy1)
            };
            let moved = spec_move_player(
                old(c).velocity.x as int,
                toggled.1,
                old(c).player,
                down,
                up,
                spec_player_can_move(old(c).state),
                input.left,
                input.right,
                input.jump,
                delta as int,
            );
            let next = spec_player_next_state(
                moved.0,
                moved.1,
                down,
                old(c).state,
                old(c).animation.finished,
                input.attack,
            );
            &&& final(c).gravity == toggled.0
            &&& final(c).velocity.x as int == moved.0
            &&& final(c).velocity.y as int == moved.1
            &&& final(c).state == next
            &&& final(c).orientation == spec_orientation_after(moved.0, old(c).orientation)
            &&& final(c).pending_flip == (final(c).orientation != old(c).orientation)
            &&& (next != old(c).state ==> {
                &&& final(c).animation.frames@ == next.spec_frames()
                &&& final(c).animation.period_ms as int == next.spec_period()
                &&& final(c).animation.cyclic == next.spec_cyclic()
                &&& !final(c).animation.finished
                &&& frame == (if next.spec_frames().len() > 0 {
                    Some(next.spec_frames()[0])
                } else {
                    None::<usize>
                })
            })
            &&& (next == old(c).state ==> final(c).animation == old(c).animation && frame is None)
        }),
{
    proof {
        PlayerSensor::lemma_catalog_wf();
    }
    add_collision_sensor::<PlayerSensor>(&mut c.sensors, &mut c.sensors_spawned);
    if c.pending_flip {
        proof {
            lemma_mirror_involution(PlayerSensor::spec_sensors());
        }
        flip_sensor(&mut c.sensors);
        c.pending_flip = false;
    }
    if c.gravity {
        apply_gravity(&mut c.velocity, delta);
    }
    let set_changed = detect_collision(&mut c.collision, hits);
    if set_changed {
        handle_player_collision_changes(&mut c.gravity, &mut c.velocity, &c.collision);
    }
    move_player(&mut c.velocity, &c.player, &c.collision, &c.state, input, delta);
    let state_changed = update_player_state(&c.velocity, &c.collision, &mut c.state, &c.animation, input);
    let frame = if state_changed {
        update_animation(&mut c.animation, &c.state)
    } else {
        None
    };
    let turned = update_character_orientations(&c.velocity, &mut c.orientation);
    if turned {
        c.pending_flip = true;
    }
    frame
}

/// State priority for the player: an unfinished attack dominates every
/// velocity, contact and input combination; and once the attack animation
/// has finished, a motionless grounded player with no attack edge returns
/// to Idle.
pub proof fn lemma_player_attack_uninterruptible(vx: int, vy: int, down: bool, attack: bool)
    ensures
        spec_player_next_state(vx, vy, down, PlayerState::Attack1, false, attack)
            == PlayerState::Attack1,
        spec_player_next_state(0, vy, true, PlayerState::Attack1, true, false)
            == PlayerState::Idle,
{
}

} // verus!
