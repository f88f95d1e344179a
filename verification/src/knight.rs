//! The knight, a patrolling enemy: its sensor catalog, its patrol movement
//! (reverse at walls and ledges), its attack-zone state machine, and the
//! one-tick update that chains them in simulation order.

use vstd::prelude::*;

use crate::animation::{update_animation, Animation, AnimationBundle, AnimationState};
use crate::collision::{
    add_collision_sensor, detect_collision, flip_sensor, lemma_mirror_involution, sensor_list_wf,
    spec_mirror, spec_spawn, Collision, CollisionSensor, SensorSpec, Shape,
};
use crate::groups::{spec_ground_sensor_group, spec_player_sensor_group};
use crate::kinematics::{
    apply_gravity, spec_apply_gravity, spec_orientation_after, spec_toggle_gravity, toggle_gravity,
    update_character_orientations, velocity_wf, Orientation, Velocity,
};
use crate::motion::{move_toward, spec_move_toward, SCALAR_MAX};

verus! {

/// Deceleration applied to a knight's horizontal velocity while it is
/// airborne or attacking, in thousandths of a unit per second squared.
pub const KNIGHT_DECELERATION: i64 = 2000;

/// The knight's named sensors, relative to a right-facing knight: probes on
/// all four sides, diagonal probes for ledge and ceiling edges, and the zone
/// in front of it that triggers an attack when the player's hitbox enters.
#[derive(PartialEq, Eq, Structural, Clone, Copy, Debug)]
pub enum KnightSensor {
    Up,
    Down,
    Back,
    Front,
    DownBack,
    DownFront,
    UpBack,
    UpFront,
    AttackZone,
}

impl CollisionSensor for KnightSensor {
    open spec fn spec_index(self) -> int {
        match self {
            KnightSensor::Up => 0,
            KnightSensor::Down => 1,
            KnightSensor::Front => 2,
            KnightSensor::Back => 3,
            KnightSensor::DownFront => 4,
            KnightSensor::DownBack => 5,
            KnightSensor::UpFront => 6,
            KnightSensor::UpBack => 7,
            KnightSensor::AttackZone => 8,
        }
    }

    open spec fn spec_count() -> int {
        9
    }

    open spec fn spec_sensors() -> Seq<SensorSpec<KnightSensor>> {
        seq![
            SensorSpec {
                tag: KnightSensor::Up,
                shape: Shape::Cuboid { half_x: 3500, half_y: 1000 },
                offset_x: 0,
                offset_y: 19500,
                groups: spec_ground_sensor_group(),
            },
            SensorSpec {
                tag: KnightSensor::Down,
                shape: Shape::Cuboid { half_x: 3500, half_y: 1000 },
                offset_x: 0,
                offset_y: -19500i64,
                groups: spec_ground_sensor_group(),
            },
            SensorSpec {
                tag: KnightSensor::Front,
                shape: Shape::Cuboid { half_x: 1000, half_y: 11000 },
                offset_x: 6500,
                offset_y: 0,
                groups: spec_ground_sensor_group(),
            },
            SensorSpec {
                tag: KnightSensor::Back,
                shape: Shape::Cuboid { half_x: 1000, half_y: 11000 },
                offset_x: -6500i64,
                offset_y: 0,
                groups: spec_ground_sensor_group(),
            },
            SensorSpec {
                tag: KnightSensor::DownFront,
                shape: Shape::Cuboid { half_x: 1000, half_y: 1000 },
                offset_x: 6500,
                offset_y: -19500i64,
                groups: spec_ground_sensor_group(),
            },
            SensorSpec {
                tag: KnightSensor::DownBack,
                shape: Shape::Cuboid { half_x: 1000, half_y: 1000 },
                offset_x: -6500i64,
                offset_y: -19500i64,
                groups: spec_ground_sensor_group(),
            },
            SensorSpec {
                tag: KnightSensor::UpFront,
                shape: Shape::Cuboid { half_x: 1000, half_y: 1000 },
                offset_x: 6500,
                offset_y: 19500,
                groups: spec_ground_sensor_group(),
            },
            SensorSpec {
                tag: KnightSensor::UpBack,
                shape: Shape::Cuboid { half_x: 1000, half_y: 1000 },
                offset_x: -6500i64,
                offset_y: 19500,
                groups: spec_ground_sensor_group(),
            },
            SensorSpec {
                tag: KnightSensor::AttackZone,
                shape: Shape::Cuboid { half_x: 8000, half_y: 18000 },
                offset_x: 15000,
                offset_y: 0,
                groups: spec_player_sensor_group(),
            },
        ]
    }

    proof fn lemma_index_in_range(self) {
    }

    proof fn lemma_catalog_wf() {
        assert forall|k: int| 0 <= k < Self::spec_count() implies (
        #[trigger] Self::spec_sensors()[k]).tag.spec_index() == k by {
            if k == 0 {
                assert(Self::spec_sensors()[0].tag.spec_index() == 0);
            } else if k == 1 {
                assert(Self::spec_sensors()[1].tag.spec_index() == 1);
            } else if k == 2 {
                assert(Self::spec_sensors()[2].tag.spec_index() == 2);
            } else if k == 3 {
                assert(Self::spec_sensors()[3].tag.spec_index() == 3);
            } else if k == 4 {
                assert(Self::spec_sensors()[4].tag.spec_index() == 4);
            } else if k == 5 {
                assert(Self::spec_sensors()[5].tag.spec_index() == 5);
            } else if k == 6 {
                assert(Self::spec_sensors()[6].tag.spec_index() == 6);
            } else if k == 7 {
                assert(Self::spec_sensors()[7].tag.spec_index() == 7);
            } else {
                assert(Self::spec_sensors()[8].tag.spec_index() == 8);
            }
        }
    }

    fn index(&self) -> (i: usize) {
        match self {
            KnightSensor::Up => 0,
            KnightSensor::Down => 1,
            KnightSensor::Front => 2,
            KnightSensor::Back => 3,
            KnightSensor::DownFront => 4,
            KnightSensor::DownBack => 5,
            KnightSensor::UpFront => 6,
            KnightSensor::UpBack => 7,
            KnightSensor::AttackZone => 8,
        }
    }

    fn count() -> (n: usize) {
        9
    }

    fn get_sensors() -> (r: Vec<SensorSpec<KnightSensor>>) {
        let mut r: Vec<SensorSpec<KnightSensor>> = Vec::new();
        r.push(
            SensorSpec {
                tag: KnightSensor::Up,
                shape: Shape::Cuboid { half_x: 3500, half_y: 1000 },
                offset_x: 0,
                offset_y: 19500,
                groups: crate::groups::ground_sensor_group(),
            },
        );
        r.push(
            SensorSpec {
                tag: KnightSensor::Down,
                shape: Shape::Cuboid { half_x: 3500, half_y: 1000 },
                offset_x: 0,
                offset_y: -19500,
                groups: crate::groups::ground_sensor_group(),
            },
        );
        r.push(
            SensorSpec {
                tag: KnightSensor::Front,
                shape: Shape::Cuboid { half_x: 1000, half_y: 11000 },
                offset_x: 6500,
                offset_y: 0,
                groups: crate::groups::ground_sensor_group(),
            },
        );
        r.push(
            SensorSpec {
                tag: KnightSensor::Back,
                shape: Shape::Cuboid { half_x: 1000, half_y: 11000 },
                offset_x: -6500,
                offset_y: 0,
                groups: crate::groups::ground_sensor_group(),
            },
        );
        r.push(
            SensorSpec {
                tag: KnightSensor::DownFront,
                shape: Shape::Cuboid { half_x: 1000, half_y: 1000 },
                offset_x: 6500,
                offset_y: -19500,
                groups: crate::groups::ground_sensor_group(),
            },
        );
        r.push(
            SensorSpec {
                tag: KnightSensor::DownBack,
                shape: Shape::Cuboid { half_x: 1000, half_y: 1000 },
                offset_x: -6500,
                offset_y: -19500,
                groups: crate::groups::ground_sensor_group(),
            },
        );
        r.push(
            SensorSpec {
                tag: KnightSensor::UpFront,
                shape: Shape::Cuboid { half_x: 1000, half_y: 1000 },
                offset_x: 6500,
                offset_y: 19500,
                groups: crate::groups::ground_sensor_group(),
            },
        );
        r.push(
            SensorSpec {
                tag: KnightSensor::UpBack,
                shape: Shape::Cuboid { half_x: 1000, half_y: 1000 },
                offset_x: -6500,
                offset_y: 19500,
                groups: crate::groups::ground_sensor_group(),
            },
        );
        r.push(
            SensorSpec {
                tag: KnightSensor::AttackZone,
                shape: Shape::Cuboid { half_x: 8000, half_y: 18000 },
                offset_x: 15000,
                offset_y: 0,
                groups: crate::groups::player_sensor_group(),
            },
        );
        proof {
            assert(r@ =~= Self::spec_sensors());
        }
        r
    }
}

/// The knight's patrol tunables: walking speed in thousandths of a unit per
/// second, and the direction it is walking, +1 (right) or -1 (left).
#[derive(PartialEq, Eq, Structural, Clone, Copy, Debug)]
pub struct Knight {
    pub move_speed: i64,
    pub direction: i64,
}

/// The speed stays in range and the direction is a unit sign.
pub open spec fn knight_wf(k: Knight) -> bool {
    &&& 0 <= k.move_speed <= SCALAR_MAX
    &&& (k.direction == 1 || k.direction == -1i64)
}

/// The knight's discrete states; exactly one is active per tick.
#[derive(PartialEq, Eq, Structural, Clone, Copy, Debug)]
pub enum KnightState {
    Idle,
    Running,
    Attack,
}

impl AnimationState for KnightState {
    open spec fn spec_period(self) -> int {
        match self {
            KnightState::Attack => 200,
            _ => 100,
        }
    }

    open spec fn spec_frames(self) -> Seq<usize> {
        match self {
            KnightState::Attack => seq![0usize, 0, 0, 1, 2, 3],
            _ => seq![0usize, 1, 2, 3, 4, 5, 6, 7, 8, 9],
        }
    }

    open spec fn spec_cyclic(self) -> bool {
        match self {
            KnightState::Attack => false,
            _ => true,
        }
    }

    fn get_animation(&self) -> (a: Animation) {
        let frames: Vec<usize> = match self {
            KnightState::Attack => vec![0, 0, 0, 1, 2, 3],
            _ => vec![0, 1, 2, 3, 4, 5, 6, 7, 8, 9],
        };
        let period_ms: i64 = match self {
            KnightState::Attack => 200,
            _ => 100,
        };
        let cyclic: bool = match self {
            KnightState::Attack => false,
            _ => true,
        };
        proof {
            assert(frames@ =~= self.spec_frames());
        }
        Animation::new(period_ms, frames, cyclic)
    }
}

/// The patrol rule's outcome, as (horizontal velocity, direction): a
/// grounded, non-attacking knight walks at its fixed speed in its current
/// direction, reversing first when the way ahead is blocked or the ledge
/// probe ahead finds no support; an airborne or attacking knight eases its
/// horizontal velocity toward zero instead, never overshooting.
pub open spec fn spec_move_knight(
    vx: int,
    k: Knight,
    is_attack: bool,
    down: bool,
    front: bool,
    down_front: bool,
    delta: int,
) -> (int, int) {
    if down && !is_attack {
        let dir = if front || !down_front {
            -k.direction as int
        } else {
            k.direction as int
        };
        (k.move_speed * dir, dir)
    } else {
        (spec_move_toward(vx, 0, KNIGHT_DECELERATION as int, delta), k.direction as int)
    }
}

/// The knight's movement rules for one tick, writing the velocity the
/// kinematic controller will consume and reversing the patrol direction at
/// walls and ledges.
pub fn move_knight(
    velocity: &mut Velocity,
    knight: &mut Knight,
    state: &KnightState,
    collision: &Collision<KnightSensor>,
    delta: i64,
)
    requires
        velocity_wf(*old(velocity)),
        knight_wf(*old(knight)),
        collision.wf(),
        0 <= delta <= SCALAR_MAX,
    ensures
        (final(velocity).x as int, final(knight).direction as int) == spec_move_knight(
            old(velocity).x as int,
            *old(knight),
            *state == KnightState::Attack,
            collision.spec_contains(KnightSensor::Down.spec_index()),
            collision.spec_contains(KnightSensor::Front.spec_index()),
            collision.spec_contains(KnightSensor::DownFront.spec_index()),
            delta as int,
        ),
        final(velocity).y == old(velocity).y,
        final(knight).move_speed == old(knight).move_speed,
        velocity_wf(*final(velocity)),
        knight_wf(*final(knight)),
{
    let is_attack = *state == KnightState::Attack;
    if collision.get(&KnightSensor::Down) && !is_attack {
        let obstructed = collision.get(&KnightSensor::Front) || !collision.get(
            &KnightSensor::DownFront,
        );
        if obstructed {
            knight.direction = -knight.direction;
        }
        proof {
            let d = knight.direction as int;
            if d == 1 {
                assert(knight.move_speed * d == knight.move_speed * 1);
            } else {
                assert(d == -1);
                assert(knight.move_speed * d == knight.move_speed * (-1));
            }
        }
        velocity.x = if knight.direction == 1 {
            knight.move_speed
        } else {
            -knight.move_speed
        };
    } else {
        proof {
            crate::motion::lemma_move_toward_no_overshoot(
                velocity.x as int,
                0,
                crate::motion::spec_scaled_step(KNIGHT_DECELERATION as int, delta as int),
            );
        }
        velocity.x = move_toward(velocity.x, 0, KNIGHT_DECELERATION, delta);
    }
}

/// The state the knight's state machine selects, evaluated top to bottom,
/// first match wins: an unfinished attack persists; the player entering the
/// attack zone starts an attack unless one is already running; otherwise
/// horizontal motion picks Running over Idle.
pub open spec fn spec_knight_next_state(
    vx: int,
    cur: KnightState,
    attack_zone: bool,
    finished: bool,
) -> KnightState {
    if cur == KnightState::Attack && !finished {
        KnightState::Attack
    } else if cur != KnightState::Attack && attack_zone {
        KnightState::Attack
    } else if vx != 0 {
        KnightState::Running
    } else {
        KnightState::Idle
    }
}

/// Runs the knight's state machine and writes the new state only when it
/// differs from the current one, returning whether it did.
pub fn update_knight_state(
    velocity: &Velocity,
    state: &mut KnightState,
    collision: &Collision<KnightSensor>,
    animation: &Animation,
) -> (changed: bool)
    requires
        collision.wf(),
    ensures
        *final(state) == spec_knight_next_state(
            velocity.x as int,
            *old(state),
            collision.spec_contains(KnightSensor::AttackZone.spec_index()),
            animation.finished,
        ),
        changed == (*final(state) != *old(state)),
{
    let new_state = if *state == KnightState::Attack && !animation.finished {
        KnightState::Attack
    } else if *state != KnightState::Attack && collision.get(&KnightSensor::AttackZone) {
        KnightState::Attack
    } else if velocity.x != 0 {
        KnightState::Running
    } else {
        KnightState::Idle
    };
    if new_state != *state {
        *state = new_state;
        true
    } else {
        false
    }
}

/// The reactive gravity toggle for the knight, run only on ticks when the
/// collision set changed: landing removes gravity and settles the vertical
/// velocity; losing ground contact re-attaches it.
pub fn handle_knight_collision_changes(
    gravity: &mut bool,
    velocity: &mut Velocity,
    collision: &Collision<KnightSensor>,
)
    requires
        velocity_wf(*old(velocity)),
        collision.wf(),
    ensures
        (*final(gravity), final(velocity).y as int) == spec_toggle_gravity(
            *old(gravity),
            old(velocity).y as int,
            collision.spec_contains(KnightSensor::Down.spec_index()),
        ),
        final(velocity).x == old(velocity).x,
        velocity_wf(*final(velocity)),
{
    let down = collision.get(&KnightSensor::Down);
    toggle_gravity(gravity, velocity, down);
}

/// A knight character's full simulation state: tunables, discrete state,
/// kinematics, collision sensing, and the running animation.
pub struct KnightCharacter {
    pub knight: Knight,
    pub state: KnightState,
    pub velocity: Velocity,
    pub orientation: Orientation,
    /// Set when the orientation changed this tick; the sensor mirror
    /// consumes it at the start of the next tick.
    pub pending_flip: bool,
    /// Whether the gravity marker is attached.
    pub gravity: bool,
    pub collision: Collision<KnightSensor>,
    /// The spawned child sensors, in catalog order.
    pub sensors: Vec<SensorSpec<KnightSensor>>,
    pub sensors_spawned: bool,
    pub animation: Animation,
}

/// Invariant of a knight character: tunables and velocity in range, one
/// collision flag per catalog entry, and the sensor offsets signed according
/// to the facing at all times — the catalog as written for a right-facing
/// knight, mirrored for a left-facing one, where a facing change at the end
/// of a tick is accounted for by the queued mirror it leaves behind.
pub open spec fn knight_character_wf(c: KnightCharacter) -> bool {
    &&& knight_wf(c.knight)
    &&& velocity_wf(c.velocity)
    &&& c.collision.wf()
    &&& sensor_list_wf(c.sensors@)
    &&& (!c.sensors_spawned ==> c.orientation == Orientation::Right && !c.pending_flip)
    &&& (c.sensors_spawned ==> c.sensors@ == (if (c.orientation == Orientation::Left)
        != c.pending_flip {
        spec_mirror(KnightSensor::spec_sensors())
    } else {
        KnightSensor::spec_sensors()
    }))
    &&& c.animation.wf()
}

/// A freshly spawned knight: idle, at rest, facing right, patrolling
/// rightward, with gravity attached, an empty collision set, and its sensors
/// not yet spawned (they appear on the first tick).
pub fn init_knight() -> (c: KnightCharacter)
    ensures
        knight_character_wf(c),
        c.knight == (Knight { move_speed: 500, direction: 1 }),
        c.state == KnightState::Idle,
        c.velocity.x == 0 && c.velocity.y == 0,
        c.orientation == Orientation::Right,
        !c.pending_flip,
        c.gravity,
        forall|i: int| !c.collision.spec_contains(i),
        c.sensors@.len() == 0,
        !c.sensors_spawned,
        c.animation.frames@ == KnightState::Idle.spec_frames(),
        c.animation.cursor == 0,
        !c.animation.finished,
{
    let bundle = AnimationBundle::new(KnightState::Idle);
    KnightCharacter {
        knight: Knight { move_speed: 500, direction: 1 },
        state: bundle.state,
        velocity: Velocity::zero(),
        orientation: Orientation::Right,
        pending_flip: false,
        gravity: true,
        collision: Collision::new(),
        sensors: Vec::new(),
        sensors_spawned: false,
        animation: bundle.animation,
    }
}

/// Advances one knight through one simulation tick, in dependency order:
/// sensor spawn (once), pending orientation mirror, gravity application,
/// collision aggregation from this tick's physics queries, the reactive
/// gravity toggle (only when the set changed), patrol movement, the state
/// machine, animation selection (only when the state changed), and the
/// facing update. Returns the sprite frame to show when a new animation was
/// selected.
pub fn knight_tick(c: &mut KnightCharacter, hits: &Vec<bool>, delta: i64) -> (frame: Option<usize>)
    requires
        knight_character_wf(*old(c)),
        hits@.len() == KnightSensor::spec_count(),
        0 <= delta <= SCALAR_MAX,
    ensures
        knight_character_wf(*final(c)),
        final(c).knight.move_speed == old(c).knight.move_speed,
        final(c).sensors_spawned,
        final(c).sensors@ == ({
            let s1 = spec_spawn::<KnightSensor>(old(c).sensors@, old(c).sensors_spawned).0;
            if old(c).pending_flip {
                spec_mirror(s1)
            } else {
                s1
            }
        }),
        final(c).collision.flags_seq() == hits@,
        ({
            let down = hits@[KnightSensor::Down.spec_index()];
            let front = hits@[KnightSensor::Front.spec_index()];
            let down_front = hits@[KnightSensor::DownFront.spec_index()];
            let attack_zone = hits@[KnightSensor::AttackZone.spec_index()];
            let vy1 = if old(c).gravity {
                spec_apply_gravity(old(c).velocity.y as int, delta as int)
            } else {
                old(c).velocity.y as int
            };
            let set_changed = old(c).collision.flags_seq() != hits@;
            let toggled = if set_changed {
                spec_toggle_gravity(old(c).gravity, vy1, down)
            } else {
                (old(c).gravity, vy1)
            };
            let moved = spec_move_knight(
                old(c).velocity.x as int,
                old(c).knight,
                old(c).state == KnightState::Attack,
                down,
                front,
                down_front,
                delta as int,
            );
            let next = spec_knight_next_state(
                moved.0,
                old(c).state,
                attack_zone,
                old(c).animation.finished,
            );
            &&& final(c).gravity == toggled.0
            &&& final(c).velocity.x as int == moved.0
            &&& final(c).velocity.y as int == toggled.1
            &&& final(c).knight.direction as int == moved.1
            &&& final(c).state == next
            &&& final(c).orientation == spec_orientation_after(moved.0, old(c).orientation)
            &&& final(c).pending_flip == (final(c).orientation != old(c).orientation)
            &&& (next != old(c).state ==> {
                &&& final(c).animation.frames@ == next.spec_frames()
                &&& final(c).animation.period_ms as int == next.spec_period()
                &&& final(c).animation.cyclic == next.spec_cyclic()
                &&& !final(c).animation.finished
                &&& frame == (if next.spec_frames().len() > 0 {
                    Some(next.spec_frames()[0])
                } else {
                    None::<usize>
                })
            })
            &&& (next == old(c).state ==> final(c).animation == old(c).animation && frame is None)
        }),
{
    proof {
        KnightSensor::lemma_catalog_wf();
    }
    add_collision_sensor::<KnightSensor>(&mut c.sensors, &mut c.sensors_spawned);
    if c.pending_flip {
        proof {
            lemma_mirror_involution(KnightSensor::spec_sensors());
        }
        flip_sensor(&mut c.sensors);
        c.pending_flip = false;
    }
    if c.gravity {
        apply_gravity(&mut c.velocity, delta);
    }
    let set_changed = detect_collision(&mut c.collision, hits);
    if set_changed {
        handle_knight_collision_changes(&mut c.gravity, &mut c.velocity, &c.collision);
    }
    move_knight(&mut c.velocity, &mut c.knight, &c.state, &c.collision, delta);
    let state_changed = update_knight_state(&c.velocity, &mut c.state, &c.collision, &c.animation);
    let frame = if state_changed {
        update_animation(&mut c.animation, &c.state)
    } else {
        None
    };
    let turned = update_character_orientations(&c.velocity, &mut c.orientation);
    if turned {
        c.pending_flip = true;
    }
    frame
}

/// State priority for the knight: an unfinished attack dominates every
/// velocity and collision input; and once the attack animation has finished,
/// a motionless knight returns to Idle whatever the attack zone reports.
pub proof fn lemma_knight_state_priority(vx: int, attack_zone: bool)
    ensures
        spec_knight_next_state(vx, KnightState::Attack, attack_zone, false) == KnightState::Attack,
        spec_knight_next_state(0, KnightState::Attack, attack_zone, true) == KnightState::Idle,
{
}

} // verus!
