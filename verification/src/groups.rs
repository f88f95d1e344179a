//! Collision filter groups: each collider belongs to a set of groups and
//! only interacts with colliders whose membership intersects its filter.
//! The physics engine evaluates the filters; this module fixes the group
//! layout that the sensor catalogs refer to.

use vstd::prelude::*;

verus! {

/// Ground tiles and other static level geometry.
pub const GROUND: u32 = 1;

/// The player's solid body.
pub const PLAYER_COLLIDER: u32 = 2;

/// The player's vulnerable hitbox.
pub const PLAYER_HITBOX: u32 = 4;

/// An enemy's solid body.
pub const ENEMY_COLLIDER: u32 = 8;

/// Sensors that probe for level geometry.
pub const GROUND_SENSOR: u32 = 16;

/// Enemy sensors that probe for the player's hitbox.
pub const PLAYER_SENSOR: u32 = 32;

/// Membership and filter masks of one collider: it interacts with another
/// collider exactly when each one's memberships intersect the other's
/// filters.
#[derive(PartialEq, Eq, Structural, Clone, Copy, Debug)]
pub struct CollisionGroups {
    pub memberships: u32,
    pub filters: u32,
}

/// Level geometry: collides with both characters' bodies and with their
/// ground sensors.
pub open spec fn spec_ground_group() -> CollisionGroups {
    CollisionGroups { memberships: GROUND, filters: PLAYER_COLLIDER | ENEMY_COLLIDER | GROUND_SENSOR }
}

/// The player's body: collides with level geometry only.
pub open spec fn spec_player_collider_group() -> CollisionGroups {
    CollisionGroups { memberships: PLAYER_COLLIDER, filters: GROUND }
}

/// An enemy's body: collides with level geometry only.
pub open spec fn spec_enemy_collider_group() -> CollisionGroups {
    CollisionGroups { memberships: ENEMY_COLLIDER, filters: GROUND }
}

/// The player's hitbox: seen by enemy attack sensors.
pub open spec fn spec_player_hitbox_group() -> CollisionGroups {
    CollisionGroups { memberships: PLAYER_HITBOX, filters: PLAYER_SENSOR }
}

/// An enemy sensor probing for the player's hitbox.
pub open spec fn spec_player_sensor_group() -> CollisionGroups {
    CollisionGroups { memberships: PLAYER_SENSOR, filters: PLAYER_HITBOX }
}

/// A sensor probing for level geometry.
pub open spec fn spec_ground_sensor_group() -> CollisionGroups {
    CollisionGroups { memberships: GROUND_SENSOR, filters: GROUND }
}

/// The physics engine's filter rule: two colliders interact exactly when
/// each one's memberships intersect the other's filters.
pub open spec fn spec_interacts(a: CollisionGroups, b: CollisionGroups) -> bool {
    (a.memberships & b.filters) != 0 && (b.memberships & a.filters) != 0
}

/// The filter rule, as the engine evaluates it.
pub fn interacts(a: CollisionGroups, b: CollisionGroups) -> (r: bool)
    ensures
        r == spec_interacts(a, b),
{
    (a.memberships & b.filters) != 0 && (b.memberships & a.filters) != 0
}

/// The group layout pairs exactly the colliders that the design couples:
/// bodies and ground probes touch level geometry, the attack zone probes
/// the player's hitbox, and nothing else crosses over — in particular a
/// ground probe never reports the player, and the two characters' bodies
/// pass through each other.
pub proof fn lemma_group_layout()
    ensures
        spec_interacts(spec_player_collider_group(), spec_ground_group()),
        spec_interacts(spec_enemy_collider_group(), spec_ground_group()),
        spec_interacts(spec_ground_sensor_group(), spec_ground_group()),
        spec_interacts(spec_player_sensor_group(), spec_player_hitbox_group()),
        !spec_interacts(spec_ground_sensor_group(), spec_player_hitbox_group()),
        !spec_interacts(spec_player_sensor_group(), spec_ground_group()),
        !spec_interacts(spec_player_collider_group(), spec_enemy_collider_group()),
{
    assert((2u32 & (2u32 | 8u32 | 16u32)) != 0) by (bit_vector);
    assert((8u32 & (2u32 | 8u32 | 16u32)) != 0) by (bit_vector);
    assert((16u32 & (2u32 | 8u32 | 16u32)) != 0) by (bit_vector);
    assert((1u32 & 1u32) != 0) by (bit_vector);
    assert((32u32 & 32u32) != 0) by (bit_vector);
    assert((4u32 & 4u32) != 0) by (bit_vector);
    assert((16u32 & 32u32) == 0) by (bit_vector);
    assert((32u32 & (2u32 | 8u32 | 16u32)) == 0) by (bit_vector);
    assert((2u32 & 1u32) == 0) by (bit_vector);
}

pub fn ground_group() -> (g: CollisionGroups)
    ensures
        g == spec_ground_group(),
{
    CollisionGroups { memberships: GROUND, filters: PLAYER_COLLIDER | ENEMY_COLLIDER | GROUND_SENSOR }
}

pub fn player_collider_group() -> (g: CollisionGroups)
    ensures
        g == spec_player_collider_group(),
{
    CollisionGroups { memberships: PLAYER_COLLIDER, filters: GROUND }
}

pub fn enemy_collider_group() -> (g: CollisionGroups)
    ensures
        g == spec_enemy_collider_group(),
{
    CollisionGroups { memberships: ENEMY_COLLIDER, filters: GROUND }
}

pub fn player_hitbox_group() -> (g: CollisionGroups)
    ensures
        g == spec_player_hitbox_group(),
{
    CollisionGroups { memberships: PLAYER_HITBOX, filters: PLAYER_SENSOR }
}

pub fn player_sensor_group() -> (g: CollisionGroups)
    ensures
        g == spec_player_sensor_group(),
{
    CollisionGroups { memberships: PLAYER_SENSOR, filters: PLAYER_HITBOX }
}

pub fn ground_sensor_group() -> (g: CollisionGroups)
    ensures
        g == spec_ground_sensor_group(),
{
    CollisionGroups { memberships: GROUND_SENSOR, filters: GROUND }
}

} // verus!
