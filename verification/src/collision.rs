//! Directional collision sensing. Every character kind has a fixed catalog
//! of named sensors (non-solid child shapes at fixed offsets); each tick the
//! physics engine reports, per sensor, whether it currently intersects
//! anything, and the aggregator keeps a per-character set of the touching
//! sensor tags exactly in step with those reports.

use vstd::prelude::*;

use core::marker::PhantomData;
use crate::groups::CollisionGroups;
use crate::motion::SCALAR_MAX;

verus! {

/// Physical extent of a sensor or body collider, in thousandths of a unit.
/// The set of supported shapes is closed: the catalogs are fixed at compile
/// time, so an unsupported shape cannot even be written down.
#[derive(PartialEq, Eq, Structural, Clone, Copy, Debug)]
pub enum Shape {
    /// Axis-aligned box given by its half-extents.
    Cuboid { half_x: i64, half_y: i64 },
    /// Vertical capsule: a segment of the given half-height, thickened by
    /// the given radius.
    CapsuleY { half_height: i64, radius: i64 },
}

/// One catalog entry: a named sensor with its shape, its offset relative to
/// the parent character (signed for a right-facing character), and the
/// collision filter group the physics engine probes it against.
#[derive(Clone, Copy, Debug)]
pub struct SensorSpec<T> {
    pub tag: T,
    pub shape: Shape,
    pub offset_x: i64,
    pub offset_y: i64,
    pub groups: CollisionGroups,
}

/// Offsets stay inside the simulation's scalar range, so mirroring (offset
/// negation) can never overflow.
pub open spec fn sensor_spec_wf<T>(s: SensorSpec<T>) -> bool {
    &&& -SCALAR_MAX <= s.offset_x <= SCALAR_MAX
    &&& -SCALAR_MAX <= s.offset_y <= SCALAR_MAX
}

/// Every entry of a sensor list is well-formed.
pub open spec fn sensor_list_wf<T>(s: Seq<SensorSpec<T>>) -> bool {
    forall|k: int| 0 <= k < s.len() ==> sensor_spec_wf(#[trigger] s[k])
}

/// What a sensor catalog promises: it is total (at least one entry), every
/// entry is well-formed, and the entries are listed in tag order, so that
/// the tag's index both names the entry and addresses the per-tick query
/// results.
pub open spec fn catalog_wf<T: CollisionSensor>() -> bool {
    &&& T::spec_sensors().len() == T::spec_count()
    &&& T::spec_count() >= 1
    &&& forall|k: int| 0 <= k < T::spec_count() ==> (#[trigger] T::spec_sensors()[k]).tag.spec_index() == k
    &&& sensor_list_wf(T::spec_sensors())
}

/// A character kind's set of named sensor tags, together with its catalog:
/// the fixed, ordered list of sensor specifications spawned under every
/// character of the kind.
pub trait CollisionSensor: Sized + Copy {
    /// Position of this tag in the kind's catalog.
    spec fn spec_index(self) -> int;

    /// Number of tags of this kind.
    spec fn spec_count() -> int;

    /// The catalog: same kind, same entries, same order, on every call.
    spec fn spec_sensors() -> Seq<SensorSpec<Self>>;

    /// Every tag's index addresses a catalog entry.
    proof fn lemma_index_in_range(self)
        ensures
            0 <= self.spec_index() < Self::spec_count(),
    ;

    /// The catalog is total, well-formed, and listed in tag order.
    proof fn lemma_catalog_wf()
        ensures
            Self::spec_sensors().len() == Self::spec_count(),
            Self::spec_count() >= 1,
            forall|k: int|
                0 <= k < Self::spec_count() ==> (#[trigger] Self::spec_sensors()[k]).tag.spec_index()
                    == k,
            sensor_list_wf(Self::spec_sensors()),
    ;

    fn index(&self) -> (i: usize)
        ensures
            i as int == self.spec_index(),
    ;

    fn count() -> (n: usize)
        ensures
            n as int == Self::spec_count(),
    ;

    fn get_sensors() -> (r: Vec<SensorSpec<Self>>)
        ensures
            r@ == Self::spec_sensors(),
    ;
}

/// Every sensor kind's catalog is total, well-formed, and listed in tag
/// order, by the obligations its `CollisionSensor` implementation proved.
pub proof fn lemma_catalog_holds<T: CollisionSensor>()
    ensures
        catalog_wf::<T>(),
{
    T::lemma_catalog_wf();
}

/// The set of sensor tags of a character that currently intersect
/// something, stored as one flag per catalog entry. Mutated only by the
/// collision aggregator.
#[verifier::reject_recursive_types(T)]
pub struct Collision<T> {
    flags: Vec<bool>,
    marker: PhantomData<T>,
}

impl<T: CollisionSensor> Collision<T> {
    /// The per-tag flags, in catalog order.
    pub closed spec fn flags_seq(self) -> Seq<bool> {
        self.flags@
    }

    /// One flag per catalog entry.
    pub open spec fn wf(self) -> bool {
        self.flags_seq().len() == T::spec_count()
    }

    /// Whether the tag with catalog index `i` is in the set.
    pub open spec fn spec_contains(self, i: int) -> bool {
        0 <= i < self.flags_seq().len() && self.flags_seq()[i]
    }

    /// An empty set: no sensor is touching anything yet.
    pub fn new() -> (c: Self)
        ensures
            c.wf(),
            forall|i: int| !c.spec_contains(i),
    {
        Collision { flags: vec![false; T::count()], marker: PhantomData }
    }

    /// Puts `sensor`'s tag into the set.
    pub fn add(&mut self, sensor: T)
        requires
            old(self).wf(),
        ensures
            final(self).wf(),
            forall|j: int|
                final(self).spec_contains(j) <==> (old(self).spec_contains(j) || j
                    == sensor.spec_index()),
    {
        proof {
            sensor.lemma_index_in_range();
        }
        let i = sensor.index();
        self.flags[i] = true;
    }

    /// Takes `sensor`'s tag out of the set.
    pub fn remove(&mut self, sensor: &T)
        requires
            old(self).wf(),
        ensures
            final(self).wf(),
            forall|j: int|
                final(self).spec_contains(j) <==> (old(self).spec_contains(j) && j
                    != sensor.spec_index()),
    {
        proof {
            sensor.lemma_index_in_range();
        }
        let i = sensor.index();
        self.flags[i] = false;
    }

    /// Whether `sensor`'s tag is in the set.
    pub fn get(&self, sensor: &T) -> (r: bool)
        requires
            self.wf(),
        ensures
            r == self.spec_contains(sensor.spec_index()),
    {
        proof {
            sensor.lemma_index_in_range();
        }
        let i = sensor.index();
        self.flags[i]
    }

    /// The catalog of the kind this set belongs to.
    pub fn get_sensors(&self) -> (r: Vec<SensorSpec<T>>)
        ensures
            r@ == T::spec_sensors(),
    {
        T::get_sensors()
    }
}

impl<T: CollisionSensor> Default for Collision<T> {
    fn default() -> (c: Self)
        ensures
            c.wf(),
            forall|i: int| !c.spec_contains(i),
    {
        Collision::new()
    }
}

/// Sensor list and spawn flag after the spawner has run once.
pub open spec fn spec_spawn<T: CollisionSensor>(sensors: Seq<SensorSpec<T>>, spawned: bool) -> (
    Seq<SensorSpec<T>>,
    bool,
) {
    if spawned {
        (sensors, true)
    } else {
        (T::spec_sensors(), true)
    }
}

/// Spawns the catalog's sensors as children of a character, exactly once: a
/// character already holding its sensors is left untouched, so running the
/// spawner again can never duplicate sensor entities.
pub fn add_collision_sensor<T: CollisionSensor>(sensors: &mut Vec<SensorSpec<T>>, spawned: &mut bool)
    ensures
        (final(sensors)@, *final(spawned)) == spec_spawn(old(sensors)@, *old(spawned)),
{
    if !*spawned {
        *sensors = T::get_sensors();
        *spawned = true;
    }
}

/// Spawning is idempotent: running the spawner on an already-initialized
/// character changes nothing, so sensors are never duplicated.
pub proof fn lemma_spawn_idempotent<T: CollisionSensor>(sensors: Seq<SensorSpec<T>>, spawned: bool)
    ensures
        spec_spawn(
            spec_spawn::<T>(sensors, spawned).0,
            spec_spawn::<T>(sensors, spawned).1,
        ) == spec_spawn::<T>(sensors, spawned),
{
}

/// One sensor with its x-offset negated.
pub open spec fn spec_flip_one<T>(s: SensorSpec<T>) -> SensorSpec<T> {
    SensorSpec { offset_x: (-s.offset_x) as i64, ..s }
}

/// A sensor list mirrored across the character's vertical axis.
pub open spec fn spec_mirror<T>(s: Seq<SensorSpec<T>>) -> Seq<SensorSpec<T>> {
    s.map_values(|x: SensorSpec<T>| spec_flip_one(x))
}

/// Negates the x-offset of every sensor of a character. Offsets are signed
/// according to the facing at spawn time, so one negation per orientation
/// change keeps them correct; it must run exactly once per change, not once
/// per tick.
pub fn flip_sensor<T: CollisionSensor>(sensors: &mut Vec<SensorSpec<T>>)
    requires
        sensor_list_wf(old(sensors)@),
    ensures
        final(sensors)@ == spec_mirror(old(sensors)@),
        sensor_list_wf(final(sensors)@),
{
    let n = sensors.len();
    let mut k: usize = 0;
    while k < n
        invariant
            k <= n,
            n == sensors@.len(),
            sensor_list_wf(old(sensors)@),
            sensors@.len() == old(sensors)@.len(),
            forall|j: int| 0 <= j < k ==> sensors@[j] == spec_flip_one(#[trigger] old(sensors)@[j]),
            forall|j: int| k <= j < n ==> sensors@[j] == #[trigger] old(sensors)@[j],
        decreases n - k,
    {
        let s = sensors[k];
        proof {
            assert(sensor_spec_wf(old(sensors)@[k as int]));
        }
        sensors[k] = SensorSpec { offset_x: -s.offset_x, ..s };
        k = k + 1;
    }
    proof {
        assert(sensors@ =~= spec_mirror(old(sensors)@));
        assert forall|j: int| 0 <= j < sensors@.len() implies sensor_spec_wf(#[trigger] sensors@[j]) by {
            assert(sensor_spec_wf(old(sensors)@[j]));
        }
    }
}

/// Mirroring twice restores every sensor offset exactly.
pub proof fn lemma_mirror_involution<T>(s: Seq<SensorSpec<T>>)
    requires
        sensor_list_wf(s),
    ensures
        spec_mirror(spec_mirror(s)) == s,
{
    assert forall|j: int| 0 <= j < s.len() implies spec_mirror(spec_mirror(s))[j] == s[j] by {
        assert(sensor_spec_wf(s[j]));
    }
    assert(spec_mirror(spec_mirror(s)) =~= s);
}

/// Refreshes the collision set from this tick's physics queries: after the
/// call the set holds exactly the tags whose sensor reported an
/// intersection, flags that already agree are not rewritten, and the result
/// says whether anything changed, so downstream reactive systems see a
/// change notification only when the set really changed.
pub fn detect_collision<T: CollisionSensor>(collision: &mut Collision<T>, hits: &Vec<bool>) -> (changed:
    bool)
    requires
        old(collision).wf(),
        hits@.len() == T::spec_count(),
    ensures
        final(collision).wf(),
        final(collision).flags_seq() == hits@,
        changed == (old(collision).flags_seq() != hits@),
{
    let n = hits.len();
    let mut changed = false;
    let mut k: usize = 0;
    while k < n
        invariant
            k <= n,
            n == hits@.len(),
            collision.flags_seq().len() == n,
            old(collision).flags_seq().len() == n,
            forall|j: int| 0 <= j < k ==> collision.flags_seq()[j] == hits@[j],
            forall|j: int| k <= j < n ==> collision.flags_seq()[j] == old(collision).flags_seq()[j],
            changed == exists|j: int| 0 <= j < k && old(collision).flags_seq()[j] != hits@[j],
        decreases n - k,
    {
        let h = hits[k];
        if collision.flags[k] != h {
            collision.flags[k] = h;
            changed = true;
        }
        k = k + 1;
    }
    proof {
        assert(collision.flags_seq() =~= hits@);
        if !changed {
            assert(old(collision).flags_seq() =~= hits@);
        }
    }
    changed
}

/// Set accuracy: after aggregation, a tag is in the collision set iff the
/// latest physics query for its sensor returned true.
pub proof fn lemma_refresh_exact<T: CollisionSensor>(after: Collision<T>, hits: Seq<bool>, tag: T)
    requires
        after.flags_seq() == hits,
        hits.len() == T::spec_count(),
    ensures
        after.spec_contains(tag.spec_index()) <==> hits[tag.spec_index()],
{
    tag.lemma_index_in_range();
}

} // verus!
