//! Water volumes and the per-tick submersion classification.

use vstd::prelude::*;

verus! {

/// The "no water" swim speed: larger than any configured one.
pub const WATER_SPEED_MAX: i64 = 1_000_000;

/// How deeply the character is submerged, ordered from dry to under water.
#[derive(Clone, Copy, PartialEq, Eq, Structural, Debug)]
pub enum WaterLevel {
    Dry,
    Feet,
    Waist,
    Head,
}

impl WaterLevel {
    /// The depth order: dry is 0, fully submerged is 3.
    pub open spec fn rank_spec(self) -> int {
        match self {
            WaterLevel::Dry => 0,
            WaterLevel::Feet => 1,
            WaterLevel::Waist => 2,
            WaterLevel::Head => 3,
        }
    }

    pub fn rank(self) -> (r: u8)
        ensures
            r == self.rank_spec(),
    {
        match self {
            WaterLevel::Dry => 0,
            WaterLevel::Feet => 1,
            WaterLevel::Waist => 2,
            WaterLevel::Head => 3,
        }
    }

    /// Whether the character counts as swimming (submerged above the feet).
    pub fn above_feet(self) -> (r: bool)
        ensures
            r == (self.rank_spec() > 1),
    {
        self.rank() > 1
    }

    /// The deeper of two levels.
    pub fn max(self, other: WaterLevel) -> (r: WaterLevel)
        ensures
            r == if self.rank_spec() >= other.rank_spec() {
                self
            } else {
                other
            },
    {
        if self.rank() >= other.rank() {
            self
        } else {
            other
        }
    }
}

/// A water volume's own property: how fast one swims in it.
#[derive(Clone, Copy, PartialEq, Eq, Structural, Debug)]
pub struct Water {
    pub speed: i64,
}

/// The character's submersion state this tick.
#[derive(Clone, Copy, PartialEq, Eq, Structural, Debug)]
pub struct WaterState {
    /// The deepest submersion over all touched water volumes.
    pub level: WaterLevel,
    /// The slowest swim speed over all touched water volumes.
    pub speed: i64,
}

impl WaterState {
    pub open spec fn wf(self) -> bool {
        0 <= self.speed <= WATER_SPEED_MAX
    }

    /// Dry.
    pub fn dry() -> (r: WaterState)
        ensures
            r.level == WaterLevel::Dry,
            r.speed == WATER_SPEED_MAX,
            r.wf(),
    {
        WaterState { level: WaterLevel::Dry, speed: WATER_SPEED_MAX }
    }
}

/// What one touched water volume reports: whether it contains the eye point
/// and the body centre, and its swim speed.
#[derive(Clone, Copy, PartialEq, Eq, Structural, Debug)]
pub struct WaterReading {
    pub contains_eye: bool,
    pub contains_center: bool,
    pub speed: i64,
}

impl WaterReading {
    pub open spec fn wf(self) -> bool {
        0 <= self.speed <= WATER_SPEED_MAX
    }

    /// The submersion level a single volume implies: head under water when it
    /// holds the eye point, waist when only the body centre, feet otherwise.
    pub open spec fn level_spec(self) -> WaterLevel {
        if self.contains_eye {
            WaterLevel::Head
        } else if self.contains_center {
            WaterLevel::Waist
        } else {
            WaterLevel::Feet
        }
    }
}

/// Fold the readings of every currently touched water volume into the
/// character's submersion state: the deepest level wins and the slowest swim
/// speed wins; with no touched volume the character is dry.
pub fn update_water(readings: &Vec<WaterReading>) -> (r: WaterState)
    requires
        forall|i: int| 0 <= i < readings@.len() ==> (#[trigger] readings@[i]).wf(),
    ensures
        r.wf(),
        readings@.len() == 0 ==> r.level == WaterLevel::Dry && r.speed == WATER_SPEED_MAX,
        forall|i: int|
            0 <= i < readings@.len() ==> r.level.rank_spec() >= (
            #[trigger] readings@[i]).level_spec().rank_spec(),
        forall|i: int| 0 <= i < readings@.len() ==> r.speed <= (#[trigger] readings@[i]).speed,
        readings@.len() > 0 ==> (exists|i: int|
            0 <= i < readings@.len() && r.level == (#[trigger] readings@[i]).level_spec()),
        readings@.len() > 0 ==> (exists|i: int|
            0 <= i < readings@.len() && r.speed == (#[trigger] readings@[i]).speed),
{
    let mut state = WaterState::dry();
    let mut k: usize = 0;
    while k < readings.len()
        invariant
            0 <= k <= readings@.len(),
            forall|i: int| 0 <= i < readings@.len() ==> (#[trigger] readings@[i]).wf(),
            state.wf(),
            k == 0 ==> state.level == WaterLevel::Dry && state.speed == WATER_SPEED_MAX,
            forall|i: int|
                0 <= i < k ==> state.level.rank_spec() >= (
                #[trigger] readings@[i]).level_spec().rank_spec(),
            forall|i: int| 0 <= i < k ==> state.speed <= (#[trigger] readings@[i]).speed,
            k > 0 ==> (exists|i: int|
                0 <= i < k && state.level == (#[trigger] readings@[i]).level_spec()),
            k > 0 ==> (exists|i: int|
                0 <= i < k && state.speed == (#[trigger] readings@[i]).speed),
        decreases readings@.len() - k,
    {
        let reading = readings[k];
        let level = if reading.contains_eye {
            WaterLevel::Head
        } else if reading.contains_center {
            WaterLevel::Waist
        } else {
            WaterLevel::Feet
        };
        let new_level = if k == 0 {
            level
        } else {
            level.max(state.level)
        };
        let new_speed = if k == 0 {
            reading.speed
        } else if reading.speed < state.speed {
            reading.speed
        } else {
            state.speed
        };
        state = WaterState { level: new_level, speed: new_speed };
        k = k + 1;
    }
    state
}

} // verus!
