//! Heroes: the walking units whose navigation this crate computes.
//!
//! A hero follows an ordered list of waypoints, carries a health pool, and
//! remembers which point-of-interest cells it has already triggered.  Health
//! is counted in subunits — `HEALTH_SCALE` subunits make one health point —
//! so damage over a fractional second stays exact.

use vstd::prelude::*;
use crate::geometry::{GridPos, Vec2};

verus! {

/// Health subunits per health point.
pub const HEALTH_SCALE: i64 = 1000;

/// Bound on waypoint and hazard coordinates, in subunits.
pub const COORD_LIMIT: i64 = 100_000_000;

/// Bound on a hero's position, in subunits.  Steering away from a hazard can
/// carry a hero beyond the waypoint bound, never beyond this one.
pub const POS_LIMIT: i64 = 200_000_000;

/// Bound on a hero's speed, in subunits per second.
pub const SPEED_LIMIT: i64 = 1_000_000;

/// Bound on a hero's maximum health, in health subunits.
pub const HEALTH_LIMIT: i64 = 1_000_000_000_000;

/// Bound on the time step of one tick, in milliseconds.
pub const DT_LIMIT: u32 = 60_000;

/// A hero's health pool.  `current_health` starts at `max_health` and only
/// moves down, through hazard and tile damage.
#[derive(Clone, Copy, Debug, PartialEq, Eq, Structural)]
pub struct HealthBar {
    pub max_health: i64,
    pub current_health: i64,
}

/// Which sprite sheet a hero uses; no effect on navigation.
#[derive(Clone, Copy, Debug, PartialEq, Eq, Structural)]
pub enum HeroType {
    JohnHeron,
    RerinGuard,
}

impl Default for HeroType {
    fn default() -> (t: HeroType)
        ensures
            t == HeroType::JohnHeron,
    {
        HeroType::JohnHeron
    }
}

/// A walking unit.
#[derive(Clone, Debug, PartialEq)]
pub struct Hero {
    /// The waypoint path, fixed at level load.
    pub targets: Vec<Vec2>,
    /// Current world position, in subunits.
    pub position: Vec2,
    /// Walking speed, in subunits per second.
    pub speed: i64,
    pub hero_type: HeroType,
    /// Index of the waypoint walked toward; equal to `targets.len()` once the
    /// path is done.
    pub current_target: usize,
    pub health_bar: HealthBar,
    /// Tie-break byte for symmetric avoidance choices; rerolled when the hero
    /// is far from every hazard.
    pub avoidance_bias: u8,
    /// Grid cells whose one-time effect already fired for this hero;
    /// append-only, no duplicates.
    pub seen_poi: Vec<GridPos>,
}

impl Hero {
    /// Well-formedness: the invariant every navigation update preserves.
    pub open spec fn wf(self) -> bool {
        &&& self.current_target <= self.targets@.len()
        &&& self.position.in_range(POS_LIMIT as int)
        &&& forall|i: int|
            0 <= i < self.targets@.len() ==> self.targets@[i].in_range(COORD_LIMIT as int)
        &&& 0 <= self.speed <= SPEED_LIMIT
        &&& 0 < self.health_bar.max_health <= HEALTH_LIMIT
        &&& self.health_bar.current_health <= self.health_bar.max_health
        &&& forall|i: int, j: int|
            0 <= i < j < self.seen_poi@.len() ==> self.seen_poi@[i] != self.seen_poi@[j]
    }

    /// The hero has walked its whole path.
    pub open spec fn finished(self) -> bool {
        self.current_target == self.targets@.len()
    }

    /// The hero's health has run out.
    pub open spec fn defeated(self) -> bool {
        self.health_bar.current_health <= 0
    }

    /// The waypoint currently walked toward.
    pub fn target(&self) -> (t: Vec2)
        requires
            self.current_target < self.targets@.len(),
        ensures
            t == self.targets@[self.current_target as int],
    {
        self.targets[self.current_target]
    }

    /// Whether this hero has already triggered the point of interest at
    /// `cell`.
    pub fn has_seen(&self, cell: GridPos) -> (r: bool)
        ensures
            r == self.seen_poi@.contains(cell),
    {
        let n = self.seen_poi.len();
        for i in 0..n
            invariant
                n == self.seen_poi@.len(),
                forall|k: int| 0 <= k < i ==> self.seen_poi@[k] != cell,
        {
            if self.seen_poi[i] == cell {
                return true;
            }
        }
        false
    }

    /// How full the health bar is drawn, in thousandths, clamped below at
    /// zero.
    pub fn health_ratio_permille(&self) -> (r: i64)
        requires
            0 < self.health_bar.max_health <= HEALTH_LIMIT,
            self.health_bar.current_health <= self.health_bar.max_health,
        ensures
            r as int == if self.health_bar.current_health <= 0 {
                0int
            } else {
                self.health_bar.current_health * 1000 / (self.health_bar.max_health as int)
            },
            0 <= r <= 1000,
    {
        if self.health_bar.current_health <= 0 {
            0
        } else {
            let cur = self.health_bar.current_health as u64;
            let max = self.health_bar.max_health as u64;
            proof {
                assert(cur as int * 1000 <= 1_000_000_000_000_000) by (nonlinear_arith)
                    requires
                        0 <= cur as int <= 1_000_000_000_000,
                ;
                assert((cur as int * 1000) / (max as int) <= 1000) by (nonlinear_arith)
                    requires
                        1 <= max as int,
                        0 <= cur as int <= max as int,
                ;
            }
            ((cur * 1000) / max) as i64
        }
    }

    /// A freshly spawned hero: full health, path not yet begun, nothing seen.
    pub fn new(targets: Vec<Vec2>, position: Vec2, speed: i64, hero_type: HeroType, max_health: i64)
        -> (h: Hero)
        requires
            position.in_range(POS_LIMIT as int),
            forall|i: int| 0 <= i < targets@.len() ==> targets@[i].in_range(COORD_LIMIT as int),
            0 <= speed <= SPEED_LIMIT,
            0 < max_health <= HEALTH_LIMIT,
        ensures
            h.wf(),
            h.targets == targets,
            h.position == position,
            h.speed == speed,
            h.hero_type == hero_type,
            h.current_target == 0,
            h.health_bar.max_health == max_health,
            h.health_bar.current_health == max_health,
            h.avoidance_bias == 0,
            h.seen_poi@.len() == 0,
    {
        Hero {
            targets,
            position,
            speed,
            hero_type,
            current_target: 0,
            health_bar: HealthBar { max_health, current_health: max_health },
            avoidance_bias: 0,
            seen_poi: Vec::new(),
        }
    }
}

}
