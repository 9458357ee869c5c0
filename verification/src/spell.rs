//! Spells and their placement rules, the spell entities' lifetimes, and the
//! small bookkeeping types of the surrounding game flow.

use vstd::prelude::*;
use crate::geometry::{dist_sq, dist_sq_i64, Vec2, GEOM_LIMIT, SUBUNITS};

verus! {

/// Minimum spacing between two fire walls, in subunits (40 world units).
pub const FIRE_WALL_GAP: i64 = 40 * SUBUNITS;

/// How many levels the game ships.
pub const NUMBER_OF_LEVELS: usize = 2;

/// The player's selectable spells.
#[derive(Clone, Copy, Debug, PartialEq, Eq, Structural)]
pub enum Spell {
    Unselected,
    FireWall,
    HealthBoost,
    WindGust,
}

impl Default for Spell {
    fn default() -> (s: Spell)
        ensures
            s == Spell::Unselected,
    {
        Spell::Unselected
    }
}

impl Spell {
    /// Pressing a spell's key selects it; pressing it again deselects.
    pub fn toggle_select(current: Spell, chosen: Spell) -> (r: Spell)
        ensures
            r == if current == chosen {
                Spell::Unselected
            } else {
                chosen
            },
    {
        if current == chosen {
            Spell::Unselected
        } else {
            chosen
        }
    }
}

/// Whether gameplay systems still run or the end-of-level screen is up.
#[derive(Clone, Copy, Debug, PartialEq, Eq, Structural, Hash)]
pub enum GameRunning {
    Running,
    AfterEnd,
}

/// The top-level screens of the game.
#[derive(Clone, Copy, Debug, PartialEq, Eq, Structural, Hash)]
pub enum GameState {
    MainMenu,
    InfoScreen,
    LevelSelect,
    Gaming,
}

/// A placed fire wall: a hazard with a lifetime.
#[derive(Clone, Copy, Debug, PartialEq, Eq, Structural)]
pub struct FireWall {
    pub position: Vec2,
    /// Remaining lifetime, in milliseconds; the wall despawns at zero.
    pub ttl_ms: u32,
}

impl FireWall {
    /// Counts the lifetime down by one tick; true once the wall is spent.
    pub fn tick(&mut self, dt_ms: u32) -> (finished: bool)
        ensures
            final(self).position == old(self).position,
            final(self).ttl_ms == if dt_ms >= old(self).ttl_ms {
                0u32
            } else {
                (old(self).ttl_ms - dt_ms) as u32
            },
            finished == (final(self).ttl_ms == 0),
    {
        if dt_ms >= self.ttl_ms {
            self.ttl_ms = 0;
        } else {
            self.ttl_ms = self.ttl_ms - dt_ms;
        }
        self.ttl_ms == 0
    }
}

/// A placed healing circle; purely cosmetic while it lasts.
#[derive(Clone, Copy, Debug, PartialEq, Eq, Structural)]
pub struct HealingCircle {
    pub position: Vec2,
    pub ttl_ms: u32,
}

impl HealingCircle {
    /// Counts the lifetime down by one tick; true once the circle is spent.
    pub fn tick(&mut self, dt_ms: u32) -> (finished: bool)
        ensures
            final(self).position == old(self).position,
            final(self).ttl_ms == if dt_ms >= old(self).ttl_ms {
                0u32
            } else {
                (old(self).ttl_ms - dt_ms) as u32
            },
            finished == (final(self).ttl_ms == 0),
    {
        if dt_ms >= self.ttl_ms {
            self.ttl_ms = 0;
        } else {
            self.ttl_ms = self.ttl_ms - dt_ms;
        }
        self.ttl_ms == 0
    }
}

/// A cast wind gust; purely cosmetic while it lasts.
#[derive(Clone, Copy, Debug, PartialEq, Eq, Structural)]
pub struct WindGust {
    pub position: Vec2,
    pub direction: Vec2,
    pub ttl_ms: u32,
}

impl WindGust {
    /// Counts the lifetime down by one tick; true once the gust is spent.
    pub fn tick(&mut self, dt_ms: u32) -> (finished: bool)
        ensures
            final(self).position == old(self).position,
            final(self).direction == old(self).direction,
            final(self).ttl_ms == if dt_ms >= old(self).ttl_ms {
                0u32
            } else {
                (old(self).ttl_ms - dt_ms) as u32
            },
            finished == (final(self).ttl_ms == 0),
    {
        if dt_ms >= self.ttl_ms {
            self.ttl_ms = 0;
        } else {
            self.ttl_ms = self.ttl_ms - dt_ms;
        }
        self.ttl_ms == 0
    }
}

/// A fire wall may be placed only clear of every existing wall.
pub open spec fn fire_wall_placeable(walls: Seq<FireWall>, position: Vec2) -> bool {
    forall|i: int|
        0 <= i < walls.len() ==> dist_sq((#[trigger] walls[i]).position, position) >= FIRE_WALL_GAP
            * FIRE_WALL_GAP
}

/// Whether a new fire wall at `position` keeps the minimum spacing from all
/// existing walls.
pub fn can_place_fire_wall(walls: &Vec<FireWall>, position: Vec2) -> (r: bool)
    requires
        position.in_range(GEOM_LIMIT as int),
        forall|i: int|
            0 <= i < walls@.len() ==> (#[trigger] walls@[i]).position.in_range(GEOM_LIMIT as int),
    ensures
        r == fire_wall_placeable(walls@, position),
{
    let n = walls.len();
    for i in 0..n
        invariant
            n == walls@.len(),
            position.in_range(GEOM_LIMIT as int),
            forall|k: int|
                0 <= k < walls@.len() ==> (#[trigger] walls@[k]).position.in_range(
                    GEOM_LIMIT as int,
                ),
            forall|k: int|
                0 <= k < i ==> dist_sq((#[trigger] walls@[k]).position, position) >= FIRE_WALL_GAP
                    * FIRE_WALL_GAP,
    {
        let d = dist_sq_i64(walls[i].position, position);
        if d < FIRE_WALL_GAP * FIRE_WALL_GAP {
            return false;
        }
    }
    true
}

/// Which levels the player has won.
#[derive(Clone, Debug, PartialEq)]
pub struct LevelsWon {
    pub won: Vec<bool>,
}

impl LevelsWon {
    /// One flag per level, all false.
    pub fn new() -> (r: LevelsWon)
        ensures
            r.won@.len() == NUMBER_OF_LEVELS,
            forall|i: int| 0 <= i < r.won@.len() ==> !(#[trigger] r.won@[i]),
    {
        let mut won: Vec<bool> = Vec::new();
        let mut i: usize = 0;
        while i < NUMBER_OF_LEVELS
            invariant
                i <= NUMBER_OF_LEVELS,
                won@.len() == i,
                forall|k: int| 0 <= k < won@.len() ==> !(#[trigger] won@[k]),
            decreases NUMBER_OF_LEVELS - i,
        {
            won.push(false);
            i = i + 1;
        }
        LevelsWon { won }
    }

    /// Marks a level (counted from one) as won.
    pub fn record_win(&mut self, level: usize)
        requires
            1 <= level <= old(self).won@.len(),
        ensures
            final(self).won@ == old(self).won@.update(level - 1, true),
    {
        self.won[level - 1] = true;
    }
}

}
