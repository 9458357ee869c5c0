//! Hero navigation for a small 2D tower-defense game.
//!
//! The library computes, for each game tick, how a hero walks along its
//! waypoint path while avoiding fire hazards, how hazard and trap damage is
//! applied, and when a level is won or lost.  All geometry is carried out in
//! fixed-point arithmetic: one world unit is `SUBUNITS` subunits, so every
//! quantity is an integer and every step of the computation is exact.

pub mod geometry;
pub mod hero;
pub mod laws;
pub mod nav;
pub mod rng;
pub mod spell;
pub mod scene;
pub mod tile;

pub use geometry::{GridPos, Vec2};
pub use hero::{HealthBar, Hero, HeroType};
pub use nav::{hero_tick, move_heros, EndGameEvent, TickOutcome};
pub use scene::LevelScene;
pub use tile::Tile;
