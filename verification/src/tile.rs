//! The tile grid: tile kinds, the world-to-grid mapping, and the one-time
//! damage a tile deals when a hero first steps onto its cell.

use vstd::prelude::*;
use crate::geometry::{round_div, round_div_i64, GridPos, Vec2, GEOM_LIMIT, SUBUNITS};
use crate::hero::HEALTH_SCALE;

verus! {

/// Side length of one grid cell, in subunits (64 world units).
pub const GRID_CELL: i64 = 64 * SUBUNITS;

/// One-time damage dealt by a spike tile, in health subunits (40 points).
pub const SPIKE_DAMAGE: i64 = 40 * HEALTH_SCALE;

/// A kind of map tile.  Only spikes have a gameplay effect; the rest are
/// scenery.
#[derive(Clone, Copy, Debug, PartialEq, Eq, Structural)]
pub enum Tile {
    Ground,
    Grass,
    Spike,
    Hole,
    Pole,
}

/// The one-time damage a tile deals to a hero entering its cell, in health
/// subunits.
pub open spec fn tile_damage(t: Tile) -> int {
    match t {
        Tile::Spike => SPIKE_DAMAGE as int,
        _ => 0,
    }
}

impl Tile {
    /// Executable mirror of [`tile_damage`].
    pub fn damage(&self) -> (d: i64)
        ensures
            d == tile_damage(*self),
    {
        match self {
            Tile::Spike => SPIKE_DAMAGE,
            _ => 0,
        }
    }
}

impl Default for Tile {
    fn default() -> (t: Tile)
        ensures
            t == Tile::Ground,
    {
        Tile::Ground
    }
}

/// The grid cell a world position falls in: each coordinate divided by the
/// cell size and rounded to the nearest cell, halves away from zero.
pub open spec fn cell_of(position: Vec2) -> GridPos {
    GridPos {
        x: round_div(position.x as int, GRID_CELL as int) as i64,
        y: round_div(position.y as int, GRID_CELL as int) as i64,
    }
}

/// Maps a world position to its grid cell.
pub fn world_to_grid(position: Vec2) -> (g: GridPos)
    requires
        position.in_range(GEOM_LIMIT as int),
    ensures
        g == cell_of(position),
{
    GridPos { x: round_div_i64(position.x, GRID_CELL), y: round_div_i64(position.y, GRID_CELL) }
}

/// Maps a grid cell back to the world position of its centre.
pub fn grid_to_world(position: GridPos) -> (v: Vec2)
    requires
        -10_000_000 <= position.x <= 10_000_000,
        -10_000_000 <= position.y <= 10_000_000,
    ensures
        v.x == position.x * GRID_CELL,
        v.y == position.y * GRID_CELL,
{
    Vec2 { x: position.x * GRID_CELL, y: position.y * GRID_CELL }
}

/// Looks a position up in a rectangular tile grid; `None` when the position
/// falls outside the grid.
pub fn grid_tile(position: Vec2, grid: Vec<Vec<Tile>>) -> (t: Option<Tile>)
    requires
        position.in_range(GEOM_LIMIT as int),
    ensures
        ({
            let g = cell_of(position);
            if 0 <= g.x < grid@.len() && 0 <= g.y < grid@[g.x as int]@.len() {
                t == Some(grid@[g.x as int]@[g.y as int])
            } else {
                t is None
            }
        }),
{
    let g = world_to_grid(position);
    if g.x >= 0 && (g.x as usize) < grid.len() {
        let row = &grid[g.x as usize];
        if g.y >= 0 && (g.y as usize) < row.len() {
            return Some(row[g.y as usize]);
        }
    }
    None
}

}
