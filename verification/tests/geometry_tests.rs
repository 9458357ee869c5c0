use hero_nav::geometry::{
    dist_sq_i64, dot_i64, isqrt, round_div_i64, scale_frac_i64, GridPos, Vec2,
};
use hero_nav::tile::{grid_tile, grid_to_world, world_to_grid, Tile};

#[test]
fn isqrt_exact_and_between() {
    assert_eq!(isqrt(0), 0);
    assert_eq!(isqrt(1), 1);
    assert_eq!(isqrt(2), 1);
    assert_eq!(isqrt(3), 1);
    assert_eq!(isqrt(4), 2);
    assert_eq!(isqrt(2916), 54);
    assert_eq!(isqrt(3024), 54);
    assert_eq!(isqrt(3025), 55);
    assert_eq!(isqrt(2_500_000_000), 50_000);
    assert_eq!(isqrt(u64::MAX), 4_294_967_295);
}

#[test]
fn scale_frac_truncates_toward_zero() {
    assert_eq!(scale_frac_i64(7, 3, 2), 10);
    assert_eq!(scale_frac_i64(-7, 3, 2), -10);
    assert_eq!(scale_frac_i64(1, 1, 3), 0);
    assert_eq!(scale_frac_i64(-1, 1, 3), 0);
    assert_eq!(scale_frac_i64(100_000, 50_000, 100_000), 50_000);
    assert_eq!(scale_frac_i64(0, 999, 7), 0);
}

#[test]
fn round_div_rounds_half_away_from_zero() {
    assert_eq!(round_div_i64(100, 8), 13);
    assert_eq!(round_div_i64(-100, 8), -13);
    assert_eq!(round_div_i64(4, 8), 1);
    assert_eq!(round_div_i64(3, 8), 0);
    assert_eq!(round_div_i64(-4, 8), -1);
    assert_eq!(round_div_i64(-3, 8), 0);
}

#[test]
fn distance_and_dot() {
    let a = Vec2::new(1_000, 2_000);
    let b = Vec2::new(4_000, 6_000);
    assert_eq!(dist_sq_i64(a, b), 25_000_000);
    assert_eq!(dot_i64(a, b), 16_000_000);
    assert_eq!(dot_i64(Vec2::new(1, 0), Vec2::new(0, 1)), 0);
}

#[test]
fn world_to_grid_rounds_to_nearest_cell() {
    assert_eq!(world_to_grid(Vec2::new(0, 0)), GridPos { x: 0, y: 0 });
    assert_eq!(world_to_grid(Vec2::new(31_999, 0)), GridPos { x: 0, y: 0 });
    assert_eq!(world_to_grid(Vec2::new(32_000, 0)), GridPos { x: 1, y: 0 });
    assert_eq!(world_to_grid(Vec2::new(-32_000, 0)), GridPos { x: -1, y: 0 });
    assert_eq!(world_to_grid(Vec2::new(-31_999, 0)), GridPos { x: 0, y: 0 });
    assert_eq!(world_to_grid(Vec2::new(64_000, -128_000)), GridPos { x: 1, y: -2 });
}

#[test]
fn grid_to_world_is_cell_corner() {
    assert_eq!(grid_to_world(GridPos { x: 2, y: -3 }), Vec2::new(128_000, -192_000));
    assert_eq!(grid_to_world(GridPos { x: 0, y: 0 }), Vec2::new(0, 0));
}

#[test]
fn grid_tile_reads_the_grid() {
    let grid = vec![vec![Tile::Ground, Tile::Grass], vec![Tile::Spike, Tile::Pole]];
    assert_eq!(grid_tile(Vec2::new(0, 0), grid.clone()), Some(Tile::Ground));
    assert_eq!(grid_tile(Vec2::new(0, 64_000), grid.clone()), Some(Tile::Grass));
    assert_eq!(grid_tile(Vec2::new(64_000, 0), grid.clone()), Some(Tile::Spike));
    assert_eq!(grid_tile(Vec2::new(64_000, 64_000), grid.clone()), Some(Tile::Pole));
    assert_eq!(grid_tile(Vec2::new(-64_000, 0), grid.clone()), None);
    assert_eq!(grid_tile(Vec2::new(128_000, 0), grid), None);
}
