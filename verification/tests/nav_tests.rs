use hero_nav::geometry::Vec2;
use hero_nav::geometry::GridPos;
use hero_nav::hero::{Hero, HeroType};
use hero_nav::nav::{hero_tick, move_heros, EndGameEvent};
use hero_nav::rng::roll_biases;
use hero_nav::scene::LevelScene;
use hero_nav::tile::Tile;

fn empty_scene() -> LevelScene {
    LevelScene {
        level_name: String::new(),
        background_texture: String::new(),
        music: String::new(),
        heros: Vec::new(),
        points_of_interest: Vec::new(),
        level: 0,
    }
}

fn scene_with(pois: Vec<(GridPos, Tile)>) -> LevelScene {
    LevelScene { points_of_interest: pois, ..empty_scene() }
}

// Hero at (0,0), target 100 units east, speed 50, dt 1.0 s, no hazards:
// moves to (50,0), does not arrive, faces right.
#[test]
fn straight_walk_half_way() {
    let mut h = Hero::new(
        vec![Vec2::new(100_000, 0)],
        Vec2::new(0, 0),
        50_000,
        HeroType::JohnHeron,
        100_000,
    );
    let hazards: Vec<Vec2> = Vec::new();
    let out = hero_tick(&mut h, &hazards, &empty_scene(), 1000, 7).unwrap();
    assert_eq!(h.position, Vec2::new(50_000, 0));
    assert_eq!(out.delta, Vec2::new(50_000, 0));
    assert_eq!(h.current_target, 0);
    assert!(!out.flip);
    assert!(!out.win);
    assert!(!out.loss);
    assert_eq!(h.health_bar.current_health, 100_000);
}

// Hero with health 40, hazard at distance 50 (inside the near threshold 55),
// dt 1.0 s: damage (55-50)*1.0 = 5, health becomes 35; the hero flees away.
#[test]
fn near_hazard_damage_and_flight() {
    let mut h = Hero::new(
        vec![Vec2::new(200_000, 0)],
        Vec2::new(0, 0),
        50_000,
        HeroType::JohnHeron,
        40_000,
    );
    let hazards = vec![Vec2::new(50_000, 0)];
    let out = hero_tick(&mut h, &hazards, &empty_scene(), 1000, 7).unwrap();
    assert_eq!(h.health_bar.current_health, 35_000);
    // Flees straight away from the hazard: one full step west.
    assert_eq!(h.position, Vec2::new(-50_000, 0));
    assert!(out.flip);
    assert!(!out.loss);
}

// Only the nearest hazard acts; damage does not stack.
#[test]
fn only_nearest_hazard_counts() {
    let mut h = Hero::new(
        vec![Vec2::new(200_000, 0)],
        Vec2::new(0, 0),
        50_000,
        HeroType::JohnHeron,
        40_000,
    );
    let hazards = vec![Vec2::new(200_000, 0), Vec2::new(50_000, 0), Vec2::new(0, 54_000)];
    let out = hero_tick(&mut h, &hazards, &empty_scene(), 1000, 7).unwrap();
    // Nearest is at distance 50 units; damage is 5 points, once.
    assert_eq!(h.health_bar.current_health, 35_000);
    assert!(!out.win);
}

// Hero reaching the last waypoint wins exactly once; later ticks are no-ops.
#[test]
fn win_emitted_exactly_once() {
    let mut h = Hero::new(
        vec![Vec2::new(10_000, 0)],
        Vec2::new(0, 0),
        20_000,
        HeroType::RerinGuard,
        100_000,
    );
    let hazards: Vec<Vec2> = Vec::new();
    let out = hero_tick(&mut h, &hazards, &empty_scene(), 1000, 7).unwrap();
    assert!(out.win);
    assert_eq!(h.position, Vec2::new(10_000, 0));
    assert_eq!(h.current_target, 1);
    let again = hero_tick(&mut h, &hazards, &empty_scene(), 1000, 7);
    assert!(again.is_none());
    assert_eq!(h.position, Vec2::new(10_000, 0));
    assert_eq!(h.current_target, 1);
}

// A hero whose waypoint index equals the path length gets no update at all.
#[test]
fn finished_hero_is_untouched() {
    let mut h = Hero::new(Vec::new(), Vec2::new(5_000, 5_000), 10_000, HeroType::JohnHeron, 1_000);
    let hazards = vec![Vec2::new(5_000, 5_000)];
    let before = h.clone();
    let out = hero_tick(&mut h, &hazards, &empty_scene(), 1000, 200);
    assert!(out.is_none());
    assert_eq!(h, before);
}

// A defeated hero gets no update either.
#[test]
fn defeated_hero_is_untouched() {
    let mut h = Hero::new(
        vec![Vec2::new(100_000, 0)],
        Vec2::new(0, 0),
        10_000,
        HeroType::JohnHeron,
        1_000,
    );
    h.health_bar.current_health = 0;
    let before = h.clone();
    let out = hero_tick(&mut h, &Vec::new(), &empty_scene(), 1000, 0);
    assert!(out.is_none());
    assert_eq!(h, before);
}

// A hazard exactly at the far (reroll) boundary of 100 units: the desired
// direction is kept unmodified, no damage is taken, and the bias is rerolled.
#[test]
fn far_boundary_no_deviation_and_reroll() {
    let mut h = Hero::new(
        vec![Vec2::new(200_000, 0)],
        Vec2::new(0, 0),
        50_000,
        HeroType::JohnHeron,
        40_000,
    );
    h.avoidance_bias = 3;
    let hazards = vec![Vec2::new(0, 100_000)];
    let out = hero_tick(&mut h, &hazards, &empty_scene(), 1000, 99).unwrap();
    assert_eq!(h.position, Vec2::new(50_000, 0));
    assert_eq!(h.health_bar.current_health, 40_000);
    assert_eq!(h.avoidance_bias, 99);
    assert!(!out.flip);
}

// Just inside the reroll boundary the bias is kept.
#[test]
fn inside_reroll_boundary_keeps_bias() {
    let mut h = Hero::new(
        vec![Vec2::new(200_000, 0)],
        Vec2::new(0, 0),
        50_000,
        HeroType::JohnHeron,
        40_000,
    );
    h.avoidance_bias = 3;
    let hazards = vec![Vec2::new(0, 99_999)];
    hero_tick(&mut h, &hazards, &empty_scene(), 1000, 99).unwrap();
    assert_eq!(h.avoidance_bias, 3);
    assert_eq!(h.position, Vec2::new(50_000, 0));
}

// A hazard exactly at the perpendicular threshold of 70 units straight toward
// the target: both perpendiculars sit at a right angle to the desired
// direction, so the hero keeps walking straight at the hazard.
#[test]
fn perp_boundary_right_angle_keeps_course() {
    let mut h = Hero::new(
        vec![Vec2::new(100_000, 0)],
        Vec2::new(0, 0),
        10_000,
        HeroType::JohnHeron,
        40_000,
    );
    let hazards = vec![Vec2::new(70_000, 0)];
    hero_tick(&mut h, &hazards, &empty_scene(), 1000, 7).unwrap();
    assert_eq!(h.position, Vec2::new(10_000, 0));
    assert_eq!(h.health_bar.current_health, 40_000);
}

// In the evasion band the hero slips sideways along the perpendicular closer
// to its desired direction.
#[test]
fn perp_band_deviates_sideways() {
    let mut h = Hero::new(
        vec![Vec2::new(100_000, 100_000)],
        Vec2::new(0, 0),
        10_000,
        HeroType::JohnHeron,
        40_000,
    );
    let hazards = vec![Vec2::new(65_000, 0)];
    let out = hero_tick(&mut h, &hazards, &empty_scene(), 1000, 7).unwrap();
    // The chosen perpendicular points straight up; one full step north.
    assert_eq!(h.position, Vec2::new(0, 10_000));
    assert_eq!(out.delta, Vec2::new(0, 10_000));
    assert_eq!(h.health_bar.current_health, 40_000);
}

// A hazard at exactly 55 units: still the flee branch, but the damage
// shortfall is zero.
#[test]
fn near_boundary_is_damage_free() {
    let mut h = Hero::new(
        vec![Vec2::new(200_000, 0)],
        Vec2::new(0, 0),
        10_000,
        HeroType::JohnHeron,
        40_000,
    );
    let hazards = vec![Vec2::new(55_000, 0)];
    let out = hero_tick(&mut h, &hazards, &empty_scene(), 1000, 7).unwrap();
    assert_eq!(h.health_bar.current_health, 40_000);
    assert_eq!(h.position, Vec2::new(-10_000, 0));
    assert!(out.flip);
}

// A hazard at exactly 60 units still triggers direct flight.
#[test]
fn flee_boundary_is_inclusive() {
    let mut h = Hero::new(
        vec![Vec2::new(200_000, 0)],
        Vec2::new(0, 0),
        10_000,
        HeroType::JohnHeron,
        40_000,
    );
    let hazards = vec![Vec2::new(60_000, 0)];
    hero_tick(&mut h, &hazards, &empty_scene(), 1000, 7).unwrap();
    assert_eq!(h.position, Vec2::new(-10_000, 0));
    assert_eq!(h.health_bar.current_health, 40_000);
}

// Just past 60 units the hero no longer flees; with the hazard dead ahead the
// perpendiculars are at right angles, so it keeps its course.
#[test]
fn past_flee_boundary_keeps_course_head_on() {
    let mut h = Hero::new(
        vec![Vec2::new(200_000, 0)],
        Vec2::new(0, 0),
        10_000,
        HeroType::JohnHeron,
        40_000,
    );
    let hazards = vec![Vec2::new(60_001, 0)];
    hero_tick(&mut h, &hazards, &empty_scene(), 1000, 7).unwrap();
    assert_eq!(h.position, Vec2::new(10_000, 0));
}

// A hazard a touch over 60 units and off the axis: the hero slips along the
// perpendicular that agrees with its desired direction.
#[test]
fn perp_band_exact_deviation() {
    let mut h = Hero::new(
        vec![Vec2::new(200_000, 0)],
        Vec2::new(0, 0),
        10_000,
        HeroType::JohnHeron,
        40_000,
    );
    let hazards = vec![Vec2::new(42_000, 43_000)];
    let out = hero_tick(&mut h, &hazards, &empty_scene(), 1000, 7).unwrap();
    // dir = (43_000, -42_000), |dir| floor = 60_108, step = 10_000.
    assert_eq!(h.position, Vec2::new(7_153, -6_987));
    assert_eq!(out.delta, Vec2::new(7_153, -6_987));
    assert!(!out.flip);
}

// Sub-second ticks damage in exact proportion.
#[test]
fn damage_scales_with_dt() {
    let mut h = Hero::new(
        vec![Vec2::new(200_000, 0)],
        Vec2::new(0, 0),
        10_000,
        HeroType::JohnHeron,
        40_000,
    );
    let hazards = vec![Vec2::new(54_000, 0)];
    hero_tick(&mut h, &hazards, &empty_scene(), 100, 7).unwrap();
    // (55 - 54) units shortfall over 0.1 s: a tenth of a health point.
    assert_eq!(h.health_bar.current_health, 39_900);
}

// A spike tile fires once: the second visit to the same cell costs nothing.
#[test]
fn spike_tile_fires_once_per_cell() {
    let scene = scene_with(vec![(GridPos { x: 0, y: 0 }, Tile::Spike)]);
    let mut h = Hero::new(
        vec![Vec2::new(100_000, 0)],
        Vec2::new(0, 0),
        1_000,
        HeroType::JohnHeron,
        100_000,
    );
    hero_tick(&mut h, &Vec::new(), &scene, 1000, 7).unwrap();
    assert_eq!(h.health_bar.current_health, 60_000);
    assert_eq!(h.seen_poi, vec![GridPos { x: 0, y: 0 }]);
    // Still in cell (0,0) after a one-unit step.
    hero_tick(&mut h, &Vec::new(), &scene, 1000, 7).unwrap();
    assert_eq!(h.health_bar.current_health, 60_000);
    assert_eq!(h.seen_poi, vec![GridPos { x: 0, y: 0 }]);
}

// Scenery tiles mark the cell seen but deal no damage.
#[test]
fn grass_tile_is_harmless() {
    let scene = scene_with(vec![(GridPos { x: 0, y: 0 }, Tile::Grass)]);
    let mut h = Hero::new(
        vec![Vec2::new(100_000, 0)],
        Vec2::new(0, 0),
        1_000,
        HeroType::JohnHeron,
        100_000,
    );
    hero_tick(&mut h, &Vec::new(), &scene, 1000, 7).unwrap();
    assert_eq!(h.health_bar.current_health, 100_000);
    assert_eq!(h.seen_poi, vec![GridPos { x: 0, y: 0 }]);
}

// Arriving on a spike with little health left: the tick reports both the win
// and the loss.
#[test]
fn win_and_loss_in_same_tick() {
    let scene = scene_with(vec![(GridPos { x: 1, y: 0 }, Tile::Spike)]);
    let mut h = Hero::new(
        vec![Vec2::new(64_000, 0)],
        Vec2::new(60_000, 0),
        10_000,
        HeroType::JohnHeron,
        1_000,
    );
    let out = hero_tick(&mut h, &Vec::new(), &scene, 1000, 7).unwrap();
    assert!(out.win);
    assert!(out.loss);
    assert_eq!(h.health_bar.current_health, -39_000);
}

// The whole-roster pass: per-hero events come out in hero order.
#[test]
fn move_heros_collects_events_in_order() {
    let winner = Hero::new(
        vec![Vec2::new(10_000, 0)],
        Vec2::new(0, 0),
        20_000,
        HeroType::JohnHeron,
        100_000,
    );
    let walker = Hero::new(
        vec![Vec2::new(100_000, 0)],
        Vec2::new(0, 0),
        10_000,
        HeroType::RerinGuard,
        100_000,
    );
    let mut heroes = vec![winner, walker];
    let biases = roll_biases(2);
    assert_eq!(biases.len(), 2);
    let events = move_heros(&mut heroes, &Vec::new(), &empty_scene(), 1000, &biases);
    assert_eq!(events, vec![EndGameEvent::Win]);
    assert_eq!(heroes[0].current_target, 1);
    assert_eq!(heroes[1].position, Vec2::new(10_000, 0));
}

// Repeated ticks with no hazards converge on the waypoint.
#[test]
fn straight_walk_converges() {
    let mut h = Hero::new(
        vec![Vec2::new(33_000, 44_000)],
        Vec2::new(0, 0),
        10_000,
        HeroType::JohnHeron,
        100_000,
    );
    let mut arrived = false;
    for _ in 0..20 {
        if let Some(out) = hero_tick(&mut h, &Vec::new(), &empty_scene(), 1000, 7) {
            if out.win {
                arrived = true;
            }
        }
    }
    assert!(arrived);
    assert_eq!(h.position, Vec2::new(33_000, 44_000));
}

// A hero standing exactly on its waypoint counts as arrived even when the
// step would be zero.
#[test]
fn zero_direction_counts_as_arrival() {
    let mut h = Hero::new(
        vec![Vec2::new(5_000, 5_000)],
        Vec2::new(5_000, 5_000),
        0,
        HeroType::JohnHeron,
        100_000,
    );
    let out = hero_tick(&mut h, &Vec::new(), &empty_scene(), 1000, 7).unwrap();
    assert!(out.win);
    assert_eq!(h.current_target, 1);
}
