//! The per-tick navigation update.
//!
//! Each tick a hero steers toward its current waypoint, bends around or flees
//! from the nearest fire hazard, takes hazard and point-of-interest damage,
//! and either arrives at the waypoint or moves one step along the chosen
//! direction.  The whole update is stated first as a mathematical model
//! ([`tick_model`]); the executable update is proved to compute exactly that
//! model.
//!
//! Distances are compared against sharp thresholds, in subunits:
//! damage within `NEAR_RADIUS`, direct flight within `FLEE_RADIUS`,
//! perpendicular evasion within `PERP_RADIUS`, and a tie-break reroll at
//! `REROLL_RADIUS` and beyond.

use vstd::prelude::*;
use crate::geometry::{
    dist_sq, dist_sq_i64, isqrt, scale_frac, scale_frac_i64, sqrt_floor, GridPos, Vec2, SUBUNITS,
};
use crate::hero::{Hero, COORD_LIMIT, DT_LIMIT, POS_LIMIT, SPEED_LIMIT};
use crate::scene::{poi_lookup, LevelScene};
use crate::tile::{cell_of, tile_damage, world_to_grid, Tile};

verus! {

/// Within this distance of the nearest hazard a hero takes damage over time.
pub const NEAR_RADIUS: i64 = 55 * SUBUNITS;

/// Within this distance a hero flees straight away from the hazard.
pub const FLEE_RADIUS: i64 = 60 * SUBUNITS;

/// Within this distance a hero tries to slip past on a perpendicular.
pub const PERP_RADIUS: i64 = 70 * SUBUNITS;

/// At this distance and beyond, the avoidance bias is rerolled.
pub const REROLL_RADIUS: i64 = 100 * SUBUNITS;

/// Bias bytes up to this value pick the first perpendicular in a tie.
pub const BIAS_SPLIT: u8 = 128;

/// Milliseconds per second: time steps arrive in milliseconds.
pub const MS_PER_SECOND: i64 = 1000;

/// The squared radii as plain numbers, so that the thresholds order.
pub proof fn lemma_radius_squares()
    ensures
        NEAR_RADIUS * NEAR_RADIUS == 3_025_000_000,
        FLEE_RADIUS * FLEE_RADIUS == 3_600_000_000,
        PERP_RADIUS * PERP_RADIUS == 4_900_000_000,
        REROLL_RADIUS * REROLL_RADIUS == 10_000_000_000,
{
    assert(NEAR_RADIUS * NEAR_RADIUS == 3_025_000_000 && FLEE_RADIUS * FLEE_RADIUS
        == 3_600_000_000 && PERP_RADIUS * PERP_RADIUS == 4_900_000_000 && REROLL_RADIUS
        * REROLL_RADIUS == 10_000_000_000) by (nonlinear_arith)
        requires
            NEAR_RADIUS == 55_000,
            FLEE_RADIUS == 60_000,
            PERP_RADIUS == 70_000,
            REROLL_RADIUS == 100_000,
    ;
}

/// An end-of-level signal.
#[derive(Clone, Copy, Debug, PartialEq, Eq, Structural)]
pub enum EndGameEvent {
    Win,
    Loss,
}

/// What one navigation update reports back to the caller.
#[derive(Clone, Copy, Debug, PartialEq, Eq, Structural)]
pub struct TickOutcome {
    /// How far the hero moved this tick, in subunits.
    pub delta: Vec2,
    /// Whether the sprite should face left (the steered direction points in
    /// negative x).
    pub flip: bool,
    /// The hero reached the end of its path this tick.
    pub win: bool,
    /// The hero's health ran out this tick.
    pub loss: bool,
}

/// How far a hero walks in one tick, in subunits.
pub open spec fn step_len(speed: int, dt: int) -> int {
    speed * dt / (MS_PER_SECOND as int)
}

/// Index of the hazard nearest to `pos` among the first `k`, earliest wins a
/// tie.
pub open spec fn nearest_upto(hazards: Seq<Vec2>, pos: Vec2, k: int) -> int
    decreases k,
{
    if k <= 1 {
        0
    } else {
        let b = nearest_upto(hazards, pos, k - 1);
        if dist_sq(hazards[k - 1], pos) < dist_sq(hazards[b], pos) {
            k - 1
        } else {
            b
        }
    }
}

/// Index of the hazard nearest to `pos`, earliest wins a tie.
pub open spec fn nearest_hazard(hazards: Seq<Vec2>, pos: Vec2) -> int {
    nearest_upto(hazards, pos, hazards.len() as int)
}

/// The nearest hazard really is nearest, and the first such.
pub proof fn lemma_nearest_upto(hazards: Seq<Vec2>, pos: Vec2, k: int)
    requires
        1 <= k <= hazards.len(),
    ensures
        0 <= nearest_upto(hazards, pos, k) < k,
        forall|i: int|
            0 <= i < k ==> dist_sq(hazards[nearest_upto(hazards, pos, k)], pos)
                <= dist_sq(#[trigger] hazards[i], pos),
        forall|i: int|
            0 <= i < nearest_upto(hazards, pos, k) ==> dist_sq(hazards[nearest_upto(hazards, pos, k)], pos)
                < dist_sq(#[trigger] hazards[i], pos),
    decreases k,
{
    if k > 1 {
        lemma_nearest_upto(hazards, pos, k - 1);
    }
}

/// The two perpendiculars of the hero-to-hazard vector `(sx, sy)`; the one at
/// the smaller angle to the desired direction `(dx, dy)` wins, and the bias
/// byte breaks an exact tie.
pub open spec fn perp_choice(sx: int, sy: int, dx: int, dy: int, bias: u8) -> (int, int) {
    let da = sy * dx + (-sx) * dy;
    let db = (-sy) * dx + sx * dy;
    if da > db {
        (sy, -sx)
    } else if db > da {
        (-sy, sx)
    } else if bias <= BIAS_SPLIT {
        (sy, -sx)
    } else {
        (-sy, sx)
    }
}

/// The steering stage of one tick: the chosen direction, the squared length
/// the arrival test gauges it by, the hazard damage taken, and the bias after
/// any reroll.
pub ghost struct Steering {
    pub dir_x: int,
    pub dir_y: int,
    /// Squared length of the steered direction as the arrival check sees it:
    /// evasion keeps the distance-to-target gauge of the desired direction.
    pub gauge_sq: int,
    /// Hazard damage taken this tick, in health subunits.
    pub damage: int,
    /// Avoidance bias after any reroll.
    pub bias: u8,
}

/// Steering for one tick of an active hero.
pub open spec fn steering(h: Hero, hazards: Seq<Vec2>, dt: int, fresh: u8) -> Steering {
    let t = h.targets@[h.current_target as int];
    let dx = t.x - h.position.x;
    let dy = t.y - h.position.y;
    if hazards.len() == 0 {
        Steering {
            dir_x: dx,
            dir_y: dy,
            gauge_sq: dx * dx + dy * dy,
            damage: 0,
            bias: h.avoidance_bias,
        }
    } else {
        let j = nearest_hazard(hazards, h.position);
        let sx = hazards[j].x - h.position.x;
        let sy = hazards[j].y - h.position.y;
        let q = sx * sx + sy * sy;
        let damage = if q <= NEAR_RADIUS * NEAR_RADIUS {
            (NEAR_RADIUS - sqrt_floor(q)) * dt / (MS_PER_SECOND as int)
        } else {
            0
        };
        let bias = if q >= REROLL_RADIUS * REROLL_RADIUS {
            fresh
        } else {
            h.avoidance_bias
        };
        if q <= FLEE_RADIUS * FLEE_RADIUS {
            Steering { dir_x: -sx, dir_y: -sy, gauge_sq: q, damage, bias }
        } else if q <= PERP_RADIUS * PERP_RADIUS {
            let p = perp_choice(sx, sy, dx, dy, h.avoidance_bias);
            if p.0 * dx + p.1 * dy > 0 {
                Steering { dir_x: p.0, dir_y: p.1, gauge_sq: dx * dx + dy * dy, damage, bias }
            } else {
                Steering { dir_x: dx, dir_y: dy, gauge_sq: dx * dx + dy * dy, damage, bias }
            }
        } else {
            Steering { dir_x: dx, dir_y: dy, gauge_sq: dx * dx + dy * dy, damage, bias }
        }
    }
}

/// The tile triggered by an active hero this tick: the tile under the hero's
/// cell, unless that cell has been seen before.
pub open spec fn poi_hit(h: Hero, pois: Seq<(GridPos, Tile)>) -> Option<Tile> {
    let cell = cell_of(h.position);
    if h.seen_poi@.contains(cell) {
        None
    } else {
        poi_lookup(pois, cell)
    }
}

/// Everything one tick of an active hero computes.
pub ghost struct TickModel {
    pub pos_x: int,
    pub pos_y: int,
    pub index: int,
    /// Health after hazard and tile damage, in health subunits.
    pub health: int,
    pub bias: u8,
    pub seen: Seq<GridPos>,
    pub delta_x: int,
    pub delta_y: int,
    pub flip: bool,
    pub win: bool,
    pub loss: bool,
}

/// The full navigation update for an active hero (one with waypoints left and
/// health above zero): steer, take damage, trigger the tile underfoot, then
/// arrive at the waypoint or take one step toward it.
pub open spec fn tick_model(
    h: Hero,
    hazards: Seq<Vec2>,
    pois: Seq<(GridPos, Tile)>,
    dt: int,
    fresh: u8,
) -> TickModel {
    let st = steering(h, hazards, dt, fresh);
    let cell = cell_of(h.position);
    let hit = poi_hit(h, pois);
    let seen = if hit is Some {
        h.seen_poi@.push(cell)
    } else {
        h.seen_poi@
    };
    let poi_damage = match hit {
        Some(tile) => tile_damage(tile),
        None => 0,
    };
    let health = h.health_bar.current_health - st.damage - poi_damage;
    let step = step_len(h.speed as int, dt);
    let t = h.targets@[h.current_target as int];
    let flip = st.dir_x < 0;
    if (st.dir_x == 0 && st.dir_y == 0) || st.gauge_sq < step * step {
        TickModel {
            pos_x: t.x as int,
            pos_y: t.y as int,
            index: h.current_target + 1,
            health,
            bias: st.bias,
            seen,
            delta_x: t.x - h.position.x,
            delta_y: t.y - h.position.y,
            flip,
            win: h.current_target + 1 == h.targets@.len(),
            loss: health <= 0,
        }
    } else {
        let norm = sqrt_floor(st.dir_x * st.dir_x + st.dir_y * st.dir_y);
        let mx = scale_frac(st.dir_x, step, norm);
        let my = scale_frac(st.dir_y, step, norm);
        TickModel {
            pos_x: h.position.x + mx,
            pos_y: h.position.y + my,
            index: h.current_target as int,
            health,
            bias: st.bias,
            seen,
            delta_x: mx,
            delta_y: my,
            flip,
            win: false,
            loss: health <= 0,
        }
    }
}

/// How one call of the navigation update relates the hero before to the hero
/// after: finished or defeated heroes are left untouched, any other hero is
/// taken through [`tick_model`].
pub open spec fn tick_transition(
    pre: Hero,
    post: Hero,
    hazards: Seq<Vec2>,
    pois: Seq<(GridPos, Tile)>,
    dt: int,
    fresh: u8,
) -> bool {
    if pre.finished() || pre.defeated() {
        post == pre
    } else {
        let m = tick_model(pre, hazards, pois, dt, fresh);
        &&& post.targets == pre.targets
        &&& post.speed == pre.speed
        &&& post.hero_type == pre.hero_type
        &&& post.health_bar.max_health == pre.health_bar.max_health
        &&& post.position.x == m.pos_x
        &&& post.position.y == m.pos_y
        &&& post.current_target == m.index
        &&& post.health_bar.current_health == m.health
        &&& post.avoidance_bias == m.bias
        &&& post.seen_poi@ == m.seen
    }
}

/// All hazard positions lie within the coordinate bound.
pub open spec fn hazards_in_range(hazards: Seq<Vec2>) -> bool {
    forall|i: int| 0 <= i < hazards.len() ==> (#[trigger] hazards[i]).in_range(COORD_LIMIT as int)
}

/// One navigation update for one hero.
///
/// A finished or defeated hero is left untouched and gets no outcome; any
/// other hero is taken through exactly [`tick_model`]: steered, damaged, and
/// moved or advanced to the next waypoint.  `fresh_bias` is the injected
/// random byte adopted when the hero is far enough from every hazard.
#[verifier::rlimit(100)]
pub fn hero_tick(
    hero: &mut Hero,
    hazards: &Vec<Vec2>,
    scene: &LevelScene,
    dt_ms: u32,
    fresh_bias: u8,
) -> (out: Option<TickOutcome>)
    requires
        old(hero).wf(),
        hazards_in_range(hazards@),
        dt_ms <= DT_LIMIT,
    ensures
        final(hero).wf(),
        (out is None) <==> (old(hero).finished() || old(hero).defeated()),
        tick_transition(
            *old(hero),
            *final(hero),
            hazards@,
            scene.points_of_interest@,
            dt_ms as int,
            fresh_bias,
        ),
        match out {
            Some(o) => {
                let m = tick_model(
                    *old(hero),
                    hazards@,
                    scene.points_of_interest@,
                    dt_ms as int,
                    fresh_bias,
                );
                o.delta.x == m.delta_x && o.delta.y == m.delta_y && o.flip == m.flip && o.win
                    == m.win && o.loss == m.loss
            },
            None => true,
        },
{
    if hero.current_target >= hero.targets.len() || hero.health_bar.current_health <= 0 {
        return None;
    }
    let ghost st = steering(*hero, hazards@, dt_ms as int, fresh_bias);
    let ghost m = tick_model(*hero, hazards@, scene.points_of_interest@, dt_ms as int, fresh_bias);

    let pos = hero.position;
    let t = hero.target();
    let dx = t.x - pos.x;
    let dy = t.y - pos.y;
    proof {
        assert(dx * dx + dy * dy <= 200_000_000_000_000_000 && dx * dx >= 0 && dy * dy >= 0)
            by (nonlinear_arith)
            requires
                -300_000_000 <= dx <= 300_000_000,
                -300_000_000 <= dy <= 300_000_000,
        ;
    }
    let mut dir_x = dx;
    let mut dir_y = dy;
    let mut gauge_sq: i64 = dx * dx + dy * dy;
    let mut damage: i64 = 0;
    let mut new_bias = hero.avoidance_bias;

    if hazards.len() > 0 {
        let j = nearest_hazard_index(hazards, pos);
        let hz = hazards[j];
        let sx = hz.x - pos.x;
        let sy = hz.y - pos.y;
        proof {
            assert(sx * sx + sy * sy <= 200_000_000_000_000_000 && sx * sx >= 0 && sy * sy >= 0)
                by (nonlinear_arith)
                requires
                    -300_000_000 <= sx <= 300_000_000,
                    -300_000_000 <= sy <= 300_000_000,
            ;
        }
        let q: i64 = sx * sx + sy * sy;
        if q <= NEAR_RADIUS * NEAR_RADIUS {
            let l_u = isqrt(q as u64);
            proof {
                crate::geometry::lemma_sqrt_le_of_sq(q as int, NEAR_RADIUS as int);
                crate::geometry::lemma_sqrt_floor(q as int);
            }
            let l = l_u as i64;
            proof {
                assert((NEAR_RADIUS - l) * dt_ms <= 3_300_000_000 && (NEAR_RADIUS - l) * dt_ms
                    >= 0) by (nonlinear_arith)
                    requires
                        0 <= NEAR_RADIUS - l <= 55_000,
                        0 <= dt_ms <= 60_000,
                ;
            }
            damage = (((NEAR_RADIUS - l) as u64 * dt_ms as u64) / 1000) as i64;
        }
        if q >= REROLL_RADIUS * REROLL_RADIUS {
            new_bias = fresh_bias;
        }
        if q <= FLEE_RADIUS * FLEE_RADIUS {
            dir_x = -sx;
            dir_y = -sy;
            gauge_sq = q;
            proof {
                crate::geometry::lemma_component_le_norm(sx as int, sy as int);
                crate::geometry::lemma_sqrt_le_of_sq(q as int, FLEE_RADIUS as int);
            }
        } else if q <= PERP_RADIUS * PERP_RADIUS {
            let ax = sy;
            let ay = -sx;
            let bx = -sy;
            let by = sx;
            proof {
                assert(-100_000_000_000_000_000 <= ax * dx <= 100_000_000_000_000_000
                    && -100_000_000_000_000_000 <= ay * dy <= 100_000_000_000_000_000
                    && -100_000_000_000_000_000 <= bx * dx <= 100_000_000_000_000_000
                    && -100_000_000_000_000_000 <= by * dy <= 100_000_000_000_000_000)
                    by (nonlinear_arith)
                    requires
                        -300_000_000 <= dx <= 300_000_000,
                        -300_000_000 <= dy <= 300_000_000,
                        -300_000_000 <= ax <= 300_000_000,
                        -300_000_000 <= ay <= 300_000_000,
                        -300_000_000 <= bx <= 300_000_000,
                        -300_000_000 <= by <= 300_000_000,
                ;
            }
            let da = ax * dx + ay * dy;
            let db = bx * dx + by * dy;
            let px: i64;
            let py: i64;
            if da > db {
                px = ax;
                py = ay;
            } else if db > da {
                px = bx;
                py = by;
            } else if hero.avoidance_bias <= BIAS_SPLIT {
                px = ax;
                py = ay;
            } else {
                px = bx;
                py = by;
            }
            if px * dx + py * dy > 0 {
                dir_x = px;
                dir_y = py;
                proof {
                    crate::geometry::lemma_component_le_norm(sx as int, sy as int);
                    crate::geometry::lemma_sqrt_le_of_sq(q as int, PERP_RADIUS as int);
                }
            }
        }
    }
    proof {
        assert(dir_x == st.dir_x && dir_y == st.dir_y && gauge_sq == st.gauge_sq && damage
            == st.damage && new_bias == st.bias);
        assert((dir_x == dx && dir_y == dy && gauge_sq == dx * dx + dy * dy) || (-(COORD_LIMIT
            + PERP_RADIUS) <= pos.x <= COORD_LIMIT + PERP_RADIUS && -(COORD_LIMIT + PERP_RADIUS)
            <= pos.y <= COORD_LIMIT + PERP_RADIUS));
    }

    // Point of interest under the hero's feet.
    let cell = world_to_grid(pos);
    let mut poi_damage: i64 = 0;
    if !hero.has_seen(cell) {
        if let Some(tile) = scene.poi_at(cell) {
            poi_damage = tile.damage();
            proof {
                assert forall|k: int| 0 <= k < hero.seen_poi@.len() implies hero.seen_poi@[k]
                    != cell by {
                    if hero.seen_poi@[k] == cell {
                        assert(hero.seen_poi@.contains(cell));
                    }
                }
            }
            hero.seen_poi.push(cell);
        }
    }
    proof {
        assert(hero.seen_poi@ == m.seen && poi_damage + damage
            == old(hero).health_bar.current_health - m.health);
    }

    hero.health_bar.current_health = hero.health_bar.current_health - damage - poi_damage;
    hero.avoidance_bias = new_bias;

    // Step length for this tick.
    proof {
        assert(hero.speed * dt_ms <= 60_000_000_000 && hero.speed * dt_ms >= 0)
            by (nonlinear_arith)
            requires
                0 <= hero.speed <= SPEED_LIMIT,
                0 <= dt_ms <= DT_LIMIT,
        ;
    }
    let step_u: u64 = (hero.speed as u64 * dt_ms as u64) / 1000;
    let step: i64 = step_u as i64;
    proof {
        assert(step * step <= 3_600_000_000_000_000 && step * step >= 0) by (nonlinear_arith)
            requires
                0 <= step <= 60_000_000,
        ;
        assert(step == step_len(old(hero).speed as int, dt_ms as int));
    }
    let step_sq: i64 = step * step;

    if (dir_x == 0 && dir_y == 0) || gauge_sq < step_sq {
        // Arrived: snap to the waypoint and advance.
        let delta = Vec2 { x: t.x - pos.x, y: t.y - pos.y };
        hero.position = t;
        hero.current_target = hero.current_target + 1;
        let win = hero.current_target == hero.targets.len();
        let loss = hero.health_bar.current_health <= 0;
        Some(TickOutcome { delta, flip: dir_x < 0, win, loss })
    } else {
        // Move one step along the steered direction.
        proof {
            assert(dir_x * dir_x + dir_y * dir_y <= 200_000_000_000_000_000 && dir_x * dir_x >= 0
                && dir_y * dir_y >= 0 && (dir_x != 0 || dir_y != 0 ==> dir_x * dir_x + dir_y
                * dir_y >= 1)) by (nonlinear_arith)
                requires
                    -300_000_000 <= dir_x <= 300_000_000,
                    -300_000_000 <= dir_y <= 300_000_000,
            ;
        }
        let norm_sq: i64 = dir_x * dir_x + dir_y * dir_y;
        proof {
            crate::geometry::lemma_sqrt_ge_of_sq(norm_sq as int, 1);
        }
        let norm: u64 = isqrt(norm_sq as u64);
        proof {
            crate::geometry::lemma_component_le_norm(dir_x as int, dir_y as int);
            crate::geometry::lemma_sqrt_le_of_sq(norm_sq as int, 450_000_000);
            crate::geometry::lemma_scale_frac_bounds(dir_x as int, step_u as int, norm as int);
            crate::geometry::lemma_scale_frac_bounds(dir_y as int, step_u as int, norm as int);
            if dir_x == dx && dir_y == dy && gauge_sq == dx * dx + dy * dy {
                crate::geometry::lemma_sqrt_ge_of_sq(norm_sq as int, step as int);
            }
        }
        let mx = scale_frac_i64(dir_x, step_u, norm);
        let my = scale_frac_i64(dir_y, step_u, norm);
        hero.position = Vec2 { x: pos.x + mx, y: pos.y + my };
        let loss = hero.health_bar.current_health <= 0;
        Some(TickOutcome { delta: Vec2 { x: mx, y: my }, flip: dir_x < 0, win: false, loss })
    }
}

/// The end-of-level signals one hero's tick emits: a win on finishing the
/// path, a loss on running out of health, in that order.
pub open spec fn hero_events(
    h: Hero,
    hazards: Seq<Vec2>,
    pois: Seq<(GridPos, Tile)>,
    dt: int,
    fresh: u8,
) -> Seq<EndGameEvent> {
    if h.finished() || h.defeated() {
        Seq::empty()
    } else {
        let m = tick_model(h, hazards, pois, dt, fresh);
        (if m.win {
            seq![EndGameEvent::Win]
        } else {
            Seq::empty()
        }) + (if m.loss {
            seq![EndGameEvent::Loss]
        } else {
            Seq::empty()
        })
    }
}

/// The signals of the first `k` heroes' ticks, in hero order.
pub open spec fn events_upto(
    heroes: Seq<Hero>,
    hazards: Seq<Vec2>,
    pois: Seq<(GridPos, Tile)>,
    dt: int,
    biases: Seq<u8>,
    k: int,
) -> Seq<EndGameEvent>
    decreases k,
{
    if k <= 0 {
        Seq::empty()
    } else {
        events_upto(heroes, hazards, pois, dt, biases, k - 1) + hero_events(
            heroes[k - 1],
            hazards,
            pois,
            dt,
            biases[k - 1],
        )
    }
}

/// One navigation pass over every hero: each hero's tick in order, with its
/// own injected bias byte, collecting the end-of-level signals.
pub fn move_heros(
    heroes: &mut Vec<Hero>,
    hazards: &Vec<Vec2>,
    scene: &LevelScene,
    dt_ms: u32,
    biases: &Vec<u8>,
) -> (events: Vec<EndGameEvent>)
    requires
        forall|i: int| 0 <= i < old(heroes)@.len() ==> (#[trigger] old(heroes)@[i]).wf(),
        hazards_in_range(hazards@),
        dt_ms <= DT_LIMIT,
        biases@.len() == old(heroes)@.len(),
    ensures
        final(heroes)@.len() == old(heroes)@.len(),
        forall|i: int| 0 <= i < old(heroes)@.len() ==> (#[trigger] final(heroes)@[i]).wf(),
        forall|i: int|
            0 <= i < old(heroes)@.len() ==> tick_transition(
                old(heroes)@[i],
                #[trigger] final(heroes)@[i],
                hazards@,
                scene.points_of_interest@,
                dt_ms as int,
                biases@[i],
            ),
        events@ == events_upto(
            old(heroes)@,
            hazards@,
            scene.points_of_interest@,
            dt_ms as int,
            biases@,
            old(heroes)@.len() as int,
        ),
{
    let mut events: Vec<EndGameEvent> = Vec::new();
    let n = heroes.len();
    for i in 0..n
        invariant
            n == heroes@.len(),
            heroes@.len() == old(heroes)@.len(),
            biases@.len() == old(heroes)@.len(),
            hazards_in_range(hazards@),
            dt_ms <= DT_LIMIT,
            forall|k: int| i <= k < n ==> heroes@[k] == old(heroes)@[k],
            forall|k: int| 0 <= k < n ==> (#[trigger] heroes@[k]).wf(),
            forall|k: int|
                0 <= k < i ==> tick_transition(
                    old(heroes)@[k],
                    #[trigger] heroes@[k],
                    hazards@,
                    scene.points_of_interest@,
                    dt_ms as int,
                    biases@[k],
                ),
            events@ == events_upto(
                old(heroes)@,
                hazards@,
                scene.points_of_interest@,
                dt_ms as int,
                biases@,
                i as int,
            ),
    {
        let ghost pre = heroes@[i as int];
        let out = hero_tick(&mut heroes[i], hazards, scene, dt_ms, biases[i]);
        let ghost evs = hero_events(
            pre,
            hazards@,
            scene.points_of_interest@,
            dt_ms as int,
            biases@[i as int],
        );
        match out {
            None => {
                proof {
                    assert(evs =~= Seq::<EndGameEvent>::empty());
                    assert(events@ =~= events_upto(
                        old(heroes)@,
                        hazards@,
                        scene.points_of_interest@,
                        dt_ms as int,
                        biases@,
                        i + 1,
                    ));
                }
            },
            Some(o) => {
                if o.win {
                    events.push(EndGameEvent::Win);
                }
                if o.loss {
                    events.push(EndGameEvent::Loss);
                }
                proof {
                    assert(events@ =~= events_upto(
                        old(heroes)@,
                        hazards@,
                        scene.points_of_interest@,
                        dt_ms as int,
                        biases@,
                        i + 1,
                    ));
                }
            },
        }
    }
    events
}

/// Index of the hazard nearest to `pos`, computed.
fn nearest_hazard_index(hazards: &Vec<Vec2>, pos: Vec2) -> (j: usize)
    requires
        hazards@.len() >= 1,
        hazards_in_range(hazards@),
        pos.in_range(POS_LIMIT as int),
    ensures
        j == nearest_hazard(hazards@, pos),
        j < hazards@.len(),
{
    let mut best: usize = 0;
    let mut best_d: i64 = dist_sq_i64(hazards[0], pos);
    let n = hazards.len();
    for i in 1..n
        invariant
            n == hazards@.len(),
            hazards_in_range(hazards@),
            pos.in_range(POS_LIMIT as int),
            best < i,
            best == nearest_upto(hazards@, pos, i as int),
            best_d == dist_sq(hazards@[best as int], pos),
    {
        let d = dist_sq_i64(hazards[i], pos);
        if d < best_d {
            best = i;
            best_d = d;
        }
    }
    best
}

}
