//! The navigation laws: what holds of every tick, proved once and for all
//! over the tick model that `hero_tick` is verified to compute.

use vstd::prelude::*;
use crate::geometry::{
    dist_sq, lemma_scale_frac_bounds, lemma_sqrt_floor, lemma_sqrt_ge_of_sq, scale_frac,
    sqrt_floor, GridPos, Vec2,
};
use crate::hero::Hero;
use crate::nav::{
    hero_events, nearest_hazard, steering, step_len, tick_model, tick_transition, FLEE_RADIUS, NEAR_RADIUS,
    PERP_RADIUS, REROLL_RADIUS, MS_PER_SECOND,
};
use crate::tile::{cell_of, tile_damage, Tile};

verus! {

/// A finished hero is left exactly as it was by a navigation update: the
/// update is a no-op, and stays one on every later tick.
pub proof fn lemma_finished_tick_is_noop(
    pre: Hero,
    post: Hero,
    hazards: Seq<Vec2>,
    pois: Seq<(GridPos, Tile)>,
    dt: int,
    fresh: u8,
)
    requires
        pre.finished(),
        tick_transition(pre, post, hazards, pois, dt, fresh),
    ensures
        post == pre,
        hero_events(pre, hazards, pois, dt, fresh) == Seq::<crate::nav::EndGameEvent>::empty(),
{
}

/// A defeated hero is likewise left untouched: defeat is terminal and
/// suppresses navigation.
pub proof fn lemma_defeated_tick_is_noop(
    pre: Hero,
    post: Hero,
    hazards: Seq<Vec2>,
    pois: Seq<(GridPos, Tile)>,
    dt: int,
    fresh: u8,
)
    requires
        pre.defeated(),
        tick_transition(pre, post, hazards, pois, dt, fresh),
    ensures
        post == pre,
        hero_events(pre, hazards, pois, dt, fresh) == Seq::<crate::nav::EndGameEvent>::empty(),
{
}

/// With no hazards the hero steers exactly along the desired direction — the
/// vector from its position to the current waypoint — takes no hazard damage,
/// and keeps its bias.
pub proof fn lemma_no_hazards_desired_direction(
    h: Hero,
    hazards: Seq<Vec2>,
    dt: int,
    fresh: u8,
)
    requires
        hazards.len() == 0,
    ensures
        ({
            let t = h.targets@[h.current_target as int];
            let st = steering(h, hazards, dt, fresh);
            st.dir_x == t.x - h.position.x && st.dir_y == t.y - h.position.y && st.damage == 0
                && st.bias == h.avoidance_bias
        }),
{
}

/// With no hazards every tick of an active hero makes progress: it either
/// arrives at the waypoint, or moves strictly closer to it (in squared
/// distance), provided the tick's step is at least two subunits.  Repeated
/// ticks therefore converge to the waypoint.
pub proof fn lemma_no_hazards_progress(
    h: Hero,
    hazards: Seq<Vec2>,
    pois: Seq<(GridPos, Tile)>,
    dt: int,
    fresh: u8,
)
    requires
        h.wf(),
        !h.finished(),
        !h.defeated(),
        hazards.len() == 0,
        step_len(h.speed as int, dt) >= 2,
    ensures
        ({
            let m = tick_model(h, hazards, pois, dt, fresh);
            let t = h.targets@[h.current_target as int];
            (m.index == h.current_target + 1 && m.pos_x == t.x && m.pos_y == t.y) || (m.pos_x
                - t.x) * (m.pos_x - t.x) + (m.pos_y - t.y) * (m.pos_y - t.y) < (h.position.x
                - t.x) * (h.position.x - t.x) + (h.position.y - t.y) * (h.position.y - t.y)
        }),
        ({
            // When the hero moves, it moves by the desired direction scaled to
            // the step length: the normalized vector toward the waypoint.
            let m = tick_model(h, hazards, pois, dt, fresh);
            let t = h.targets@[h.current_target as int];
            let dx = t.x - h.position.x;
            let dy = t.y - h.position.y;
            let norm = sqrt_floor(dx * dx + dy * dy);
            let step = step_len(h.speed as int, dt);
            m.index == h.current_target ==> m.delta_x == scale_frac(dx, step, norm) && m.delta_y
                == scale_frac(dy, step, norm)
        }),
{
    let m = tick_model(h, hazards, pois, dt, fresh);
    let t = h.targets@[h.current_target as int];
    let dx = t.x - h.position.x;
    let dy = t.y - h.position.y;
    let step = step_len(h.speed as int, dt);
    if (dx == 0 && dy == 0) || dx * dx + dy * dy < step * step {
        // Arrival branch of the model.
    } else {
        let norm_sq = dx * dx + dy * dy;
        let norm = sqrt_floor(norm_sq);
        let mx = scale_frac(dx, step, norm);
        let my = scale_frac(dy, step, norm);
        lemma_sqrt_ge_of_sq(norm_sq, step);
        lemma_sqrt_floor(norm_sq);
        lemma_scale_frac_bounds(dx, step, norm);
        lemma_scale_frac_bounds(dy, step, norm);
        // The dominant component moves by at least one subunit.
        let adx = if dx >= 0 { dx } else { -dx };
        let ady = if dy >= 0 { dy } else { -dy };
        let big = if adx >= ady { adx } else { ady };
        assert(norm * norm <= norm_sq && norm_sq <= 2 * (big * big)) by (nonlinear_arith)
            requires
                norm_sq == dx * dx + dy * dy,
                0 <= norm,
                norm * norm <= vstd::math::max(norm_sq, 0),
                0 <= norm_sq,
                adx == if dx >= 0 { dx } else { -dx },
                ady == if dy >= 0 { dy } else { -dy },
                big == if adx >= ady { adx } else { ady },
        ;
        assert(norm <= 2 * big) by (nonlinear_arith)
            requires
                0 <= norm,
                0 <= big,
                norm * norm <= 2 * (big * big),
        ;
        assert(big * step >= norm) by (nonlinear_arith)
            requires
                step >= 2,
                norm <= 2 * big,
                big >= 0,
        ;
        // A quotient of a numerator at least the denominator is at least one.
        vstd::arithmetic::div_mod::lemma_div_is_ordered(norm, big * step, norm);
        vstd::arithmetic::div_mod::lemma_div_by_self(norm);
        assert((big * step) / norm >= 1);
        if adx >= ady {
            assert(scale_frac(dx, step, norm) == if dx >= 0 {
                (adx * step) / norm
            } else {
                -((adx * step) / norm)
            }) by (nonlinear_arith)
                requires
                    adx == if dx >= 0 { dx } else { -dx },
            ;
            assert(1 <= (adx * step) / norm);
        } else {
            assert(scale_frac(dy, step, norm) == if dy >= 0 {
                (ady * step) / norm
            } else {
                -((ady * step) / norm)
            }) by (nonlinear_arith)
                requires
                    ady == if dy >= 0 { dy } else { -dy },
            ;
            assert(1 <= (ady * step) / norm);
        }
        // Each component shrinks; the dominant one shrinks strictly.
        assert((dx - mx) * (dx - mx) + (dy - my) * (dy - my) < dx * dx + dy * dy)
            by (nonlinear_arith)
            requires
                dx >= 0 ==> 0 <= mx <= dx,
                dx <= 0 ==> dx <= mx <= 0,
                dy >= 0 ==> 0 <= my <= dy,
                dy <= 0 ==> dy <= my <= 0,
                mx != 0 || my != 0,
        ;
        assert(m.pos_x - t.x == -(dx - mx) && m.pos_y - t.y == -(dy - my));
        assert((m.pos_x - t.x) * (m.pos_x - t.x) == (dx - mx) * (dx - mx) && (m.pos_y - t.y) * (
        m.pos_y - t.y) == (dy - my) * (dy - my)) by (nonlinear_arith)
            requires
                m.pos_x - t.x == -(dx - mx),
                m.pos_y - t.y == -(dy - my),
        ;
        assert((h.position.x - t.x) * (h.position.x - t.x) == dx * dx && (h.position.y - t.y) * (
        h.position.y - t.y) == dy * dy) by (nonlinear_arith)
            requires
                dx == t.x - h.position.x,
                dy == t.y - h.position.y,
        ;
    }
}

/// Within the near threshold of the nearest hazard, the damage taken is
/// exactly proportional to the shortfall below the threshold and to the time
/// step, and health strictly decreases as soon as that product reaches one
/// health subunit.
pub proof fn lemma_near_hazard_damage(
    h: Hero,
    hazards: Seq<Vec2>,
    pois: Seq<(GridPos, Tile)>,
    dt: int,
    fresh: u8,
)
    requires
        !h.finished(),
        !h.defeated(),
        hazards.len() >= 1,
        0 <= dt,
        dist_sq(h.position, hazards[nearest_hazard(hazards, h.position)]) <= NEAR_RADIUS
            * NEAR_RADIUS,
    ensures
        ({
            let q = dist_sq(h.position, hazards[nearest_hazard(hazards, h.position)]);
            let shortfall = NEAR_RADIUS - sqrt_floor(q);
            let st = steering(h, hazards, dt, fresh);
            let m = tick_model(h, hazards, pois, dt, fresh);
            st.damage == shortfall * dt / (MS_PER_SECOND as int) && m.health <= h.health_bar.current_health
                - st.damage && (shortfall * dt >= MS_PER_SECOND ==> m.health
                < h.health_bar.current_health)
        }),
{
    let j = nearest_hazard(hazards, h.position);
    let q = dist_sq(h.position, hazards[j]);
    let sx = hazards[j].x - h.position.x;
    let sy = hazards[j].y - h.position.y;
    assert(q == sx * sx + sy * sy) by (nonlinear_arith)
        requires
            q == dist_sq(h.position, hazards[j]),
            sx == hazards[j].x - h.position.x,
            sy == hazards[j].y - h.position.y,
            dist_sq(h.position, hazards[j]) == (hazards[j].x - h.position.x) * (hazards[j].x
                - h.position.x) + (hazards[j].y - h.position.y) * (hazards[j].y - h.position.y),
    ;
    let shortfall = NEAR_RADIUS - sqrt_floor(q);
    crate::geometry::lemma_sqrt_le_of_sq(q, NEAR_RADIUS as int);
    assert(shortfall * dt >= 0) by (nonlinear_arith)
        requires
            shortfall >= 0,
            dt >= 0,
    ;
    vstd::arithmetic::div_mod::lemma_div_pos_is_pos(shortfall * dt, MS_PER_SECOND as int);
    if shortfall * dt >= MS_PER_SECOND {
        vstd::arithmetic::div_mod::lemma_div_is_ordered(
            MS_PER_SECOND as int,
            shortfall * dt,
            MS_PER_SECOND as int,
        );
        vstd::arithmetic::div_mod::lemma_div_by_self(MS_PER_SECOND as int);
    }
    let hit = crate::nav::poi_hit(h, pois);
    match hit {
        Some(tile) => {
            assert(tile_damage(tile) >= 0);
        },
        None => {},
    }
}

/// Within the flight threshold the hero steers directly away from the nearest
/// hazard: the reverse of the hero-to-hazard vector, gauged by the hazard
/// distance.
pub proof fn lemma_near_hazard_flees(
    h: Hero,
    hazards: Seq<Vec2>,
    dt: int,
    fresh: u8,
)
    requires
        hazards.len() >= 1,
        dist_sq(h.position, hazards[nearest_hazard(hazards, h.position)]) <= FLEE_RADIUS
            * FLEE_RADIUS,
    ensures
        ({
            let q = dist_sq(h.position, hazards[nearest_hazard(hazards, h.position)]);
            let hz = hazards[nearest_hazard(hazards, h.position)];
            let st = steering(h, hazards, dt, fresh);
            st.dir_x == -(hz.x - h.position.x) && st.dir_y == -(hz.y - h.position.y)
                && st.gauge_sq == q && st.bias == h.avoidance_bias
        }),
{
    let j = nearest_hazard(hazards, h.position);
    let q = dist_sq(h.position, hazards[j]);
    let sx = hazards[j].x - h.position.x;
    let sy = hazards[j].y - h.position.y;
    assert(q == sx * sx + sy * sy) by (nonlinear_arith)
        requires
            q == (hazards[j].x - h.position.x) * (hazards[j].x - h.position.x) + (hazards[j].y
                - h.position.y) * (hazards[j].y - h.position.y),
            sx == hazards[j].x - h.position.x,
            sy == hazards[j].y - h.position.y,
    ;
    crate::nav::lemma_radius_squares();
}

/// Beyond the perpendicular-evasion threshold the desired direction is used
/// unmodified, no hazard damage is taken, and the bias is rerolled exactly
/// when the nearest hazard is at the reroll threshold or beyond.
pub proof fn lemma_far_hazard_no_deviation(
    h: Hero,
    hazards: Seq<Vec2>,
    dt: int,
    fresh: u8,
)
    requires
        hazards.len() >= 1,
        dist_sq(h.position, hazards[nearest_hazard(hazards, h.position)]) > PERP_RADIUS
            * PERP_RADIUS,
    ensures
        ({
            let t = h.targets@[h.current_target as int];
            let q = dist_sq(h.position, hazards[nearest_hazard(hazards, h.position)]);
            let st = steering(h, hazards, dt, fresh);
            st.dir_x == t.x - h.position.x && st.dir_y == t.y - h.position.y && st.damage == 0
                && (q >= REROLL_RADIUS * REROLL_RADIUS ==> st.bias == fresh) && (q < REROLL_RADIUS
                * REROLL_RADIUS ==> st.bias == h.avoidance_bias)
        }),
{
    let j = nearest_hazard(hazards, h.position);
    let q = dist_sq(h.position, hazards[j]);
    let sx = hazards[j].x - h.position.x;
    let sy = hazards[j].y - h.position.y;
    assert(q == sx * sx + sy * sy) by (nonlinear_arith)
        requires
            q == (hazards[j].x - h.position.x) * (hazards[j].x - h.position.x) + (hazards[j].y
                - h.position.y) * (hazards[j].y - h.position.y),
            sx == hazards[j].x - h.position.x,
            sy == hazards[j].y - h.position.y,
    ;
    crate::nav::lemma_radius_squares();
}

/// A point-of-interest effect fires at most once per hero and cell: on a
/// cell already seen, nothing is triggered, the seen set is unchanged, and
/// health changes only by hazard damage.
pub proof fn lemma_poi_fires_once(
    h: Hero,
    hazards: Seq<Vec2>,
    pois: Seq<(GridPos, Tile)>,
    dt: int,
    fresh: u8,
)
    requires
        h.seen_poi@.contains(cell_of(h.position)),
    ensures
        crate::nav::poi_hit(h, pois) is None,
        ({
            let st = steering(h, hazards, dt, fresh);
            let m = tick_model(h, hazards, pois, dt, fresh);
            m.seen == h.seen_poi@ && m.health == h.health_bar.current_health - st.damage
        }),
{
}

/// The seen set is append-only: a tick leaves it unchanged or appends the one
/// cell whose effect fired.
pub proof fn lemma_seen_append_only(
    h: Hero,
    hazards: Seq<Vec2>,
    pois: Seq<(GridPos, Tile)>,
    dt: int,
    fresh: u8,
)
    ensures
        ({
            let m = tick_model(h, hazards, pois, dt, fresh);
            m.seen == h.seen_poi@ || m.seen == h.seen_poi@.push(cell_of(h.position))
        }),
{
}

/// Health never increases: there is no healing in a navigation update, only
/// hazard and tile damage.
pub proof fn lemma_health_never_increases(
    h: Hero,
    hazards: Seq<Vec2>,
    pois: Seq<(GridPos, Tile)>,
    dt: int,
    fresh: u8,
)
    requires
        0 <= dt,
    ensures
        tick_model(h, hazards, pois, dt, fresh).health <= h.health_bar.current_health,
{
    if hazards.len() > 0 {
        let j = nearest_hazard(hazards, h.position);
        let sx = hazards[j].x - h.position.x;
        let sy = hazards[j].y - h.position.y;
        let q = sx * sx + sy * sy;
        assert(q >= 0) by (nonlinear_arith)
            requires
                q == sx * sx + sy * sy,
        ;
        if q <= NEAR_RADIUS * NEAR_RADIUS {
            let shortfall = NEAR_RADIUS - sqrt_floor(q);
            crate::geometry::lemma_sqrt_le_of_sq(q, NEAR_RADIUS as int);
            assert(shortfall * dt >= 0) by (nonlinear_arith)
                requires
                    shortfall >= 0,
                    dt >= 0,
            ;
            vstd::arithmetic::div_mod::lemma_div_pos_is_pos(shortfall * dt, MS_PER_SECOND as int);
        }
    }
    let hit = crate::nav::poi_hit(h, pois);
    match hit {
        Some(tile) => {
            assert(tile_damage(tile) >= 0);
        },
        None => {},
    }
}

/// The waypoint index only moves forward, one waypoint at a time, and never
/// past the end of the path.
pub proof fn lemma_index_monotone(
    h: Hero,
    hazards: Seq<Vec2>,
    pois: Seq<(GridPos, Tile)>,
    dt: int,
    fresh: u8,
)
    requires
        h.current_target < h.targets@.len(),
    ensures
        ({
            let m = tick_model(h, hazards, pois, dt, fresh);
            (m.index == h.current_target || m.index == h.current_target + 1) && m.index
                <= h.targets@.len()
        }),
{
}

/// A win is signalled exactly when the hero arrives at its last waypoint, and
/// the hero is then finished, so no later tick signals anything again.
pub proof fn lemma_win_once(
    h: Hero,
    hazards: Seq<Vec2>,
    pois: Seq<(GridPos, Tile)>,
    dt: int,
    fresh: u8,
)
    requires
        !h.finished(),
        !h.defeated(),
    ensures
        ({
            let m = tick_model(h, hazards, pois, dt, fresh);
            (m.win ==> m.index == h.targets@.len()) && (m.index == h.targets@.len() ==> m.win)
                && (m.win ==> m.index == h.current_target + 1)
        }),
{
    let m = tick_model(h, hazards, pois, dt, fresh);
    if m.index == h.targets@.len() {
        assert(h.current_target < h.targets@.len());
    }
}

}
