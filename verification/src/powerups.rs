//! Power-up stage: falling power-ups, their paddle collisions and
//! effects, the countdown timers, and expiry.

use vstd::prelude::*;

use crate::components::{
    balls_wf, powerups_wf, timers_distinct, ActivePowerUps, Ball, BallSpeedModifier, Paddle,
    PaddleState, PowerUp, PowerUpTimer, PowerUpType, COS_30_MILLI, DT_LIMIT, PADDLE_HEIGHT,
    PADDLE_WIDTH, PADDLE_Y, POWERUP_DEATH_Y, POWERUP_DURATION_MS, POWERUP_FALL_SPEED,
    POWERUP_SIZE, SIN_30_MILLI, SLOW_BALL_MULTIPLIER, VEL_LIMIT, WIDER_PADDLE_WIDTH,
};
use crate::geometry::{aabb_side, clamp_val, tdiv, tdiv64, Vec2i, COORD_LIMIT};

verus! {

/// Where a falling power-up ends up after one frame: straight down by the
/// shared fall speed times the elapsed seconds, kept inside the
/// coordinate bound.
pub open spec fn powerup_fallen_y(y: int, dt_ms: int) -> int {
    clamp_val(y - POWERUP_FALL_SPEED * dt_ms / 1000, -COORD_LIMIT as int, COORD_LIMIT as int)
}

/// Moves every power-up downward at the shared constant fall speed.
pub fn move_powerups(powerups: &mut Vec<PowerUp>, dt_ms: u64)
    requires
        powerups_wf(old(powerups)@),
        dt_ms <= DT_LIMIT,
    ensures
        final(powerups)@.len() == old(powerups)@.len(),
        forall|i: int|
            0 <= i < final(powerups)@.len() ==> {
                let op = #[trigger] old(powerups)@[i];
                &&& final(powerups)@[i].power_type == op.power_type
                &&& final(powerups)@[i].pos.x == op.pos.x
                &&& final(powerups)@[i].pos.y == powerup_fallen_y(op.pos.y as int, dt_ms as int)
            },
        powerups_wf(final(powerups)@),
{
    let step = POWERUP_FALL_SPEED * (dt_ms as i64) / 1000;
    let mut i: usize = 0;
    while i < powerups.len()
        invariant
            i <= powerups@.len(),
            powerups@.len() == old(powerups)@.len(),
            dt_ms <= DT_LIMIT,
            step == POWERUP_FALL_SPEED * dt_ms as int / 1000,
            powerups_wf(old(powerups)@),
            forall|j: int| i <= j < powerups@.len() ==> powerups@[j] == #[trigger] old(powerups)@[j],
            forall|j: int|
                0 <= j < i ==> {
                    let op = #[trigger] old(powerups)@[j];
                    &&& powerups@[j].power_type == op.power_type
                    &&& powerups@[j].pos.x == op.pos.x
                    &&& powerups@[j].pos.y == powerup_fallen_y(op.pos.y as int, dt_ms as int)
                },
            powerups_wf(powerups@),
        decreases powerups@.len() - i,
    {
        let p = powerups[i];
        let raw = p.pos.y - step;
        let ny = if raw < -COORD_LIMIT {
            -COORD_LIMIT
        } else if raw > COORD_LIMIT {
            COORD_LIMIT
        } else {
            raw
        };
        powerups[i] = PowerUp { pos: Vec2i { x: p.pos.x, y: ny }, power_type: p.power_type };
        i = i + 1;
    }
}

/// A power-up stays on the field while it is above the power-up death
/// line.
pub open spec fn powerup_alive(p: PowerUp) -> bool {
    p.pos.y >= POWERUP_DEATH_Y
}

/// Despawns every power-up that has fallen below the death line, with no
/// other effect; the survivors keep their order.
pub fn despawn_powerups_out_of_bounds(powerups: &mut Vec<PowerUp>)
    ensures
        final(powerups)@ == old(powerups)@.filter(|p: PowerUp| powerup_alive(p)),
        powerups_wf(old(powerups)@) ==> powerups_wf(final(powerups)@),
{
    let mut kept: Vec<PowerUp> = Vec::new();
    let mut i: usize = 0;
    while i < powerups.len()
        invariant
            i <= powerups@.len(),
            powerups@ == old(powerups)@,
            kept@ == powerups@.take(i as int).filter(|p: PowerUp| powerup_alive(p)),
            powerups_wf(powerups@) ==> powerups_wf(kept@),
        decreases powerups@.len() - i,
    {
        let p = powerups[i];
        proof {
            assert(powerups@.take(i + 1).drop_last() =~= powerups@.take(i as int));
            assert(powerups@.take(i + 1).last() == powerups@[i as int]);
            reveal_with_fuel(Seq::filter, 2);
        }
        if p.pos.y >= POWERUP_DEATH_Y {
            kept.push(p);
        }
        i = i + 1;
    }
    proof {
        assert(powerups@.take(powerups@.len() as int) =~= powerups@);
    }
    *powerups = kept;
}

/// Drops a new power-up of the given type at the given position; it
/// starts falling from there.
pub fn spawn_powerup(powerups: &mut Vec<PowerUp>, position: Vec2i, power_type: PowerUpType)
    ensures
        final(powerups)@ == old(powerups)@.push(PowerUp { pos: position, power_type }),
{
    powerups.push(PowerUp { pos: position, power_type });
}

/// Which power-up a roll of the die yields: the range of a thousand is
/// split roughly in three, with the low third giving multi-ball, the
/// middle third the wider paddle, and the rest the slow ball.
pub open spec fn powerup_of_roll(roll: u32) -> PowerUpType {
    let m = roll as int % 1000;
    if m < 330 {
        PowerUpType::MultiBall
    } else if m < 660 {
        PowerUpType::WiderPaddle
    } else {
        PowerUpType::SlowBall
    }
}

/// Maps a raw roll to its power-up type.
pub fn classify_powerup_roll(roll: u32) -> (t: PowerUpType)
    ensures
        t == powerup_of_roll(roll),
{
    let m = roll % 1000;
    if m < 330 {
        PowerUpType::MultiBall
    } else if m < 660 {
        PowerUpType::WiderPaddle
    } else {
        PowerUpType::SlowBall
    }
}

/// Relies on rand::random: a uniformly drawn `u32` from the thread-local
/// generator. Nothing can be promised of the value.
#[verifier::external_body]
fn random_u32() -> u32 {
    rand::random::<u32>()
}

/// Draws a random power-up type. Whatever the draw, the result is the
/// classification of some roll.
pub fn random_powerup_type() -> (t: PowerUpType)
    ensures
        exists|roll: u32| t == powerup_of_roll(roll),
{
    let roll = random_u32();
    let t = classify_powerup_roll(roll);
    proof {
        assert(t == powerup_of_roll(roll));
    }
    t
}

/// One timer after a tick: the elapsed time comes off the countdown,
/// saturating at zero.
pub open spec fn ticked(t: PowerUpTimer, dt_ms: int) -> PowerUpTimer {
    PowerUpTimer {
        power_type: t.power_type,
        remaining_ms: (if t.remaining_ms <= dt_ms {
            0
        } else {
            t.remaining_ms - dt_ms
        }) as u64,
    }
}

/// Whether this tick finishes the timer: it was still running and the
/// elapsed time uses it up. A timer fires at most once.
pub open spec fn fires(t: PowerUpTimer, dt_ms: int) -> bool {
    t.remaining_ms > 0 && t.remaining_ms <= dt_ms
}

/// The timer list after a tick: every entry counts down once, and the
/// entries that finished this tick leave the list, the rest keeping their
/// order.
pub open spec fn ticked_timers(ts: Seq<PowerUpTimer>, dt_ms: int) -> Seq<PowerUpTimer>
    decreases ts.len(),
{
    if ts.len() == 0 {
        Seq::empty()
    } else {
        let rest = ticked_timers(ts.drop_first(), dt_ms);
        if fires(ts[0], dt_ms) {
            rest
        } else {
            seq![ticked(ts[0], dt_ms)] + rest
        }
    }
}

/// Whether some entry of the given type fires this tick.
pub open spec fn any_fires(ts: Seq<PowerUpTimer>, pt: PowerUpType, dt_ms: int) -> bool {
    exists|i: int| 0 <= i < ts.len() && fires(#[trigger] ts[i], dt_ms) && ts[i].power_type == pt
}

/// Every surviving entry of a ticked list is a ticked original entry, so
/// distinctness of types carries over.
proof fn lemma_ticked_timers_distinct(ts: Seq<PowerUpTimer>, dt_ms: int)
    requires
        timers_distinct(ts),
    ensures
        timers_distinct(ticked_timers(ts, dt_ms)),
        forall|i: int|
            0 <= i < ticked_timers(ts, dt_ms).len() ==> exists|j: int|
                0 <= j < ts.len() && #[trigger] ticked_timers(ts, dt_ms)[i] == ticked(
                    ts[j],
                    dt_ms,
                ),
    decreases ts.len(),
{
    if ts.len() > 0 {
        assert(forall|i: int|
            0 <= i < ts.drop_first().len() ==> #[trigger] ts.drop_first()[i] == ts[i + 1]);
        lemma_ticked_timers_distinct(ts.drop_first(), dt_ms);
        let rest = ticked_timers(ts.drop_first(), dt_ms);
        if !fires(ts[0], dt_ms) {
            let whole = seq![ticked(ts[0], dt_ms)] + rest;
            assert(forall|i: int| 0 <= i < rest.len() ==> whole[i + 1] == #[trigger] rest[i]);
            assert forall|i: int, j: int| 0 <= i < j < whole.len() implies whole[i].power_type
                != whole[j].power_type by {
                if i == 0 {
                    let rj = whole[j];
                    assert(rest[j - 1] == rj);
                    let w = choose|w: int|
                        0 <= w < ts.drop_first().len() && rest[j - 1] == ticked(
                            ts.drop_first()[w],
                            dt_ms,
                        );
                    assert(ts.drop_first()[w] == ts[w + 1]);
                    assert(ts[0].power_type != ts[w + 1].power_type);
                }
            }
        }
    }
}

/// Ticks every active power-up countdown by the elapsed frame time,
/// applies the expiry effect of each timer that finishes — the widened
/// paddle reverts to its base width; the slow-ball effect leaves the
/// speed multiplier at zero, stopping the balls until another pickup — and
/// removes the finished entries the same frame.
pub fn tick_powerup_timers(
    dt_ms: u64,
    active_powerups: &mut ActivePowerUps,
    paddle_state: &mut PaddleState,
    ball_speed_modifier: &mut BallSpeedModifier,
)
    requires
        old(active_powerups).wf(),
        dt_ms <= DT_LIMIT,
    ensures
        final(active_powerups).timers@ == ticked_timers(old(active_powerups).timers@, dt_ms as int),
        final(paddle_state).current_width == (if any_fires(
            old(active_powerups).timers@,
            PowerUpType::WiderPaddle,
            dt_ms as int,
        ) {
            PADDLE_WIDTH as int
        } else {
            old(paddle_state).current_width as int
        }),
        final(ball_speed_modifier).multiplier == (if any_fires(
            old(active_powerups).timers@,
            PowerUpType::SlowBall,
            dt_ms as int,
        ) {
            0int
        } else {
            old(ball_speed_modifier).multiplier as int
        }),
        final(active_powerups).wf(),
{
    let ghost ots = active_powerups.timers@;
    let mut kept: Vec<PowerUpTimer> = Vec::new();
    let mut i: usize = 0;
    proof {
        assert(ots.skip(0) =~= ots);
        assert(Seq::<PowerUpTimer>::empty() + ticked_timers(ots, dt_ms as int) =~= ticked_timers(
            ots,
            dt_ms as int,
        ));
        assert(ots.take(0) =~= Seq::<PowerUpTimer>::empty());
    }
    while i < active_powerups.timers.len()
        invariant
            i <= ots.len(),
            active_powerups.timers@ == ots,
            dt_ms <= DT_LIMIT,
            ticked_timers(ots, dt_ms as int) == kept@ + ticked_timers(
                ots.skip(i as int),
                dt_ms as int,
            ),
            paddle_state.current_width == (if any_fires(
                ots.take(i as int),
                PowerUpType::WiderPaddle,
                dt_ms as int,
            ) {
                PADDLE_WIDTH as int
            } else {
                old(paddle_state).current_width as int
            }),
            ball_speed_modifier.multiplier == (if any_fires(
                ots.take(i as int),
                PowerUpType::SlowBall,
                dt_ms as int,
            ) {
                0int
            } else {
                old(ball_speed_modifier).multiplier as int
            }),
        decreases ots.len() - i,
    {
        let t = active_powerups.timers[i];
        proof {
            assert(ots.skip(i as int)[0] == ots[i as int]);
            assert(ots.skip(i as int).drop_first() =~= ots.skip(i + 1));
            assert(ots.take(i + 1) =~= ots.take(i as int).push(ots[i as int]));
            assert(forall|j: int|
                0 <= j < ots.take(i + 1).len() ==> #[trigger] ots.take(i + 1)[j] == ots[j]);
        }
        let timer_fires = t.remaining_ms > 0 && t.remaining_ms <= dt_ms;
        if timer_fires {
            match t.power_type {
                PowerUpType::WiderPaddle => {
                    paddle_state.current_width = PADDLE_WIDTH;
                },
                PowerUpType::SlowBall => {
                    ball_speed_modifier.multiplier = 0;
                },
                PowerUpType::MultiBall => {},
            }
            proof {
                assert(any_fires(ots.take(i + 1), t.power_type, dt_ms as int)) by {
                    assert(ots.take(i + 1)[i as int] == ots[i as int]);
                }
                assert(forall|pt: PowerUpType|
                    any_fires(ots.take(i as int), pt, dt_ms as int) ==> any_fires(
                        ots.take(i + 1),
                        pt,
                        dt_ms as int,
                    ));
            }
        } else {
            let new_remaining = if t.remaining_ms <= dt_ms {
                0
            } else {
                t.remaining_ms - dt_ms
            };
            kept.push(PowerUpTimer { power_type: t.power_type, remaining_ms: new_remaining });
            proof {
                assert(!fires(ots[i as int], dt_ms as int));
                assert forall|pt: PowerUpType| #[trigger] any_fires(
                    ots.take(i + 1),
                    pt,
                    dt_ms as int,
                ) implies any_fires(ots.take(i as int), pt, dt_ms as int) by {
                    let j = choose|j: int|
                        0 <= j < ots.take(i + 1).len() && fires(
                            #[trigger] ots.take(i + 1)[j],
                            dt_ms as int,
                        ) && ots.take(i + 1)[j].power_type == pt;
                    assert(ots.take(i + 1)[j] == ots[j]);
                    assert(j != i);
                    assert(fires(ots.take(i as int)[j], dt_ms as int));
                };
                assert(forall|pt: PowerUpType|
                    any_fires(ots.take(i as int), pt, dt_ms as int) ==> #[trigger] any_fires(
                        ots.take(i + 1),
                        pt,
                        dt_ms as int,
                    ));
            }
        }
        i = i + 1;
    }
    proof {
        assert(ots.skip(ots.len() as int) =~= Seq::<PowerUpTimer>::empty());
        assert(ots.take(ots.len() as int) =~= ots);
        assert(kept@ + ticked_timers(ots.skip(ots.len() as int), dt_ms as int) =~= kept@);
        lemma_ticked_timers_distinct(ots, dt_ms as int);
    }
    active_powerups.timers = kept;
}

/// A timer freshly (re)started for the given type.
pub open spec fn fresh_timer(pt: PowerUpType) -> PowerUpTimer {
    PowerUpTimer { power_type: pt, remaining_ms: POWERUP_DURATION_MS }
}

/// The timer list after collecting a timed power-up: if the type is
/// already active its countdown restarts in place, otherwise a fresh
/// entry joins the end. Countdowns never stack.
pub open spec fn reset_or_added(ts: Seq<PowerUpTimer>, pt: PowerUpType) -> Seq<PowerUpTimer> {
    if exists|i: int| 0 <= i < ts.len() && ts[i].power_type == pt {
        ts.update(choose|i: int| 0 <= i < ts.len() && ts[i].power_type == pt, fresh_timer(pt))
    } else {
        ts.push(fresh_timer(pt))
    }
}

/// Restarts the countdown of the given type, or adds it if it is not yet
/// active.
pub fn reset_or_add_timer(active_powerups: &mut ActivePowerUps, power_type: PowerUpType)
    requires
        old(active_powerups).wf(),
    ensures
        final(active_powerups).timers@ == reset_or_added(old(active_powerups).timers@, power_type),
        final(active_powerups).wf(),
{
    let ghost ots = active_powerups.timers@;
    let n = active_powerups.timers.len();
    let mut i: usize = 0;
    while i < n
        invariant
            i <= n,
            n == ots.len(),
            ots == old(active_powerups).timers@,
            active_powerups.timers@ == ots,
            timers_distinct(ots),
            forall|j: int| 0 <= j < i ==> (#[trigger] ots[j]).power_type != power_type,
        decreases n - i,
    {
        if active_powerups.timers[i].power_type == power_type {
            active_powerups.timers[i] = PowerUpTimer {
                power_type,
                remaining_ms: POWERUP_DURATION_MS,
            };
            proof {
                let c = choose|k: int| 0 <= k < ots.len() && ots[k].power_type == power_type;
                assert(c == i);
                assert(active_powerups.timers@ =~= reset_or_added(ots, power_type));
            }
            return ;
        }
        i = i + 1;
    }
    active_powerups.timers.push(PowerUpTimer { power_type, remaining_ms: POWERUP_DURATION_MS });
    proof {
        assert(active_powerups.timers@ =~= reset_or_added(ots, power_type));
    }
}

/// Squared distance between two points.
pub open spec fn dist_sq(a: Vec2i, b: Vec2i) -> int {
    (a.x - b.x) * (a.x - b.x) + (a.y - b.y) * (a.y - b.y)
}

/// Whether index `i` is the first ball nearest the origin point: every
/// earlier ball is strictly farther, no later ball is nearer. Ties keep
/// the first.
pub open spec fn is_first_nearest(balls: Seq<Ball>, origin: Vec2i, i: int) -> bool {
    &&& 0 <= i < balls.len()
    &&& forall|j: int| 0 <= j < i ==> dist_sq((#[trigger] balls[j]).pos, origin) > dist_sq(
        balls[i].pos,
        origin,
    )
    &&& forall|j: int| i <= j < balls.len() ==> dist_sq((#[trigger] balls[j]).pos, origin)
        >= dist_sq(balls[i].pos, origin)
}

/// The index of the first nearest ball.
pub open spec fn nearest_ball_index(balls: Seq<Ball>, origin: Vec2i) -> int {
    choose|i: int| is_first_nearest(balls, origin, i)
}

/// The first-nearest index exists whenever a ball exists, and no two
/// indices can both be it.
pub proof fn lemma_first_nearest_unique(balls: Seq<Ball>, origin: Vec2i, a: int, b: int)
    requires
        is_first_nearest(balls, origin, a),
        is_first_nearest(balls, origin, b),
    ensures
        a == b,
{
    if a < b {
        assert(dist_sq(balls[a].pos, origin) > dist_sq(balls[b].pos, origin));
        assert(dist_sq(balls[b].pos, origin) >= dist_sq(balls[a].pos, origin));
    }
    if b < a {
        assert(dist_sq(balls[b].pos, origin) > dist_sq(balls[a].pos, origin));
        assert(dist_sq(balls[a].pos, origin) >= dist_sq(balls[b].pos, origin));
    }
}

/// A velocity rotated by the angle whose cosine and sine are given in
/// thousandths, kept inside the velocity bound.
pub open spec fn rotated_milli(v: Vec2i, cos_milli: int, sin_milli: int) -> Vec2i {
    Vec2i {
        x: clamp_val(
            tdiv(v.x * cos_milli - v.y * sin_milli, 1000),
            -VEL_LIMIT as int,
            VEL_LIMIT as int,
        ) as i64,
        y: clamp_val(
            tdiv(v.x * sin_milli + v.y * cos_milli, 1000),
            -VEL_LIMIT as int,
            VEL_LIMIT as int,
        ) as i64,
    }
}

/// Rotates a velocity by the angle whose cosine and sine are given in
/// thousandths.
pub fn rotate_vec2(v: Vec2i, cos_milli: i64, sin_milli: i64) -> (r: Vec2i)
    requires
        -VEL_LIMIT <= v.x <= VEL_LIMIT,
        -VEL_LIMIT <= v.y <= VEL_LIMIT,
        -1000 <= cos_milli <= 1000,
        -1000 <= sin_milli <= 1000,
    ensures
        r == rotated_milli(v, cos_milli as int, sin_milli as int),
        -VEL_LIMIT <= r.x <= VEL_LIMIT,
        -VEL_LIMIT <= r.y <= VEL_LIMIT,
{
    proof {
        assert(-1_000_000_000 <= v.x * cos_milli <= 1_000_000_000 && -1_000_000_000 <= v.y
            * sin_milli <= 1_000_000_000 && -1_000_000_000 <= v.x * sin_milli <= 1_000_000_000
            && -1_000_000_000 <= v.y * cos_milli <= 1_000_000_000) by (nonlinear_arith)
            requires
                -1_000_000 <= v.x as int <= 1_000_000,
                -1_000_000 <= v.y as int <= 1_000_000,
                -1000 <= cos_milli as int <= 1000,
                -1000 <= sin_milli as int <= 1000,
        ;
    }
    let rx = tdiv64(v.x * cos_milli - v.y * sin_milli, 1000);
    let ry = tdiv64(v.x * sin_milli + v.y * cos_milli, 1000);
    let cx = if rx < -VEL_LIMIT {
        -VEL_LIMIT
    } else if rx > VEL_LIMIT {
        VEL_LIMIT
    } else {
        rx
    };
    let cy = if ry < -VEL_LIMIT {
        -VEL_LIMIT
    } else if ry > VEL_LIMIT {
        VEL_LIMIT
    } else {
        ry
    };
    Vec2i { x: cx, y: cy }
}

/// A copy of the given ball whose velocity fans out by the multi-ball
/// angle, to the side the sign of the sine picks.
pub open spec fn ball_fanned(b: Ball, sin_milli: int) -> Ball {
    Ball { pos: b.pos, velocity: rotated_milli(b.velocity, COS_30_MILLI as int, sin_milli) }
}

/// The ball list after a multi-ball pickup at the given point: the ball
/// nearest the pickup (first on ties) lends its position and velocity to
/// two new balls, fanned left and right; the original is untouched. With
/// no ball on the field nothing happens.
pub open spec fn multiball_spawned(balls: Seq<Ball>, origin: Vec2i) -> Seq<Ball> {
    if balls.len() == 0 {
        balls
    } else {
        let b = balls[nearest_ball_index(balls, origin)];
        balls + seq![ball_fanned(b, -SIN_30_MILLI as int), ball_fanned(b, SIN_30_MILLI as int)]
    }
}

/// Spawns the two fanned copies of the ball nearest the pickup point.
pub fn spawn_multi_balls(balls: &mut Vec<Ball>, origin: Vec2i)
    requires
        balls_wf(old(balls)@),
        crate::geometry::in_coord_range(origin),
    ensures
        final(balls)@ == multiball_spawned(old(balls)@, origin),
        balls_wf(final(balls)@),
{
    let ghost obs = balls@;
    if balls.len() == 0 {
        return ;
    }
    let mut best: usize = 0;
    let mut best_d = dist_sq_exec(balls[0].pos, origin);
    let mut i: usize = 1;
    while i < balls.len()
        invariant
            1 <= i <= obs.len(),
            balls@ == obs,
            obs.len() > 0,
            balls_wf(obs),
            crate::geometry::in_coord_range(origin),
            0 <= best < i,
            best_d == dist_sq(obs[best as int].pos, origin),
            forall|j: int|
                0 <= j < best ==> dist_sq((#[trigger] obs[j]).pos, origin) > dist_sq(
                    obs[best as int].pos,
                    origin,
                ),
            forall|j: int|
                best <= j < i ==> dist_sq((#[trigger] obs[j]).pos, origin) >= dist_sq(
                    obs[best as int].pos,
                    origin,
                ),
        decreases obs.len() - i,
    {
        let d = dist_sq_exec(balls[i].pos, origin);
        if d < best_d {
            best = i;
            best_d = d;
        }
        i = i + 1;
    }
    proof {
        assert(is_first_nearest(obs, origin, best as int));
        let c = nearest_ball_index(obs, origin);
        lemma_first_nearest_unique(obs, origin, best as int, c);
    }
    let b = balls[best];
    let left = rotate_vec2(b.velocity, COS_30_MILLI, -SIN_30_MILLI);
    let right = rotate_vec2(b.velocity, COS_30_MILLI, SIN_30_MILLI);
    balls.push(Ball { pos: b.pos, velocity: left });
    balls.push(Ball { pos: b.pos, velocity: right });
    proof {
        assert(balls@ =~= multiball_spawned(obs, origin));
    }
}

/// Squared distance between two in-range points.
fn dist_sq_exec(a: Vec2i, b: Vec2i) -> (r: i64)
    requires
        crate::geometry::in_coord_range(a),
        crate::geometry::in_coord_range(b),
    ensures
        r == dist_sq(a, b),
{
    let dx = a.x - b.x;
    let dy = a.y - b.y;
    proof {
        assert(0 <= dx * dx <= 4_000_000_000_000_000_000 && 0 <= dy * dy
            <= 4_000_000_000_000_000_000) by (nonlinear_arith)
            requires
                -2_000_000_000 <= dx as int <= 2_000_000_000,
                -2_000_000_000 <= dy as int <= 2_000_000_000,
        ;
    }
    dx * dx + dy * dy
}

/// The falling box of a power-up.
pub open spec fn powerup_box() -> Vec2i {
    Vec2i { x: POWERUP_SIZE, y: POWERUP_SIZE }
}

/// Whether a power-up overlaps the paddle. The test uses the paddle's
/// current — possibly widened — width, as it stood when the frame's
/// collision pass began.
pub open spec fn powerup_hits_paddle(p: PowerUp, paddle_x: i64, width: i64) -> bool {
    aabb_side(
        p.pos,
        powerup_box(),
        Vec2i { x: paddle_x, y: PADDLE_Y },
        Vec2i { x: width, y: PADDLE_HEIGHT },
    ) is Some
}

/// The pieces of game state a power-up pickup can touch, gathered for the
/// specification of one frame's pickups.
pub struct EffectState {
    pub timers: Seq<PowerUpTimer>,
    pub width: int,
    pub multiplier: int,
    pub balls: Seq<Ball>,
}

/// What collecting one power-up does: multi-ball fans two new balls off
/// the nearest one; the wider paddle widens and (re)starts its countdown;
/// the slow ball halves the speed multiplier and (re)starts its countdown.
pub open spec fn applied_powerup(p: PowerUp, st: EffectState) -> EffectState {
    match p.power_type {
        PowerUpType::MultiBall => EffectState {
            balls: multiball_spawned(st.balls, p.pos),
            ..st
        },
        PowerUpType::WiderPaddle => EffectState {
            width: WIDER_PADDLE_WIDTH as int,
            timers: reset_or_added(st.timers, PowerUpType::WiderPaddle),
            ..st
        },
        PowerUpType::SlowBall => EffectState {
            multiplier: SLOW_BALL_MULTIPLIER as int,
            timers: reset_or_added(st.timers, PowerUpType::SlowBall),
            ..st
        },
    }
}

/// One frame's power-up pickups, in power-up order: each power-up that
/// overlaps the paddle applies its effect and despawns; the rest keep
/// falling, in order. The paddle width the overlap test uses is the width
/// at the start of the pass, even if a pickup widens the paddle mid-pass.
pub open spec fn powerups_collected(
    ps: Seq<PowerUp>,
    paddle_x: i64,
    width0: i64,
    st: EffectState,
) -> (EffectState, Seq<PowerUp>)
    decreases ps.len(),
{
    if ps.len() == 0 {
        (st, Seq::empty())
    } else if powerup_hits_paddle(ps[0], paddle_x, width0) {
        powerups_collected(ps.drop_first(), paddle_x, width0, applied_powerup(ps[0], st))
    } else {
        let r = powerups_collected(ps.drop_first(), paddle_x, width0, st);
        (r.0, seq![ps[0]] + r.1)
    }
}

/// Detects power-ups landing on the paddle and applies their effects; a
/// safe no-op when no paddle exists. Every overlapping power-up despawns
/// after its effect, all in one frame.
pub fn powerup_paddle_collision(
    powerups: &mut Vec<PowerUp>,
    paddle: &Option<Paddle>,
    paddle_state: &mut PaddleState,
    ball_speed_modifier: &mut BallSpeedModifier,
    active_powerups: &mut ActivePowerUps,
    balls: &mut Vec<Ball>,
)
    requires
        powerups_wf(old(powerups)@),
        balls_wf(old(balls)@),
        old(active_powerups).wf(),
        *paddle matches Some(p) ==> crate::components::paddle_wf(p),
        0 <= old(paddle_state).current_width <= COORD_LIMIT,
    ensures
        *paddle is None ==> {
            &&& final(powerups)@ == old(powerups)@
            &&& *final(paddle_state) == *old(paddle_state)
            &&& *final(ball_speed_modifier) == *old(ball_speed_modifier)
            &&& final(active_powerups).timers@ == old(active_powerups).timers@
            &&& final(balls)@ == old(balls)@
        },
        *paddle matches Some(p) ==> {
            let r = powerups_collected(
                old(powerups)@,
                p.x,
                old(paddle_state).current_width,
                EffectState {
                    timers: old(active_powerups).timers@,
                    width: old(paddle_state).current_width as int,
                    multiplier: old(ball_speed_modifier).multiplier as int,
                    balls: old(balls)@,
                },
            );
            &&& final(powerups)@ == r.1
            &&& final(active_powerups).timers@ == r.0.timers
            &&& final(paddle_state).current_width == r.0.width
            &&& final(ball_speed_modifier).multiplier == r.0.multiplier
            &&& final(balls)@ == r.0.balls
        },
        final(active_powerups).wf(),
        balls_wf(final(balls)@),
        powerups_wf(final(powerups)@),
        0 <= final(paddle_state).current_width <= COORD_LIMIT,
        final(ball_speed_modifier).multiplier <= old(ball_speed_modifier).multiplier
            || final(ball_speed_modifier).multiplier == SLOW_BALL_MULTIPLIER,
{
    let p = match *paddle {
        Some(p) => p,
        None => {
            return ;
        },
    };
    let width0 = paddle_state.current_width;
    let ghost ops = powerups@;
    let ghost st0 = EffectState {
        timers: active_powerups.timers@,
        width: paddle_state.current_width as int,
        multiplier: ball_speed_modifier.multiplier as int,
        balls: balls@,
    };
    let mut kept: Vec<PowerUp> = Vec::new();
    let mut i: usize = 0;
    proof {
        assert(ops.skip(0) =~= ops);
    }
    while i < powerups.len()
        invariant
            i <= ops.len(),
            powerups@ == ops,
            ops == old(powerups)@,
            st0 == (EffectState {
                timers: old(active_powerups).timers@,
                width: old(paddle_state).current_width as int,
                multiplier: old(ball_speed_modifier).multiplier as int,
                balls: old(balls)@,
            }),
            width0 == old(paddle_state).current_width,
            powerups_wf(ops),
            powerups_wf(kept@),
            balls_wf(balls@),
            active_powerups.wf(),
            crate::components::paddle_wf(p),
            0 <= width0 <= COORD_LIMIT,
            0 <= paddle_state.current_width <= COORD_LIMIT,
            ball_speed_modifier.multiplier <= old(ball_speed_modifier).multiplier
                || ball_speed_modifier.multiplier == SLOW_BALL_MULTIPLIER,
            powerups_collected(ops, p.x, width0, st0) == ({
                let r = powerups_collected(
                    ops.skip(i as int),
                    p.x,
                    width0,
                    EffectState {
                        timers: active_powerups.timers@,
                        width: paddle_state.current_width as int,
                        multiplier: ball_speed_modifier.multiplier as int,
                        balls: balls@,
                    },
                );
                (r.0, kept@ + r.1)
            }),
        decreases ops.len() - i,
    {
        let pu = powerups[i];
        let ghost st_cur = EffectState {
            timers: active_powerups.timers@,
            width: paddle_state.current_width as int,
            multiplier: ball_speed_modifier.multiplier as int,
            balls: balls@,
        };
        proof {
            assert(ops.skip(i as int)[0] == ops[i as int]);
            assert(ops.skip(i as int).drop_first() =~= ops.skip(i + 1));
        }
        let hit = crate::geometry::check_aabb_collision(
            pu.pos,
            Vec2i { x: POWERUP_SIZE, y: POWERUP_SIZE },
            Vec2i { x: p.x, y: PADDLE_Y },
            Vec2i { x: width0, y: PADDLE_HEIGHT },
        );
        if hit.is_some() {
            match pu.power_type {
                PowerUpType::MultiBall => {
                    spawn_multi_balls(balls, pu.pos);
                },
                PowerUpType::WiderPaddle => {
                    paddle_state.current_width = WIDER_PADDLE_WIDTH;
                    reset_or_add_timer(active_powerups, PowerUpType::WiderPaddle);
                },
                PowerUpType::SlowBall => {
                    ball_speed_modifier.multiplier = SLOW_BALL_MULTIPLIER;
                    reset_or_add_timer(active_powerups, PowerUpType::SlowBall);
                },
            }
            proof {
                assert(EffectState {
                    timers: active_powerups.timers@,
                    width: paddle_state.current_width as int,
                    multiplier: ball_speed_modifier.multiplier as int,
                    balls: balls@,
                } == applied_powerup(ops[i as int], st_cur));
            }
        } else {
            kept.push(pu);
            proof {
                let r = powerups_collected(ops.skip(i + 1), p.x, width0, st_cur);
                assert(kept@.drop_last() + (seq![ops[i as int]] + r.1) =~= kept@ + r.1);
            }
        }
        i = i + 1;
    }
    proof {
        assert(ops.skip(ops.len() as int) =~= Seq::<PowerUp>::empty());
        let rfin = powerups_collected(
            Seq::<PowerUp>::empty(),
            p.x,
            width0,
            EffectState {
                timers: active_powerups.timers@,
                width: paddle_state.current_width as int,
                multiplier: ball_speed_modifier.multiplier as int,
                balls: balls@,
            },
        );
        assert(kept@ + rfin.1 =~= kept@);
    }
    *powerups = kept;
}

} // verus!
