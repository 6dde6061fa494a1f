//! Collision stage: ball versus walls, paddle and bricks, and the death
//! zone below the play field.

use vstd::prelude::*;

use crate::components::{
    balls_wf, ball_wf, bricks_wf, paddle_wf, walls_wf, Ball, Brick, Lives, Paddle, Scoreboard,
    Wall, BALL_SIZE, BALL_SPEED, BALL_START_VX, BALL_START_Y, BOUNCE_CARRY_MILLI, BRICK_HEIGHT,
    BRICK_WIDTH, DEATH_ZONE_Y, PADDLE_HALF_WIDTH, PADDLE_HEIGHT, PADDLE_WIDTH, PADDLE_Y,
    POINTS_PER_BRICK, PUSH_OUT_MARGIN, SIN_45_MILLI, VEL_LIMIT, WALL_SIDE_HEIGHT, WALL_THICKNESS,
    WALL_TOP_WIDTH,
};
use crate::geometry::{
    aabb_side, abs_val, check_aabb_collision, clamp_coord, clamp_val, in_coord_range, spec_isqrt,
    tdiv, CollisionSide, Vec2i, COORD_LIMIT,
};

verus! {

// --- The rectangles the stage collides against ---
/// The ball's square bounding box.
pub open spec fn ball_box() -> Vec2i {
    Vec2i { x: BALL_SIZE, y: BALL_SIZE }
}

/// A brick's bounding box.
pub open spec fn brick_box() -> Vec2i {
    Vec2i { x: BRICK_WIDTH, y: BRICK_HEIGHT }
}

/// The paddle's bounding box for ball bounces: the base width, whether or
/// not a power-up has widened the paddle.
pub open spec fn paddle_box() -> Vec2i {
    Vec2i { x: PADDLE_WIDTH, y: PADDLE_HEIGHT }
}

/// Centre of the paddle's rectangle.
pub open spec fn paddle_centre(p: Paddle) -> Vec2i {
    Vec2i { x: p.x, y: PADDLE_Y }
}

/// A wall's size, inferred from where it stands: a wall further from the
/// centre horizontally than vertically is a side wall (thin and tall),
/// anything else is the top wall (wide and thin).
pub open spec fn wall_box(w: Wall) -> Vec2i {
    if abs_val(w.pos.x as int) > abs_val(w.pos.y as int) {
        Vec2i { x: WALL_THICKNESS, y: WALL_SIDE_HEIGHT }
    } else {
        Vec2i { x: WALL_TOP_WIDTH, y: WALL_THICKNESS }
    }
}

/// Executable form of `wall_box`.
pub fn wall_size_of(w: &Wall) -> (s: Vec2i)
    requires
        crate::components::wall_wf(*w),
    ensures
        s == wall_box(*w),
{
    let ax = if w.pos.x < 0 {
        -w.pos.x
    } else {
        w.pos.x
    };
    let ay = if w.pos.y < 0 {
        -w.pos.y
    } else {
        w.pos.y
    };
    if ax > ay {
        Vec2i { x: WALL_THICKNESS, y: WALL_SIDE_HEIGHT }
    } else {
        Vec2i { x: WALL_TOP_WIDTH, y: WALL_THICKNESS }
    }
}

// --- Hit predicates ---
pub open spec fn brick_hit(b: Ball, brick: Brick) -> bool {
    aabb_side(b.pos, ball_box(), brick.pos, brick_box()) is Some
}

pub open spec fn paddle_hit(b: Ball, p: Paddle) -> bool {
    aabb_side(b.pos, ball_box(), paddle_centre(p), paddle_box()) is Some
}

pub open spec fn wall_hit(b: Ball, w: Wall) -> bool {
    aabb_side(b.pos, ball_box(), w.pos, wall_box(w)) is Some
}

// --- Resolution ---
/// Velocity after a bounce: the component along the struck axis flips.
pub open spec fn reflected(v: Vec2i, side: CollisionSide) -> Vec2i {
    match side {
        CollisionSide::Top => Vec2i { x: v.x, y: (-(v.y as int)) as i64 },
        CollisionSide::Bottom => Vec2i { x: v.x, y: (-(v.y as int)) as i64 },
        CollisionSide::Left => Vec2i { x: (-(v.x as int)) as i64, y: v.y },
        CollisionSide::Right => Vec2i { x: (-(v.x as int)) as i64, y: v.y },
    }
}

/// Position after a bounce: the ball is placed fully outside the struck
/// face, one extra unit clear of it, then kept inside the coordinate
/// bound. Only the coordinate along the struck axis changes.
pub open spec fn pushed_pos(pos: Vec2i, side: CollisionSide, tpos: Vec2i, tsize: Vec2i) -> Vec2i {
    match side {
        CollisionSide::Top => Vec2i {
            x: pos.x,
            y: clamp_val(
                tpos.y + tsize.y / 2 + BALL_SIZE / 2 + PUSH_OUT_MARGIN,
                -COORD_LIMIT as int,
                COORD_LIMIT as int,
            ) as i64,
        },
        CollisionSide::Bottom => Vec2i {
            x: pos.x,
            y: clamp_val(
                tpos.y - tsize.y / 2 - BALL_SIZE / 2 - PUSH_OUT_MARGIN,
                -COORD_LIMIT as int,
                COORD_LIMIT as int,
            ) as i64,
        },
        CollisionSide::Left => Vec2i {
            x: clamp_val(
                tpos.x - tsize.x / 2 - BALL_SIZE / 2 - PUSH_OUT_MARGIN,
                -COORD_LIMIT as int,
                COORD_LIMIT as int,
            ) as i64,
            y: pos.y,
        },
        CollisionSide::Right => Vec2i {
            x: clamp_val(
                tpos.x + tsize.x / 2 + BALL_SIZE / 2 + PUSH_OUT_MARGIN,
                -COORD_LIMIT as int,
                COORD_LIMIT as int,
            ) as i64,
            y: pos.y,
        },
    }
}

/// A plain bounce off a rectangle: reflect the velocity and push the ball
/// clear, on the given side.
pub open spec fn bounced(b: Ball, side: CollisionSide, tpos: Vec2i, tsize: Vec2i) -> Ball {
    Ball {
        pos: pushed_pos(b.pos, side, tpos, tsize),
        velocity: reflected(b.velocity, side),
    }
}

/// Executable bounce off a rectangle.
fn bounce_ball(b: Ball, side: CollisionSide, tpos: Vec2i, tsize: Vec2i) -> (r: Ball)
    requires
        ball_wf(b),
        in_coord_range(tpos),
        0 <= tsize.x <= COORD_LIMIT,
        0 <= tsize.y <= COORD_LIMIT,
    ensures
        r == bounced(b, side, tpos, tsize),
        ball_wf(r),
{
    let velocity = match side {
        CollisionSide::Top => Vec2i { x: b.velocity.x, y: -b.velocity.y },
        CollisionSide::Bottom => Vec2i { x: b.velocity.x, y: -b.velocity.y },
        CollisionSide::Left => Vec2i { x: -b.velocity.x, y: b.velocity.y },
        CollisionSide::Right => Vec2i { x: -b.velocity.x, y: b.velocity.y },
    };
    let pos = match side {
        CollisionSide::Top => Vec2i {
            x: b.pos.x,
            y: clamp_coord(tpos.y + tsize.y / 2 + BALL_SIZE / 2 + PUSH_OUT_MARGIN),
        },
        CollisionSide::Bottom => Vec2i {
            x: b.pos.x,
            y: clamp_coord(tpos.y - tsize.y / 2 - BALL_SIZE / 2 - PUSH_OUT_MARGIN),
        },
        CollisionSide::Left => Vec2i {
            x: clamp_coord(tpos.x - tsize.x / 2 - BALL_SIZE / 2 - PUSH_OUT_MARGIN),
            y: b.pos.y,
        },
        CollisionSide::Right => Vec2i {
            x: clamp_coord(tpos.x + tsize.x / 2 + BALL_SIZE / 2 + PUSH_OUT_MARGIN),
            y: b.pos.y,
        },
    };
    Ball { pos, velocity }
}

// --- Paddle deflection ---
/// The ball's speed: the integer square root of the squared velocity.
pub open spec fn speed_of(v: Vec2i) -> int {
    spec_isqrt((v.x * v.x + v.y * v.y) as nat) as int
}

/// The horizontal component a paddle bounce aims for, before
/// renormalisation: the hit offset across the paddle half-width (in
/// thousandths) swings the ball sideways by up to the largest deflection
/// angle, and three tenths of the incoming horizontal velocity carries
/// over.
pub open spec fn deflect_raw_x(v: Vec2i, bx: int, px: int) -> int {
    let off = tdiv((bx - px) * 1000, PADDLE_HALF_WIDTH as int);
    tdiv(speed_of(v) * off * SIN_45_MILLI, 1_000_000) + tdiv(v.x * BOUNCE_CARRY_MILLI, 1000)
}

/// Velocity leaving the paddle: the raw horizontal aim paired with the
/// upward-flipped vertical component, renormalised to the incoming speed
/// and kept inside the velocity bound. A degenerate zero vector leaves
/// straight up.
pub open spec fn deflected_velocity(v: Vec2i, bx: int, px: int) -> Vec2i {
    let speed = speed_of(v);
    let rx = deflect_raw_x(v, bx, px);
    let ry = abs_val(v.y as int);
    let len = spec_isqrt((rx * rx + ry * ry) as nat) as int;
    if len == 0 {
        Vec2i { x: 0, y: clamp_val(speed, -VEL_LIMIT as int, VEL_LIMIT as int) as i64 }
    } else {
        Vec2i {
            x: clamp_val(tdiv(rx * speed, len), -VEL_LIMIT as int, VEL_LIMIT as int) as i64,
            y: clamp_val(tdiv(ry * speed, len), -VEL_LIMIT as int, VEL_LIMIT as int) as i64,
        }
    }
}

/// The ball after a paddle bounce: pushed clear of the struck face, its
/// velocity first reflected, then redirected by where it struck the
/// paddle.
pub open spec fn paddle_bounced(b: Ball, p: Paddle) -> Ball {
    let side = aabb_side(b.pos, ball_box(), paddle_centre(p), paddle_box())->Some_0;
    Ball {
        pos: pushed_pos(b.pos, side, paddle_centre(p), paddle_box()),
        velocity: deflected_velocity(reflected(b.velocity, side), b.pos.x as int, p.x as int),
    }
}

/// Clamps a velocity component back into the velocity bound.
fn clamp_vel(v: i64) -> (r: i64)
    ensures
        r == clamp_val(v as int, -VEL_LIMIT as int, VEL_LIMIT as int),
{
    if v < -VEL_LIMIT {
        -VEL_LIMIT
    } else if v > VEL_LIMIT {
        VEL_LIMIT
    } else {
        v
    }
}

/// Executable form of `deflected_velocity`.
fn deflect_velocity(v: Vec2i, bx: i64, px: i64) -> (r: Vec2i)
    requires
        -VEL_LIMIT <= v.x <= VEL_LIMIT,
        -VEL_LIMIT <= v.y <= VEL_LIMIT,
        -68 <= bx - px <= 68,
    ensures
        r == deflected_velocity(v, bx as int, px as int),
        -VEL_LIMIT <= r.x <= VEL_LIMIT,
        -VEL_LIMIT <= r.y <= VEL_LIMIT,
{
    proof {
        assert(0 <= v.x * v.x <= 1_000_000_000_000 && 0 <= v.y * v.y <= 1_000_000_000_000)
            by (nonlinear_arith)
            requires
                -1_000_000 <= v.x as int <= 1_000_000,
                -1_000_000 <= v.y as int <= 1_000_000,
        ;
    }
    let sq = v.x * v.x + v.y * v.y;
    let sp = crate::geometry::isqrt64(sq as u64);
    proof {
        assert(sp as int * sp as int <= 2_000_000_000_000);
        assert(sp as int <= 1_500_000) by (nonlinear_arith)
            requires
                0 <= sp as int,
                sp as int * sp as int <= 2_000_000_000_000,
        ;
    }
    let speed = sp as i64;
    let off = crate::geometry::tdiv64((bx - px) * 1000, PADDLE_HALF_WIDTH);
    proof {
        assert(-1_134 <= tdiv((bx - px) * 1000, PADDLE_HALF_WIDTH as int) <= 1_134)
            by (nonlinear_arith)
            requires
                -68_000 <= (bx - px) * 1000 <= 68_000,
        ;
    }
    proof {
        assert(-1_800_000_000_000 <= speed * off * SIN_45_MILLI <= 1_800_000_000_000)
            by (nonlinear_arith)
            requires
                0 <= speed <= 1_500_000,
                -1_134 <= off as int <= 1_134,
        ;
    }
    let t1 = crate::geometry::tdiv64(speed * off * SIN_45_MILLI, 1_000_000);
    proof {
        assert(-1_800_000 <= tdiv(speed * off * SIN_45_MILLI, 1_000_000) <= 1_800_000)
            by (nonlinear_arith)
            requires
                -1_800_000_000_000 <= speed * off * SIN_45_MILLI <= 1_800_000_000_000,
        ;
        assert(-300_000 <= tdiv(v.x * BOUNCE_CARRY_MILLI, 1000) <= 300_000) by (nonlinear_arith)
            requires
                -300_000_000 <= v.x * BOUNCE_CARRY_MILLI <= 300_000_000,
        ;
    }
    let carry = crate::geometry::tdiv64(v.x * BOUNCE_CARRY_MILLI, 1000);
    let rx = t1 + carry;
    let ry = if v.y < 0 {
        -v.y
    } else {
        v.y
    };
    proof {
        assert(0 <= rx * rx <= 8_000_000_000_000 && 0 <= ry * ry <= 1_000_000_000_000)
            by (nonlinear_arith)
            requires
                -2_100_000 <= rx as int <= 2_100_000,
                0 <= ry as int <= 1_000_000,
        ;
    }
    let len_sq = rx * rx + ry * ry;
    let ln = crate::geometry::isqrt64(len_sq as u64);
    proof {
        assert(ln as int * ln as int <= 9_000_000_000_000);
        assert(ln as int <= 3_000_000) by (nonlinear_arith)
            requires
                0 <= ln as int,
                ln as int * ln as int <= 9_000_000_000_000,
        ;
    }
    let len = ln as i64;
    if len == 0 {
        Vec2i { x: 0, y: clamp_vel(speed) }
    } else {
        proof {
            assert(-4_500_000_000_000 <= rx * speed <= 4_500_000_000_000) by (nonlinear_arith)
                requires
                    -2_100_000 <= rx as int <= 2_100_000,
                    0 <= speed <= 1_500_000,
            ;
            assert(0 <= ry * speed <= 1_500_000_000_000) by (nonlinear_arith)
                requires
                    0 <= ry as int <= 1_000_000,
                    0 <= speed <= 1_500_000,
            ;
        }
        let nx = crate::geometry::tdiv64(rx * speed, len);
        let ny = crate::geometry::tdiv64(ry * speed, len);
        Vec2i { x: clamp_vel(nx), y: clamp_vel(ny) }
    }
}

/// Whether the paddle exists and the ball overlaps it: the paddle then
/// takes the bounce and the walls are not consulted.
pub open spec fn paddle_blocks(paddle: Option<Paddle>, b: Ball) -> bool {
    paddle matches Some(p) && paddle_hit(b, p)
}

/// The ball after bouncing off a wall, on the side the overlap picks.
pub open spec fn wall_bounced(b: Ball, w: Wall) -> Ball {
    bounced(b, aabb_side(b.pos, ball_box(), w.pos, wall_box(w))->Some_0, w.pos, wall_box(w))
}

/// Index of the first wall the ball overlaps, in wall order.
fn find_wall_hit(b: Ball, walls: &Vec<Wall>) -> (r: Option<usize>)
    requires
        ball_wf(b),
        walls_wf(walls@),
    ensures
        match r {
            None => forall|k: int| 0 <= k < walls@.len() ==> !wall_hit(b, #[trigger] walls@[k]),
            Some(i) => {
                &&& i < walls@.len()
                &&& wall_hit(b, walls@[i as int])
                &&& forall|j: int| 0 <= j < i ==> !wall_hit(b, #[trigger] walls@[j])
            },
        },
{
    let mut i: usize = 0;
    while i < walls.len()
        invariant
            i <= walls@.len(),
            ball_wf(b),
            walls_wf(walls@),
            forall|j: int| 0 <= j < i ==> !wall_hit(b, #[trigger] walls@[j]),
        decreases walls@.len() - i,
    {
        let w = walls[i];
        let size = wall_size_of(&w);
        if check_aabb_collision(b.pos, Vec2i { x: BALL_SIZE, y: BALL_SIZE }, w.pos, size).is_some() {
            return Some(i);
        }
        i = i + 1;
    }
    None
}

/// Ball versus walls and paddle. Operates on exactly one ball; a safe
/// no-op when zero or several balls exist. The paddle is tried first, then
/// the walls in order; the first overlap is resolved and the rest are left
/// for later frames. A wall bounce reflects the struck axis; a paddle
/// bounce additionally redirects the ball by where it struck.
pub fn ball_collision_walls_and_paddle(balls: &mut Vec<Ball>, paddle: &Option<Paddle>, walls: &Vec<Wall>)
    requires
        balls_wf(old(balls)@),
        *paddle matches Some(p) ==> paddle_wf(p),
        walls_wf(walls@),
    ensures
        old(balls)@.len() != 1 ==> final(balls)@ == old(balls)@,
        old(balls)@.len() == 1 ==> {
            let b = old(balls)@[0];
            &&& paddle_blocks(*paddle, b) ==> final(balls)@
                == old(balls)@.update(0, paddle_bounced(b, (*paddle)->Some_0))
            &&& !paddle_blocks(*paddle, b) ==> {
                &&& (forall|k: int|
                    0 <= k < walls@.len() ==> !wall_hit(b, #[trigger] walls@[k])) ==> final(balls)@
                    == old(balls)@
                &&& (exists|k: int| 0 <= k < walls@.len() && wall_hit(b, #[trigger] walls@[k]))
                    ==> (exists|i: int|
                    {
                        &&& 0 <= i < walls@.len()
                        &&& wall_hit(b, #[trigger] walls@[i])
                        &&& (forall|j: int| 0 <= j < i ==> !wall_hit(b, #[trigger] walls@[j]))
                        &&& final(balls)@ == old(balls)@.update(0, wall_bounced(b, walls@[i]))
                    })
            }
        },
        balls_wf(final(balls)@),
{
    if balls.len() != 1 {
        return ;
    }
    let b = balls[0];
    match *paddle {
        Some(p) => {
            match check_aabb_collision(
                b.pos,
                Vec2i { x: BALL_SIZE, y: BALL_SIZE },
                Vec2i { x: p.x, y: PADDLE_Y },
                Vec2i { x: PADDLE_WIDTH, y: PADDLE_HEIGHT },
            ) {
                Some(side) => {
                    proof {
                        assert(overlap2_x_of_paddle_hit(b, p) > 0);
                    }
                    let nb = bounce_ball(
                        b,
                        side,
                        Vec2i { x: p.x, y: PADDLE_Y },
                        Vec2i { x: PADDLE_WIDTH, y: PADDLE_HEIGHT },
                    );
                    let dv = deflect_velocity(nb.velocity, b.pos.x, p.x);
                    balls[0] = Ball { pos: nb.pos, velocity: dv };
                    return ;
                },
                None => {},
            }
        },
        None => {},
    }
    match find_wall_hit(b, walls) {
        None => {},
        Some(i) => {
            let w = walls[i];
            let size = wall_size_of(&w);
            let side = match check_aabb_collision(
                b.pos,
                Vec2i { x: BALL_SIZE, y: BALL_SIZE },
                w.pos,
                size,
            ) {
                Some(s) => s,
                None => {
                    return ;  // unreachable: the found index overlaps
                },
            };
            let resolved = bounce_ball(b, side, w.pos, size);
            balls[0] = resolved;
        },
    }
}

/// Twice the horizontal overlap of the ball with the paddle: positive
/// whenever they collide, which bounds how far off-centre the strike was.
spec fn overlap2_x_of_paddle_hit(b: Ball, p: Paddle) -> int {
    crate::geometry::overlap2_x(b.pos, ball_box(), paddle_centre(p), paddle_box())
}

/// Index of the first brick the ball overlaps, in brick order.
fn find_brick_hit(b: Ball, bricks: &Vec<Brick>) -> (r: Option<usize>)
    requires
        ball_wf(b),
        bricks_wf(bricks@),
    ensures
        match r {
            None => forall|k: int| 0 <= k < bricks@.len() ==> !brick_hit(b, #[trigger] bricks@[k]),
            Some(i) => {
                &&& i < bricks@.len()
                &&& brick_hit(b, bricks@[i as int])
                &&& forall|j: int| 0 <= j < i ==> !brick_hit(b, #[trigger] bricks@[j])
            },
        },
{
    let mut i: usize = 0;
    while i < bricks.len()
        invariant
            i <= bricks@.len(),
            ball_wf(b),
            bricks_wf(bricks@),
            forall|j: int| 0 <= j < i ==> !brick_hit(b, #[trigger] bricks@[j]),
        decreases bricks@.len() - i,
    {
        let brick = bricks[i];
        if check_aabb_collision(
            b.pos,
            Vec2i { x: BALL_SIZE, y: BALL_SIZE },
            brick.pos,
            Vec2i { x: BRICK_WIDTH, y: BRICK_HEIGHT },
        ).is_some() {
            return Some(i);
        }
        i = i + 1;
    }
    None
}

/// Ball versus bricks. Operates on exactly one ball; a safe no-op when
/// zero or several balls exist. The first brick the ball overlaps, in
/// brick order, is destroyed: it leaves the brick list, the score rises by
/// exactly `POINTS_PER_BRICK`, and the ball bounces off it. At most one
/// brick is resolved per frame.
pub fn ball_collision_bricks(balls: &mut Vec<Ball>, bricks: &mut Vec<Brick>, scoreboard: &mut Scoreboard)
    requires
        balls_wf(old(balls)@),
        bricks_wf(old(bricks)@),
        old(scoreboard).score <= u32::MAX - POINTS_PER_BRICK,
    ensures
        old(balls)@.len() != 1 ==> {
            &&& final(balls)@ == old(balls)@
            &&& final(bricks)@ == old(bricks)@
            &&& *final(scoreboard) == *old(scoreboard)
        },
        old(balls)@.len() == 1 ==> {
            let b = old(balls)@[0];
            &&& (forall|k: int|
                0 <= k < old(bricks)@.len() ==> !brick_hit(b, #[trigger] old(bricks)@[k])) ==> {
                &&& final(balls)@ == old(balls)@
                &&& final(bricks)@ == old(bricks)@
                &&& *final(scoreboard) == *old(scoreboard)
            }
            &&& (exists|k: int|
                0 <= k < old(bricks)@.len() && brick_hit(b, #[trigger] old(bricks)@[k])) ==> (exists|
                i: int,
            |
                {
                    &&& 0 <= i < old(bricks)@.len()
                    &&& brick_hit(b, #[trigger] old(bricks)@[i])
                    &&& (forall|j: int| 0 <= j < i ==> !brick_hit(b, #[trigger] old(bricks)@[j]))
                    &&& final(bricks)@ == old(bricks)@.remove(i)
                    &&& final(balls)@ == old(balls)@.update(
                        0,
                        bounced(
                            b,
                            aabb_side(b.pos, ball_box(), old(bricks)@[i].pos, brick_box())->Some_0,
                            old(bricks)@[i].pos,
                            brick_box(),
                        ),
                    )
                    &&& final(scoreboard).score == old(scoreboard).score + POINTS_PER_BRICK
                })
        },
        balls_wf(final(balls)@),
        bricks_wf(final(bricks)@),
        final(scoreboard).score >= old(scoreboard).score,
        final(bricks)@.len() <= old(bricks)@.len(),
{
    if balls.len() != 1 {
        return ;
    }
    let b = balls[0];
    match find_brick_hit(b, bricks) {
        None => {},
        Some(i) => {
            let brick = bricks[i];
            let side = match check_aabb_collision(
                b.pos,
                Vec2i { x: BALL_SIZE, y: BALL_SIZE },
                brick.pos,
                Vec2i { x: BRICK_WIDTH, y: BRICK_HEIGHT },
            ) {
                Some(s) => s,
                None => {
                    return ;  // unreachable: the found index overlaps
                },
            };
            let resolved = bounce_ball(b, side, brick.pos, Vec2i { x: BRICK_WIDTH, y: BRICK_HEIGHT });
            balls[0] = resolved;
            bricks.remove(i);
            scoreboard.score = scoreboard.score + POINTS_PER_BRICK;
        },
    }
}

/// The ball a death-zone crossing serves next: centred above the paddle,
/// moving up and to the right at the nominal speed.
pub open spec fn served_ball() -> Ball {
    Ball {
        pos: Vec2i { x: 0, y: BALL_START_Y },
        velocity: Vec2i { x: BALL_START_VX, y: BALL_SPEED },
    }
}

/// Death zone. Operates on exactly one ball; a safe no-op when zero or
/// several balls exist. When the ball has fallen below the death line one
/// life is taken — saturating at zero, never negative — and the ball is
/// served afresh; this happens on every crossing, even at zero lives.
pub fn ball_death_zone(balls: &mut Vec<Ball>, lives: &mut Lives)
    requires
        balls_wf(old(balls)@),
    ensures
        old(balls)@.len() != 1 ==> {
            &&& final(balls)@ == old(balls)@
            &&& *final(lives) == *old(lives)
        },
        old(balls)@.len() == 1 ==> {
            let b = old(balls)@[0];
            &&& b.pos.y < DEATH_ZONE_Y ==> {
                &&& final(lives).count == if old(lives).count == 0 {
                    0u32
                } else {
                    (old(lives).count - 1) as u32
                }
                &&& final(balls)@ == old(balls)@.update(0, served_ball())
            }
            &&& b.pos.y >= DEATH_ZONE_Y ==> {
                &&& final(balls)@ == old(balls)@
                &&& *final(lives) == *old(lives)
            }
        },
        final(lives).count <= old(lives).count,
        balls_wf(final(balls)@),
{
    if balls.len() != 1 {
        return ;
    }
    let b = balls[0];
    if b.pos.y < DEATH_ZONE_Y {
        lives.count = if lives.count == 0 {
            0
        } else {
            lives.count - 1
        };
        balls[0] = Ball {
            pos: Vec2i { x: 0, y: BALL_START_Y },
            velocity: Vec2i { x: BALL_START_VX, y: BALL_SPEED },
        };
    }
}

/// A bounce resolved on the vertical axis sends a rising ball back down:
/// after striking a wall on its top or underside while moving up, the
/// vertical velocity is negative and the horizontal velocity is kept.
pub proof fn lemma_vertical_wall_bounce_flips_upward_motion(b: Ball, w: Wall)
    requires
        ball_wf(b),
        b.velocity.y > 0,
        wall_hit(b, w),
        aabb_side(b.pos, ball_box(), w.pos, wall_box(w))->Some_0 matches CollisionSide::Top
            || aabb_side(b.pos, ball_box(), w.pos, wall_box(w))->Some_0
            matches CollisionSide::Bottom,
    ensures
        wall_bounced(b, w).velocity.y < 0,
        wall_bounced(b, w).velocity.x == b.velocity.x,
{
}

/// A bounce resolved on the horizontal axis sends a rightward ball back
/// left: after striking a side wall while moving right, the horizontal
/// velocity is negative and the vertical velocity is kept.
pub proof fn lemma_horizontal_wall_bounce_flips_rightward_motion(b: Ball, w: Wall)
    requires
        ball_wf(b),
        b.velocity.x > 0,
        wall_hit(b, w),
        aabb_side(b.pos, ball_box(), w.pos, wall_box(w))->Some_0 matches CollisionSide::Left
            || aabb_side(b.pos, ball_box(), w.pos, wall_box(w))->Some_0
            matches CollisionSide::Right,
    ensures
        wall_bounced(b, w).velocity.x < 0,
        wall_bounced(b, w).velocity.y == b.velocity.y,
{
}

} // verus!
