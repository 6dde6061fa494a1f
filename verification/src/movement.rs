//! Movement stage: the paddle follows the held directional input, balls and
//! power-ups advance by their velocity times the elapsed frame time.

use vstd::prelude::*;

use crate::components::{
    balls_wf, paddle_wf, Ball, Paddle, DT_LIMIT, PADDLE_MAX_X, PADDLE_SPEED, SPEED_SCALE,
    VEL_LIMIT,
};
use crate::geometry::{abs_val, clamp_coord, clamp_val, Vec2i, COORD_LIMIT};

verus! {

/// Net direction from the two opposing held inputs: right minus left.
pub open spec fn dir_of(left: bool, right: bool) -> int {
    (if right {
        1int
    } else {
        0int
    }) - (if left {
        1int
    } else {
        0int
    })
}

/// Where the paddle centre ends up after one frame: advanced by the net
/// direction times `PADDLE_SPEED` times the elapsed seconds, then clamped
/// to the window bounds.
pub open spec fn paddle_pos_after(x: int, left: bool, right: bool, dt_ms: int) -> int {
    clamp_val(
        x + dir_of(left, right) * (PADDLE_SPEED * dt_ms / 1000),
        -PADDLE_MAX_X as int,
        PADDLE_MAX_X as int,
    )
}

/// Signed displacement of one velocity component over `dt_ms`
/// milliseconds, scaled by a multiplier in thousandths: the magnitude is
/// `|v| * mult * dt / 1_000_000`, rounded towards zero.
pub open spec fn scaled_disp(v: int, mult: int, dt_ms: int) -> int {
    let m = abs_val(v) * mult * dt_ms / 1_000_000;
    if v < 0 {
        -m
    } else {
        m
    }
}

/// One coordinate after a move: the displacement is applied, then the
/// result is kept inside the coordinate bound.
pub open spec fn moved_coord(p: int, v: int, mult: int, dt_ms: int) -> int {
    clamp_val(p + scaled_disp(v, mult, dt_ms), -COORD_LIMIT as int, COORD_LIMIT as int)
}

/// Moves the paddle by the held directional input, clamped to the window
/// bounds; a safe no-op when no paddle exists.
pub fn move_paddle(paddle: &mut Option<Paddle>, left_held: bool, right_held: bool, dt_ms: u64)
    requires
        *old(paddle) is Some ==> paddle_wf((*old(paddle))->Some_0),
        dt_ms <= DT_LIMIT,
    ensures
        *old(paddle) is None ==> *final(paddle) == *old(paddle),
        *old(paddle) is Some ==> {
            &&& *final(paddle) == Some(
                Paddle {
                    x: paddle_pos_after(
                        (*old(paddle))->Some_0.x as int,
                        left_held,
                        right_held,
                        dt_ms as int,
                    ) as i64,
                },
            )
            &&& paddle_wf((*final(paddle))->Some_0)
        },
{
    let cur = match *paddle {
        Some(p) => p,
        None => {
            return ;
        },
    };
    let step = PADDLE_SPEED * (dt_ms as i64) / 1000;
    let moved = if left_held && !right_held {
        cur.x - step
    } else if right_held && !left_held {
        cur.x + step
    } else {
        cur.x
    };
    let clamped = if moved < -PADDLE_MAX_X {
        -PADDLE_MAX_X
    } else if moved > PADDLE_MAX_X {
        PADDLE_MAX_X
    } else {
        moved
    };
    proof {
        assert(left_held && !right_held ==> dir_of(left_held, right_held) == -1);
        assert(right_held && !left_held ==> dir_of(left_held, right_held) == 1);
        assert((left_held == right_held) ==> dir_of(left_held, right_held) == 0);
    }
    *paddle = Some(Paddle { x: clamped });
}

/// One velocity component's displacement over the frame, in exec code.
fn disp_exec(v: i64, mult: u32, dt_ms: u64) -> (r: i64)
    requires
        -VEL_LIMIT <= v <= VEL_LIMIT,
        mult <= SPEED_SCALE,
        dt_ms <= DT_LIMIT,
    ensures
        r == scaled_disp(v as int, mult as int, dt_ms as int),
        -10_000_000_000_000 <= r <= 10_000_000_000_000,
{
    let a = if v < 0 {
        -v
    } else {
        v
    };
    proof {
        assert(0 <= (a as int) * (mult as int) <= 1_000_000_000) by (nonlinear_arith)
            requires
                0 <= a as int <= 1_000_000,
                0 <= mult as int <= 1000,
        ;
    }
    let am = a * (mult as i64);
    proof {
        assert(0 <= (am as int) * (dt_ms as int) <= 10_000_000_000_000) by (nonlinear_arith)
            requires
                0 <= am as int <= 1_000_000_000,
                0 <= dt_ms as int <= 10_000,
        ;
    }
    let m = am * (dt_ms as i64) / 1_000_000;
    if v < 0 {
        -m
    } else {
        m
    }
}

/// Advances every ball by its velocity, scaled by the global speed
/// multiplier (in thousandths), over the elapsed frame time. Positions are
/// kept inside the coordinate bound; velocities are untouched.
pub fn move_ball(balls: &mut Vec<Ball>, multiplier: u32, dt_ms: u64)
    requires
        balls_wf(old(balls)@),
        multiplier <= SPEED_SCALE,
        dt_ms <= DT_LIMIT,
    ensures
        final(balls)@.len() == old(balls)@.len(),
        forall|i: int|
            0 <= i < final(balls)@.len() ==> {
                let ob = #[trigger] old(balls)@[i];
                &&& final(balls)@[i].velocity == ob.velocity
                &&& final(balls)@[i].pos.x == moved_coord(
                    ob.pos.x as int,
                    ob.velocity.x as int,
                    multiplier as int,
                    dt_ms as int,
                )
                &&& final(balls)@[i].pos.y == moved_coord(
                    ob.pos.y as int,
                    ob.velocity.y as int,
                    multiplier as int,
                    dt_ms as int,
                )
            },
        balls_wf(final(balls)@),
{
    let mut i: usize = 0;
    while i < balls.len()
        invariant
            i <= balls@.len(),
            balls@.len() == old(balls)@.len(),
            multiplier <= SPEED_SCALE,
            dt_ms <= DT_LIMIT,
            balls_wf(old(balls)@),
            forall|j: int| i <= j < balls@.len() ==> balls@[j] == #[trigger] old(balls)@[j],
            forall|j: int|
                0 <= j < i ==> {
                    let ob = #[trigger] old(balls)@[j];
                    &&& balls@[j].velocity == ob.velocity
                    &&& balls@[j].pos.x == moved_coord(
                        ob.pos.x as int,
                        ob.velocity.x as int,
                        multiplier as int,
                        dt_ms as int,
                    )
                    &&& balls@[j].pos.y == moved_coord(
                        ob.pos.y as int,
                        ob.velocity.y as int,
                        multiplier as int,
                        dt_ms as int,
                    )
                },
            balls_wf(balls@),
        decreases balls@.len() - i,
    {
        let b = balls[i];
        let dx = disp_exec(b.velocity.x, multiplier, dt_ms);
        let dy = disp_exec(b.velocity.y, multiplier, dt_ms);
        let nx = clamp_coord(b.pos.x + dx);
        let ny = clamp_coord(b.pos.y + dy);
        balls[i] = Ball { pos: Vec2i { x: nx, y: ny }, velocity: b.velocity };
        i = i + 1;
    }
}

} // verus!
