//! Axis-aligned collision primitive and the integer vector type the
//! simulation is built on.

use vstd::prelude::*;

verus! {

/// Every coordinate, size and velocity the simulation handles stays within
/// this bound; it keeps all intermediate arithmetic far away from `i64`
/// overflow.
pub const COORD_LIMIT: i64 = 1_000_000_000;

/// A 2D vector with integer components: a position, a size, or a velocity
/// in units per second.
#[derive(Clone, Copy, Debug, PartialEq, Eq, Structural)]
pub struct Vec2i {
    pub x: i64,
    pub y: i64,
}

/// The face of the target rectangle that was struck.
#[derive(Clone, Copy, Debug, PartialEq, Eq, Structural)]
pub enum CollisionSide {
    Top,
    Bottom,
    Left,
    Right,
}

pub open spec fn abs_val(v: int) -> int {
    if v < 0 {
        -v
    } else {
        v
    }
}

pub open spec fn clamp_val(v: int, lo: int, hi: int) -> int {
    if v < lo {
        lo
    } else if v > hi {
        hi
    } else {
        v
    }
}

pub open spec fn in_coord_range(v: Vec2i) -> bool {
    &&& -COORD_LIMIT <= v.x <= COORD_LIMIT
    &&& -COORD_LIMIT <= v.y <= COORD_LIMIT
}

/// Twice the horizontal overlap of the two rectangles: the sum of the
/// half-widths minus the distance between the centres, all doubled so that
/// no halving of an odd size is needed.
pub open spec fn overlap2_x(a_pos: Vec2i, a_size: Vec2i, b_pos: Vec2i, b_size: Vec2i) -> int {
    a_size.x + b_size.x - 2 * abs_val(a_pos.x - b_pos.x)
}

/// Twice the vertical overlap of the two rectangles.
pub open spec fn overlap2_y(a_pos: Vec2i, a_size: Vec2i, b_pos: Vec2i, b_size: Vec2i) -> int {
    a_size.y + b_size.y - 2 * abs_val(a_pos.y - b_pos.y)
}

/// What `check_aabb_collision` returns: `None` unless both overlaps are
/// strictly positive (edges exactly touching do not collide); otherwise the
/// axis with the smaller overlap decides the side, ties going to the
/// vertical axis, and the sign of the centre distance picks the face.
pub open spec fn aabb_side(a_pos: Vec2i, a_size: Vec2i, b_pos: Vec2i, b_size: Vec2i) -> Option<
    CollisionSide,
> {
    let ox = overlap2_x(a_pos, a_size, b_pos, b_size);
    let oy = overlap2_y(a_pos, a_size, b_pos, b_size);
    if ox <= 0 || oy <= 0 {
        None
    } else if ox < oy {
        if a_pos.x - b_pos.x > 0 {
            Some(CollisionSide::Right)
        } else {
            Some(CollisionSide::Left)
        }
    } else if a_pos.y - b_pos.y > 0 {
        Some(CollisionSide::Top)
    } else {
        Some(CollisionSide::Bottom)
    }
}

/// AABB collision check between two rectangles given by their centres and
/// sizes. Returns the side of the target that the first rectangle struck,
/// or `None` when they do not strictly overlap.
pub fn check_aabb_collision(ball_pos: Vec2i, ball_size: Vec2i, target_pos: Vec2i, target_size: Vec2i) -> (r:
    Option<CollisionSide>)
    requires
        in_coord_range(ball_pos),
        in_coord_range(ball_size),
        in_coord_range(target_pos),
        in_coord_range(target_size),
    ensures
        r == aabb_side(ball_pos, ball_size, target_pos, target_size),
{
    let dx = ball_pos.x - target_pos.x;
    let dy = ball_pos.y - target_pos.y;
    let adx = if dx < 0 {
        -dx
    } else {
        dx
    };
    let ady = if dy < 0 {
        -dy
    } else {
        dy
    };
    let ox = ball_size.x + target_size.x - 2 * adx;
    let oy = ball_size.y + target_size.y - 2 * ady;

    if ox <= 0 || oy <= 0 {
        None
    } else if ox < oy {
        if dx > 0 {
            Some(CollisionSide::Right)
        } else {
            Some(CollisionSide::Left)
        }
    } else if dy > 0 {
        Some(CollisionSide::Top)
    } else {
        Some(CollisionSide::Bottom)
    }
}

/// Clamps a coordinate back into the coordinate bound.
pub fn clamp_coord(v: i64) -> (r: i64)
    ensures
        r == clamp_val(v as int, -COORD_LIMIT as int, COORD_LIMIT as int),
{
    if v < -COORD_LIMIT {
        -COORD_LIMIT
    } else if v > COORD_LIMIT {
        COORD_LIMIT
    } else {
        v
    }
}

/// Division that rounds towards zero, for a positive divisor: the form of
/// division the executable arithmetic in this crate uses.
pub open spec fn tdiv(a: int, b: int) -> int {
    if a < 0 {
        -((-a) / b)
    } else {
        a / b
    }
}

/// Truncating division on machine integers.
pub fn tdiv64(a: i64, b: i64) -> (r: i64)
    requires
        b > 0,
        a > i64::MIN,
    ensures
        r == tdiv(a as int, b as int),
        abs_val(r as int) <= abs_val(a as int),
{
    if a < 0 {
        -((-a) / b)
    } else {
        a / b
    }
}

/// The integer square root: the largest `r` with `r * r <= n`.
pub open spec fn spec_isqrt(n: nat) -> nat
    decreases n,
{
    if n == 0 {
        0
    } else {
        let r = spec_isqrt((n - 1) as nat);
        if (r + 1) * (r + 1) <= n {
            r + 1
        } else {
            r
        }
    }
}

/// `spec_isqrt(n)` squares to at most `n`, and the next integer squares
/// past `n`.
pub proof fn lemma_isqrt_bounds(n: nat)
    ensures
        spec_isqrt(n) * spec_isqrt(n) <= n,
        n < (spec_isqrt(n) + 1) * (spec_isqrt(n) + 1),
    decreases n,
{
    if n > 0 {
        lemma_isqrt_bounds((n - 1) as nat);
        let r = spec_isqrt((n - 1) as nat);
        assert(spec_isqrt(n) == if (r + 1) * (r + 1) <= n {
            r + 1
        } else {
            r
        });
        if (r + 1) * (r + 1) <= n {
            assert(n < (r + 2) * (r + 2)) by (nonlinear_arith)
                requires
                    n - 1 < (r + 1) * (r + 1),
                    r >= 0,
            ;
            assert(spec_isqrt(n) == r + 1);
        } else {
            assert(spec_isqrt(n) == r);
        }
    } else {
        assert(spec_isqrt(n) == 0);
        assert(n < (spec_isqrt(n) + 1) * (spec_isqrt(n) + 1)) by (nonlinear_arith)
            requires
                n == 0,
                spec_isqrt(n) == 0,
        ;
    }
}

/// Any `r` whose square brackets `n` is the integer square root.
pub proof fn lemma_isqrt_unique(n: nat, r: nat)
    requires
        r * r <= n,
        n < (r + 1) * (r + 1),
    ensures
        r == spec_isqrt(n),
{
    lemma_isqrt_bounds(n);
    let s = spec_isqrt(n);
    if r < s {
        assert((r + 1) * (r + 1) <= s * s) by (nonlinear_arith)
            requires
                0 <= r + 1 <= s,
        ;
    }
    if s < r {
        assert((s + 1) * (s + 1) <= r * r) by (nonlinear_arith)
            requires
                0 <= s + 1 <= r,
        ;
    }
}

/// The integer square root of a machine word, by binary search.
pub fn isqrt64(n: u64) -> (r: u64)
    ensures
        r == spec_isqrt(n as nat),
        r * r <= n,
{
    let mut lo: u64 = 0;
    let mut hi: u64 = 4_294_967_296;
    while lo + 1 < hi
        invariant
            lo < hi <= 4_294_967_296,
            lo * lo <= n,
            (hi as int) * (hi as int) > n,
        decreases hi - lo,
    {
        let mid = lo + (hi - lo) / 2;
        proof {
            assert((mid as int) * (mid as int) < 18446744073709551616) by (nonlinear_arith)
                requires
                    0 <= mid as int <= 4_294_967_295,
            ;
        }
        if mid * mid <= n {
            lo = mid;
        } else {
            hi = mid;
        }
    }
    proof {
        lemma_isqrt_unique(n as nat, lo as nat);
    }
    lo
}

/// No-overlap detection is symmetric: whenever the two rectangles do not
/// strictly overlap, the test returns `None` no matter which of the two is
/// passed first, and exact edge contact (overlap zero on either axis)
/// counts as no overlap.
pub proof fn lemma_no_overlap_symmetric(a_pos: Vec2i, a_size: Vec2i, b_pos: Vec2i, b_size: Vec2i)
    requires
        overlap2_x(a_pos, a_size, b_pos, b_size) <= 0 || overlap2_y(a_pos, a_size, b_pos, b_size)
            <= 0,
    ensures
        aabb_side(a_pos, a_size, b_pos, b_size) is None,
        aabb_side(b_pos, b_size, a_pos, a_size) is None,
{
}

} // verus!
