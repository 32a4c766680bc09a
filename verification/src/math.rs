//! Integer plane geometry for the simulation: positions, velocities,
//! squared distances, and a fixed-point "seek" direction.
//!
//! World coordinates are whole units; comparisons between distances use the
//! squared distance, which needs no root and preserves order. Where the host
//! would normalize a vector, `normalize_scaled` computes the same direction
//! in fixed point with a verified integer square root, so a zero-length
//! vector yields a zero result instead of an invalid one.

use vstd::prelude::*;

verus! {

/// Sub-unit precision used when normalizing a direction: lengths are
/// measured in thousandths of a world unit.
pub const NORM_SCALE: u64 = 1000;

/// A point of the world plane, in whole units.
#[derive(Clone, Copy, PartialEq, Eq, Structural, Debug)]
pub struct Position {
    pub x: i32,
    pub y: i32,
}

/// A linear velocity, in whole units per second along each axis.
#[derive(Clone, Copy, PartialEq, Eq, Structural, Debug)]
pub struct Velocity {
    pub x: i64,
    pub y: i64,
}

impl Velocity {
    /// The velocity of something standing still.
    pub fn zero() -> (v: Velocity)
        ensures
            v == (Velocity { x: 0, y: 0 }),
    {
        Velocity { x: 0, y: 0 }
    }
}

/// The squared Euclidean distance between two points.
pub open spec fn spec_distance_squared(a: Position, b: Position) -> int {
    (a.x - b.x) * (a.x - b.x) + (a.y - b.y) * (a.y - b.y)
}

/// Compute the squared Euclidean distance between two points.
pub fn distance_squared(a: Position, b: Position) -> (d: u128)
    ensures
        d == spec_distance_squared(a, b),
{
    let dx: i128 = a.x as i128 - b.x as i128;
    let dy: i128 = a.y as i128 - b.y as i128;
    proof {
        assert(0 <= dx * dx <= 0x10000000000000000 && 0 <= dy * dy <= 0x10000000000000000)
            by (nonlinear_arith)
            requires
                -0x100000000 <= dx <= 0x100000000,
                -0x100000000 <= dy <= 0x100000000,
        ;
    }
    (dx * dx + dy * dy) as u128
}

/// The integer square root: the largest `r` with `r * r <= n`.
pub open spec fn sqrt_floor(n: nat) -> nat
    decreases n,
{
    if n == 0 {
        0
    } else {
        let p = sqrt_floor((n - 1) as nat);
        if (p + 1) * (p + 1) <= n {
            p + 1
        } else {
            p
        }
    }
}

/// `sqrt_floor(n)` squared is at most `n`, and the next square is beyond it.
pub proof fn lemma_sqrt_floor_bounds(n: nat)
    ensures
        sqrt_floor(n) * sqrt_floor(n) <= n,
        n < (sqrt_floor(n) + 1) * (sqrt_floor(n) + 1),
    decreases n,
{
    if n == 0 {
        assert(n < (sqrt_floor(n) + 1) * (sqrt_floor(n) + 1)) by (nonlinear_arith)
            requires
                n == 0,
                sqrt_floor(n) == 0,
        ;
    }
    if n > 0 {
        lemma_sqrt_floor_bounds((n - 1) as nat);
        let p = sqrt_floor((n - 1) as nat);
        assert(sqrt_floor(n) == if (p + 1) * (p + 1) <= n {
            p + 1
        } else {
            p as nat
        });
        if (p + 1) * (p + 1) <= n {
            assert(n < (p + 2) * (p + 2)) by (nonlinear_arith)
                requires
                    n <= (p + 1) * (p + 1),
                    p >= 0,
            ;
        }
    }
}

/// No two numbers are the integer square root of the same `n`.
pub proof fn lemma_sqrt_floor_unique(n: nat, r: nat)
    requires
        r * r <= n,
        n < (r + 1) * (r + 1),
    ensures
        r == sqrt_floor(n),
{
    lemma_sqrt_floor_bounds(n);
    let s = sqrt_floor(n);
    if r < s {
        assert((r + 1) * (r + 1) <= s * s) by (nonlinear_arith)
            requires
                0 <= r + 1 <= s,
        ;
    }
    if s < r {
        assert((s + 1) * (s + 1) <= r * r) by (nonlinear_arith)
            requires
                0 <= s + 1 <= r,
        ;
    }
}

/// Compute the integer square root of `n` by bisection.
pub fn isqrt(n: u128) -> (r: u64)
    ensures
        r == sqrt_floor(n as nat),
{
    let mut lo: u128 = 0;
    let mut hi: u128 = 0x10000000000000000;
    while lo + 1 < hi
        invariant
            lo < hi <= 0x10000000000000000,
            lo * lo <= n,
            n < hi * hi,
        decreases hi - lo,
    {
        let mid: u128 = lo + (hi - lo) / 2;
        proof {
            assert(mid * mid <= u128::MAX) by (nonlinear_arith)
                requires
                    0 <= mid <= 0xffffffffffffffff,
            ;
        }
        if mid * mid <= n {
            lo = mid;
        } else {
            hi = mid;
        }
    }
    proof {
        lemma_sqrt_floor_unique(n as nat, lo as nat);
    }
    lo as u64
}

/// One coordinate of the fixed-point "seek" direction: the unit vector from
/// the origin toward `(dx, dy)`, scaled by `speed`. `d` is the coordinate
/// being computed (either `dx` or `dy`). A zero vector seeks nowhere.
pub open spec fn steer_component(d: int, dx: int, dy: int, speed: int) -> int {
    if dx == 0 && dy == 0 {
        0
    } else {
        let len = sqrt_floor(((dx * dx + dy * dy) * (NORM_SCALE * NORM_SCALE)) as nat) as int;
        if d >= 0 {
            (d * speed * NORM_SCALE) / len
        } else {
            -(((-d) * speed * NORM_SCALE) / len)
        }
    }
}

/// Scale the direction of `(dx, dy)` to (approximately) length `speed`,
/// in fixed-point integer arithmetic. The zero vector maps to the zero
/// velocity — never to an invalid value.
pub fn normalize_scaled(dx: i64, dy: i64, speed: u64) -> (v: Velocity)
    requires
        -0x100000000 <= dx <= 0x100000000,
        -0x100000000 <= dy <= 0x100000000,
        speed <= 1000000,
    ensures
        v.x == steer_component(dx as int, dx as int, dy as int, speed as int),
        v.y == steer_component(dy as int, dx as int, dy as int, speed as int),
        dx == 0 && dy == 0 ==> v == (Velocity { x: 0, y: 0 }),
{
    if dx == 0 && dy == 0 {
        return Velocity { x: 0, y: 0 };
    }
    let ax: u64 = if dx < 0 {
        (-dx) as u64
    } else {
        dx as u64
    };
    let ay: u64 = if dy < 0 {
        (-dy) as u64
    } else {
        dy as u64
    };
    proof {
        assert(ax * ax == dx * dx && ay * ay == dy * dy) by (nonlinear_arith)
            requires
                ax == if dx < 0 { -dx as int } else { dx as int },
                ay == if dy < 0 { -dy as int } else { dy as int },
        ;
        assert(0 <= ax * ax <= 0x10000000000000000 && 0 <= ay * ay <= 0x10000000000000000)
            by (nonlinear_arith)
            requires
                0 <= ax <= 0x100000000,
                0 <= ay <= 0x100000000,
        ;
        assert((ax * ax + ay * ay) * (NORM_SCALE * NORM_SCALE) <= u128::MAX) by (nonlinear_arith)
            requires
                0 <= ax * ax + ay * ay <= 0x20000000000000000,
        ;
    }
    let n2: u128 = (ax as u128) * (ax as u128) + (ay as u128) * (ay as u128);
    let scaled: u128 = n2 * ((NORM_SCALE * NORM_SCALE) as u128);
    let len: u64 = isqrt(scaled);
    proof {
        lemma_sqrt_floor_bounds(scaled as nat);
        assert(n2 >= 1) by (nonlinear_arith)
            requires
                n2 == ax * ax + ay * ay,
                ax >= 1 || ay >= 1,
        ;
        assert(scaled >= NORM_SCALE * NORM_SCALE) by (nonlinear_arith)
            requires
                scaled == n2 * (NORM_SCALE * NORM_SCALE),
                n2 >= 1,
        ;
        assert(len >= 1) by (nonlinear_arith)
            requires
                scaled < (len + 1) * (len + 1),
                scaled >= 1000000,
        ;
        assert(ax * speed * NORM_SCALE <= 0x100000000 * 1000000 * 1000) by (nonlinear_arith)
            requires
                0 <= ax <= 0x100000000,
                0 <= speed <= 1000000,
        ;
        assert(ay * speed * NORM_SCALE <= 0x100000000 * 1000000 * 1000) by (nonlinear_arith)
            requires
                0 <= ay <= 0x100000000,
                0 <= speed <= 1000000,
        ;
    }
    let vx_mag: u64 = ax * speed * NORM_SCALE / len;
    let vy_mag: u64 = ay * speed * NORM_SCALE / len;
    let vx: i64 = if dx < 0 {
        -(vx_mag as i64)
    } else {
        vx_mag as i64
    };
    let vy: i64 = if dy < 0 {
        -(vy_mag as i64)
    } else {
        vy_mag as i64
    };
    Velocity { x: vx, y: vy }
}

} // verus!
