//! Motion of a single particle: explicit Euler integration, the pointer's
//! repulsion and the wrap at the canvas floor.

use vstd::prelude::*;
use vstd::arithmetic::div_mod::{lemma_fundamental_div_mod, lemma_mod_pos_bound};
use crate::units::{Point, Velocity, Canvas, DT_LIMIT, MICROS_PER_SECOND};

verus! {

/// Distance from the pointer within which particles are pushed away (200 canvas units).
pub const REPEL_RADIUS: i64 = 200_000_000_000;

/// Strength of the push per unit of distance left inside the radius.
pub const REPEL_GAIN: i64 = 2;

/// Bound on the displacement that one step's push can cause.
pub const PUSH_LIMIT: i64 = 7_000_000_000_000;

/// Offset from a particle's position to the far end of its drawn line
/// segment: `(-1.5, 8.0)` canvas units.
pub const TRAIL_DX: i64 = -1_500_000_000;
pub const TRAIL_DY: i64 = 8_000_000_000;

/// The floor of the square root of `s`.
pub open spec fn root(s: nat) -> nat
    decreases s,
{
    if s == 0 {
        0
    } else {
        let r = root((s - 1) as nat);
        if (r + 1) * (r + 1) <= s {
            r + 1
        } else {
            r
        }
    }
}

/// Magnitude of the repulsion force at distance `dist` (position units per
/// second): it falls linearly with distance and is zero from the radius on.
pub open spec fn strength(dist: int) -> int {
    if dist < REPEL_RADIUS {
        (REPEL_RADIUS - dist) * REPEL_GAIN
    } else {
        0
    }
}

/// One component of the displacement caused by the repulsion over `dt`
/// microseconds, where `delta` is that component of `pointer - position` and
/// `dist` the distance: `delta / dist * strength(dist) * dt`, rounded toward zero.
/// The particle moves by minus this amount.
pub open spec fn push_amount(delta: int, dist: int, dt: int) -> int {
    if delta >= 0 {
        delta * strength(dist) * dt / (dist * MICROS_PER_SECOND)
    } else {
        -((-delta) * strength(dist) * dt / (dist * MICROS_PER_SECOND))
    }
}

/// Whether a particle at squared distance `sq` from the pointer is pushed:
/// closer than the radius, and not exactly on the pointer (where the
/// direction is undefined).
pub open spec fn in_reach(sq: int) -> bool {
    0 < sq < REPEL_RADIUS * REPEL_RADIUS
}

/// The position after integration alone: `position + velocity * dt`.
pub open spec fn drifted(position: Point, velocity: Velocity, dt: int) -> (int, int) {
    (position.x + velocity.x * dt, position.y + velocity.y * dt)
}

/// The position after one step of integration and repulsion, before the wrap.
pub open spec fn advanced(position: Point, velocity: Velocity, dt: int, pointer: Point) -> (int, int) {
    let (x, y) = drifted(position, velocity, dt);
    let dx = pointer.x - x;
    let dy = pointer.y - y;
    let sq = dx * dx + dy * dy;
    if in_reach(sq) {
        let d = root(sq as nat) as int;
        (x - push_amount(dx, d, dt), y - push_amount(dy, d, dt))
    } else {
        (x, y)
    }
}

/// The wrap policy: a position below the floor goes to the top edge with the
/// freshly drawn `fresh_x`; any other stays.
pub open spec fn wrapped(moved: Point, canvas: Canvas, fresh_x: int) -> (int, int) {
    if moved.y < canvas.bottom {
        (fresh_x, canvas.top as int)
    } else {
        (moved.x as int, moved.y as int)
    }
}

pub proof fn lemma_root_bounds(s: nat)
    ensures
        root(s) * root(s) <= s < (root(s) + 1) * (root(s) + 1),
    decreases s,
{
    if s > 0 {
        lemma_root_bounds((s - 1) as nat);
        let r = root((s - 1) as nat);
        assert(r * r <= s - 1 < (r + 1) * (r + 1));
        assert(root(s) == if (r + 1) * (r + 1) <= s { r + 1 } else { r });
        if (r + 1) * (r + 1) <= s {
            assert(s < (r + 2) * (r + 2)) by (nonlinear_arith)
                requires
                    s - 1 < (r + 1) * (r + 1),
            ;
            let q = root(s);
            assert(q * q <= s < (q + 1) * (q + 1)) by (nonlinear_arith)
                requires
                    q == r + 1,
                    (r + 1) * (r + 1) <= s,
                    s < (r + 2) * (r + 2),
            ;
        } else {
            assert(root(s) == r);
            assert(root(s) * root(s) <= s);
            assert(s < (root(s) + 1) * (root(s) + 1));
        }
    } else {
        assert(root(s) == 0);
        assert(root(s) * root(s) == 0 && (root(s) + 1) * (root(s) + 1) == 1) by (nonlinear_arith)
            requires
                root(s) == 0,
        ;
    }
}

pub proof fn lemma_root_unique(s: nat, r: nat)
    requires
        r * r <= s < (r + 1) * (r + 1),
    ensures
        root(s) == r,
{
    lemma_root_bounds(s);
    let q = root(s);
    if q < r {
        assert((q + 1) * (q + 1) <= r * r) by (nonlinear_arith)
            requires
                q + 1 <= r,
        ;
    } else if q > r {
        assert((r + 1) * (r + 1) <= q * q) by (nonlinear_arith)
            requires
                r + 1 <= q,
        ;
    }
}

pub proof fn lemma_root_monotone(s1: nat, s2: nat)
    requires
        s1 <= s2,
    ensures
        root(s1) <= root(s2),
{
    lemma_root_bounds(s1);
    lemma_root_bounds(s2);
    let q1 = root(s1);
    let q2 = root(s2);
    if q1 > q2 {
        assert((q2 + 1) * (q2 + 1) <= q1 * q1) by (nonlinear_arith)
            requires
                q2 + 1 <= q1,
        ;
    }
}

/// The floor of the square root of `s`, for a squared distance in reach.
fn floor_root(s: u128) -> (r: u128)
    requires
        in_reach(s as int),
    ensures
        r as int == root(s as nat),
        0 < r < REPEL_RADIUS,
{
    let mut lo: u128 = 0;
    let mut hi: u128 = REPEL_RADIUS as u128;
    while hi - lo > 1
        invariant
            lo < hi <= REPEL_RADIUS,
            lo * lo <= s < hi * hi,
        decreases hi - lo,
    {
        let mid: u128 = lo + (hi - lo) / 2;
        assert(mid * mid <= REPEL_RADIUS * REPEL_RADIUS) by (nonlinear_arith)
            requires
                mid <= REPEL_RADIUS,
        ;
        if mid * mid <= s {
            lo = mid;
        } else {
            hi = mid;
        }
    }
    proof {
        lemma_root_unique(s as nat, lo as nat);
        assert(lo > 0) by (nonlinear_arith)
            requires
                0 < s < (lo + 1) * (lo + 1),
                hi == lo + 1,
                s < hi * hi,
                lo * lo <= s,
                lo >= 0,
        ;
    }
    lo
}

/// One component of the push (see `push_amount`) for a particle in reach.
fn push(delta: i64, dist: u128, dt: u64) -> (r: i64)
    requires
        0 < dist < REPEL_RADIUS,
        delta * delta < (dist + 1) * (dist + 1),
        dt <= DT_LIMIT,
    ensures
        r == push_amount(delta as int, dist as int, dt as int),
        -PUSH_LIMIT <= r <= PUSH_LIMIT,
{
    let a: u128 = if delta >= 0 {
        delta as u128
    } else {
        (-(delta as i128)) as u128
    };
    assert(a <= dist) by (nonlinear_arith)
        requires
            a == delta || a == -delta,
            delta * delta < (dist + 1) * (dist + 1),
            0 <= a,
            0 < dist,
    ;
    let g: u128 = (REPEL_RADIUS as u128 - dist) * 2;
    assert(g == strength(dist as int));
    assert(a * g <= dist * (2 * REPEL_RADIUS)) by (nonlinear_arith)
        requires
            a <= dist,
            0 <= g <= 2 * REPEL_RADIUS,
    ;
    assert(a * g * dt <= dist * (2 * REPEL_RADIUS) * DT_LIMIT) by (nonlinear_arith)
        requires
            0 <= a * g <= dist * (2 * REPEL_RADIUS),
            0 <= dt <= DT_LIMIT,
    ;
    assert(dist * (2 * REPEL_RADIUS) * DT_LIMIT <= REPEL_RADIUS * (2 * REPEL_RADIUS) * DT_LIMIT)
        by (nonlinear_arith)
        requires
            dist < REPEL_RADIUS,
    ;
    let n: u128 = a * g * (dt as u128);
    let k: u128 = dist * (MICROS_PER_SECOND as u128);
    let m: u128 = n / k;
    proof {
        lemma_fundamental_div_mod(n as int, k as int);
        lemma_mod_pos_bound(n as int, k as int);
        assert(m * k <= n) by (nonlinear_arith)
            requires
                n == k * m + n % k,
                n % k >= 0,
        ;
        assert(m * MICROS_PER_SECOND <= 2 * REPEL_RADIUS * DT_LIMIT) by (nonlinear_arith)
            requires
                m * (dist * MICROS_PER_SECOND) <= n,
                n <= dist * (2 * REPEL_RADIUS) * DT_LIMIT,
                0 < dist,
                0 <= m,
        ;
    }
    if delta >= 0 {
        m as i64
    } else {
        -(m as i64)
    }
}

/// Integrates one particle over `dt` microseconds and applies the pointer's
/// repulsion (no wrap).
pub fn advance(position: Point, velocity: Velocity, dt: u64, pointer: Point) -> (r: Point)
    requires
        position.fits(),
        velocity.fits(),
        pointer.fits(),
        dt <= DT_LIMIT,
    ensures
        (r.x as int, r.y as int) == advanced(position, velocity, dt as int, pointer),
{
    let t: i64 = dt as i64;
    assert(-0x1_0000_0000_0000_00 <= velocity.x * t <= 0x1_0000_0000_0000_00) by (nonlinear_arith)
        requires
            -0x1_0000_0000 <= velocity.x <= 0x1_0000_0000,
            0 <= t <= 0x100_0000,
    ;
    assert(-0x1_0000_0000_0000_00 <= velocity.y * t <= 0x1_0000_0000_0000_00) by (nonlinear_arith)
        requires
            -0x1_0000_0000 <= velocity.y <= 0x1_0000_0000,
            0 <= t <= 0x100_0000,
    ;
    let x: i64 = position.x + velocity.x * t;
    let y: i64 = position.y + velocity.y * t;
    let dx: i64 = pointer.x - x;
    let dy: i64 = pointer.y - y;
    let ghost sq: int = dx * dx + dy * dy;
    if -REPEL_RADIUS < dx && dx < REPEL_RADIUS && -REPEL_RADIUS < dy && dy < REPEL_RADIUS {
        let wx: i128 = dx as i128;
        let wy: i128 = dy as i128;
        assert(wx * wx < REPEL_RADIUS * REPEL_RADIUS && wy * wy < REPEL_RADIUS * REPEL_RADIUS
            && wx * wx >= 0 && wy * wy >= 0) by (nonlinear_arith)
            requires
                -REPEL_RADIUS < wx < REPEL_RADIUS,
                -REPEL_RADIUS < wy < REPEL_RADIUS,
        ;
        let s: i128 = wx * wx + wy * wy;
        if 0 < s && s < (REPEL_RADIUS as i128) * (REPEL_RADIUS as i128) {
            let d: u128 = floor_root(s as u128);
            proof {
                lemma_root_bounds(s as nat);
            }
            let px: i64 = push(dx, d, dt);
            let py: i64 = push(dy, d, dt);
            return Point { x: x - px, y: y - py };
        }
    } else {
        assert(!in_reach(sq)) by (nonlinear_arith)
            requires
                sq == dx * dx + dy * dy,
                dx <= -REPEL_RADIUS || dx >= REPEL_RADIUS || dy <= -REPEL_RADIUS || dy
                    >= REPEL_RADIUS,
        ;
    }
    Point { x, y }
}

/// Applies the wrap policy to a moved position; `fresh_x` is the horizontal
/// position drawn for a respawn.
pub fn wrap(moved: Point, canvas: Canvas, fresh_x: i64) -> (r: Point)
    ensures
        (r.x as int, r.y as int) == wrapped(moved, canvas, fresh_x as int),
{
    if moved.y < canvas.bottom {
        Point { x: fresh_x, y: canvas.top }
    } else {
        moved
    }
}

/// The two ends of the line segment drawn for a particle at `position`.
pub fn trail(position: Point) -> (r: (Point, Point))
    requires
        position.fits(),
    ensures
        r.0 == position,
        r.1.x == position.x + TRAIL_DX,
        r.1.y == position.y + TRAIL_DY,
{
    (position, Point { x: position.x + TRAIL_DX, y: position.y + TRAIL_DY })
}

} // verus!
