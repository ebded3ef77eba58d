//! Integer vector arithmetic for the simulation: squared speeds, integer
//! square roots, rescaling a velocity onto a speed limit, damping, and the
//! clamping of coordinates into the stadium.

use vstd::prelude::*;
use vstd::arithmetic::div_mod::{lemma_fundamental_div_mod, lemma_mod_bound, lemma_div_pos_is_pos};

verus! {

/// Squared magnitude of a velocity vector.
pub open spec fn speed_sq(vx: int, vy: int) -> int {
    vx * vx + vy * vy
}

/// Largest `r` with `r * r <= n`.
pub open spec fn sqrt_floor(n: nat) -> nat
    decreases n,
{
    if n == 0 {
        0
    } else {
        let r = sqrt_floor((n - 1) as nat);
        if (r + 1) * (r + 1) <= n {
            r + 1
        } else {
            r
        }
    }
}

/// Smallest `r` with `n <= r * r`.
pub open spec fn sqrt_ceil(n: nat) -> nat {
    if sqrt_floor(n) * sqrt_floor(n) == n {
        sqrt_floor(n)
    } else {
        sqrt_floor(n) + 1
    }
}

pub proof fn lemma_sqrt_floor(n: nat)
    ensures
        sqrt_floor(n) * sqrt_floor(n) <= n,
        n < (sqrt_floor(n) + 1) * (sqrt_floor(n) + 1),
        sqrt_floor(n) <= n,
    decreases n,
{
    if n > 0 {
        lemma_sqrt_floor((n - 1) as nat);
        let r = sqrt_floor((n - 1) as nat);
        assert(r * r <= (n - 1) as nat);
        assert(((n - 1) as nat) < (r + 1) * (r + 1));
        if (r + 1) * (r + 1) <= n {
            assert(sqrt_floor(n) == r + 1);
            assert((r + 2) * (r + 2) > n) by (nonlinear_arith)
                requires
                    (r + 1) * (r + 1) > n - 1,
            ;
            assert(r + 1 <= n) by (nonlinear_arith)
                requires
                    (r + 1) * (r + 1) <= n,
            ;
            assert(sqrt_floor(n) * sqrt_floor(n) <= n);
            assert(n < (sqrt_floor(n) + 1) * (sqrt_floor(n) + 1));
        } else {
            assert(sqrt_floor(n) == r);
            assert(r * r <= n - 1 <= n);
            assert(sqrt_floor(n) * sqrt_floor(n) <= n);
            assert(n < (sqrt_floor(n) + 1) * (sqrt_floor(n) + 1));
        }
    } else {
        assert(sqrt_floor(0) == 0);
        assert(sqrt_floor(n) * sqrt_floor(n) <= n);
        assert(n < (sqrt_floor(n) + 1) * (sqrt_floor(n) + 1)) by (nonlinear_arith)
            requires
                n == 0,
                sqrt_floor(n) == 0,
        ;
    }
}

pub proof fn lemma_sqrt_ceil(n: nat)
    ensures
        n <= sqrt_ceil(n) * sqrt_ceil(n),
        n > 0 ==> sqrt_ceil(n) >= 1,
{
    lemma_sqrt_floor(n);
}

/// Any `r` bracketing `n` between consecutive squares is the floor root.
pub proof fn lemma_sqrt_floor_unique(n: nat, r: nat)
    requires
        r * r <= n,
        n < (r + 1) * (r + 1),
    ensures
        r == sqrt_floor(n),
{
    lemma_sqrt_floor(n);
    let s = sqrt_floor(n);
    if r < s {
        assert((r + 1) * (r + 1) <= s * s) by (nonlinear_arith)
            requires
                r + 1 <= s,
        ;
    }
    if s < r {
        assert((s + 1) * (s + 1) <= r * r) by (nonlinear_arith)
            requires
                s + 1 <= r,
        ;
    }
}

/// Integer square root, rounded down.
pub fn isqrt(n: u64) -> (r: u64)
    requires
        n <= 4_000_000_000_000,
    ensures
        r == sqrt_floor(n as nat),
{
    let mut r: u64 = 0;
    loop
        invariant
            n <= 4_000_000_000_000,
            r * r <= n,
            r <= 2_000_000,
        ensures
            r * r <= n < (r + 1) * (r + 1),
        decreases n - r,
    {
        proof {
            assert((r + 1) * (r + 1) <= 4_000_004_000_001) by (nonlinear_arith)
                requires
                    r <= 2_000_000,
            ;
        }
        let next: u64 = (r + 1) * (r + 1);
        if next > n {
            break;
        }
        proof {
            assert(r + 1 <= 2_000_000) by (nonlinear_arith)
                requires
                    (r + 1) * (r + 1) <= 4_000_000_000_000,
            ;
            assert(r + 1 <= n) by (nonlinear_arith)
                requires
                    (r + 1) * (r + 1) <= n,
            ;
        }
        r = r + 1;
    }
    proof {
        lemma_sqrt_floor_unique(n as nat, r as nat);
    }
    r
}

/// Integer square root, rounded up.
pub fn isqrt_ceil(n: u64) -> (r: u64)
    requires
        n <= 4_000_000_000_000,
    ensures
        r == sqrt_ceil(n as nat),
        n > 0 ==> r >= 1,
        r <= 2_000_001,
{
    let f = isqrt(n);
    proof {
        lemma_sqrt_floor(n as nat);
        lemma_sqrt_ceil(n as nat);
        assert(f <= 2_000_000) by (nonlinear_arith)
            requires
                f * f <= 4_000_000_000_000,
        ;
    }
    if f * f == n {
        f
    } else {
        f + 1
    }
}

/// `v` divided by `k`, truncated toward zero.
pub open spec fn div_trunc(v: int, k: int) -> int {
    if v >= 0 {
        v / k
    } else {
        -((-v) / k)
    }
}

/// Scales `v` by the ratio `top / d`, truncated toward zero: the `x` or `y`
/// component of a velocity rescaled onto a speed limit.
pub open spec fn scale_vel(v: int, top: int, d: int) -> int {
    div_trunc(v * top, d)
}

proof fn lemma_div_mul_le(a: int, d: int)
    requires
        a >= 0,
        d > 0,
    ensures
        a / d >= 0,
        0 <= (a / d) * d <= a,
        a / d <= a,
{
    let q = a / d;
    lemma_fundamental_div_mod(a, d);
    lemma_mod_bound(a, d);
    lemma_div_pos_is_pos(a, d);
    assert(a == d * q + a % d);
    assert(q * d >= 0) by (nonlinear_arith)
        requires
            q >= 0,
            d > 0,
    ;
    assert(q <= q * d) by (nonlinear_arith)
        requires
            q >= 0,
            d >= 1,
    ;
}

/// The magnitude form of `scale_vel`: for `v >= 0` it is an ordinary
/// nonnegative flooring division of `v * top` by `d`.
proof fn lemma_scale_vel_nonneg(v: int, top: int, d: int)
    requires
        v >= 0,
        top >= 0,
        d > 0,
    ensures
        0 <= scale_vel(v, top, d),
        scale_vel(v, top, d) * d <= v * top,
{
    assert(v * top >= 0) by (nonlinear_arith)
        requires
            v >= 0,
            top >= 0,
    ;
    lemma_div_mul_le(v * top, d);
}

/// Scaling is odd in `v`: the scaled opposite is the opposite of the scaled.
proof fn lemma_scale_vel_neg(v: int, top: int, d: int)
    requires
        top >= 0,
        d > 0,
    ensures
        scale_vel(-v, top, d) == -scale_vel(v, top, d),
{
    assert((-v) * top == -(v * top)) by (nonlinear_arith);
}

/// One rescaled component squared, times `d * d`, is at most the original
/// component squared times `top * top`.
proof fn lemma_scale_vel_sq(v: int, top: int, d: int)
    requires
        top >= 0,
        d > 0,
    ensures
        scale_vel(v, top, d) * scale_vel(v, top, d) * (d * d) <= (v * v) * (top * top),
{
    let m = if v >= 0 { v } else { -v };
    let q = scale_vel(m, top, d);
    lemma_scale_vel_neg(m, top, d);
    assert(q == scale_vel(v, top, d) || q == -scale_vel(v, top, d));
    lemma_scale_vel_nonneg(m, top, d);
    assert((q * d) * (q * d) <= (m * top) * (m * top)) by (nonlinear_arith)
        requires
            0 <= q * d,
            q * d <= m * top,
    ;
    assert(q * q * (d * d) == (q * d) * (q * d)) by (nonlinear_arith);
    assert((m * top) * (m * top) == (m * m) * (top * top)) by (nonlinear_arith);
    assert(m * m == v * v) by (nonlinear_arith)
        requires
            m == v || m == -v,
    ;
    assert(q * q == scale_vel(v, top, d) * scale_vel(v, top, d)) by (nonlinear_arith)
        requires
            q == scale_vel(v, top, d) || q == -scale_vel(v, top, d),
    ;
}

/// Rescaling a vector of squared length at most `d * d` onto the limit `top`
/// yields a vector of squared length at most `top * top`.
pub proof fn lemma_scaled_speed_bound(vx: int, vy: int, top: int, d: int)
    requires
        top >= 0,
        d >= 1,
        speed_sq(vx, vy) <= d * d,
    ensures
        speed_sq(scale_vel(vx, top, d), scale_vel(vy, top, d)) <= top * top,
{
    let qx = scale_vel(vx, top, d);
    let qy = scale_vel(vy, top, d);
    lemma_scale_vel_sq(vx, top, d);
    lemma_scale_vel_sq(vy, top, d);
    assert((qx * qx + qy * qy) * (d * d) <= (vx * vx + vy * vy) * (top * top)) by (nonlinear_arith)
        requires
            qx * qx * (d * d) <= (vx * vx) * (top * top),
            qy * qy * (d * d) <= (vy * vy) * (top * top),
    ;
    assert((vx * vx + vy * vy) * (top * top) <= (d * d) * (top * top)) by (nonlinear_arith)
        requires
            vx * vx + vy * vy <= d * d,
            top * top >= 0,
    ;
    assert(d * d > 0) by (nonlinear_arith)
        requires
            d >= 1,
    ;
    assert(qx * qx + qy * qy <= top * top) by (nonlinear_arith)
        requires
            (qx * qx + qy * qy) * (d * d) <= (d * d) * (top * top),
            d * d > 0,
    ;
}

/// A squared speed within a squared limit bounds each component by the limit.
pub proof fn lemma_speed_component_bound(vx: int, vy: int, top: int)
    requires
        top >= 0,
        speed_sq(vx, vy) <= top * top,
    ensures
        -top <= vx <= top,
        -top <= vy <= top,
{
    assert(-top <= vx <= top && -top <= vy <= top) by (nonlinear_arith)
        requires
            vx * vx + vy * vy <= top * top,
            top >= 0,
    ;
}

/// Scales one signed component by `top / d`, truncating toward zero.
fn scale_component(v: i64, top: i64, d: u64) -> (r: i64)
    requires
        -2_000_000 <= v <= 2_000_000,
        0 <= top <= 2_000_000,
        d > 0,
    ensures
        r == scale_vel(v as int, top as int, d as int),
{
    let mag: u64 = if v < 0 {
        (-v) as u64
    } else {
        v as u64
    };
    proof {
        assert(mag * top <= 2_000_000 * 2_000_000) by (nonlinear_arith)
            requires
                0 <= mag <= 2_000_000,
                0 <= top <= 2_000_000,
        ;
        lemma_scale_vel_nonneg(mag as int, top as int, d as int);
        lemma_div_mul_le(mag as int * top as int, d as int);
    }
    let q: u64 = (mag * (top as u64)) / d;
    proof {
        lemma_scale_vel_neg(mag as int, top as int, d as int);
        assert(q == scale_vel(mag as int, top as int, d as int));
    }
    if v < 0 {
        -(q as i64)
    } else {
        q as i64
    }
}

/// A velocity after the speed governor: unchanged while within the limit,
/// otherwise rescaled onto it.
pub open spec fn clamp_vel(vx: int, vy: int, top: int) -> (int, int) {
    if speed_sq(vx, vy) <= top * top {
        (vx, vy)
    } else {
        let d = sqrt_ceil(speed_sq(vx, vy) as nat) as int;
        (scale_vel(vx, top, d), scale_vel(vy, top, d))
    }
}

/// The governed velocity is always within the limit.
pub proof fn lemma_clamp_vel_bound(vx: int, vy: int, top: int)
    requires
        top >= 0,
    ensures
        speed_sq(clamp_vel(vx, vy, top).0, clamp_vel(vx, vy, top).1) <= top * top,
{
    assert(vx * vx >= 0 && vy * vy >= 0) by (nonlinear_arith);
    let s2 = speed_sq(vx, vy);
    if s2 > top * top {
        lemma_sqrt_ceil(s2 as nat);
        let d = sqrt_ceil(s2 as nat) as int;
        lemma_scaled_speed_bound(vx, vy, top, d);
    }
}

/// Limits a velocity to `top_speed`: a vector faster than the limit is
/// rescaled to point the same way at the limit; a slower one is untouched.
pub fn limit_speed(vx: i64, vy: i64, top_speed: i64) -> (r: (i64, i64))
    requires
        0 <= top_speed <= 1_000_000,
        -1_000_000 <= vx <= 1_000_000,
        -1_000_000 <= vy <= 1_000_000,
    ensures
        (r.0 as int, r.1 as int) == clamp_vel(vx as int, vy as int, top_speed as int),
        speed_sq(r.0 as int, r.1 as int) <= top_speed * top_speed,
        speed_sq(vx as int, vy as int) <= top_speed * top_speed ==> r == (vx, vy),
        -top_speed <= r.0 <= top_speed || r == (vx, vy),
{
    proof {
        assert(0 <= vx * vx <= 1_000_000_000_000 && 0 <= vy * vy <= 1_000_000_000_000
            && top_speed * top_speed <= 1_000_000_000_000) by (nonlinear_arith)
            requires
                -1_000_000 <= vx <= 1_000_000,
                -1_000_000 <= vy <= 1_000_000,
                0 <= top_speed <= 1_000_000,
        ;
    }
    let s2: i64 = vx * vx + vy * vy;
    if s2 <= top_speed * top_speed {
        (vx, vy)
    } else {
        let d = isqrt_ceil(s2 as u64);
        proof {
            lemma_sqrt_ceil(s2 as nat);
            lemma_scaled_speed_bound(vx as int, vy as int, top_speed as int, d as int);
            lemma_speed_component_bound(
                scale_vel(vx as int, top_speed as int, d as int),
                scale_vel(vy as int, top_speed as int, d as int),
                top_speed as int,
            );
        }
        let rx = scale_component(vx, top_speed, d);
        let ry = scale_component(vy, top_speed, d);
        (rx, ry)
    }
}

/// The ball velocity produced by a kick from displacement `(dx, dy)`:
/// `top` units per tick along that direction, truncated toward zero.
pub open spec fn kick_vel(dx: int, dy: int, top: int) -> (int, int) {
    let d = sqrt_ceil(speed_sq(dx, dy) as nat) as int;
    (scale_vel(dx, top, d), scale_vel(dy, top, d))
}

/// Velocity imparted to the ball when a player displaced from it by
/// `(dx, dy)` kicks it: the ball leaves at `top_speed` (rounded down)
/// away from the player.
pub fn kick_velocity(dx: i64, dy: i64, top_speed: i64) -> (r: (i64, i64))
    requires
        0 <= top_speed <= 1_000_000,
        -1_000_000 <= dx <= 1_000_000,
        -1_000_000 <= dy <= 1_000_000,
        speed_sq(dx as int, dy as int) > 0,
    ensures
        (r.0 as int, r.1 as int) == kick_vel(dx as int, dy as int, top_speed as int),
        speed_sq(r.0 as int, r.1 as int) <= top_speed * top_speed,
        -top_speed <= r.0 <= top_speed,
        -top_speed <= r.1 <= top_speed,
{
    proof {
        assert(0 <= dx * dx <= 1_000_000_000_000 && 0 <= dy * dy <= 1_000_000_000_000)
            by (nonlinear_arith)
            requires
                -1_000_000 <= dx <= 1_000_000,
                -1_000_000 <= dy <= 1_000_000,
        ;
    }
    let s2: i64 = dx * dx + dy * dy;
    let d = isqrt_ceil(s2 as u64);
    proof {
        lemma_sqrt_ceil(s2 as nat);
        lemma_scaled_speed_bound(dx as int, dy as int, top_speed as int, d as int);
        lemma_speed_component_bound(
            scale_vel(dx as int, top_speed as int, d as int),
            scale_vel(dy as int, top_speed as int, d as int),
            top_speed as int,
        );
    }
    let rx = scale_component(dx, top_speed, d);
    let ry = scale_component(dy, top_speed, d);
    (rx, ry)
}

/// One tick of linear damping with strength `1 / k`: the velocity loses a
/// `k`-th of itself (truncated toward zero), so its magnitude never grows.
pub open spec fn damp_vel(v: int, k: int) -> int {
    v - div_trunc(v, k)
}

pub proof fn lemma_damp_vel_bound(v: int, k: int)
    requires
        k >= 1,
    ensures
        v >= 0 ==> 0 <= damp_vel(v, k) <= v,
        v < 0 ==> v <= damp_vel(v, k) <= 0,
        damp_vel(v, k) * damp_vel(v, k) <= v * v,
{
    let m = if v >= 0 { v } else { -v };
    lemma_div_mul_le(m, k);
    let w = damp_vel(v, k);
    assert(w * w <= v * v) by (nonlinear_arith)
        requires
            (v >= 0 && 0 <= w <= v) || (v < 0 && v <= w <= 0),
    ;
}

/// Damping a velocity within a speed limit keeps it within that limit.
pub proof fn lemma_damp_speed_bound(vx: int, vy: int, k: int, top: int)
    requires
        k >= 1,
        speed_sq(vx, vy) <= top * top,
    ensures
        speed_sq(damp_vel(vx, k), damp_vel(vy, k)) <= top * top,
{
    lemma_damp_vel_bound(vx, k);
    lemma_damp_vel_bound(vy, k);
}

/// Applies one tick of damping to a velocity component.
pub fn damp_component(v: i64, k: i64) -> (r: i64)
    requires
        k >= 1,
        -1_000_000 <= v <= 1_000_000,
    ensures
        r == damp_vel(v as int, k as int),
        v >= 0 ==> 0 <= r <= v,
        v < 0 ==> v <= r <= 0,
{
    proof {
        lemma_damp_vel_bound(v as int, k as int);
        lemma_div_mul_le(if v >= 0 { v as int } else { -v as int }, k as int);
    }
    if v < 0 {
        let q = ((-v) as u64 / k as u64) as i64;
        v + q
    } else {
        let q = (v as u64 / k as u64) as i64;
        v - q
    }
}

/// Half of a nonnegative length, rounded down.
pub fn half(v: i64) -> (r: i64)
    requires
        v >= 0,
    ensures
        r == v as int / 2,
{
    (v as u64 / 2) as i64
}

/// `v` forced into the closed interval `[lo, hi]`.
pub open spec fn clamp_int(v: int, lo: int, hi: int) -> int {
    if v < lo {
        lo
    } else if v > hi {
        hi
    } else {
        v
    }
}

/// Forces a coordinate into the closed interval `[lo, hi]`.
pub fn clamp_coord(v: i64, lo: i64, hi: i64) -> (r: i64)
    requires
        lo <= hi,
    ensures
        r == clamp_int(v as int, lo as int, hi as int),
        lo <= r <= hi,
{
    if v < lo {
        lo
    } else if v > hi {
        hi
    } else {
        v
    }
}

} // verus!
