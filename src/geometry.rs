//! Integer screen geometry and the clamped easing that moves a value towards
//! a target by a fixed budget per frame.
//!
//! A step budget `t` is counted in thousandths: `t / 1000` pixels for points
//! and sizes, `t` milliradians for angles.
//!
//! Coordinates are integers and each step is computed exactly, in 128-bit
//! integer arithmetic, so rounding towards the target is decided on the true
//! value of the step. Two integer points closer than any positive threshold
//! are equal, so snapping below a tiny distance is snapping at distance zero.

use vstd::arithmetic::div_mod::lemma_fundamental_div_mod;
use vstd::prelude::*;

verus! {

/// A point in screen coordinates.
#[derive(Clone, Copy, PartialEq, Eq, Structural, Debug)]
pub struct Point {
    pub x: i32,
    pub y: i32,
}

/// An extent on screen.
#[derive(Clone, Copy, PartialEq, Eq, Structural, Debug)]
pub struct Size {
    pub width: u32,
    pub height: u32,
}

impl Point {
    /// Creates a point.
    pub fn new(x: i32, y: i32) -> (r: Point)
        ensures
            r.x == x,
            r.y == y,
    {
        Point { x, y }
    }
}

impl Size {
    /// Creates a size.
    pub fn new(width: u32, height: u32) -> (r: Size)
        ensures
            r.width == width,
            r.height == height,
    {
        Size { width, height }
    }

    /// Creates a square size.
    pub fn new_equal(side: u32) -> (r: Size)
        ensures
            r.width == side,
            r.height == side,
    {
        Size { width: side, height: side }
    }
}

// ---------------------------------------------------------------------------
// Integer square roots

/// The largest `k` with `k * k <= n`.
pub open spec fn floor_sqrt(n: nat) -> nat
    decreases n,
{
    if n == 0 {
        0
    } else {
        let r = floor_sqrt((n - 1) as nat);
        if (r + 1) * (r + 1) <= n {
            r + 1
        } else {
            r
        }
    }
}

/// The smallest `k` with `n <= k * k`.
pub open spec fn ceil_sqrt(n: nat) -> nat {
    let r = floor_sqrt(n);
    if r * r == n {
        r
    } else {
        r + 1
    }
}

/// `n / m` rounded up.
pub open spec fn ceil_div(n: nat, m: nat) -> nat {
    if m == 0 {
        0
    } else if n % m == 0 {
        n / m
    } else {
        n / m + 1
    }
}

proof fn lemma_floor_sqrt_bounds(n: nat)
    ensures
        floor_sqrt(n) * floor_sqrt(n) <= n,
        n < (floor_sqrt(n) + 1) * (floor_sqrt(n) + 1),
    decreases n,
{
    if n > 0 {
        lemma_floor_sqrt_bounds((n - 1) as nat);
        let r = floor_sqrt((n - 1) as nat);
        let s = floor_sqrt(n);
        if (r + 1) * (r + 1) <= n {
            assert(s == r + 1);
            assert(n < (s + 1) * (s + 1)) by (nonlinear_arith)
                requires
                    s == r + 1,
                    n - 1 < (r + 1) * (r + 1),
            ;
        } else {
            assert(s == r);
        }
    } else {
        assert(floor_sqrt(n) == 0);
        assert(0 * 0 == 0 && 1 * 1 == 1) by (nonlinear_arith);
    }
}

proof fn lemma_square_monotone(a: int, b: int)
    requires
        0 <= a <= b,
    ensures
        a * a <= b * b,
{
    assert(a * a <= b * b) by (nonlinear_arith)
        requires
            0 <= a <= b,
    ;
}

/// Any `k` whose square brackets `n` is its floor root.
proof fn lemma_floor_sqrt_unique(n: nat, k: nat)
    requires
        k * k <= n,
        n < (k + 1) * (k + 1),
    ensures
        floor_sqrt(n) == k,
{
    lemma_floor_sqrt_bounds(n);
    let r = floor_sqrt(n);
    if r < k {
        lemma_square_monotone((r + 1) as int, k as int);
    } else if r > k {
        lemma_square_monotone((k + 1) as int, r as int);
    }
}

proof fn lemma_floor_sqrt_monotone(a: nat, b: nat)
    requires
        a <= b,
    ensures
        floor_sqrt(a) <= floor_sqrt(b),
{
    lemma_floor_sqrt_bounds(a);
    lemma_floor_sqrt_bounds(b);
    if floor_sqrt(a) > floor_sqrt(b) {
        lemma_square_monotone((floor_sqrt(b) + 1) as int, floor_sqrt(a) as int);
    }
}

proof fn lemma_floor_sqrt_of_square(k: nat)
    ensures
        floor_sqrt(k * k) == k,
{
    assert(k * k < (k + 1) * (k + 1)) by (nonlinear_arith);
    lemma_floor_sqrt_unique(k * k, k);
}

/// Both roots of a value at most `k * k` are at most `k`; the upper root of a
/// positive value is positive.
proof fn lemma_roots_bounded(n: nat, k: nat)
    requires
        n <= k * k,
    ensures
        floor_sqrt(n) <= k,
        ceil_sqrt(n) <= k,
        n > 0 ==> ceil_sqrt(n) >= 1,
{
    lemma_floor_sqrt_monotone(n, k * k);
    lemma_floor_sqrt_of_square(k);
    lemma_floor_sqrt_bounds(n);
    let r = floor_sqrt(n);
    if r * r != n && r == k {
        lemma_square_monotone(k as int, r as int);
    }
    if r == 0 {
        assert(r * r == 0);
    }
}

proof fn lemma_ceil_div_bounded(n: nat, m: nat, a: nat)
    requires
        m > 0,
        n <= a * m,
    ensures
        ceil_div(n, m) <= a,
        n > 0 ==> ceil_div(n, m) >= 1,
{
    lemma_fundamental_div_mod(n as int, m as int);
    let q = n / m;
    let r = n % m;
    assert(q <= a) by (nonlinear_arith)
        requires
            n == m * q + r,
            0 <= r,
            n <= a * m,
            m > 0,
            q >= 0,
    ;
    if r == 0 && n > 0 {
        assert(q > 0) by (nonlinear_arith)
            requires
                n == m * q + r,
                r == 0,
                n > 0,
                q >= 0,
        ;
    }
    if r != 0 {
        assert(q < a) by (nonlinear_arith)
            requires
                n == m * q + r,
                0 < r,
                n <= a * m,
                m > 0,
                q >= 0,
        ;
    }
}

proof fn lemma_div_bounded(n: nat, m: nat, a: nat)
    requires
        m > 0,
        n <= a * m,
    ensures
        n / m <= a,
{
    lemma_fundamental_div_mod(n as int, m as int);
    let q = n / m;
    let r = n % m;
    assert(q <= a) by (nonlinear_arith)
        requires
            n == m * q + r,
            0 <= r,
            n <= a * m,
            m > 0,
            q >= 0,
    ;
}

/// Floor square root of a `u128`, by bisection.
fn isqrt(n: u128) -> (r: u64)
    ensures
        r as nat == floor_sqrt(n as nat),
{
    let mut lo: u128 = 0;
    let mut hi: u128 = 0x1_0000_0000_0000_0000;
    assert(hi * hi == 0x1_0000_0000_0000_0000_0000_0000_0000_0000) by (nonlinear_arith)
        requires
            hi == 0x1_0000_0000_0000_0000u128,
    ;
    while hi - lo > 1
        invariant
            lo < hi <= 0x1_0000_0000_0000_0000,
            lo * lo <= n,
            n < hi * hi,
        decreases hi - lo,
    {
        let mid: u128 = lo + (hi - lo) / 2;
        assert(mid * mid <= 0xffff_ffff_ffff_ffff * 0xffff_ffff_ffff_ffff) by {
            lemma_square_monotone(mid as int, 0xffff_ffff_ffff_ffff);
        }
        if mid * mid <= n {
            lo = mid;
        } else {
            hi = mid;
        }
    }
    proof {
        lemma_floor_sqrt_unique(n as nat, lo as nat);
    }
    lo as u64
}

/// Ceiling square root of a value that fits in 64 bits.
fn isqrt_up(n: u128) -> (r: u64)
    requires
        n <= u64::MAX,
    ensures
        r as nat == ceil_sqrt(n as nat),
{
    let k = isqrt(n);
    proof {
        lemma_floor_sqrt_bounds(n as nat);
        if k >= 0x1_0000_0000 {
            lemma_square_monotone(0x1_0000_0000, k as int);
        }
    }
    let kk = k as u128 * k as u128;
    if kk == n {
        k
    } else {
        k + 1
    }
}

// ---------------------------------------------------------------------------
// Clamped easing

/// `v` lies on the closed segment between `a` and `b`.
pub open spec fn between(a: int, v: int, b: int) -> bool {
    (a <= v && v <= b) || (b <= v && v <= a)
}

/// `|v|`.
pub open spec fn abs(v: int) -> nat {
    if v < 0 {
        (-v) as nat
    } else {
        v as nat
    }
}

/// Taxicab distance between two pairs of coordinates.
pub open spec fn taxicab(ax: int, ay: int, bx: int, by: int) -> nat {
    abs(bx - ax) + abs(by - ay)
}

/// A step of `t / 1000` pixels covers an offset of `(dx, dy)`: the offset is
/// zero, or its length is at most the step.
pub open spec fn snaps(dx: int, dy: int, t: int) -> bool {
    dx * dx + dy * dy == 0 || 1_000_000 * (dx * dx + dy * dy) <= t * t
}

/// `(ax, ay)` comes before `(bx, by)` in the order of `x`, then `y`.
pub open spec fn precedes(ax: int, ay: int, bx: int, by: int) -> bool {
    ax < bx || (ax == bx && ay < by)
}

/// The shift along one axis of a step of `t / 1000` pixels straight towards
/// a target whose squared distance is `dist2` and whose offset on this axis
/// is `d`: the quotient `d * t / (1000 * sqrt(dist2))`, rounded up when `up`
/// and down otherwise. With `n / m` the square of the quotient's magnitude,
/// the magnitude rounded down is the floor root of `n / m` rounded down, and
/// rounded up it is the ceiling root of `n / m` rounded up.
pub open spec fn axis_shift(d: int, dist2: int, t: int, up: bool) -> int {
    let n = (d * d * (t * t)) as nat;
    let m = (1_000_000 * dist2) as nat;
    let lower = floor_sqrt(n / m) as int;
    let upper = ceil_sqrt(ceil_div(n, m)) as int;
    if d >= 0 {
        if up {
            upper
        } else {
            lower
        }
    } else {
        if up {
            -lower
        } else {
            -upper
        }
    }
}

/// One clamped step from `(ax, ay)` towards `(bx, by)` with a budget of
/// `t / 1000` pixels. Within reach of the step the result is the target
/// itself. Otherwise the point moves by exactly the budget along the straight
/// line to the target, and both coordinates are rounded up when the start
/// precedes the target and down when it does not.
pub open spec fn eased(ax: int, ay: int, bx: int, by: int, t: int) -> (int, int) {
    let dx = bx - ax;
    let dy = by - ay;
    if snaps(dx, dy, t) {
        (bx, by)
    } else {
        let dist2 = dx * dx + dy * dy;
        let up = precedes(ax, ay, bx, by);
        (ax + axis_shift(dx, dist2, t, up), ay + axis_shift(dy, dist2, t, up))
    }
}

proof fn lemma_axis_shift_bounds(d: int, dist2: int, t: int, up: bool)
    requires
        d * d <= dist2,
        0 <= t,
        t * t < 1_000_000 * dist2,
    ensures
        0 <= d ==> 0 <= axis_shift(d, dist2, t, up) <= d,
        d < 0 ==> d <= axis_shift(d, dist2, t, up) <= 0,
        t > 0 && d > 0 && up ==> axis_shift(d, dist2, t, up) >= 1,
        t > 0 && d < 0 && !up ==> axis_shift(d, dist2, t, up) <= -1,
{
    let dd = d * d;
    let tt = t * t;
    let m = 1_000_000 * dist2;
    assert(dd >= 0 && tt >= 0) by (nonlinear_arith)
        requires
            dd == d * d,
            tt == t * t,
    ;
    assert(dd * tt <= dd * m) by (nonlinear_arith)
        requires
            dd >= 0,
            0 <= tt < m,
    ;
    assert(d * d * (t * t) == dd * tt);
    let n = (dd * tt) as nat;
    lemma_div_bounded(n, m as nat, dd as nat);
    lemma_ceil_div_bounded(n, m as nat, dd as nat);
    let a = abs(d);
    assert(dd == a * a) by (nonlinear_arith)
        requires
            dd == d * d,
            a == abs(d as int),
    ;
    lemma_roots_bounded(n / (m as nat), a);
    lemma_roots_bounded(ceil_div(n, m as nat), a);
    if t > 0 && d != 0 {
        assert(dd * tt > 0) by (nonlinear_arith)
            requires
                t > 0,
                d != 0,
                dd == d * d,
                tt == t * t,
        ;
    }
}

proof fn lemma_not_snapping(dx: int, dy: int, t: int)
    requires
        !snaps(dx, dy, t),
    ensures
        dx * dx <= dx * dx + dy * dy,
        dy * dy <= dx * dx + dy * dy,
        t * t < 1_000_000 * (dx * dx + dy * dy),
{
    assert(dx * dx >= 0 && dy * dy >= 0) by (nonlinear_arith);
}

/// The shift of [`axis_shift`] is exactly the real quotient
/// `q = |d| * t / (1000 * sqrt(dist2))` rounded as asked. With `n = d² t²`
/// and `m = 10⁶ dist2`, so that `q² = n / m`: a magnitude `k` rounded down
/// has `k² m <= n < (k + 1)² m`; rounded up, it has `n <= k² m` and, unless
/// it is zero, `(k - 1)² m < n`. Rounding goes down exactly when the sign of
/// `d` disagrees with `up`.
pub proof fn lemma_axis_shift_exact(d: int, dist2: int, t: int, up: bool)
    requires
        dist2 > 0,
    ensures
        ({
            let k = abs(axis_shift(d, dist2, t, up)) as int;
            let n = d * d * (t * t);
            let m = 1_000_000 * dist2;
            if (d >= 0) != up {
                k * k * m <= n && n < (k + 1) * (k + 1) * m
            } else {
                n <= k * k * m && (k == 0 ==> n == 0) && (k > 0 ==> (k - 1) * (k - 1) * m < n)
            }
        }),
{
    let n = d * d * (t * t);
    let m = 1_000_000 * dist2;
    assert(n >= 0) by (nonlinear_arith)
        requires
            n == d * d * (t * t),
    ;
    let nn = n as nat;
    let mm = m as nat;
    lemma_fundamental_div_mod(n, m);
    let q = n / m;
    let r = n % m;
    // Rounded down.
    let lo = floor_sqrt((nn / mm) as nat) as int;
    lemma_floor_sqrt_bounds((nn / mm) as nat);
    assert(lo * lo * m <= n && n < (lo + 1) * (lo + 1) * m) by (nonlinear_arith)
        requires
            n == m * q + r,
            0 <= r < m,
            m > 0,
            q >= 0,
            lo >= 0,
            lo * lo <= q,
            q < (lo + 1) * (lo + 1),
    ;
    // Rounded up.
    let c = ceil_div(nn, mm) as int;
    let fc = floor_sqrt(c as nat) as int;
    lemma_floor_sqrt_bounds(c as nat);
    let hi = ceil_sqrt(c as nat) as int;
    assert(hi * hi >= c && (hi > 0 ==> (hi - 1) * (hi - 1) < c) && (hi == 0 ==> c == 0)) by {
        if fc * fc == c {
            if fc > 0 {
                assert((fc - 1) * (fc - 1) < fc * fc) by (nonlinear_arith)
                    requires
                        fc > 0,
                ;
            } else {
                assert(fc * fc == 0) by (nonlinear_arith)
                    requires
                        fc == 0,
                ;
            }
        }
    }
    assert(c * m >= n && (c > 0 ==> (c - 1) * m < n) && (c == 0 ==> n == 0)) by (nonlinear_arith)
        requires
            n == m * q + r,
            0 <= r < m,
            m > 0,
            q >= 0,
            c == (if r == 0 {
                q
            } else {
                q + 1
            }),
    ;
    assert(n <= hi * hi * m && (hi > 0 ==> (hi - 1) * (hi - 1) * m < n)) by (nonlinear_arith)
        requires
            hi * hi >= c,
            hi > 0 ==> (hi - 1) * (hi - 1) < c,
            c * m >= n,
            c > 0 ==> (c - 1) * m < n,
            m > 0,
            c >= 0,
            hi >= 0,
    ;
}

/// With a budget of zero a point stays where it is.
pub proof fn lemma_zero_budget_stays(ax: int, ay: int, bx: int, by: int)
    ensures
        eased(ax, ay, bx, by, 0) == (ax, ay),
{
    let dx = bx - ax;
    let dy = by - ay;
    if !snaps(dx, dy, 0) {
        let m = 1_000_000 * (dx * dx + dy * dy);
        assert(dx * dx * (0 * 0) == 0 && dy * dy * (0 * 0) == 0) by (nonlinear_arith);
        lemma_not_snapping(dx, dy, 0);
        assert(0nat / (m as nat) == 0 && 0nat % (m as nat) == 0) by (nonlinear_arith)
            requires
                m > 0,
        ;
        assert(floor_sqrt(0) == 0);
    } else {
        assert(dx * dx + dy * dy == 0 ==> dx == 0 && dy == 0) by (nonlinear_arith);
        assert(1_000_000 * (dx * dx + dy * dy) <= 0 ==> dx == 0 && dy == 0) by (nonlinear_arith);
    }
}

/// A step never overshoots: each coordinate stays between start and target.
pub proof fn lemma_eased_between(ax: int, ay: int, bx: int, by: int, t: int)
    requires
        0 <= t,
    ensures
        between(ax, eased(ax, ay, bx, by, t).0, bx),
        between(ay, eased(ax, ay, bx, by, t).1, by),
{
    let dx = bx - ax;
    let dy = by - ay;
    if !snaps(dx, dy, t) {
        lemma_not_snapping(dx, dy, t);
        let dist2 = dx * dx + dy * dy;
        let up = precedes(ax, ay, bx, by);
        lemma_axis_shift_bounds(dx, dist2, t, up);
        lemma_axis_shift_bounds(dy, dist2, t, up);
    }
}

/// A step with a positive budget from anywhere but the target strictly
/// shortens the taxicab distance to the target.
pub proof fn lemma_eased_progress(ax: int, ay: int, bx: int, by: int, t: int)
    requires
        0 < t,
        ax != bx || ay != by,
    ensures
        taxicab(eased(ax, ay, bx, by, t).0, eased(ax, ay, bx, by, t).1, bx, by) < taxicab(
            ax,
            ay,
            bx,
            by,
        ),
{
    let dx = bx - ax;
    let dy = by - ay;
    if !snaps(dx, dy, t) {
        lemma_not_snapping(dx, dy, t);
        let dist2 = dx * dx + dy * dy;
        let up = precedes(ax, ay, bx, by);
        lemma_axis_shift_bounds(dx, dist2, t, up);
        lemma_axis_shift_bounds(dy, dist2, t, up);
    }
}

/// The shift of one axis, computed exactly in 128-bit arithmetic.
fn shift_axis(d: i64, dist2: u128, t: u32, up: bool) -> (r: i64)
    requires
        -0x1_0000_0000 < d < 0x1_0000_0000,
        d * d <= dist2,
        dist2 < 0x4_0000_0000_0000_0000,
        (t as int) * (t as int) < 1_000_000 * dist2,
    ensures
        r == axis_shift(d as int, dist2 as int, t as int, up),
{
    let a: u64 = if d >= 0 {
        d as u64
    } else {
        (-d) as u64
    };
    proof {
        lemma_square_monotone(a as int, 0xffff_ffff);
        lemma_square_monotone(t as int, 0xffff_ffff);
        assert(a * a == d * d) by (nonlinear_arith)
            requires
                a == abs(d as int),
        ;
    }
    let aa: u128 = a as u128 * a as u128;
    let tt: u128 = t as u128 * t as u128;
    assert(aa * tt <= 0xffff_ffff_ffff_ffff * 0xffff_ffff_ffff_ffff) by (nonlinear_arith)
        requires
            aa <= 0xffff_ffff_ffff_ffff,
            tt <= 0xffff_ffff_ffff_ffff,
    ;
    let n: u128 = aa * tt;
    let m: u128 = 1_000_000 * dist2;
    proof {
        lemma_axis_shift_bounds(d as int, dist2 as int, t as int, up);
        assert(aa * tt <= aa * m) by (nonlinear_arith)
            requires
                0 <= tt < m,
        ;
        lemma_ceil_div_bounded(n as nat, m as nat, aa as nat);
    }
    let q: u128 = n / m;
    let k: u64 = if (d >= 0) == up {
        let c: u128 = if n % m == 0 {
            q
        } else {
            q + 1
        };
        isqrt_up(c)
    } else {
        isqrt(q)
    };
    if d >= 0 {
        k as i64
    } else {
        -(k as i64)
    }
}

/// One clamped step, computed exactly; see [`eased`].
fn ease(ax: i64, ay: i64, bx: i64, by: i64, t: u32) -> (r: (i64, i64))
    requires
        -0x1_0000_0000 <= ax <= 0x1_0000_0000,
        -0x1_0000_0000 <= ay <= 0x1_0000_0000,
        -0x1_0000_0000 < bx - ax < 0x1_0000_0000,
        -0x1_0000_0000 < by - ay < 0x1_0000_0000,
        -0x1_0000_0000 <= bx <= 0x1_0000_0000,
        -0x1_0000_0000 <= by <= 0x1_0000_0000,
    ensures
        r.0 == eased(ax as int, ay as int, bx as int, by as int, t as int).0,
        r.1 == eased(ax as int, ay as int, bx as int, by as int, t as int).1,
{
    let dx: i64 = bx - ax;
    let dy: i64 = by - ay;
    let ux: u128 = if dx >= 0 {
        dx as u128
    } else {
        (-dx) as u128
    };
    let uy: u128 = if dy >= 0 {
        dy as u128
    } else {
        (-dy) as u128
    };
    proof {
        lemma_square_monotone(ux as int, 0xffff_ffff);
        lemma_square_monotone(uy as int, 0xffff_ffff);
        assert(ux * ux == dx * dx && uy * uy == dy * dy) by (nonlinear_arith)
            requires
                ux == abs(dx as int),
                uy == abs(dy as int),
        ;
        lemma_square_monotone(t as int, 0xffff_ffff);
    }
    let dist2: u128 = ux * ux + uy * uy;
    let tt: u128 = t as u128 * t as u128;
    if dist2 == 0 || 1_000_000 * dist2 <= tt {
        return (bx, by);
    }
    proof {
        lemma_not_snapping(dx as int, dy as int, t as int);
        lemma_eased_between(ax as int, ay as int, bx as int, by as int, t as int);
    }
    let up = ax < bx || (ax == bx && ay < by);
    let sx = shift_axis(dx, dist2, t, up);
    let sy = shift_axis(dy, dist2, t, up);
    (ax + sx, ay + sy)
}


/// `n` clamped steps from `(ax, ay)` towards `(bx, by)`.
pub open spec fn eased_steps(ax: int, ay: int, bx: int, by: int, t: int, n: nat) -> (int, int)
    decreases n,
{
    if n == 0 {
        (ax, ay)
    } else {
        let r = eased(ax, ay, bx, by, t);
        eased_steps(r.0, r.1, bx, by, t, (n - 1) as nat)
    }
}

/// Repeated steps never overshoot: every coordinate stays between its
/// start and its target.
pub proof fn lemma_eased_steps_between(ax: int, ay: int, bx: int, by: int, t: int, n: nat)
    requires
        0 <= t,
    ensures
        between(ax, eased_steps(ax, ay, bx, by, t, n).0, bx),
        between(ay, eased_steps(ax, ay, bx, by, t, n).1, by),
    decreases n,
{
    if n > 0 {
        let r = eased(ax, ay, bx, by, t);
        lemma_eased_between(ax, ay, bx, by, t);
        lemma_eased_steps_between(r.0, r.1, bx, by, t, (n - 1) as nat);
    }
}

/// Repeated steps with a positive budget reach the target exactly once
/// their number is at least the taxicab distance, and stay on it.
pub proof fn lemma_eased_converges(ax: int, ay: int, bx: int, by: int, t: int, n: nat)
    requires
        0 < t,
        n >= taxicab(ax, ay, bx, by),
    ensures
        eased_steps(ax, ay, bx, by, t, n) == (bx, by),
    decreases n,
{
    if n > 0 {
        let r = eased(ax, ay, bx, by, t);
        if ax != bx || ay != by {
            lemma_eased_progress(ax, ay, bx, by, t);
        }
        lemma_eased_converges(r.0, r.1, bx, by, t, (n - 1) as nat);
    }
}

/// At the target a step stays put.
pub proof fn lemma_eased_fixed(bx: int, by: int, t: int)
    ensures
        eased(bx, by, bx, by, t) == (bx, by),
{
}

// ---------------------------------------------------------------------------
// Easing of points, sizes, angles and diameters

/// One clamped step of a point; see [`eased`].
pub open spec fn eased_point(a: Point, b: Point, t: int) -> Point {
    let r = eased(a.x as int, a.y as int, b.x as int, b.y as int, t);
    Point { x: r.0 as i32, y: r.1 as i32 }
}

/// One clamped step of a size; see [`eased`].
pub open spec fn eased_size(a: Size, b: Size, t: int) -> Size {
    let r = eased(a.width as int, a.height as int, b.width as int, b.height as int, t);
    Size { width: r.0 as u32, height: r.1 as u32 }
}

/// One clamped step of an angle in milliradians with a budget of `t`
/// milliradians: the target when within reach, else exactly `t` closer.
/// Angles are not wrapped: the step goes the direct way along the number
/// line, even where going round the circle the other way would be shorter.
pub open spec fn eased_angle(a: int, b: int, t: int) -> int {
    let d = b - a;
    if abs(d) <= t {
        b
    } else if d > 0 {
        a + t
    } else {
        a - t
    }
}

/// One clamped step of a diameter: the width of a size whose height is zero.
pub open spec fn eased_diameter(a: u32, b: u32, t: int) -> u32 {
    eased_size(Size { width: a, height: 0 }, Size { width: b, height: 0 }, t).width
}

/// Moves `a` one clamped step of `t / 1000` pixels towards `b`.
pub fn interp_point(a: Point, b: Point, t: u32) -> (r: Point)
    ensures
        r == eased_point(a, b, t as int),
        r.x as int == eased(a.x as int, a.y as int, b.x as int, b.y as int, t as int).0,
        r.y as int == eased(a.x as int, a.y as int, b.x as int, b.y as int, t as int).1,
        between(a.x as int, r.x as int, b.x as int),
        between(a.y as int, r.y as int, b.y as int),
        snaps(b.x - a.x, b.y - a.y, t as int) ==> r == b,
{
    let (x, y) = ease(a.x as i64, a.y as i64, b.x as i64, b.y as i64, t);
    proof {
        lemma_eased_between(a.x as int, a.y as int, b.x as int, b.y as int, t as int);
    }
    Point { x: x as i32, y: y as i32 }
}

/// Moves `a` one clamped step of `t / 1000` pixels towards `b`.
pub fn interp_size(a: Size, b: Size, t: u32) -> (r: Size)
    ensures
        r == eased_size(a, b, t as int),
        r.width as int == eased(
            a.width as int,
            a.height as int,
            b.width as int,
            b.height as int,
            t as int,
        ).0,
        r.height as int == eased(
            a.width as int,
            a.height as int,
            b.width as int,
            b.height as int,
            t as int,
        ).1,
        between(a.width as int, r.width as int, b.width as int),
        between(a.height as int, r.height as int, b.height as int),
        snaps(b.width - a.width, b.height - a.height, t as int) ==> r == b,
{
    let (w, h) = ease(a.width as i64, a.height as i64, b.width as i64, b.height as i64, t);
    proof {
        lemma_eased_between(a.width as int, a.height as int, b.width as int, b.height as int, t as int);
    }
    Size { width: w as u32, height: h as u32 }
}

/// Moves the angle `a` (milliradians) one clamped step of `t` milliradians
/// towards `b`.
pub fn interp_angle(a: i32, b: i32, t: u32) -> (r: i32)
    ensures
        r == eased_angle(a as int, b as int, t as int),
        between(a as int, r as int, b as int),
{
    let d: i64 = b as i64 - a as i64;
    if (d >= 0 && d <= t as i64) || (d < 0 && -d <= t as i64) {
        b
    } else if d > 0 {
        (a as i64 + t as i64) as i32
    } else {
        (a as i64 - t as i64) as i32
    }
}

/// Moves the diameter `a` one clamped step of `t / 1000` pixels towards `b`,
/// by easing it as the width of a size whose height is zero.
pub fn interp_diameter(a: u32, b: u32, t: u32) -> (r: u32)
    ensures
        r == eased_diameter(a, b, t as int),
        between(a as int, r as int, b as int),
        abs(b - a) * 1000 <= t ==> r == b,
{
    proof {
        let d = b - a;
        if abs(d) * 1000 <= t {
            assert(1_000_000 * (d * d + 0 * 0) <= t * t) by (nonlinear_arith)
                requires
                    abs(d) * 1000 <= t,
                    abs(d) == (if d < 0 {
                        -d
                    } else {
                        d
                    }),
            ;
        }
    }
    interp_size(Size { width: a, height: 0 }, Size { width: b, height: 0 }, t).width
}

/// `n` clamped steps of an angle.
pub open spec fn eased_angle_steps(a: int, b: int, t: int, n: nat) -> int
    decreases n,
{
    if n == 0 {
        a
    } else {
        eased_angle_steps(eased_angle(a, b, t), b, t, (n - 1) as nat)
    }
}

/// Repeated angle steps with a positive budget reach the target exactly
/// once `n * t` covers the distance, that is after the distance divided by
/// the budget, rounded up, and never overshoot on the way.
pub proof fn lemma_angle_converges(a: int, b: int, t: int, n: nat)
    requires
        0 < t,
        n * t >= abs(b - a),
    ensures
        eased_angle_steps(a, b, t, n) == b,
    decreases n,
{
    if n > 0 {
        let r = eased_angle(a, b, t);
        assert(n * t == (n - 1) * t + t && (n - 1) * t >= 0) by (nonlinear_arith)
            requires
                n > 0,
                t > 0,
        ;
        lemma_angle_converges(r, b, t, (n - 1) as nat);
    } else {
        assert(n * t == 0) by (nonlinear_arith)
            requires
                n == 0,
        ;
    }
}

/// Repeated angle steps stay between start and target.
pub proof fn lemma_angle_steps_between(a: int, b: int, t: int, n: nat)
    requires
        0 <= t,
    ensures
        between(a, eased_angle_steps(a, b, t, n), b),
    decreases n,
{
    if n > 0 {
        lemma_angle_steps_between(eased_angle(a, b, t), b, t, (n - 1) as nat);
    }
}


/// A point step stays between start and target on each axis.
pub proof fn lemma_eased_point_between(a: Point, b: Point, t: int)
    requires
        0 <= t,
    ensures
        between(a.x as int, eased_point(a, b, t).x as int, b.x as int),
        between(a.y as int, eased_point(a, b, t).y as int, b.y as int),
{
    lemma_eased_between(a.x as int, a.y as int, b.x as int, b.y as int, t);
}

/// Easing a value towards itself leaves it unchanged.
pub proof fn lemma_eased_at_target(p: Point, s: Size, d: u32, angle: int, t: int)
    requires
        0 <= t,
    ensures
        eased_point(p, p, t) == p,
        eased_size(s, s, t) == s,
        eased_diameter(d, d, t) == d,
        eased_angle(angle, angle, t) == angle,
{
}

} // verus!
