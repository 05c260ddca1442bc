//! Fixed-point vectors, integer square roots and direction normalisation.
use vstd::prelude::*;

verus! {

/// Length of a unit direction vector in fixed point.
pub const DIR_SCALE: i64 = 1_000_000;

/// Largest coordinate magnitude for which a direction can be taken.
pub const COORD_LIMIT: i64 = 0x4000_0000_0000_0000;

/// A 2D vector of integer components.
#[derive(Clone, Copy, Debug, PartialEq, Eq, Structural)]
pub struct Vec2 {
    pub x: i64,
    pub y: i64,
}

impl Vec2 {
    pub fn new(x: i64, y: i64) -> (r: Vec2)
        ensures
            r.x == x,
            r.y == y,
    {
        Vec2 { x, y }
    }

    pub fn zero() -> (r: Vec2)
        ensures
            r.x == 0,
            r.y == 0,
    {
        Vec2 { x: 0, y: 0 }
    }

    pub open spec fn is_zero(self) -> bool {
        self.x == 0 && self.y == 0
    }
}

/// `r` is the integer square root of `n`: the largest `r` with `r * r <= n`.
pub open spec fn is_floor_sqrt(n: int, r: int) -> bool {
    0 <= r && r * r <= n < (r + 1) * (r + 1)
}

/// The integer square root of a non-negative `n`.
pub open spec fn floor_sqrt(n: int) -> int {
    choose|r: int| is_floor_sqrt(n, r)
}

proof fn lemma_floor_sqrt_unique(n: int, a: int, b: int)
    requires
        is_floor_sqrt(n, a),
        is_floor_sqrt(n, b),
    ensures
        a == b,
{
    if a < b {
        assert((a + 1) * (a + 1) <= b * b) by (nonlinear_arith)
            requires
                0 <= a < b,
        ;
    } else if b < a {
        assert((b + 1) * (b + 1) <= a * a) by (nonlinear_arith)
            requires
                0 <= b < a,
        ;
    }
}

/// Integer square root by bisection.
pub fn isqrt(n: u128) -> (r: u64)
    ensures
        is_floor_sqrt(n as int, r as int),
        r as int == floor_sqrt(n as int),
{
    let mut lo: u128 = 0;
    let mut hi: u128 = 0x1_0000_0000_0000_0000;
    assert(n < hi * hi) by (nonlinear_arith)
        requires
            n <= u128::MAX,
            hi == 0x1_0000_0000_0000_0000u128,
    ;
    while hi - lo > 1
        invariant
            lo < hi <= 0x1_0000_0000_0000_0000u128,
            lo * lo <= n,
            n < hi * hi,
        decreases hi - lo,
    {
        let mid: u128 = lo + (hi - lo) / 2;
        assert(mid * mid < 0x1_0000_0000_0000_0000_0000_0000_0000_0000int) by (nonlinear_arith)
            requires
                mid < 0x1_0000_0000_0000_0000int,
        ;
        if mid * mid <= n {
            lo = mid;
        } else {
            hi = mid;
        }
    }
    assert(is_floor_sqrt(n as int, lo as int));
    proof {
        let c = floor_sqrt(n as int);
        assert(is_floor_sqrt(n as int, c));
        lemma_floor_sqrt_unique(n as int, lo as int, c);
    }
    lo as u64
}

/// `d * length / norm`, rounded toward zero.
pub open spec fn scale_component(d: int, length: int, norm: int) -> int {
    if d >= 0 {
        d * length / norm
    } else {
        -((-d) * length / norm)
    }
}

/// The vector `(dx, dy)` rescaled to magnitude `length`, or `None` for the zero vector.
pub open spec fn scaled_direction_spec(dx: int, dy: int, length: int) -> Option<(int, int)> {
    if dx == 0 && dy == 0 {
        None
    } else {
        let norm = floor_sqrt(dx * dx + dy * dy);
        Some((scale_component(dx, length, norm), scale_component(dy, length, norm)))
    }
}

proof fn lemma_component_bound(d: int, other: int, norm: int, length: int)
    requires
        is_floor_sqrt(d * d + other * other, norm),
        norm > 0,
        0 <= length,
    ensures
        -length <= scale_component(d, length, norm) <= length,
{
    let a = if d >= 0 { d } else { -d };
    assert(a * a == d * d) by (nonlinear_arith)
        requires
            a == d || a == -d,
    ;
    assert(a <= norm) by (nonlinear_arith)
        requires
            a >= 0,
            a * a == d * d,
            norm >= 0,
            d * d + other * other < (norm + 1) * (norm + 1),
    ;
    assert(a * length <= norm * length) by (nonlinear_arith)
        requires
            a <= norm,
            length >= 0,
    ;
    assert(a * length / norm <= length) by (nonlinear_arith)
        requires
            a * length <= norm * length,
            norm > 0,
    ;
    assert(0 <= a * length / norm) by (nonlinear_arith)
        requires
            a >= 0,
            length >= 0,
            norm > 0,
    ;
}

/// `d * length / norm` toward zero, for `|d| <= norm`.
fn scale_component_exec(d: i128, length: i64, norm: u64) -> (r: i64)
    requires
        -0x8000_0000_0000_0000int <= d <= 0x8000_0000_0000_0000int,
        0 <= length <= DIR_SCALE * 1000,
        norm > 0,
        -length <= scale_component(d as int, length as int, norm as int) <= length,
    ensures
        r == scale_component(d as int, length as int, norm as int),
{
    let a: u128 = if d >= 0 { d as u128 } else { (-d) as u128 };
    assert(a * (length as u128) <= 0x8000_0000_0000_0000u128 * 1_000_000_000u128) by (nonlinear_arith)
        requires
            a <= 0x8000_0000_0000_0000u128,
            length <= 1_000_000_000,
            length >= 0,
    ;
    let q: u128 = a * (length as u128) / (norm as u128);
    if d >= 0 {
        q as i64
    } else {
        -(q as i64)
    }
}

/// Rescales `(dx, dy)` to magnitude `length` (up to rounding), or gives `None` for
/// the zero vector, whose direction is undefined.
pub fn scaled_direction(dx: i128, dy: i128, length: i64) -> (r: Option<Vec2>)
    requires
        -0x8000_0000_0000_0000int <= dx <= 0x8000_0000_0000_0000int,
        -0x8000_0000_0000_0000int <= dy <= 0x8000_0000_0000_0000int,
        0 <= length <= DIR_SCALE * 1000,
    ensures
        match scaled_direction_spec(dx as int, dy as int, length as int) {
            None => r is None,
            Some(v) => r == Some(Vec2 { x: v.0 as i64, y: v.1 as i64 }),
        },
        r matches Some(v) ==> -length <= v.x <= length && -length <= v.y <= length,
        scaled_direction_spec(dx as int, dy as int, length as int) matches Some(v) ==> -length
            <= v.0 <= length && -length <= v.1 <= length,
{
    if dx == 0 && dy == 0 {
        return None;
    }
    let ax: u128 = if dx >= 0 { dx as u128 } else { (-dx) as u128 };
    let ay: u128 = if dy >= 0 { dy as u128 } else { (-dy) as u128 };
    assert(ax * ax + ay * ay <= 0x8000_0000_0000_0000_0000_0000_0000_0000int) by (nonlinear_arith)
        requires
            ax <= 0x8000_0000_0000_0000int,
            ay <= 0x8000_0000_0000_0000int,
    ;
    assert(ax * ax == dx * dx && ay * ay == dy * dy) by (nonlinear_arith)
        requires
            ax == dx || ax == -dx,
            ay == dy || ay == -dy,
    ;
    let n: u128 = ax * ax + ay * ay;
    let norm = isqrt(n);
    proof {
        assert(n > 0) by (nonlinear_arith)
            requires
                n == dx * dx + dy * dy,
                dx != 0 || dy != 0,
        ;
        assert(norm > 0) by (nonlinear_arith)
            requires
                is_floor_sqrt(n as int, norm as int),
                n > 0,
        ;
        assert(dy * dy + dx * dx == n);
        lemma_component_bound(dx as int, dy as int, norm as int, length as int);
        lemma_component_bound(dy as int, dx as int, norm as int, length as int);
    }
    let x = scale_component_exec(dx, length, norm);
    let y = scale_component_exec(dy, length, norm);
    Some(Vec2 { x, y })
}

} // verus!
