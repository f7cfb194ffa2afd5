//! Points and directions in fixed-point steps, and the paddock they live in.

use vstd::prelude::*;

verus! {

/// Fixed-point steps in one pixel; also the length of a direction.
pub const UNIT: i32 = 1000;

/// Width of the world, in pixels.
pub const WINDOW_WIDTH: i32 = 800;

/// Width of the strip kept free for the panel on the right, in pixels.
pub const UI_WIDTH: i32 = 200;

/// Height of the world, in pixels.
pub const WINDOW_HEIGHT: i32 = 600;

/// Side of an animal's footprint, in pixels.
pub const ANIMAL_SIZE: i32 = 64;

/// Left wall of the paddock, in steps.
pub const PADDOCK_MIN_X: i32 = -368_000;

/// Right wall of the paddock, in steps.
pub const PADDOCK_MAX_X: i32 = 168_000;

/// Lower wall of the paddock, in steps.
pub const PADDOCK_MIN_Y: i32 = -268_000;

/// Upper wall of the paddock, in steps.
pub const PADDOCK_MAX_Y: i32 = 268_000;

/// How near the pointer must be to an egg or an animal to touch it, in steps.
pub const PICKUP_RADIUS: i32 = 32_000;

/// The paddock is the world shrunk by half an animal on every side, less the
/// panel's strip on the right; the pickup radius is half an animal.
pub proof fn lemma_paddock_fits_window()
    ensures
        PADDOCK_MIN_X == (ANIMAL_SIZE / 2 - WINDOW_WIDTH / 2) * UNIT,
        PADDOCK_MAX_X == (WINDOW_WIDTH / 2 - ANIMAL_SIZE / 2 - UI_WIDTH) * UNIT,
        PADDOCK_MIN_Y == (ANIMAL_SIZE / 2 - WINDOW_HEIGHT / 2) * UNIT,
        PADDOCK_MAX_Y == (WINDOW_HEIGHT / 2 - ANIMAL_SIZE / 2) * UNIT,
        PICKUP_RADIUS == (ANIMAL_SIZE / 2) * UNIT,
        PADDOCK_MIN_X < PADDOCK_MAX_X,
        PADDOCK_MIN_Y < PADDOCK_MAX_Y,
{
}

/// A point of the world, or a step between two points.
#[derive(Clone, Copy, Debug, PartialEq, Eq, Structural)]
pub struct Vec2 {
    pub x: i32,
    pub y: i32,
}

/// `value` moved to the nearer end of `[low, high]` when it lies outside.
pub open spec fn clamped(value: int, low: int, high: int) -> int {
    if value < low {
        low
    } else if value > high {
        high
    } else {
        value
    }
}

/// Clamps `value` into `[low, high]`.
pub fn clamp(value: i64, low: i32, high: i32) -> (r: i32)
    requires
        low <= high,
    ensures
        r == clamped(value as int, low as int, high as int),
{
    if value < low as i64 {
        low
    } else if value > high as i64 {
        high
    } else {
        value as i32
    }
}

/// The whole part of the square root of `n`.
pub fn isqrt(n: u64) -> (root: u64)
    ensures
        root * root <= n < (root + 1) * (root + 1),
{
    let mut low: u64 = 0;
    let mut high: u64 = 0x1_0000_0000;
    assert(high * high > n) by (nonlinear_arith)
        requires
            high == 0x1_0000_0000,
            n <= u64::MAX,
    ;
    while high - low > 1
        invariant
            low < high <= 0x1_0000_0000,
            low * low <= n < high * high,
        decreases high - low,
    {
        let middle: u64 = low + (high - low) / 2;
        assert(middle * middle <= 0xffff_ffff * 0xffff_ffff) by (nonlinear_arith)
            requires
                0 <= middle <= 0xffff_ffff,
        ;
        if middle * middle <= n {
            low = middle;
        } else {
            high = middle;
        }
    }
    low
}

/// The size of `value`, without its sign.
pub open spec fn magnitude(value: int) -> int {
    if value < 0 {
        -value
    } else {
        value
    }
}

/// Whether `part` is `step * UNIT / length` rounded toward zero, where
/// `square` is the square of `length`.
pub open spec fn is_unit_part(part: int, step: int, square: int) -> bool {
    &&& step >= 0 ==> part >= 0
    &&& step <= 0 ==> part <= 0
    &&& part * part * square <= step * step * (UNIT * UNIT)
    &&& step * step * (UNIT * UNIT) < (magnitude(part) + 1) * (magnitude(part) + 1) * square
}

/// Scales one part of a step whose squared length is `square` to a length of
/// `UNIT`.
fn unit_part(step: i32, square: u64) -> (part: i32)
    requires
        square > 0,
        step * step <= square,
    ensures
        is_unit_part(part as int, step as int, square as int),
        -UNIT <= part <= UNIT,
{
    let size: u64 = if step < 0 {
        (-(step as i64)) as u64
    } else {
        step as u64
    };
    assert(size * size == step * step) by (nonlinear_arith)
        requires
            size == step || size == -step,
    ;
    let scaled: u128 = (size as u128 * size as u128) * 1_000_000;
    let quotient: u128 = scaled / square as u128;
    proof {
        let s = square as int;
        let q = quotient as int;
        let x = scaled as int;
        vstd::arithmetic::div_mod::lemma_fundamental_div_mod(x, s);
        assert(q * s <= x < (q + 1) * s) by (nonlinear_arith)
            requires
                x == s * q + x % s,
                0 <= x % s < s,
        ;
        assert(x <= s * 1_000_000) by (nonlinear_arith)
            requires
                x == size * size * 1_000_000,
                size * size <= s,
        ;
        assert(q <= 1_000_000) by (nonlinear_arith)
            requires
                q * s <= x,
                x <= s * 1_000_000,
                s > 0,
        ;
    }
    let root: u64 = isqrt(quotient as u64);
    proof {
        let s = square as int;
        let q = quotient as int;
        let x = scaled as int;
        let r = root as int;
        assert(r <= 1000) by (nonlinear_arith)
            requires
                r * r <= q,
                q <= 1_000_000,
                r >= 0,
        ;
        assert(r * r * s <= x) by (nonlinear_arith)
            requires
                r * r <= q,
                q * s <= x,
                s > 0,
        ;
        assert(x < (r + 1) * (r + 1) * s) by (nonlinear_arith)
            requires
                q < (r + 1) * (r + 1),
                x < (q + 1) * s,
                s > 0,
        ;
        assert((-r) * (-r) == r * r) by (nonlinear_arith);
        if step == 0 {
            assert(r == 0) by (nonlinear_arith)
                requires
                    r * r * s <= 0,
                    s > 0,
                    r >= 0,
            ;
        }
    }
    if step < 0 {
        -(root as i32)
    } else {
        root as i32
    }
}

impl Vec2 {
    /// The point at `(x, y)`.
    pub fn new(x: i32, y: i32) -> (v: Vec2)
        ensures
            v == (Vec2 { x, y }),
    {
        Vec2 { x, y }
    }

    /// The square of the distance between two points.
    pub open spec fn distance_squared(self, other: Vec2) -> int {
        (self.x - other.x) * (self.x - other.x) + (self.y - other.y) * (self.y - other.y)
    }

    /// Whether `other` lies nearer than `reach` steps.
    pub open spec fn within(self, other: Vec2, reach: i32) -> bool {
        reach > 0 && self.distance_squared(other) < reach * reach
    }

    /// Whether `(x, y)` lies inside the paddock, walls included.
    pub open spec fn paddock_holds(x: int, y: int) -> bool {
        &&& PADDOCK_MIN_X <= x <= PADDOCK_MAX_X
        &&& PADDOCK_MIN_Y <= y <= PADDOCK_MAX_Y
    }

    /// Whether the point lies inside the paddock, walls included.
    pub open spec fn in_paddock(self) -> bool {
        Vec2::paddock_holds(self.x as int, self.y as int)
    }

    /// The point of the paddock nearest to `(x, y)`.
    pub open spec fn clamped_to_paddock(x: int, y: int) -> Vec2 {
        Vec2 {
            x: clamped(x, PADDOCK_MIN_X as int, PADDOCK_MAX_X as int) as i32,
            y: clamped(y, PADDOCK_MIN_Y as int, PADDOCK_MAX_Y as int) as i32,
        }
    }

    /// Whether the step is as long as a direction: no longer than `UNIT`, and
    /// longer once each part is stretched by one.
    pub open spec fn is_unit(self) -> bool {
        &&& self.x * self.x + self.y * self.y <= UNIT * UNIT
        &&& (magnitude(self.x as int) + 1) * (magnitude(self.x as int) + 1) + (magnitude(
            self.y as int,
        ) + 1) * (magnitude(self.y as int) + 1) > UNIT * UNIT
    }

    /// Whether this is the direction of the step `(dx, dy)`: the step scaled
    /// to the length `UNIT`, each part rounded toward zero. The step of no
    /// length points to the right.
    pub open spec fn points_along(self, dx: int, dy: int) -> bool {
        if dx == 0 && dy == 0 {
            self == (Vec2 { x: UNIT, y: 0 })
        } else {
            &&& is_unit_part(self.x as int, dx, dx * dx + dy * dy)
            &&& is_unit_part(self.y as int, dy, dx * dx + dy * dy)
        }
    }

    /// The direction of the step `(dx, dy)`.
    pub fn unit_towards(dx: i32, dy: i32) -> (direction: Vec2)
        ensures
            direction.points_along(dx as int, dy as int),
            direction.is_unit(),
    {
        if dx == 0 && dy == 0 {
            assert(UNIT * UNIT == 1_000_000 && (UNIT + 1) * (UNIT + 1) == 1_002_001);
            return Vec2 { x: UNIT, y: 0 };
        }
        let wide_x: i64 = dx as i64;
        let wide_y: i64 = dy as i64;
        assert(0 <= wide_x * wide_x <= 0x8000_0000 * 0x8000_0000) by (nonlinear_arith)
            requires
                -0x8000_0000 <= wide_x <= 0x8000_0000,
        ;
        assert(0 <= wide_y * wide_y <= 0x8000_0000 * 0x8000_0000) by (nonlinear_arith)
            requires
                -0x8000_0000 <= wide_y <= 0x8000_0000,
        ;
        assert(wide_x * wide_x + wide_y * wide_y > 0) by (nonlinear_arith)
            requires
                wide_x != 0 || wide_y != 0,
        ;
        let square: u64 = (wide_x * wide_x) as u64 + (wide_y * wide_y) as u64;
        let x: i32 = unit_part(dx, square);
        let y: i32 = unit_part(dy, square);
        proof {
            lemma_parts_make_unit(x as int, y as int, dx as int, dy as int);
        }
        Vec2 { x, y }
    }

    /// Decides whether `other` lies nearer than `reach` steps.
    pub fn is_within(&self, other: &Vec2, reach: i32) -> (near: bool)
        ensures
            near == self.within(*other, reach),
    {
        if reach <= 0 {
            return false;
        }
        let dx: i128 = self.x as i128 - other.x as i128;
        let dy: i128 = self.y as i128 - other.y as i128;
        let r: i128 = reach as i128;
        assert(0 <= dx * dx <= 0x1_0000_0000 * 0x1_0000_0000) by (nonlinear_arith)
            requires
                -0x1_0000_0000 <= dx <= 0x1_0000_0000,
        ;
        assert(0 <= dy * dy <= 0x1_0000_0000 * 0x1_0000_0000) by (nonlinear_arith)
            requires
                -0x1_0000_0000 <= dy <= 0x1_0000_0000,
        ;
        assert(0 <= r * r <= 0x1_0000_0000 * 0x1_0000_0000) by (nonlinear_arith)
            requires
                0 <= r <= 0x1_0000_0000,
        ;
        dx * dx + dy * dy < r * r
    }

    /// Decides whether the step is as long as a direction.
    pub fn has_unit_length(&self) -> (unit: bool)
        ensures
            unit == self.is_unit(),
    {
        let x: i64 = if self.x < 0 {
            -(self.x as i64)
        } else {
            self.x as i64
        };
        let y: i64 = if self.y < 0 {
            -(self.y as i64)
        } else {
            self.y as i64
        };
        if x > UNIT as i64 || y > UNIT as i64 {
            assert(self.x * self.x + self.y * self.y > UNIT * UNIT) by (nonlinear_arith)
                requires
                    x == magnitude(self.x as int),
                    y == magnitude(self.y as int),
                    x > UNIT || y > UNIT,
                    UNIT == 1000,
                    x >= 0,
                    y >= 0,
            ;
            return false;
        }
        assert(x * x == self.x * self.x && y * y == self.y * self.y) by (nonlinear_arith)
            requires
                x == magnitude(self.x as int),
                y == magnitude(self.y as int),
        ;
        assert(0 <= x * x <= 1_000_000 && 0 <= y * y <= 1_000_000 && (x + 1) * (x + 1)
            <= 1_002_001 && (y + 1) * (y + 1) <= 1_002_001 && 0 <= (x + 1) * (x + 1) && 0 <= (y
            + 1) * (y + 1)) by (nonlinear_arith)
            requires
                0 <= x <= 1000,
                0 <= y <= 1000,
        ;
        x * x + y * y <= 1_000_000 && (x + 1) * (x + 1) + (y + 1) * (y + 1) > 1_000_000
    }

    /// Decides whether the point lies inside the paddock.
    pub fn is_in_paddock(&self) -> (inside: bool)
        ensures
            inside == self.in_paddock(),
    {
        PADDOCK_MIN_X <= self.x && self.x <= PADDOCK_MAX_X && PADDOCK_MIN_Y <= self.y && self.y
            <= PADDOCK_MAX_Y
    }

    /// Moves `(x, y)` to the nearest point of the paddock.
    pub fn clamp_to_paddock(x: i64, y: i64) -> (p: Vec2)
        ensures
            p == Vec2::clamped_to_paddock(x as int, y as int),
            p.in_paddock(),
    {
        Vec2 {
            x: clamp(x, PADDOCK_MIN_X, PADDOCK_MAX_X),
            y: clamp(y, PADDOCK_MIN_Y, PADDOCK_MAX_Y),
        }
    }
}

/// Two parts scaled from one step make a step of unit length.
pub proof fn lemma_parts_make_unit(x: int, y: int, dx: int, dy: int)
    requires
        dx != 0 || dy != 0,
        is_unit_part(x, dx, dx * dx + dy * dy),
        is_unit_part(y, dy, dx * dx + dy * dy),
    ensures
        x * x + y * y <= UNIT * UNIT,
        (magnitude(x) + 1) * (magnitude(x) + 1) + (magnitude(y) + 1) * (magnitude(y) + 1) > UNIT
            * UNIT,
{
    let s = dx * dx + dy * dy;
    let u = UNIT * UNIT;
    let a = magnitude(x) + 1;
    let b = magnitude(y) + 1;
    assert(s > 0) by (nonlinear_arith)
        requires
            s == dx * dx + dy * dy,
            dx != 0 || dy != 0,
    ;
    assert(x * x + y * y <= u) by (nonlinear_arith)
        requires
            x * x * s <= dx * dx * u,
            y * y * s <= dy * dy * u,
            s == dx * dx + dy * dy,
            s > 0,
    ;
    assert(a * a + b * b > u) by (nonlinear_arith)
        requires
            dx * dx * u < a * a * s,
            dy * dy * u < b * b * s,
            s == dx * dx + dy * dy,
            s > 0,
    ;
}

/// A step has one direction only.
pub proof fn lemma_direction_is_unique(first: Vec2, second: Vec2, dx: int, dy: int)
    requires
        first.points_along(dx, dy),
        second.points_along(dx, dy),
    ensures
        first == second,
{
    if dx != 0 || dy != 0 {
        let s = dx * dx + dy * dy;
        assert(s > 0) by (nonlinear_arith)
            requires
                s == dx * dx + dy * dy,
                dx != 0 || dy != 0,
        ;
        lemma_unit_part_is_unique(first.x as int, second.x as int, dx, s);
        lemma_unit_part_is_unique(first.y as int, second.y as int, dy, s);
    }
}

/// A part of a step scales to one value only.
proof fn lemma_unit_part_is_unique(first: int, second: int, step: int, square: int)
    requires
        square > 0,
        is_unit_part(first, step, square),
        is_unit_part(second, step, square),
    ensures
        first == second,
{
    let a = magnitude(first);
    let b = magnitude(second);
    let x = step * step * (UNIT * UNIT);
    assert(a * a == first * first && b * b == second * second) by (nonlinear_arith)
        requires
            a == first || a == -first,
            b == second || b == -second,
    ;
    assert(a == b) by (nonlinear_arith)
        requires
            a >= 0,
            b >= 0,
            square > 0,
            a * a * square <= x,
            x < (a + 1) * (a + 1) * square,
            b * b * square <= x,
            x < (b + 1) * (b + 1) * square,
    ;
    if step == 0 {
        assert(a == 0) by (nonlinear_arith)
            requires
                a * a * square <= step * step * (UNIT * UNIT),
                step == 0,
                square > 0,
                a >= 0,
        ;
    }
}

} // verus!
