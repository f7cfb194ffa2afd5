//! Chance. Random bits come from the `rand` crate; what the game makes of
//! them — a fraction, a yes or no, a place, a direction — is computed here.

use vstd::prelude::*;
use crate::geometry::{
    lemma_parts_make_unit, Vec2, PADDOCK_MAX_X, PADDOCK_MAX_Y, PADDOCK_MIN_X, PADDOCK_MIN_Y, UNIT,
};

verus! {

/// The number of values a fraction can take: a draw of thirty-two bits counts
/// by its upper twenty-four.
pub const FRACTION_STEPS: u32 = 0x100_0000;

/// Thirty-two bits from `rand::random`, which reads the thread's generator.
/// Nothing is claimed of them: every value may come back, and two calls need
/// not agree. The call fails only where the system has no entropy to seed
/// the generator with.
#[verifier::external_body]
pub(crate) fn random_bits() -> u32 {
    rand::random::<u32>()
}

/// The fraction that `bits` stand for, as a count of `FRACTION_STEPS`-ths.
pub open spec fn fraction(bits: u32) -> int {
    bits as int / 256
}

/// Whether a draw of `bits` falls below a chance of `per_mille` in a thousand.
pub open spec fn strikes(bits: u32, per_mille: u32) -> bool {
    fraction(bits) * 1000 < per_mille * FRACTION_STEPS
}

/// The place between `low` and `high` that `bits` stand for: `low` plus the
/// fraction of the way to `high`, rounded down.
pub open spec fn spread(bits: u32, low: i32, high: i32) -> int {
    low + (fraction(bits) * (high - low)) / (FRACTION_STEPS as int)
}

/// The part of a step that `bits` stand for: the fraction stretched over
/// `[-1, 1)`, counted in `FRACTION_STEPS / 2`-ths.
pub open spec fn axis(bits: u32) -> int {
    fraction(bits) - FRACTION_STEPS / 2
}

/// The point of the paddock that two draws stand for, one draw for each axis.
pub open spec fn point_of(bits_x: u32, bits_y: u32) -> Vec2 {
    Vec2 {
        x: spread(bits_x, PADDOCK_MIN_X, PADDOCK_MAX_X) as i32,
        y: spread(bits_y, PADDOCK_MIN_Y, PADDOCK_MAX_Y) as i32,
    }
}

/// Whether `point` is a point that two draws can stand for.
pub open spec fn is_drawn_point(point: Vec2) -> bool {
    exists|bits_x: u32, bits_y: u32| point == #[trigger] point_of(bits_x, bits_y)
}

/// Whether `direction` is a direction that two draws can stand for.
pub open spec fn is_drawn_direction(direction: Vec2) -> bool {
    exists|bits_x: u32, bits_y: u32| #[trigger]
        direction.points_along(axis(bits_x), axis(bits_y))
}

/// Decides whether a draw of `bits` falls below a chance of `per_mille` in a
/// thousand.
pub fn hits(bits: u32, per_mille: u32) -> (hit: bool)
    ensures
        hit == strikes(bits, per_mille),
{
    assert(per_mille * FRACTION_STEPS <= 0xffff_ffff * 0x100_0000) by (nonlinear_arith)
        requires
            per_mille <= 0xffff_ffff,
            FRACTION_STEPS == 0x100_0000,
    ;
    (bits / 256) as u64 * 1000 < per_mille as u64 * FRACTION_STEPS as u64
}

/// The place between `low` and `high` that `bits` stand for.
pub fn spread_between(bits: u32, low: i32, high: i32) -> (place: i32)
    requires
        low <= high,
    ensures
        place == spread(bits, low, high),
        low <= place <= high,
        low < high ==> place < high,
{
    let part: u64 = (bits / 256) as u64;
    let span: u64 = (high as i64 - low as i64) as u64;
    assert(part * span <= 0xff_ffff * span) by (nonlinear_arith)
        requires
            part <= 0xff_ffff,
    ;
    let offset: u64 = part * span / FRACTION_STEPS as u64;
    assert(offset <= span && (span > 0 ==> offset < span)) by (nonlinear_arith)
        requires
            offset == (part * span) / 0x100_0000,
            part * span <= 0xff_ffff * span,
    ;
    (low as i64 + offset as i64) as i32
}

/// The part of a step that `bits` stand for.
pub fn axis_of(bits: u32) -> (part: i32)
    ensures
        part == axis(bits),
        -(FRACTION_STEPS / 2) <= part < FRACTION_STEPS / 2,
{
    (bits / 256) as i32 - (FRACTION_STEPS / 2) as i32
}

/// The direction that two draws stand for, one draw for each axis.
pub fn direction_from(bits_x: u32, bits_y: u32) -> (direction: Vec2)
    ensures
        direction.points_along(axis(bits_x), axis(bits_y)),
        direction.is_unit(),
{
    Vec2::unit_towards(axis_of(bits_x), axis_of(bits_y))
}

/// The point of the paddock that two draws stand for, one draw for each axis.
pub fn point_from(bits_x: u32, bits_y: u32) -> (point: Vec2)
    ensures
        point == point_of(bits_x, bits_y),
        point.in_paddock(),
{
    Vec2 {
        x: spread_between(bits_x, PADDOCK_MIN_X, PADDOCK_MAX_X),
        y: spread_between(bits_y, PADDOCK_MIN_Y, PADDOCK_MAX_Y),
    }
}

/// A direction drawn at random: the direction that two draws stand for.
pub fn random_direction() -> (direction: Vec2)
    ensures
        is_drawn_direction(direction),
        direction.is_unit(),
{
    let bits_x: u32 = random_bits();
    let bits_y: u32 = random_bits();
    direction_from(bits_x, bits_y)
}

/// A point of the paddock drawn at random: the point that two draws stand
/// for.
pub fn random_point() -> (point: Vec2)
    ensures
        is_drawn_point(point),
        point.in_paddock(),
{
    let bits_x: u32 = random_bits();
    let bits_y: u32 = random_bits();
    point_from(bits_x, bits_y)
}

/// A direction that draws can stand for is of unit length.
pub proof fn lemma_drawn_direction_is_unit(direction: Vec2)
    requires
        is_drawn_direction(direction),
    ensures
        direction.is_unit(),
{
    let (bits_x, bits_y) = choose|bits_x: u32, bits_y: u32| #[trigger]
        direction.points_along(axis(bits_x), axis(bits_y));
    let dx = axis(bits_x);
    let dy = axis(bits_y);
    if dx != 0 || dy != 0 {
        lemma_parts_make_unit(direction.x as int, direction.y as int, dx, dy);
    } else {
        assert(UNIT * UNIT == 1_000_000 && (UNIT + 1) * (UNIT + 1) + 1 > 1_000_000);
    }
}

/// A point that draws can stand for lies in the paddock, short of its right
/// and upper walls.
pub proof fn lemma_drawn_point_is_in_paddock(point: Vec2)
    requires
        is_drawn_point(point),
    ensures
        PADDOCK_MIN_X <= point.x < PADDOCK_MAX_X,
        PADDOCK_MIN_Y <= point.y < PADDOCK_MAX_Y,
        point.in_paddock(),
{
    let (bits_x, bits_y) = choose|bits_x: u32, bits_y: u32|
        point == #[trigger] point_of(bits_x, bits_y);
    lemma_spread_stays_between(bits_x, PADDOCK_MIN_X, PADDOCK_MAX_X);
    lemma_spread_stays_between(bits_y, PADDOCK_MIN_Y, PADDOCK_MAX_Y);
}

/// A place between two ends lies at or above the low end and below the high
/// one.
pub proof fn lemma_spread_stays_between(bits: u32, low: i32, high: i32)
    requires
        low < high,
    ensures
        low <= spread(bits, low, high) < high,
{
    let part = fraction(bits);
    let span = high - low;
    assert(0 <= part * span <= 0xff_ffff * span) by (nonlinear_arith)
        requires
            0 <= part <= 0xff_ffff,
            span > 0,
    ;
}

/// The direction to the right is one that draws can stand for: the two draws
/// in the middle make no step.
pub proof fn lemma_right_is_a_drawn_direction()
    ensures
        is_drawn_direction(Vec2 { x: UNIT, y: 0 }),
{
    let right = Vec2 { x: UNIT, y: 0 };
    assert(axis(0x8000_0000) == 0);
    assert(right.points_along(axis(0x8000_0000), axis(0x8000_0000)));
}

} // verus!
