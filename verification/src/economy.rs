//! The counters of the egg economy: eggs and their limit, the spawn timer,
//! the purse, and the prices of the two upgrades.

use vstd::prelude::*;
use vstd::arithmetic::power::pow;

verus! {

/// Millionths of a coin in one coin.
pub const COIN: u64 = 1_000_000;

/// Milliseconds between two eggs on a new farm.
pub const START_EGG_TIME: u32 = 10_000;

/// Milliseconds that the first egg's timer has run already on a new farm.
pub const START_ELAPSED: u32 = 9_000;

/// Milliseconds that one purchase takes off the time between two eggs.
pub const EGG_TIME_STEP: u32 = 1_000;

/// The time between two eggs can be bought down only while it is longer
/// than this many milliseconds.
pub const EGG_TIME_FLOOR: u32 = 1_500;

/// What the first raise of the egg limit costs, in millionths of a coin.
pub const MAX_EGG_BASE_PRICE: u128 = 1_000_000_000;

/// What the first cut of the time between two eggs costs, in millionths of a
/// coin.
pub const EGG_TIME_BASE_PRICE: u128 = 10_000_000;

/// By how much a price grows with each purchase.
pub const PRICE_FACTOR: u128 = 10;

/// The number of eggs that lie on the farm.
#[derive(Clone, Copy, Debug, PartialEq, Eq, Structural)]
pub struct CurrentEggs(pub u8);

/// The number of eggs that may lie on the farm at once.
#[derive(Clone, Copy, Debug, PartialEq, Eq, Structural)]
pub struct CurrentMaxEggs(pub u8);

/// The time between two eggs, in milliseconds.
#[derive(Clone, Copy, Debug, PartialEq, Eq, Structural)]
pub struct CurrentEggTime(pub u32);

/// The purse, in millionths of a coin.
#[derive(Clone, Copy, Debug, PartialEq, Eq, Structural)]
pub struct Score(pub u64);

/// The price of the next raise of the egg limit, in millionths of a coin.
#[derive(Clone, Copy, Debug, PartialEq, Eq, Structural)]
pub struct MaxEggPrice(pub u128);

/// The price of the next cut of the time between two eggs, in millionths of
/// a coin.
#[derive(Clone, Copy, Debug, PartialEq, Eq, Structural)]
pub struct EggTimePrice(pub u128);

/// The timer that lays the eggs: it runs from zero up to its duration.
#[derive(Clone, Copy, Debug, PartialEq, Eq, Structural)]
pub struct SpawnEggTimer {
    /// Milliseconds run so far.
    pub elapsed: u32,
    /// Milliseconds to run.
    pub duration: u32,
}

impl Default for CurrentEggs {
    fn default() -> (eggs: CurrentEggs)
        ensures
            eggs == CurrentEggs(0),
    {
        CurrentEggs(0)
    }
}

impl Default for CurrentMaxEggs {
    fn default() -> (limit: CurrentMaxEggs)
        ensures
            limit == CurrentMaxEggs(1),
    {
        CurrentMaxEggs(1)
    }
}

impl Default for CurrentEggTime {
    fn default() -> (time: CurrentEggTime)
        ensures
            time == CurrentEggTime(START_EGG_TIME),
    {
        CurrentEggTime(START_EGG_TIME)
    }
}

impl Default for Score {
    fn default() -> (score: Score)
        ensures
            score == Score(0),
    {
        Score(0)
    }
}

impl Default for MaxEggPrice {
    fn default() -> (price: MaxEggPrice)
        ensures
            price == MaxEggPrice(MAX_EGG_BASE_PRICE),
    {
        MaxEggPrice(MAX_EGG_BASE_PRICE)
    }
}

impl Default for EggTimePrice {
    fn default() -> (price: EggTimePrice)
        ensures
            price == EggTimePrice(EGG_TIME_BASE_PRICE),
    {
        EggTimePrice(EGG_TIME_BASE_PRICE)
    }
}

impl Default for SpawnEggTimer {
    /// The timer of a new farm: the first egg is a second away.
    fn default() -> (timer: SpawnEggTimer)
        ensures
            timer == (SpawnEggTimer { elapsed: START_ELAPSED, duration: START_EGG_TIME }),
    {
        SpawnEggTimer { elapsed: START_ELAPSED, duration: START_EGG_TIME }
    }
}

impl SpawnEggTimer {
    /// Whether `delta` more milliseconds bring the timer to its duration.
    pub open spec fn finishes(self, delta: u32) -> bool {
        self.elapsed + delta >= self.duration
    }

    /// The timer after `delta` more milliseconds: it stops at its duration.
    pub open spec fn ticked(self, delta: u32) -> SpawnEggTimer {
        SpawnEggTimer {
            elapsed: if self.finishes(delta) {
                self.duration
            } else {
                (self.elapsed + delta) as u32
            },
            duration: self.duration,
        }
    }

    /// Runs the timer for `delta` milliseconds and says whether it has come
    /// to its duration.
    pub fn tick(&mut self, delta: u32) -> (finished: bool)
        ensures
            *final(self) == old(self).ticked(delta),
            finished == old(self).finishes(delta),
    {
        let run: u64 = self.elapsed as u64 + delta as u64;
        if run >= self.duration as u64 {
            self.elapsed = self.duration;
            true
        } else {
            self.elapsed = run as u32;
            false
        }
    }

    /// Starts the timer again from zero.
    pub fn reset(&mut self)
        ensures
            *final(self) == (SpawnEggTimer { elapsed: 0, duration: old(self).duration }),
    {
        self.elapsed = 0;
    }

    /// Gives the timer a new duration; what has run so far stays.
    pub fn set_duration(&mut self, duration: u32)
        ensures
            *final(self) == (SpawnEggTimer { elapsed: old(self).elapsed, duration }),
    {
        self.duration = duration;
    }
}

/// The price of an upgrade that starts at `base` after `purchases` purchases.
pub open spec fn price_after(base: u128, purchases: nat) -> int {
    base * pow(PRICE_FACTOR as int, purchases)
}

/// A price that sixty-four bits can hold has been raised fewer than twenty
/// times, and ten times the price is the price after one purchase more.
pub proof fn lemma_price_in_reach(base: u128, purchases: nat)
    requires
        base >= 1,
        price_after(base, purchases) <= u64::MAX,
    ensures
        purchases < 20,
        price_after(base, purchases + 1) == PRICE_FACTOR * price_after(base, purchases),
        price_after(base, purchases + 1) <= u128::MAX,
{
    let p = pow(10, purchases);
    if purchases >= 20 {
        vstd::arithmetic::power::lemma_pow_increases(10, 20, purchases);
        assert(pow(10, 20) == 100_000_000_000_000_000_000int) by {
            reveal_with_fuel(pow, 21);
        }
        assert(base * p >= p) by (nonlinear_arith)
            requires
                base >= 1,
                p >= 0,
        ;
    }
    lemma_price_grows_tenfold(base, purchases);
}

/// Each purchase makes the price ten times what it was.
pub proof fn lemma_price_grows_tenfold(base: u128, purchases: nat)
    ensures
        price_after(base, purchases + 1) == PRICE_FACTOR * price_after(base, purchases),
        price_after(base, 0) == base,
{
    let p = pow(10, purchases);
    assert(pow(10, purchases + 1) == 10 * p) by {
        reveal_with_fuel(pow, 2);
    }
    assert(pow(10, 0) == 1) by {
        reveal_with_fuel(pow, 1);
    }
    assert(base * (10 * p) == 10 * (base * p)) by (nonlinear_arith);
}

/// A price never falls with the number of purchases.
pub proof fn lemma_price_never_falls(base: u128, fewer: nat, more: nat)
    requires
        fewer <= more,
    ensures
        price_after(base, fewer) <= price_after(base, more),
{
    vstd::arithmetic::power::lemma_pow_increases(10, fewer, more);
    let low = pow(10, fewer);
    let high = pow(10, more);
    assert(base * low <= base * high) by (nonlinear_arith)
        requires
            base >= 0,
            low <= high,
    ;
}

/// Decides whether `price` is the price of an upgrade that starts at `base`
/// after `purchases` purchases.
pub fn is_price_after(price: u128, base: u128, purchases: u32) -> (is: bool)
    ensures
        is == (price == price_after(base, purchases as nat)),
{
    let mut grown: u128 = base;
    let mut count: u32 = 0;
    proof {
        lemma_price_grows_tenfold(base, 0);
    }
    while count < purchases
        invariant
            count <= purchases,
            grown == price_after(base, count as nat),
        decreases purchases - count,
    {
        proof {
            lemma_price_grows_tenfold(base, count as nat);
        }
        if grown > u128::MAX / PRICE_FACTOR {
            proof {
                lemma_price_never_falls(base, (count + 1) as nat, purchases as nat);
            }
            return false;
        }
        grown = grown * PRICE_FACTOR;
        count += 1;
    }
    price == grown
}

/// The purse after it has earned `rate` thousandths of a coin per second for
/// `delta` milliseconds: it fills up to what sixty-four bits hold.
pub open spec fn accrued(score: Score, rate: nat, delta: u32) -> Score {
    if score.0 + rate * delta > u64::MAX {
        Score(u64::MAX)
    } else {
        Score((score.0 + rate * delta) as u64)
    }
}

impl Score {
    /// Adds what a farm that earns `rate` thousandths of a coin per second
    /// earns in `delta` milliseconds.
    pub fn accrue(&mut self, rate: u128, delta: u32)
        ensures
            *final(self) == accrued(*old(self), rate as nat, delta),
            final(self).0 >= old(self).0,
    {
        if delta == 0 {
            assert(rate * delta == 0) by (nonlinear_arith)
                requires
                    delta == 0,
            ;
            return ;
        }
        if rate > u64::MAX as u128 {
            assert(rate * delta > u64::MAX) by (nonlinear_arith)
                requires
                    rate > u64::MAX,
                    delta >= 1,
            ;
            self.0 = u64::MAX;
            return ;
        }
        assert(0 <= rate * delta <= 0xffff_ffff_ffff_ffff * 0xffff_ffff) by (nonlinear_arith)
            requires
                0 <= rate <= 0xffff_ffff_ffff_ffff,
                0 <= delta <= 0xffff_ffff,
        ;
        let total: u128 = self.0 as u128 + rate * delta as u128;
        if total > u64::MAX as u128 {
            self.0 = u64::MAX;
        } else {
            self.0 = total as u64;
        }
    }
}

} // verus!
