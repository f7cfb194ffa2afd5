//! The two upgrades that the purse buys.

use vstd::prelude::*;
use vstd::arithmetic::power::pow;
use crate::economy::{
    lemma_price_in_reach, CurrentEggTime, CurrentMaxEggs, EggTimePrice, MaxEggPrice, Score,
    SpawnEggTimer, EGG_TIME_BASE_PRICE, EGG_TIME_FLOOR, EGG_TIME_STEP, MAX_EGG_BASE_PRICE,
    PRICE_FACTOR,
};
use crate::farm::{Farm, FarmView};

verus! {

/// Brings the timer's duration in line with the time between two eggs. What
/// the timer has run so far stays.
pub fn update_spawner_timer(current_egg_time: &CurrentEggTime, timer: &mut SpawnEggTimer)
    ensures
        *final(timer) == (SpawnEggTimer {
            elapsed: old(timer).elapsed,
            duration: current_egg_time.0,
        }),
{
    timer.set_duration(current_egg_time.0);
}

impl FarmView {
    /// Whether the purse can pay for one more egg at a time.
    pub open spec fn can_buy_max_egg(self) -> bool {
        self.score.0 >= self.max_egg_price.0
    }

    /// Whether the purse can pay for a shorter time between two eggs, and
    /// that time is still above its floor.
    pub open spec fn can_buy_faster_eggs(self) -> bool {
        self.score.0 >= self.egg_time_price.0 && self.current_egg_time.0 > EGG_TIME_FLOOR
    }

    /// The farm after an attempt to raise the egg limit: where the purse can
    /// pay, it pays the price, the limit rises by one and the price grows
    /// tenfold; otherwise nothing changes.
    pub open spec fn after_buy_max_egg(self) -> FarmView {
        if self.can_buy_max_egg() {
            FarmView {
                score: Score((self.score.0 - self.max_egg_price.0) as u64),
                current_max_eggs: CurrentMaxEggs((self.current_max_eggs.0 + 1) as u8),
                max_egg_price: MaxEggPrice((self.max_egg_price.0 * PRICE_FACTOR) as u128),
                ..self
            }
        } else {
            self
        }
    }

    /// The farm after an attempt to cut the time between two eggs: where the
    /// purse can pay and the time is above its floor, it pays the price, the
    /// time and the timer's duration fall by a second and the price grows
    /// tenfold; otherwise nothing changes.
    pub open spec fn after_buy_faster_eggs(self) -> FarmView {
        if self.can_buy_faster_eggs() {
            FarmView {
                score: Score((self.score.0 - self.egg_time_price.0) as u64),
                current_egg_time: CurrentEggTime((self.current_egg_time.0 - EGG_TIME_STEP) as u32),
                timer: SpawnEggTimer {
                    elapsed: self.timer.elapsed,
                    duration: (self.current_egg_time.0 - EGG_TIME_STEP) as u32,
                },
                egg_time_price: EggTimePrice((self.egg_time_price.0 * PRICE_FACTOR) as u128),
                ..self
            }
        } else {
            self
        }
    }
}

impl FarmView {
    /// After `n` purchases an upgrade costs its first price times ten to the
    /// power of `n`.
    pub proof fn lemma_prices_follow_purchases(self)
        requires
            self.wf(),
        ensures
            self.max_egg_price.0 == MAX_EGG_BASE_PRICE * pow(10, self.max_egg_purchases()),
            self.egg_time_price.0 == EGG_TIME_BASE_PRICE * pow(10, self.egg_time_purchases()),
    {
    }

    /// An attempt to buy counts as one purchase where it succeeds and as
    /// none where it fails, and only the upgrade that was bought is counted.
    pub proof fn lemma_purchase_counts_once(self)
        requires
            self.wf(),
        ensures
            self.after_buy_max_egg().wf(),
            self.after_buy_faster_eggs().wf(),
            self.after_buy_max_egg().max_egg_purchases() == self.max_egg_purchases()
                + if self.can_buy_max_egg() {
                1nat
            } else {
                0nat
            },
            self.after_buy_max_egg().egg_time_purchases() == self.egg_time_purchases(),
            self.after_buy_faster_eggs().egg_time_purchases() == self.egg_time_purchases()
                + if self.can_buy_faster_eggs() {
                1nat
            } else {
                0nat
            },
            self.after_buy_faster_eggs().max_egg_purchases() == self.max_egg_purchases(),
    {
        if self.can_buy_max_egg() {
            lemma_price_in_reach(MAX_EGG_BASE_PRICE, self.max_egg_purchases());
        }
        if self.can_buy_faster_eggs() {
            lemma_price_in_reach(EGG_TIME_BASE_PRICE, self.egg_time_purchases());
        }
    }

    /// A purchase takes exactly its price out of the purse, and an attempt
    /// that fails takes nothing.
    pub proof fn lemma_purchase_costs_its_price(self)
        requires
            self.wf(),
        ensures
            self.after_buy_max_egg().score.0 == if self.can_buy_max_egg() {
                self.score.0 - self.max_egg_price.0
            } else {
                self.score.0 as int
            },
            self.after_buy_faster_eggs().score.0 == if self.can_buy_faster_eggs() {
                self.score.0 - self.egg_time_price.0
            } else {
                self.score.0 as int
            },
            !self.can_buy_max_egg() ==> self.after_buy_max_egg() == self,
            !self.can_buy_faster_eggs() ==> self.after_buy_faster_eggs() == self,
    {
    }
}

impl Farm {
    /// Tries to buy room for one more egg. It is bought where the purse
    /// holds the price; otherwise nothing happens.
    pub fn buy_max_egg(&mut self)
        requires
            old(self).wf(),
        ensures
            final(self).wf(),
            final(self)@ == old(self)@.after_buy_max_egg(),
            old(self)@.can_buy_max_egg() ==> {
                &&& final(self)@.score.0 == old(self)@.score.0 - old(self)@.max_egg_price.0
                &&& final(self)@.current_max_eggs.0 == old(self)@.current_max_eggs.0 + 1
                &&& final(self)@.max_egg_price.0 == PRICE_FACTOR * old(self)@.max_egg_price.0
                &&& final(self)@.max_egg_purchases() == old(self)@.max_egg_purchases() + 1
            },
    {
        if self.score.0 as u128 >= self.max_egg_price.0 {
            proof {
                lemma_price_in_reach(MAX_EGG_BASE_PRICE, self@.max_egg_purchases());
            }
            self.score = Score(self.score.0 - self.max_egg_price.0 as u64);
            self.current_max_eggs = CurrentMaxEggs(self.current_max_eggs.0 + 1);
            self.max_egg_price = MaxEggPrice(self.max_egg_price.0 * PRICE_FACTOR);
        }
    }

    /// Tries to buy a second off the time between two eggs. It is bought
    /// where the purse holds the price and the time is above its floor;
    /// otherwise nothing happens.
    pub fn buy_faster_eggs(&mut self)
        requires
            old(self).wf(),
        ensures
            final(self).wf(),
            final(self)@ == old(self)@.after_buy_faster_eggs(),
            old(self)@.can_buy_faster_eggs() ==> {
                &&& final(self)@.score.0 == old(self)@.score.0 - old(self)@.egg_time_price.0
                &&& final(self)@.current_egg_time.0 == old(self)@.current_egg_time.0
                    - EGG_TIME_STEP
                &&& final(self)@.egg_time_price.0 == PRICE_FACTOR * old(self)@.egg_time_price.0
                &&& final(self)@.egg_time_purchases() == old(self)@.egg_time_purchases() + 1
            },
    {
        if self.score.0 as u128 >= self.egg_time_price.0 && self.current_egg_time.0
            > EGG_TIME_FLOOR {
            proof {
                lemma_price_in_reach(EGG_TIME_BASE_PRICE, self@.egg_time_purchases());
            }
            self.score = Score(self.score.0 - self.egg_time_price.0 as u64);
            self.current_egg_time = CurrentEggTime(self.current_egg_time.0 - EGG_TIME_STEP);
            self.egg_time_price = EggTimePrice(self.egg_time_price.0 * PRICE_FACTOR);
            update_spawner_timer(&self.current_egg_time, &mut self.timer);
        }
    }
}

} // verus!
