//! The farm: its animals and eggs, and the counters of its economy.

use vstd::prelude::*;
use crate::animal::Animal;
use crate::economy::{
    is_price_after, price_after, CurrentEggTime, CurrentEggs, CurrentMaxEggs, EggTimePrice,
    MaxEggPrice, Score, SpawnEggTimer, EGG_TIME_BASE_PRICE, EGG_TIME_STEP, MAX_EGG_BASE_PRICE,
    START_EGG_TIME, START_ELAPSED,
};
use crate::geometry::{Vec2, PICKUP_RADIUS};

pub mod behaviour;
pub mod frame;
pub mod interaction;
pub mod spawning;
pub mod upgrades;

verus! {

/// An egg that lies on the farm until a press hatches it.
#[derive(Clone, Copy, Debug, PartialEq, Eq, Structural)]
pub struct Egg {
    pub position: Vec2,
}

/// Whether `index` is the first place of `animals` whose animal the pointer
/// at `position` can touch.
pub open spec fn is_first_in_reach(
    animals: Seq<Animal>,
    position: Vec2,
    reach: i32,
    index: int,
) -> bool {
    &&& 0 <= index < animals.len()
    &&& animals[index].in_reach(position, reach)
    &&& forall|before: int|
        0 <= before < index ==> !(#[trigger] animals[before]).in_reach(position, reach)
}

/// The first place of `animals` whose animal the pointer at `position` can
/// touch, if there is one.
pub open spec fn first_in_reach(animals: Seq<Animal>, position: Vec2, reach: i32) -> Option<int> {
    if exists|index: int| is_first_in_reach(animals, position, reach, index) {
        Some(choose|index: int| is_first_in_reach(animals, position, reach, index))
    } else {
        None
    }
}

/// Whether `index` is the first place of `eggs` whose egg lies nearer to
/// `position` than the pickup radius.
pub open spec fn is_first_egg_in_reach(eggs: Seq<Egg>, position: Vec2, index: int) -> bool {
    &&& 0 <= index < eggs.len()
    &&& eggs[index].position.within(position, PICKUP_RADIUS)
    &&& forall|before: int|
        0 <= before < index ==> !(#[trigger] eggs[before]).position.within(
            position,
            PICKUP_RADIUS,
        )
}

/// The first place of `eggs` whose egg lies nearer to `position` than the
/// pickup radius, if there is one.
pub open spec fn first_egg_in_reach(eggs: Seq<Egg>, position: Vec2) -> Option<int> {
    if exists|index: int| is_first_egg_in_reach(eggs, position, index) {
        Some(choose|index: int| is_first_egg_in_reach(eggs, position, index))
    } else {
        None
    }
}

/// Whether at most one of `animals` is held.
pub open spec fn at_most_one_picked(animals: Seq<Animal>) -> bool {
    forall|i: int, j: int|
        0 <= i < animals.len() && 0 <= j < animals.len() && (#[trigger] animals[i]).picked && (
        #[trigger] animals[j]).picked ==> i == j
}

/// Whether `index` is the first place of `animals` whose animal is held.
pub open spec fn is_first_held(animals: Seq<Animal>, index: int) -> bool {
    &&& 0 <= index < animals.len()
    &&& animals[index].picked
    &&& forall|before: int| 0 <= before < index ==> !(#[trigger] animals[before]).picked
}

/// The first place of `animals` whose animal is held, if one is.
pub open spec fn held(animals: Seq<Animal>) -> Option<int> {
    if exists|index: int| is_first_held(animals, index) {
        Some(choose|index: int| is_first_held(animals, index))
    } else {
        None
    }
}

/// The first place that satisfies `is_first_in_reach` is the only one.
pub proof fn lemma_first_in_reach_is_unique(
    animals: Seq<Animal>,
    position: Vec2,
    reach: i32,
    index: int,
)
    requires
        is_first_in_reach(animals, position, reach, index),
    ensures
        first_in_reach(animals, position, reach) == Some(index),
{
}

/// The first place that satisfies `is_first_egg_in_reach` is the only one.
pub proof fn lemma_first_egg_in_reach_is_unique(eggs: Seq<Egg>, position: Vec2, index: int)
    requires
        is_first_egg_in_reach(eggs, position, index),
    ensures
        first_egg_in_reach(eggs, position) == Some(index),
{
}

/// What `first_in_reach` says of a list: the animal it names is the first in
/// reach, and no animal is in reach where it names none.
pub proof fn lemma_first_in_reach_names_the_first(
    animals: Seq<Animal>,
    position: Vec2,
    reach: i32,
)
    ensures
        match first_in_reach(animals, position, reach) {
            Some(index) => is_first_in_reach(animals, position, reach, index),
            None => forall|other: int|
                0 <= other < animals.len() ==> !(#[trigger] animals[other]).in_reach(
                    position,
                    reach,
                ),
        },
{
    if first_in_reach(animals, position, reach) is None {
        assert forall|other: int| 0 <= other < animals.len() implies !(
        #[trigger] animals[other]).in_reach(position, reach) by {
            if animals[other].in_reach(position, reach) {
                lemma_some_first_in_reach(animals, position, reach, other);
            }
        }
    } else {
        let chosen = choose|index: int| is_first_in_reach(animals, position, reach, index);
    }
}

/// Where an animal at `index` is in reach, some place is the first whose
/// animal is.
proof fn lemma_some_first_in_reach(animals: Seq<Animal>, position: Vec2, reach: i32, index: int)
    requires
        0 <= index < animals.len(),
        animals[index].in_reach(position, reach),
    ensures
        exists|first: int| is_first_in_reach(animals, position, reach, first),
    decreases index,
{
    if forall|before: int|
        0 <= before < index ==> !(#[trigger] animals[before]).in_reach(position, reach) {
        assert(is_first_in_reach(animals, position, reach, index));
    } else {
        let before = choose|before: int|
            0 <= before < index && (#[trigger] animals[before]).in_reach(position, reach);
        lemma_some_first_in_reach(animals, position, reach, before);
    }
}

/// What `first_egg_in_reach` says of a list: the egg it names is the first
/// in reach, and no egg is in reach where it names none.
pub proof fn lemma_first_egg_in_reach_names_the_first(eggs: Seq<Egg>, position: Vec2)
    ensures
        match first_egg_in_reach(eggs, position) {
            Some(index) => is_first_egg_in_reach(eggs, position, index),
            None => forall|other: int|
                0 <= other < eggs.len() ==> !(#[trigger] eggs[other]).position.within(
                    position,
                    PICKUP_RADIUS,
                ),
        },
{
    if first_egg_in_reach(eggs, position) is None {
        assert forall|other: int| 0 <= other < eggs.len() implies !(
        #[trigger] eggs[other]).position.within(position, PICKUP_RADIUS) by {
            if eggs[other].position.within(position, PICKUP_RADIUS) {
                lemma_some_first_egg_in_reach(eggs, position, other);
            }
        }
    } else {
        let chosen = choose|index: int| is_first_egg_in_reach(eggs, position, index);
    }
}

/// Where an egg at `index` is in reach, some place is the first whose egg
/// is.
proof fn lemma_some_first_egg_in_reach(eggs: Seq<Egg>, position: Vec2, index: int)
    requires
        0 <= index < eggs.len(),
        eggs[index].position.within(position, PICKUP_RADIUS),
    ensures
        exists|first: int| is_first_egg_in_reach(eggs, position, first),
    decreases index,
{
    if forall|before: int|
        0 <= before < index ==> !(#[trigger] eggs[before]).position.within(
            position,
            PICKUP_RADIUS,
        ) {
        assert(is_first_egg_in_reach(eggs, position, index));
    } else {
        let before = choose|before: int|
            0 <= before < index && (#[trigger] eggs[before]).position.within(
                position,
                PICKUP_RADIUS,
            );
        lemma_some_first_egg_in_reach(eggs, position, before);
    }
}

/// The first place that satisfies `is_first_held` is the only one.
pub proof fn lemma_first_held_is_unique(animals: Seq<Animal>, index: int)
    requires
        is_first_held(animals, index),
    ensures
        held(animals) == Some(index),
{
}

/// What `held` says of a list: the animal it names is held, and no animal
/// is held where it names none.
pub proof fn lemma_held_names_the_held(animals: Seq<Animal>)
    ensures
        match held(animals) {
            Some(index) => 0 <= index < animals.len() && animals[index].picked,
            None => forall|other: int|
                0 <= other < animals.len() ==> !(#[trigger] animals[other]).picked,
        },
{
    if held(animals) is None {
        assert forall|other: int| 0 <= other < animals.len() implies
            !(#[trigger] animals[other]).picked by {
            if animals[other].picked {
                lemma_some_first_held(animals, other);
            }
        }
    } else {
        let chosen = choose|index: int| is_first_held(animals, index);
    }
}

/// Where an animal at or before `index` is held, some place is the first
/// that holds one.
proof fn lemma_some_first_held(animals: Seq<Animal>, index: int)
    requires
        0 <= index < animals.len(),
        animals[index].picked,
    ensures
        exists|first: int| is_first_held(animals, first),
    decreases index,
{
    if forall|before: int| 0 <= before < index ==> !(#[trigger] animals[before]).picked {
        assert(is_first_held(animals, index));
    } else {
        let before = choose|before: int| 0 <= before < index && (#[trigger] animals[before]).picked;
        lemma_some_first_held(animals, before);
    }
}

/// The first of `animals` that is not held and stands nearer to `position`
/// than `reach`: the first in the order of the list, not the nearest.
pub fn get_animal_in_reach(animals: &Vec<Animal>, position: &Vec2, reach: i32) -> (found: Option<
    usize,
>)
    ensures
        match found {
            Some(index) => first_in_reach(animals@, *position, reach) == Some(index as int),
            None => first_in_reach(animals@, *position, reach) is None,
        },
{
    let mut index: usize = 0;
    while index < animals.len()
        invariant
            index <= animals.len(),
            forall|before: int|
                0 <= before < index ==> !(#[trigger] animals@[before]).in_reach(*position, reach),
        decreases animals.len() - index,
    {
        let animal: &Animal = &animals[index];
        if !animal.picked && animal.position.is_within(position, reach) {
            proof {
                lemma_first_in_reach_is_unique(animals@, *position, reach, index as int);
            }
            return Some(index);
        }
        index += 1;
    }
    None
}

/// The first of `eggs` that lies nearer to `position` than the pickup radius.
pub fn get_egg_in_reach(eggs: &Vec<Egg>, position: &Vec2) -> (found: Option<usize>)
    ensures
        match found {
            Some(index) => first_egg_in_reach(eggs@, *position) == Some(index as int),
            None => first_egg_in_reach(eggs@, *position) is None,
        },
{
    let mut index: usize = 0;
    while index < eggs.len()
        invariant
            index <= eggs.len(),
            forall|before: int|
                0 <= before < index ==> !(#[trigger] eggs@[before]).position.within(
                    *position,
                    PICKUP_RADIUS,
                ),
        decreases eggs.len() - index,
    {
        if eggs[index].position.is_within(position, PICKUP_RADIUS) {
            proof {
                lemma_first_egg_in_reach_is_unique(eggs@, *position, index as int);
            }
            return Some(index);
        }
        index += 1;
    }
    None
}

/// The place of the first animal that is held, if one is.
pub fn get_picked_animal(animals: &Vec<Animal>) -> (found: Option<usize>)
    ensures
        match found {
            Some(index) => held(animals@) == Some(index as int),
            None => held(animals@) is None,
        },
{
    let mut index: usize = 0;
    while index < animals.len()
        invariant
            index <= animals.len(),
            forall|before: int| 0 <= before < index ==> !(#[trigger] animals@[before]).picked,
        decreases animals.len() - index,
    {
        if animals[index].picked {
            proof {
                lemma_first_held_is_unique(animals@, index as int);
            }
            return Some(index);
        }
        index += 1;
    }
    None
}

/// What a farm holds, as plain values.
#[verifier::ext_equal]
pub struct FarmView {
    pub animals: Seq<Animal>,
    pub eggs: Seq<Egg>,
    pub current_eggs: CurrentEggs,
    pub current_max_eggs: CurrentMaxEggs,
    pub current_egg_time: CurrentEggTime,
    pub timer: SpawnEggTimer,
    pub score: Score,
    pub max_egg_price: MaxEggPrice,
    pub egg_time_price: EggTimePrice,
}

impl FarmView {
    /// How often the egg limit has been raised.
    pub open spec fn max_egg_purchases(self) -> nat {
        (self.current_max_eggs.0 - 1) as nat
    }

    /// How often the time between two eggs has been cut.
    pub open spec fn egg_time_purchases(self) -> nat {
        ((START_EGG_TIME - self.current_egg_time.0) / (EGG_TIME_STEP as int)) as nat
    }

    /// What holds of a farm at all times.
    pub open spec fn wf(self) -> bool {
        &&& self.eggs.len() == self.current_eggs.0
        &&& self.current_eggs.0 <= self.current_max_eggs.0
        &&& 1 <= self.current_max_eggs.0
        &&& self.max_egg_price.0 == price_after(MAX_EGG_BASE_PRICE, self.max_egg_purchases())
        &&& EGG_TIME_STEP <= self.current_egg_time.0 <= START_EGG_TIME
        &&& self.current_egg_time.0 % EGG_TIME_STEP == 0
        &&& self.egg_time_price.0 == price_after(EGG_TIME_BASE_PRICE, self.egg_time_purchases())
        &&& self.timer.duration == self.current_egg_time.0
        &&& self.animals.len() <= usize::MAX
        &&& at_most_one_picked(self.animals)
        &&& forall|i: int| 0 <= i < self.animals.len() ==> (#[trigger] self.animals[i]).wf()
        &&& forall|i: int|
            0 <= i < self.eggs.len() ==> (#[trigger] self.eggs[i]).position.in_paddock()
    }
}

impl FarmView {
    /// There are never more eggs than the limit allows, and the counter
    /// counts the eggs that lie on the farm.
    pub proof fn lemma_eggs_within_limit(self)
        requires
            self.wf(),
        ensures
            self.current_eggs.0 <= self.current_max_eggs.0,
            self.eggs.len() == self.current_eggs.0,
            1 <= self.current_max_eggs.0,
    {
    }

    /// At most one animal is held: an animal that is held is the one that
    /// `held` names, and every other animal is free.
    pub proof fn lemma_at_most_one_held(self, index: int)
        requires
            self.wf(),
            0 <= index < self.animals.len(),
            self.animals[index].picked,
        ensures
            held(self.animals) == Some(index),
            forall|other: int|
                0 <= other < self.animals.len() && other != index ==> !(
                #[trigger] self.animals[other]).picked,
    {
        lemma_first_held_is_unique(self.animals, index);
    }

    /// Every animal and every egg lies inside the paddock, and every moving
    /// animal moves one unit a tick.
    pub proof fn lemma_all_inside_paddock(self)
        requires
            self.wf(),
        ensures
            forall|i: int|
                0 <= i < self.animals.len() ==> (#[trigger] self.animals[i]).position.in_paddock(),
            forall|i: int|
                0 <= i < self.animals.len() && (#[trigger] self.animals[i]).state is Moving
                    ==> self.animals[i].state.velocity().is_unit(),
            forall|i: int|
                0 <= i < self.eggs.len() ==> (#[trigger] self.eggs[i]).position.in_paddock(),
    {
    }
}

/// A farm: the animals and eggs in the order in which they came, and the
/// counters of the economy.
pub struct Farm {
    animals: Vec<Animal>,
    eggs: Vec<Egg>,
    current_eggs: CurrentEggs,
    current_max_eggs: CurrentMaxEggs,
    current_egg_time: CurrentEggTime,
    timer: SpawnEggTimer,
    score: Score,
    max_egg_price: MaxEggPrice,
    egg_time_price: EggTimePrice,
}

impl View for Farm {
    type V = FarmView;

    closed spec fn view(&self) -> FarmView {
        FarmView {
            animals: self.animals@,
            eggs: self.eggs@,
            current_eggs: self.current_eggs,
            current_max_eggs: self.current_max_eggs,
            current_egg_time: self.current_egg_time,
            timer: self.timer,
            score: self.score,
            max_egg_price: self.max_egg_price,
            egg_time_price: self.egg_time_price,
        }
    }
}

impl Farm {
    /// What holds of a farm at all times.
    pub open spec fn wf(&self) -> bool {
        self@.wf()
    }

    /// A farm without animals or eggs, room for one egg, the first egg a
    /// second away, an empty purse and both upgrades at their first price.
    pub fn new() -> (farm: Farm)
        ensures
            farm.wf(),
            farm@ =~= (FarmView {
                animals: Seq::empty(),
                eggs: Seq::empty(),
                current_eggs: CurrentEggs(0),
                current_max_eggs: CurrentMaxEggs(1),
                current_egg_time: CurrentEggTime(START_EGG_TIME),
                timer: SpawnEggTimer { elapsed: START_ELAPSED, duration: START_EGG_TIME },
                score: Score(0),
                max_egg_price: MaxEggPrice(MAX_EGG_BASE_PRICE),
                egg_time_price: EggTimePrice(EGG_TIME_BASE_PRICE),
            }),
    {
        proof {
            vstd::arithmetic::power::lemma_pow0(crate::economy::PRICE_FACTOR as int);
        }
        Farm {
            animals: Vec::new(),
            eggs: Vec::new(),
            current_eggs: CurrentEggs::default(),
            current_max_eggs: CurrentMaxEggs::default(),
            current_egg_time: CurrentEggTime::default(),
            timer: SpawnEggTimer::default(),
            score: Score::default(),
            max_egg_price: MaxEggPrice::default(),
            egg_time_price: EggTimePrice::default(),
        }
    }

    /// The animals, in the order in which they came.
    pub fn animals(&self) -> (animals: &Vec<Animal>)
        ensures
            animals@ == self@.animals,
    {
        &self.animals
    }

    /// The eggs, in the order in which they were laid.
    pub fn eggs(&self) -> (eggs: &Vec<Egg>)
        ensures
            eggs@ == self@.eggs,
    {
        &self.eggs
    }

    /// The number of eggs that lie on the farm.
    pub fn current_eggs(&self) -> (eggs: CurrentEggs)
        ensures
            eggs == self@.current_eggs,
    {
        self.current_eggs
    }

    /// The number of eggs that may lie on the farm at once.
    pub fn current_max_eggs(&self) -> (limit: CurrentMaxEggs)
        ensures
            limit == self@.current_max_eggs,
    {
        self.current_max_eggs
    }

    /// The time between two eggs.
    pub fn current_egg_time(&self) -> (time: CurrentEggTime)
        ensures
            time == self@.current_egg_time,
    {
        self.current_egg_time
    }

    /// The timer that lays the eggs.
    pub fn timer(&self) -> (timer: SpawnEggTimer)
        ensures
            timer == self@.timer,
    {
        self.timer
    }

    /// The purse.
    pub fn score(&self) -> (score: Score)
        ensures
            score == self@.score,
    {
        self.score
    }

    /// The price of the next raise of the egg limit.
    pub fn max_egg_price(&self) -> (price: MaxEggPrice)
        ensures
            price == self@.max_egg_price,
    {
        self.max_egg_price
    }

    /// The price of the next cut of the time between two eggs.
    pub fn egg_time_price(&self) -> (price: EggTimePrice)
        ensures
            price == self@.egg_time_price,
    {
        self.egg_time_price
    }

    /// Decides whether the farm is as a farm is at all times. Every farm
    /// that this library hands out is.
    pub fn is_wf(&self) -> (wf: bool)
        ensures
            wf == self.wf(),
    {
        if self.eggs.len() != self.current_eggs.0 as usize || self.current_eggs.0
            > self.current_max_eggs.0 || self.current_max_eggs.0 < 1 {
            return false;
        }
        if !is_price_after(
            self.max_egg_price.0,
            MAX_EGG_BASE_PRICE,
            (self.current_max_eggs.0 - 1) as u32,
        ) {
            return false;
        }
        if self.current_egg_time.0 < EGG_TIME_STEP || self.current_egg_time.0 > START_EGG_TIME
            || self.current_egg_time.0 % EGG_TIME_STEP != 0 {
            return false;
        }
        if !is_price_after(
            self.egg_time_price.0,
            EGG_TIME_BASE_PRICE,
            (START_EGG_TIME - self.current_egg_time.0) / EGG_TIME_STEP,
        ) {
            return false;
        }
        if self.timer.duration != self.current_egg_time.0 {
            return false;
        }
        let mut held_before: bool = false;
        let mut index: usize = 0;
        while index < self.animals.len()
            invariant
                index <= self.animals.len(),
                forall|i: int| 0 <= i < index ==> (#[trigger] self.animals@[i]).wf(),
                forall|i: int, j: int|
                    0 <= i < index && 0 <= j < index && (#[trigger] self.animals@[i]).picked && (
                    #[trigger] self.animals@[j]).picked ==> i == j,
                held_before <==> exists|i: int|
                    0 <= i < index && (#[trigger] self.animals@[i]).picked,
            decreases self.animals.len() - index,
        {
            let animal: &Animal = &self.animals[index];
            if !animal.is_wf() {
                return false;
            }
            if animal.picked {
                if held_before {
                    proof {
                        let first = choose|i: int|
                            0 <= i < index && (#[trigger] self.animals@[i]).picked;
                    }
                    return false;
                }
                held_before = true;
            }
            index += 1;
        }
        let mut place: usize = 0;
        while place < self.eggs.len()
            invariant
                place <= self.eggs.len(),
                forall|i: int| 0 <= i < place ==> (#[trigger] self.eggs@[i]).position.in_paddock(),
            decreases self.eggs.len() - place,
        {
            if !self.eggs[place].position.is_in_paddock() {
                return false;
            }
            place += 1;
        }
        true
    }

    /// Puts `amount` into the purse, which fills up to what sixty-four bits
    /// hold.
    pub fn deposit(&mut self, amount: u64)
        requires
            old(self).wf(),
        ensures
            final(self).wf(),
            final(self)@ == (FarmView {
                score: Score(
                    if old(self)@.score.0 + amount > u64::MAX {
                        u64::MAX
                    } else {
                        (old(self)@.score.0 + amount) as u64
                    },
                ),
                ..old(self)@
            }),
            final(self)@.score.0 >= old(self)@.score.0,
    {
        self.score = Score(self.score.0.saturating_add(amount));
    }

    /// Puts `animal` on the farm, behind the others. It is taken only if it
    /// stands inside the paddock, moves one unit a tick if it moves, and is
    /// not a second animal that is held. Says whether it was taken.
    pub fn add_animal(&mut self, animal: Animal) -> (taken: bool)
        requires
            old(self).wf(),
        ensures
            final(self).wf(),
            taken == (animal.wf() && !(animal.picked && held(old(self)@.animals) is Some)),
            final(self)@ =~= if taken {
                FarmView { animals: old(self)@.animals.push(animal), ..old(self)@ }
            } else {
                old(self)@
            },
    {
        if !animal.is_wf() {
            return false;
        }
        proof {
            lemma_held_names_the_held(self.animals@);
        }
        if animal.picked && get_picked_animal(&self.animals).is_some() {
            return false;
        }
        self.animals.push(animal);
        assert(self.animals@.len() == self.animals.len());
        true
    }

    /// Lays an egg at `position`, behind the others. It is laid only if
    /// there is room for one more egg and the place is inside the paddock.
    /// Says whether it was laid.
    pub fn add_egg(&mut self, position: Vec2) -> (laid: bool)
        requires
            old(self).wf(),
        ensures
            final(self).wf(),
            laid == (old(self)@.current_eggs.0 < old(self)@.current_max_eggs.0
                && position.in_paddock()),
            final(self)@ =~= if laid {
                FarmView {
                    eggs: old(self)@.eggs.push(Egg { position }),
                    current_eggs: CurrentEggs((old(self)@.current_eggs.0 + 1) as u8),
                    ..old(self)@
                }
            } else {
                old(self)@
            },
    {
        if self.current_eggs.0 >= self.current_max_eggs.0 || !position.is_in_paddock() {
            return false;
        }
        self.eggs.push(Egg { position });
        self.current_eggs = CurrentEggs(self.current_eggs.0 + 1);
        true
    }
}

} // verus!
