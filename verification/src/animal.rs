//! The animals: their generations, what each earns, and how one idles and
//! wanders.

use vstd::prelude::*;
use crate::chance::{
    hits, is_drawn_direction, lemma_drawn_direction_is_unit, lemma_right_is_a_drawn_direction,
    random_bits, random_direction, strikes,
};
use crate::geometry::{
    Vec2, PADDOCK_MAX_X, PADDOCK_MAX_Y, PADDOCK_MIN_X, PADDOCK_MIN_Y, UNIT,
};

verus! {

/// Milliseconds an idle animal rests before it may start to move.
pub const IDLE_DWELL: i64 = 1000;

/// Milliseconds a moving animal keeps going before it may stop.
pub const MOVING_DWELL: i64 = 1500;

/// Milliseconds by which a bounce off a wall dates the new direction back.
pub const BOUNCE_CREDIT: i64 = 1000;

/// Chance in a thousand, per tick, that a rested animal starts to move.
pub const IDLE_CHANCE: u32 = 20;

/// Chance in a thousand, per tick, that a moving animal comes to rest.
pub const MOVING_CHANCE: u32 = 3;

/// The rungs of the merge ladder, lowest first.
#[derive(Clone, Copy, Debug, PartialEq, Eq, Hash, Structural)]
pub enum AnimalGeneration {
    Chicken,
    ChickenDuck,
    ChickenDuckGoat,
    ChickenDuckGoatSheep,
    ChickenDuckGoatSheepPig,
    ChickenDuckGoatSheepPigCow,
    ChickenDuckGoatSheepPigCowRabbit,
}

impl AnimalGeneration {
    /// The rung's place on the ladder, counted from zero.
    pub open spec fn ordinal(self) -> nat {
        match self {
            AnimalGeneration::Chicken => 0,
            AnimalGeneration::ChickenDuck => 1,
            AnimalGeneration::ChickenDuckGoat => 2,
            AnimalGeneration::ChickenDuckGoatSheep => 3,
            AnimalGeneration::ChickenDuckGoatSheepPig => 4,
            AnimalGeneration::ChickenDuckGoatSheepPigCow => 5,
            AnimalGeneration::ChickenDuckGoatSheepPigCowRabbit => 6,
        }
    }

    /// The rung at a place of the ladder, if the ladder reaches that far.
    pub open spec fn at(place: nat) -> Option<AnimalGeneration> {
        if place == 0 {
            Some(AnimalGeneration::Chicken)
        } else if place == 1 {
            Some(AnimalGeneration::ChickenDuck)
        } else if place == 2 {
            Some(AnimalGeneration::ChickenDuckGoat)
        } else if place == 3 {
            Some(AnimalGeneration::ChickenDuckGoatSheep)
        } else if place == 4 {
            Some(AnimalGeneration::ChickenDuckGoatSheepPig)
        } else if place == 5 {
            Some(AnimalGeneration::ChickenDuckGoatSheepPigCow)
        } else if place == 6 {
            Some(AnimalGeneration::ChickenDuckGoatSheepPigCowRabbit)
        } else {
            None
        }
    }

    /// The rung above this one; the top rung has none.
    pub open spec fn successor(self) -> Option<AnimalGeneration> {
        AnimalGeneration::at(self.ordinal() + 1)
    }

    /// What one animal of this rung earns, in thousandths of a coin per second.
    pub open spec fn rate(self) -> nat {
        match self {
            AnimalGeneration::Chicken => 500,
            AnimalGeneration::ChickenDuck => 1_500,
            AnimalGeneration::ChickenDuckGoat => 4_000,
            AnimalGeneration::ChickenDuckGoatSheep => 9_500,
            AnimalGeneration::ChickenDuckGoatSheepPig => 21_000,
            AnimalGeneration::ChickenDuckGoatSheepPigCow => 44_500,
            AnimalGeneration::ChickenDuckGoatSheepPigCowRabbit => 92_000,
        }
    }

    /// The rung's place on the ladder, counted from zero.
    pub fn index(&self) -> (place: usize)
        ensures
            place == self.ordinal(),
    {
        match self {
            AnimalGeneration::Chicken => 0,
            AnimalGeneration::ChickenDuck => 1,
            AnimalGeneration::ChickenDuckGoat => 2,
            AnimalGeneration::ChickenDuckGoatSheep => 3,
            AnimalGeneration::ChickenDuckGoatSheepPig => 4,
            AnimalGeneration::ChickenDuckGoatSheepPigCow => 5,
            AnimalGeneration::ChickenDuckGoatSheepPigCowRabbit => 6,
        }
    }

    /// The rung at `place`, or `None` beyond the top.
    pub fn from_index(place: usize) -> (rung: Option<AnimalGeneration>)
        ensures
            rung == AnimalGeneration::at(place as nat),
    {
        match place {
            0 => Some(AnimalGeneration::Chicken),
            1 => Some(AnimalGeneration::ChickenDuck),
            2 => Some(AnimalGeneration::ChickenDuckGoat),
            3 => Some(AnimalGeneration::ChickenDuckGoatSheep),
            4 => Some(AnimalGeneration::ChickenDuckGoatSheepPig),
            5 => Some(AnimalGeneration::ChickenDuckGoatSheepPigCow),
            6 => Some(AnimalGeneration::ChickenDuckGoatSheepPigCowRabbit),
            _ => None,
        }
    }

    /// The generation that two animals of this one merge into, or `None` at
    /// the top of the ladder.
    pub fn next(&self) -> (above: Option<AnimalGeneration>)
        ensures
            above == self.successor(),
    {
        match self {
            AnimalGeneration::Chicken => Some(AnimalGeneration::ChickenDuck),
            AnimalGeneration::ChickenDuck => Some(AnimalGeneration::ChickenDuckGoat),
            AnimalGeneration::ChickenDuckGoat => Some(AnimalGeneration::ChickenDuckGoatSheep),
            AnimalGeneration::ChickenDuckGoatSheep => Some(
                AnimalGeneration::ChickenDuckGoatSheepPig,
            ),
            AnimalGeneration::ChickenDuckGoatSheepPig => Some(
                AnimalGeneration::ChickenDuckGoatSheepPigCow,
            ),
            AnimalGeneration::ChickenDuckGoatSheepPigCow => Some(
                AnimalGeneration::ChickenDuckGoatSheepPigCowRabbit,
            ),
            AnimalGeneration::ChickenDuckGoatSheepPigCowRabbit => None,
        }
    }

    /// What one animal of this generation earns, in thousandths of a coin per
    /// second.
    pub fn money_per_second(&self) -> (earned: u32)
        ensures
            earned == self.rate(),
    {
        match self {
            AnimalGeneration::Chicken => 500,
            AnimalGeneration::ChickenDuck => 1_500,
            AnimalGeneration::ChickenDuckGoat => 4_000,
            AnimalGeneration::ChickenDuckGoatSheep => 9_500,
            AnimalGeneration::ChickenDuckGoatSheepPig => 21_000,
            AnimalGeneration::ChickenDuckGoatSheepPigCow => 44_500,
            AnimalGeneration::ChickenDuckGoatSheepPigCowRabbit => 92_000,
        }
    }

    /// The ladder is walked one rung at a time: a successor stands exactly
    /// one place higher, and only the seventh rung has none.
    pub proof fn lemma_successor_is_next_rung(self)
        ensures
            AnimalGeneration::at(self.ordinal()) == Some(self),
            self.ordinal() <= 6,
            self.successor() is None <==> self.ordinal() == 6,
            self.successor() matches Some(above) ==> above.ordinal() == self.ordinal() + 1,
    {
    }

    /// A higher rung earns more than a lower one.
    pub proof fn lemma_rate_grows_with_rung(self, other: AnimalGeneration)
        ensures
            self.ordinal() < other.ordinal() <==> self.rate() < other.rate(),
            500 <= self.rate() <= 92_000,
    {
    }

    /// Each rung earns more than twice and at most three times what the rung
    /// below it earns.
    pub proof fn lemma_rate_doubles_to_triples(self)
        ensures
            self.successor() matches Some(above) ==> 2 * self.rate() < above.rate() <= 3
                * self.rate(),
    {
    }
}

/// What an animal is doing, and since when.
#[derive(Clone, Copy, Debug, PartialEq, Eq, Structural)]
pub enum AnimalState {
    Idle { since: i64 },
    Moving { velocity: Vec2, since: i64 },
}

/// The time a bounce at `now` dates the new direction back to: a second
/// before `now`, or the earliest time there is.
pub open spec fn bounce_since(now: i64) -> i64 {
    if now - BOUNCE_CREDIT < i64::MIN {
        i64::MIN
    } else {
        (now - BOUNCE_CREDIT) as i64
    }
}

impl AnimalState {
    /// The time at which the state was entered.
    pub open spec fn since(self) -> i64 {
        match self {
            AnimalState::Idle { since } => since,
            AnimalState::Moving { since, .. } => since,
        }
    }

    /// How long a state of this kind lasts at least, in milliseconds.
    pub open spec fn dwell(self) -> int {
        match self {
            AnimalState::Idle { .. } => IDLE_DWELL as int,
            AnimalState::Moving { .. } => MOVING_DWELL as int,
        }
    }

    /// The chance in a thousand that a state of this kind ends at a tick.
    pub open spec fn chance(self) -> u32 {
        match self {
            AnimalState::Idle { .. } => IDLE_CHANCE,
            AnimalState::Moving { .. } => MOVING_CHANCE,
        }
    }

    /// Whether the state has lasted longer than its dwell time at `now`.
    pub open spec fn rested(self, now: i64) -> bool {
        now - self.since() > self.dwell()
    }

    /// The state that follows this one at `now`: an idle animal sets off
    /// along `velocity`, a moving one comes to rest.
    pub open spec fn flipped(self, now: i64, velocity: Vec2) -> AnimalState {
        match self {
            AnimalState::Idle { .. } => AnimalState::Moving { velocity, since: now },
            AnimalState::Moving { .. } => AnimalState::Idle { since: now },
        }
    }

    /// The state after a bounce off a wall at `now`: a moving animal turns to
    /// `velocity`, dated back by the bounce credit; an idle one stays as it is.
    pub open spec fn turned(self, now: i64, velocity: Vec2) -> AnimalState {
        match self {
            AnimalState::Idle { .. } => self,
            AnimalState::Moving { .. } => AnimalState::Moving {
                velocity,
                since: bounce_since(now),
            },
        }
    }

    /// The velocity of a moving animal; an idle one has none.
    pub open spec fn velocity(self) -> Vec2 {
        match self {
            AnimalState::Idle { .. } => Vec2 { x: 0, y: 0 },
            AnimalState::Moving { velocity, .. } => velocity,
        }
    }

    /// Flips the state at `now`: an idle animal sets off in a direction drawn
    /// at random, a moving one comes to rest.
    pub fn update(&mut self, now: i64)
        ensures
            *final(self) == old(self).flipped(now, final(self).velocity()),
            *final(self) is Moving ==> is_drawn_direction(final(self).velocity()),
            *final(self) is Moving ==> final(self).velocity().is_unit(),
    {
        match *self {
            AnimalState::Idle { .. } => {
                let velocity: Vec2 = random_direction();
                self.update_with(now, velocity);
            },
            AnimalState::Moving { velocity, .. } => {
                self.update_with(now, velocity);
            },
        }
    }

    /// Turns a moving animal to a direction drawn at random after a bounce
    /// at `now`.
    pub fn change_direction(&mut self, now: i64)
        ensures
            *final(self) == old(self).turned(now, final(self).velocity()),
            *old(self) is Moving ==> final(self).velocity().is_unit(),
    {
        match *self {
            AnimalState::Moving { .. } => {
                let velocity: Vec2 = random_direction();
                self.change_direction_with(now, velocity);
            },
            AnimalState::Idle { .. } => {},
        }
    }

    /// Flips the state at `now`, an idle animal setting off along `velocity`.
    pub fn update_with(&mut self, now: i64, velocity: Vec2)
        ensures
            *final(self) == old(self).flipped(now, velocity),
    {
        match *self {
            AnimalState::Idle { .. } => {
                *self = AnimalState::Moving { velocity, since: now };
            },
            AnimalState::Moving { .. } => {
                *self = AnimalState::Idle { since: now };
            },
        }
    }

    /// Turns a moving animal to `velocity` after a bounce at `now`.
    pub fn change_direction_with(&mut self, now: i64, velocity: Vec2)
        ensures
            *final(self) == old(self).turned(now, velocity),
    {
        match *self {
            AnimalState::Moving { .. } => {
                let since: i64 = if now < i64::MIN + BOUNCE_CREDIT {
                    i64::MIN
                } else {
                    now - BOUNCE_CREDIT
                };
                *self = AnimalState::Moving { velocity, since };
            },
            AnimalState::Idle { .. } => {},
        }
    }

    /// Whether the state has lasted longer than its dwell time, so that it
    /// may end at this tick.
    pub fn can_update_movement(&self, now: i64) -> (may: bool)
        ensures
            may == self.rested(now),
    {
        match *self {
            AnimalState::Idle { since } => now as i128 - since as i128 > IDLE_DWELL as i128,
            AnimalState::Moving { since, .. } => now as i128 - since as i128
                > MOVING_DWELL as i128,
        }
    }
}

/// One animal of the farm.
#[derive(Clone, Copy, Debug, PartialEq, Eq, Structural)]
pub struct Animal {
    pub generation: AnimalGeneration,
    pub state: AnimalState,
    pub position: Vec2,
    /// Whether the pointer holds the animal.
    pub picked: bool,
}

impl Animal {
    /// Whether the animal stands inside the paddock and, if it moves, moves
    /// one unit a tick.
    pub open spec fn wf(self) -> bool {
        &&& self.position.in_paddock()
        &&& self.state matches AnimalState::Moving { velocity, .. } ==> velocity.is_unit()
    }

    /// The chicken that hatches at `position` at the time `now`: it rests,
    /// and nobody holds it.
    pub open spec fn hatchling(now: i64, position: Vec2) -> Animal {
        Animal {
            generation: AnimalGeneration::Chicken,
            state: AnimalState::Idle { since: now },
            position,
            picked: false,
        }
    }

    /// Whether the pointer at `position` can touch the animal: it is not
    /// held, and it is nearer than `reach`.
    pub open spec fn in_reach(self, position: Vec2, reach: i32) -> bool {
        !self.picked && self.position.within(position, reach)
    }

    /// Whether the animal's state may end at `now`: it is not held, and the
    /// state has lasted longer than its dwell time.
    pub open spec fn may_flip(self, now: i64) -> bool {
        !self.picked && self.state.rested(now)
    }

    /// The animal after the state phase of a tick at `now` in which it drew
    /// `bits`: where its state may end and the draw falls below the state's
    /// chance, the state flips, an idle animal setting off along `velocity`.
    pub open spec fn after_roll(self, now: i64, bits: u32, velocity: Vec2) -> Animal {
        if self.may_flip(now) && strikes(bits, self.state.chance()) {
            Animal { state: self.state.flipped(now, velocity), ..self }
        } else {
            self
        }
    }

    /// Whether `next` is what the state phase of a tick at `now` can make of
    /// the animal: the animal after it has drawn some `bits`, with some
    /// direction that draws can stand for to set off along.
    pub open spec fn state_step(self, next: Animal, now: i64) -> bool {
        exists|bits: u32, velocity: Vec2|
            is_drawn_direction(velocity) && next == #[trigger] self.after_roll(
                now,
                bits,
                velocity,
            )
    }

    /// What the state phase can make of an animal is the animal as it was
    /// or, where its state may end, the animal with its state flipped; an
    /// animal that has set off moves one unit a tick.
    pub proof fn lemma_state_step_flips_or_stays(self, next: Animal, now: i64)
        requires
            self.state_step(next, now),
        ensures
            next == self || (self.may_flip(now) && next == (Animal {
                state: self.state.flipped(now, next.state.velocity()),
                ..self
            })),
            !self.may_flip(now) ==> next == self,
            next.generation == self.generation,
            next.position == self.position,
            next.picked == self.picked,
            self.wf() ==> next.wf(),
    {
        let (bits, velocity) = choose|bits: u32, velocity: Vec2|
            is_drawn_direction(velocity) && next == #[trigger] self.after_roll(
                now,
                bits,
                velocity,
            );
        lemma_drawn_direction_is_unit(velocity);
    }

    /// Whether the animal moves in the move phase of a tick: it is not held,
    /// and its state is moving.
    pub open spec fn moves(self) -> bool {
        !self.picked && self.state is Moving
    }

    /// Whether a step along its velocity takes the animal across a wall of
    /// the paddock.
    pub open spec fn crosses_wall(self) -> bool {
        self.moves() && !Vec2::paddock_holds(
            self.position.x + self.state.velocity().x,
            self.position.y + self.state.velocity().y,
        )
    }

    /// The animal after the move phase of a tick at `now`: a moving animal
    /// that is not held takes one step along its velocity; where the step
    /// crosses a wall it stops at the wall and turns to `velocity`.
    pub open spec fn after_move(self, now: i64, velocity: Vec2) -> Animal {
        if self.moves() {
            Animal {
                position: Vec2::clamped_to_paddock(
                    self.position.x + self.state.velocity().x,
                    self.position.y + self.state.velocity().y,
                ),
                state: if self.crosses_wall() {
                    self.state.turned(now, velocity)
                } else {
                    self.state
                },
                ..self
            }
        } else {
            self
        }
    }

    /// Whether `next` is what the move phase of a tick at `now` can make of
    /// the animal: the animal after its move, turned to a direction of unit
    /// length where it has crossed a wall.
    pub open spec fn move_step(self, next: Animal, now: i64) -> bool {
        &&& next == self.after_move(now, next.state.velocity())
        &&& self.crosses_wall() ==> next.state.velocity().is_unit()
    }

    /// Decides whether the animal stands inside the paddock and, if it
    /// moves, moves one unit a tick.
    pub fn is_wf(&self) -> (wf: bool)
        ensures
            wf == self.wf(),
    {
        if !self.position.is_in_paddock() {
            return false;
        }
        match self.state {
            AnimalState::Idle { .. } => true,
            AnimalState::Moving { velocity, .. } => velocity.has_unit_length(),
        }
    }

    /// Decides whether a step along its velocity takes the animal across a
    /// wall of the paddock.
    pub fn is_crossing_wall(&self) -> (crossing: bool)
        ensures
            crossing == self.crosses_wall(),
    {
        if self.picked {
            return false;
        }
        match self.state {
            AnimalState::Idle { .. } => false,
            AnimalState::Moving { velocity, .. } => {
                let x: i64 = self.position.x as i64 + velocity.x as i64;
                let y: i64 = self.position.y as i64 + velocity.y as i64;
                !(PADDOCK_MIN_X as i64 <= x && x <= PADDOCK_MAX_X as i64 && PADDOCK_MIN_Y as i64
                    <= y && y <= PADDOCK_MAX_Y as i64)
            },
        }
    }

    /// The state phase of a tick at `now` for an animal that drew `bits`.
    pub fn update_state_with(&mut self, now: i64, bits: u32, velocity: Vec2)
        ensures
            *final(self) == old(self).after_roll(now, bits, velocity),
    {
        if self.picked || !self.state.can_update_movement(now) {
            return ;
        }
        let chance: u32 = match self.state {
            AnimalState::Idle { .. } => IDLE_CHANCE,
            AnimalState::Moving { .. } => MOVING_CHANCE,
        };
        if hits(bits, chance) {
            self.state.update_with(now, velocity);
        }
    }

    /// The state phase of a tick at `now`: where the animal's state may end,
    /// a draw decides whether it does, and an idle animal that sets off
    /// draws its direction.
    pub fn update_state(&mut self, now: i64)
        ensures
            old(self).state_step(*final(self), now),
            old(self).wf() ==> final(self).wf(),
    {
        let ghost right: Vec2 = Vec2 { x: UNIT, y: 0 };
        proof {
            lemma_right_is_a_drawn_direction();
        }
        if self.picked || !self.state.can_update_movement(now) {
            assert(*self == old(self).after_roll(now, 0, right));
            return ;
        }
        let chance: u32 = match self.state {
            AnimalState::Idle { .. } => IDLE_CHANCE,
            AnimalState::Moving { .. } => MOVING_CHANCE,
        };
        let bits: u32 = random_bits();
        if hits(bits, chance) {
            self.state.update(now);
            proof {
                let velocity = if self.state is Moving {
                    self.state.velocity()
                } else {
                    right
                };
                assert(*self == old(self).after_roll(now, bits, velocity));
            }
        } else {
            assert(*self == old(self).after_roll(now, bits, right));
        }
    }

    /// The move phase of a tick at `now`, with the direction to turn to at
    /// a wall.
    pub fn move_with(&mut self, now: i64, velocity: Vec2)
        ensures
            *final(self) == old(self).after_move(now, velocity),
            old(self).moves() ==> final(self).position.in_paddock(),
            old(self).wf() && velocity.is_unit() ==> final(self).wf(),
    {
        if self.picked {
            return ;
        }
        if let AnimalState::Moving { velocity: step, .. } = self.state {
            let crossing: bool = self.is_crossing_wall();
            self.position = Vec2::clamp_to_paddock(
                self.position.x as i64 + step.x as i64,
                self.position.y as i64 + step.y as i64,
            );
            if crossing {
                self.state.change_direction_with(now, velocity);
            }
        }
    }

    /// The move phase of a tick at `now`: a moving animal that is not held
    /// takes one step; at a wall it stops and turns to a direction drawn at
    /// random.
    pub fn move_about(&mut self, now: i64)
        ensures
            old(self).move_step(*final(self), now),
            old(self).wf() ==> final(self).wf(),
    {
        if self.is_crossing_wall() {
            let velocity: Vec2 = random_direction();
            self.move_with(now, velocity);
        } else {
            let velocity: Vec2 = Vec2 { x: 0, y: 0 };
            self.move_with(now, velocity);
        }
    }

    /// A chicken that has just come to rest at `position`.
    pub fn new(now: i64, position: Vec2) -> (animal: Animal)
        ensures
            animal == Animal::hatchling(now, position),
    {
        Animal {
            generation: AnimalGeneration::Chicken,
            state: AnimalState::Idle { since: now },
            position,
            picked: false,
        }
    }
}

} // verus!
