//! The egg timer and the income: what a tick does to the economy.

use vstd::prelude::*;
use crate::animal::Animal;
use crate::chance::random_point;
use crate::economy::{accrued, CurrentEggs, SpawnEggTimer};
use crate::farm::{Egg, Farm, FarmView};
use crate::geometry::Vec2;

verus! {

/// What `animals` earn together, in thousandths of a coin per second.
pub open spec fn income(animals: Seq<Animal>) -> nat
    decreases animals.len(),
{
    if animals.len() == 0 {
        0
    } else {
        income(animals.drop_last()) + animals.last().generation.rate()
    }
}

/// What `animals` earn together, in thousandths of a coin per second.
pub fn income_of(animals: &Vec<Animal>) -> (earned: u128)
    ensures
        earned == income(animals@),
{
    let mut earned: u128 = 0;
    let mut index: usize = 0;
    while index < animals.len()
        invariant
            index <= animals.len(),
            earned == income(animals@.take(index as int)),
            earned <= 92_000 * index,
        decreases animals.len() - index,
    {
        assert(animals@.take(index + 1).drop_last() =~= animals@.take(index as int));
        earned = earned + animals[index].generation.money_per_second() as u128;
        index += 1;
    }
    assert(animals@.take(index as int) =~= animals@);
    earned
}

impl FarmView {
    /// Whether the timer lays an egg in a tick of `delta` milliseconds:
    /// there is room for one, and the timer comes to its duration.
    pub open spec fn spawn_due(self, delta: u32) -> bool {
        self.current_eggs.0 < self.current_max_eggs.0 && self.timer.finishes(delta)
    }

    /// The farm after the spawn phase of a tick of `delta` milliseconds.
    /// While the farm is full of eggs the timer stands still. Otherwise it
    /// runs, and where it comes to its duration an egg is laid at the point
    /// of the paddock nearest to `position` and the timer starts again from
    /// zero.
    pub open spec fn after_spawn(self, delta: u32, position: Vec2) -> FarmView {
        if self.current_eggs.0 >= self.current_max_eggs.0 {
            self
        } else if self.timer.finishes(delta) {
            FarmView {
                eggs: self.eggs.push(
                    Egg {
                        position: Vec2::clamped_to_paddock(position.x as int, position.y as int),
                    },
                ),
                current_eggs: CurrentEggs((self.current_eggs.0 + 1) as u8),
                timer: SpawnEggTimer { elapsed: 0, duration: self.timer.duration },
                ..self
            }
        } else {
            FarmView { timer: self.timer.ticked(delta), ..self }
        }
    }

    /// The farm after its animals have earned for `delta` milliseconds.
    pub open spec fn after_collect(self, delta: u32) -> FarmView {
        FarmView { score: accrued(self.score, income(self.animals), delta), ..self }
    }
}

impl Farm {
    /// The spawn phase of a tick of `delta` milliseconds, with the place for
    /// an egg that the timer may lay. Says whether an egg was laid.
    pub fn spawn_at(&mut self, delta: u32, position: Vec2) -> (laid: bool)
        requires
            old(self).wf(),
        ensures
            final(self).wf(),
            laid == old(self)@.spawn_due(delta),
            final(self)@ =~= old(self)@.after_spawn(delta, position),
    {
        if self.current_max_eggs.0 <= self.current_eggs.0 {
            return false;
        }
        if !self.timer.tick(delta) {
            return false;
        }
        self.current_eggs = CurrentEggs(self.current_eggs.0 + 1);
        self.timer.reset();
        self.eggs.push(
            Egg { position: Vec2::clamp_to_paddock(position.x as i64, position.y as i64) },
        );
        true
    }

    /// The spawn phase of a tick of `delta` milliseconds: while there is room
    /// for an egg the timer runs, and where it comes to its duration an egg
    /// is laid at a point of the paddock drawn at random. Gives the place of
    /// the egg that was laid.
    pub fn spawn(&mut self, delta: u32) -> (laid: Option<Vec2>)
        requires
            old(self).wf(),
        ensures
            final(self).wf(),
            laid is Some == old(self)@.spawn_due(delta),
            match laid {
                Some(position) => position.in_paddock() && final(self)@ =~= old(self)@.after_spawn(
                    delta,
                    position,
                ),
                None => final(self)@ =~= old(self)@.after_spawn(delta, Vec2 { x: 0, y: 0 }),
            },
    {
        if self.current_max_eggs.0 <= self.current_eggs.0 {
            return None;
        }
        if !self.timer.tick(delta) {
            return None;
        }
        self.current_eggs = CurrentEggs(self.current_eggs.0 + 1);
        self.timer.reset();
        let position: Vec2 = random_point();
        self.eggs.push(Egg { position });
        Some(position)
    }

    /// The income of a tick of `delta` milliseconds: every animal earns what
    /// its generation earns.
    pub fn collect_money(&mut self, delta: u32)
        requires
            old(self).wf(),
        ensures
            final(self).wf(),
            final(self)@ == old(self)@.after_collect(delta),
            final(self)@.score.0 >= old(self)@.score.0,
    {
        let earned: u128 = income_of(&self.animals);
        self.score.accrue(earned, delta);
    }
}

} // verus!
