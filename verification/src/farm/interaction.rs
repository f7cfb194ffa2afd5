//! Pick, drag and drop: what the pointer does to the farm.

use vstd::prelude::*;
use crate::actions::Actions;
use crate::animal::{Animal, AnimalGeneration, AnimalState};
use crate::economy::CurrentEggs;
use crate::farm::{
    first_egg_in_reach, first_in_reach, get_animal_in_reach, get_egg_in_reach, get_picked_animal,
    held, lemma_held_names_the_held, Egg, Farm, FarmView,
};
use crate::geometry::{Vec2, PICKUP_RADIUS};

verus! {

/// What a press did to the farm.
#[derive(Clone, Copy, Debug, PartialEq, Eq, Structural)]
pub enum PickOutcome {
    /// Nothing was touched.
    Nothing,
    /// The egg at this place hatched: it left the eggs, and its chicken is
    /// now the last of the animals.
    Hatched { egg: usize },
    /// The animal at this place is now held.
    Picked { animal: usize },
}

/// What a release did to the farm.
#[derive(Clone, Copy, Debug, PartialEq, Eq, Structural)]
pub enum DropOutcome {
    /// Nothing was held, or nothing was released.
    Nothing,
    /// The animal at this place was let go where it was.
    Released { animal: usize },
    /// The held animal and the one it was dropped on left the animals, and
    /// the animal of this generation that they merged into is now the last
    /// of them.
    Merged { picked: usize, target: usize, generation: AnimalGeneration },
}

/// The news that an animal of this generation has come to the farm, by
/// hatching or by a merge.
#[derive(Clone, Copy, Debug, PartialEq, Eq, Structural)]
pub struct AnimalEvent(pub AnimalGeneration);

impl PickOutcome {
    /// The news of a press: a hatch brings a chicken.
    pub open spec fn news(self) -> Option<AnimalEvent> {
        match self {
            PickOutcome::Hatched { .. } => Some(AnimalEvent(AnimalGeneration::Chicken)),
            _ => None,
        }
    }

    /// The news of a press, if it hatched an egg.
    pub fn event(&self) -> (event: Option<AnimalEvent>)
        ensures
            event == self.news(),
    {
        match self {
            PickOutcome::Hatched { .. } => Some(AnimalEvent(AnimalGeneration::Chicken)),
            _ => None,
        }
    }
}

impl DropOutcome {
    /// The news of a release: a merge brings an animal of the next
    /// generation.
    pub open spec fn news(self) -> Option<AnimalEvent> {
        match self {
            DropOutcome::Merged { generation, .. } => Some(AnimalEvent(generation)),
            _ => None,
        }
    }

    /// The news of a release, if it merged two animals.
    pub fn event(&self) -> (event: Option<AnimalEvent>)
        ensures
            event == self.news(),
    {
        match self {
            DropOutcome::Merged { generation, .. } => Some(AnimalEvent(*generation)),
            _ => None,
        }
    }
}

/// `animals` without the animals at the two places `first` and `second`.
pub open spec fn without_two(animals: Seq<Animal>, first: int, second: int) -> Seq<Animal> {
    if first < second {
        animals.remove(second).remove(first)
    } else {
        animals.remove(first).remove(second)
    }
}

impl FarmView {
    /// The farm after the egg at the place `egg` has hatched at `now`.
    pub open spec fn hatch(self, egg: int, now: i64) -> FarmView {
        FarmView {
            animals: self.animals.push(Animal::hatchling(now, self.eggs[egg].position)),
            eggs: self.eggs.remove(egg),
            current_eggs: CurrentEggs((self.current_eggs.0 - 1) as u8),
            ..self
        }
    }

    /// The farm after the animal at the place `animal` has been taken up,
    /// or let go.
    pub open spec fn hold(self, animal: int, picked: bool) -> FarmView {
        FarmView {
            animals: self.animals.update(animal, Animal { picked, ..self.animals[animal] }),
            ..self
        }
    }

    /// The farm after the animals at `picked` and `target` have merged at
    /// `now`: both are gone, and one animal of the next generation rests
    /// where the target stood.
    pub open spec fn merge(self, picked: int, target: int, now: i64) -> FarmView {
        FarmView {
            animals: without_two(self.animals, picked, target).push(
                Animal {
                    generation: self.animals[picked].generation.successor().unwrap(),
                    state: AnimalState::Idle { since: now },
                    position: self.animals[target].position,
                    picked: false,
                },
            ),
            ..self
        }
    }

    /// What a tick's pointer does when it goes down: an egg in reach
    /// hatches; else, while no animal is held, an animal in reach is taken
    /// up.
    pub open spec fn pick_outcome(self, actions: Actions) -> PickOutcome {
        if !actions.just_pressed {
            PickOutcome::Nothing
        } else if let Some(position) = actions.position {
            if let Some(egg) = first_egg_in_reach(self.eggs, position) {
                PickOutcome::Hatched { egg: egg as usize }
            } else if held(self.animals) is Some {
                PickOutcome::Nothing
            } else if let Some(animal) = first_in_reach(self.animals, position, PICKUP_RADIUS) {
                PickOutcome::Picked { animal: animal as usize }
            } else {
                PickOutcome::Nothing
            }
        } else {
            PickOutcome::Nothing
        }
    }

    /// The farm after the pick phase of a tick at `now`.
    pub open spec fn after_pick(self, actions: Actions, now: i64) -> FarmView {
        match self.pick_outcome(actions) {
            PickOutcome::Nothing => self,
            PickOutcome::Hatched { egg } => self.hatch(egg as int, now),
            PickOutcome::Picked { animal } => self.hold(animal as int, true),
        }
    }

    /// The farm after the drag phase of a tick: a held animal stands where
    /// the pointer is, as far as the paddock reaches.
    pub open spec fn after_drag(self, actions: Actions) -> FarmView {
        match (held(self.animals), actions.position) {
            (Some(picked), Some(position)) => FarmView {
                animals: self.animals.update(
                    picked,
                    Animal {
                        position: Vec2::clamped_to_paddock(position.x as int, position.y as int),
                        ..self.animals[picked]
                    },
                ),
                ..self
            },
            _ => self,
        }
    }

    /// The animal that the animal held at `picked` merges with when it is
    /// dropped at `position`: the first animal in reach, if it is of the
    /// same generation and that generation is not the last.
    pub open spec fn merge_target(self, picked: int, position: Option<Vec2>) -> Option<int> {
        match position {
            None => None,
            Some(position) => match first_in_reach(self.animals, position, PICKUP_RADIUS) {
                None => None,
                Some(target) => if self.animals[target].generation
                    == self.animals[picked].generation
                    && self.animals[picked].generation.successor() is Some {
                    Some(target)
                } else {
                    None
                },
            },
        }
    }

    /// What a tick's pointer does when it goes up: a held animal merges
    /// with its target, or is let go where it is.
    pub open spec fn drop_outcome(self, actions: Actions) -> DropOutcome {
        if !actions.just_released {
            DropOutcome::Nothing
        } else {
            match held(self.animals) {
                None => DropOutcome::Nothing,
                Some(picked) => match self.merge_target(picked, actions.position) {
                    Some(target) => DropOutcome::Merged {
                        picked: picked as usize,
                        target: target as usize,
                        generation: self.animals[picked].generation.successor().unwrap(),
                    },
                    None => DropOutcome::Released { animal: picked as usize },
                },
            }
        }
    }

    /// The farm after the drop phase of a tick at `now`.
    pub open spec fn after_drop(self, actions: Actions, now: i64) -> FarmView {
        match self.drop_outcome(actions) {
            DropOutcome::Nothing => self,
            DropOutcome::Released { animal } => self.hold(animal as int, false),
            DropOutcome::Merged { picked, target, .. } => self.merge(
                picked as int,
                target as int,
                now,
            ),
        }
    }
}

impl FarmView {
    /// A held animal dropped on another of its generation, below the top of
    /// the ladder, merges with it: the two are gone, every other animal is
    /// still there in its order, and one animal of the next generation rests
    /// behind them, where the target stood, held by nobody.
    pub proof fn lemma_merge_makes_one_of_next(self, actions: Actions, now: i64)
        requires
            self.wf(),
            self.drop_outcome(actions) is Merged,
        ensures
            ({
                let picked = self.drop_outcome(actions)->picked as int;
                let target = self.drop_outcome(actions)->target as int;
                let low = if picked < target { picked } else { target };
                let high = if picked < target { target } else { picked };
                let next = self.after_drop(actions, now);
                &&& 0 <= picked < self.animals.len()
                &&& 0 <= target < self.animals.len()
                &&& picked != target
                &&& self.animals[picked].picked
                &&& !self.animals[target].picked
                &&& self.animals[target].generation == self.animals[picked].generation
                &&& self.animals[picked].generation.successor() is Some
                &&& next == self.merge(picked, target, now)
                &&& next.animals.len() == self.animals.len() - 1
                &&& next.animals.last() == (Animal {
                    generation: self.animals[picked].generation.successor().unwrap(),
                    state: AnimalState::Idle { since: now },
                    position: self.animals[target].position,
                    picked: false,
                })
                &&& forall|i: int| 0 <= i < low ==> next.animals[i] == self.animals[i]
                &&& forall|i: int| low < i < high ==> next.animals[i - 1] == self.animals[i]
                &&& forall|i: int|
                    high < i < self.animals.len() ==> next.animals[i - 2] == self.animals[i]
                &&& forall|i: int| 0 <= i < next.animals.len() ==> !next.animals[i].picked
                &&& next == (FarmView { animals: next.animals, ..self })
            }),
    {
    }

    /// Where the held animal or the animal it is dropped on stands at the
    /// top of the ladder, a release merges nothing: as many animals are
    /// there as before, each of the generation it had, and the held one is
    /// let go.
    pub proof fn lemma_top_of_ladder_never_merges(self, actions: Actions, now: i64)
        requires
            self.wf(),
            actions.just_released,
            held(self.animals) is Some,
            ({
                let picked = held(self.animals).unwrap();
                ||| self.animals[picked].generation.successor() is None
                ||| actions.position matches Some(position) && first_in_reach(
                    self.animals,
                    position,
                    PICKUP_RADIUS,
                ) matches Some(target) && self.animals[target].generation.successor() is None
            }),
        ensures
            self.drop_outcome(actions) == (DropOutcome::Released {
                animal: held(self.animals).unwrap() as usize,
            }),
            self.after_drop(actions, now).animals.len() == self.animals.len(),
            forall|i: int|
                0 <= i < self.animals.len() ==> (#[trigger] self.after_drop(
                    actions,
                    now,
                ).animals[i]).generation == self.animals[i].generation,
            forall|i: int|
                0 <= i < self.animals.len() ==> !(#[trigger] self.after_drop(
                    actions,
                    now,
                ).animals[i]).picked,
    {
    }
}

impl FarmView {
    /// The pick phase leaves the farm well formed, as long as one more
    /// animal can be counted.
    pub proof fn lemma_pick_keeps_the_farm_well_formed(self, actions: Actions, now: i64)
        requires
            self.wf(),
            self.animals.len() < usize::MAX,
        ensures
            self.after_pick(actions, now).wf(),
    {
        lemma_held_names_the_held(self.animals);
    }

    /// The drag phase leaves the farm well formed.
    pub proof fn lemma_drag_keeps_the_farm_well_formed(self, actions: Actions)
        requires
            self.wf(),
        ensures
            self.after_drag(actions).wf(),
    {
    }

    /// The drop phase leaves the farm well formed.
    pub proof fn lemma_drop_keeps_the_farm_well_formed(self, actions: Actions, now: i64)
        requires
            self.wf(),
        ensures
            self.after_drop(actions, now).wf(),
    {
    }
}

impl Farm {
    /// The pick phase of a tick: where the pointer has just gone down, the
    /// first egg in reach hatches into a chicken; without an egg in reach,
    /// and while no animal is held, the first animal in reach is taken up.
    pub fn pick_up_animal(&mut self, actions: &Actions, now: i64) -> (outcome: PickOutcome)
        requires
            old(self).wf(),
        ensures
            final(self).wf(),
            outcome == old(self)@.pick_outcome(*actions),
            final(self)@ =~= old(self)@.after_pick(*actions, now),
    {
        if !actions.just_pressed {
            return PickOutcome::Nothing;
        }
        let position: Vec2 = match actions.position {
            Some(position) => position,
            None => {
                return PickOutcome::Nothing;
            },
        };
        if let Some(egg) = get_egg_in_reach(&self.eggs, &position) {
            let laid: Egg = self.eggs.remove(egg);
            self.animals.push(Animal::new(now, laid.position));
            assert(self.animals@.len() == self.animals.len());
            self.current_eggs = CurrentEggs(self.current_eggs.0 - 1);
            return PickOutcome::Hatched { egg };
        }
        proof {
            lemma_held_names_the_held(self.animals@);
        }
        if get_picked_animal(&self.animals).is_some() {
            return PickOutcome::Nothing;
        }
        if let Some(animal) = get_animal_in_reach(&self.animals, &position, PICKUP_RADIUS) {
            let mut taken: Animal = self.animals[animal];
            taken.picked = true;
            self.animals.set(animal, taken);
            return PickOutcome::Picked { animal };
        }
        PickOutcome::Nothing
    }

    /// The drag phase of a tick: a held animal follows the pointer, as far
    /// as the paddock reaches.
    pub fn move_picked_animal(&mut self, actions: &Actions)
        requires
            old(self).wf(),
        ensures
            final(self).wf(),
            final(self)@ =~= old(self)@.after_drag(*actions),
    {
        if let Some(picked) = get_picked_animal(&self.animals) {
            if let Some(position) = actions.position {
                let mut dragged: Animal = self.animals[picked];
                dragged.position = Vec2::clamp_to_paddock(position.x as i64, position.y as i64);
                self.animals.set(picked, dragged);
            }
        }
    }

    /// The drop phase of a tick: where the pointer has just gone up, a held
    /// animal that lies on another of its generation merges with it into
    /// one animal of the next generation; otherwise it is let go.
    pub fn drop_animal(&mut self, actions: &Actions, now: i64) -> (outcome: DropOutcome)
        requires
            old(self).wf(),
        ensures
            final(self).wf(),
            outcome == old(self)@.drop_outcome(*actions),
            final(self)@ =~= old(self)@.after_drop(*actions, now),
    {
        if !actions.just_released {
            return DropOutcome::Nothing;
        }
        let picked: usize = match get_picked_animal(&self.animals) {
            Some(picked) => picked,
            None => {
                return DropOutcome::Nothing;
            },
        };
        if let Some(position) = actions.position {
            if let Some(target) = get_animal_in_reach(&self.animals, &position, PICKUP_RADIUS) {
                let dropped: Animal = self.animals[picked];
                let below: Animal = self.animals[target];
                if dropped.generation == below.generation {
                    if let Some(generation) = dropped.generation.next() {
                        let merged: Animal = Animal {
                            generation,
                            state: AnimalState::Idle { since: now },
                            position: below.position,
                            picked: false,
                        };
                        if picked < target {
                            self.animals.remove(target);
                            self.animals.remove(picked);
                        } else {
                            self.animals.remove(picked);
                            self.animals.remove(target);
                        }
                        self.animals.push(merged);
                        return DropOutcome::Merged { picked, target, generation };
                    }
                }
            }
        }
        let mut released: Animal = self.animals[picked];
        released.picked = false;
        self.animals.set(picked, released);
        DropOutcome::Released { animal: picked }
    }
}

} // verus!
