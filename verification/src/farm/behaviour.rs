//! Idling and wandering: what a tick does to the animals that are not held.

use vstd::prelude::*;
use crate::animal::Animal;
use crate::farm::{Farm, FarmView};

verus! {

impl FarmView {
    /// Whether `next` is the farm with other animals in the same places, each
    /// held or not as before.
    pub open spec fn same_but_animals(self, next: FarmView) -> bool {
        &&& next == (FarmView { animals: next.animals, ..self })
        &&& next.animals.len() == self.animals.len()
        &&& forall|i: int|
            0 <= i < self.animals.len() ==> {
                &&& (#[trigger] next.animals[i]).picked == self.animals[i].picked
                &&& next.animals[i].generation == self.animals[i].generation
            }
    }

    /// Whether `next` is what the state phase of a tick at `now` can make of
    /// the farm: each animal is what its own draw makes of it, so it is as
    /// it was or, where its state may end, has its state flipped; nothing
    /// else differs.
    pub open spec fn state_phase(self, next: FarmView, now: i64) -> bool {
        &&& self.same_but_animals(next)
        &&& forall|i: int|
            0 <= i < self.animals.len() ==> self.animals[i].state_step(
                #[trigger] next.animals[i],
                now,
            )
    }

    /// Whether `next` is what the move phase of a tick at `now` can make of
    /// the farm: each animal has moved, and one that has crossed a wall
    /// has turned; nothing else differs.
    pub open spec fn move_phase(self, next: FarmView, now: i64) -> bool {
        &&& self.same_but_animals(next)
        &&& forall|i: int|
            0 <= i < self.animals.len() ==> self.animals[i].move_step(
                #[trigger] next.animals[i],
                now,
            )
    }

    /// The animals' two phases leave the farm as a farm is at all times.
    pub proof fn lemma_behaviour_keeps_the_farm_well_formed(self, next: FarmView, now: i64)
        requires
            self.wf(),
            self.state_phase(next, now) || self.move_phase(next, now),
        ensures
            next.wf(),
    {
        if self.state_phase(next, now) {
            assert forall|i: int| 0 <= i < next.animals.len() implies
                (#[trigger] next.animals[i]).wf() by {
                self.animals[i].lemma_state_step_flips_or_stays(next.animals[i], now);
            }
        }
    }
}

impl Farm {
    /// The state phase of a tick at `now`: every animal that is not held and
    /// has rested or wandered long enough draws whether its state flips.
    pub fn update_animal_state(&mut self, now: i64)
        requires
            old(self).wf(),
        ensures
            final(self).wf(),
            old(self)@.state_phase(final(self)@, now),
    {
        let ghost before: FarmView = self@;
        let mut index: usize = 0;
        while index < self.animals.len()
            invariant
                before.wf(),
                index <= self.animals.len(),
                self@ == (FarmView { animals: self@.animals, ..before }),
                self@.animals.len() == before.animals.len(),
                forall|i: int|
                    0 <= i < index ==> before.animals[i].state_step(
                        #[trigger] self@.animals[i],
                        now,
                    ),
                forall|i: int|
                    index <= i < before.animals.len() ==> (#[trigger] self@.animals[i])
                        == before.animals[i],
                forall|i: int| 0 <= i < before.animals.len() ==> (#[trigger] self@.animals[i]).wf(),
            decreases self.animals.len() - index,
        {
            let mut animal: Animal = self.animals[index];
            animal.update_state(now);
            self.animals.set(index, animal);
            index += 1;
        }
    }

    /// The move phase of a tick at `now`: every moving animal that is not
    /// held takes one step along its velocity; one that crosses a wall stops
    /// at the wall and turns to a direction drawn at random.
    pub fn move_animals(&mut self, now: i64)
        requires
            old(self).wf(),
        ensures
            final(self).wf(),
            old(self)@.move_phase(final(self)@, now),
    {
        let ghost before: FarmView = self@;
        let mut index: usize = 0;
        while index < self.animals.len()
            invariant
                before.wf(),
                index <= self.animals.len(),
                self@ == (FarmView { animals: self@.animals, ..before }),
                self@.animals.len() == before.animals.len(),
                forall|i: int|
                    0 <= i < index ==> before.animals[i].move_step(
                        #[trigger] self@.animals[i],
                        now,
                    ),
                forall|i: int|
                    index <= i < before.animals.len() ==> (#[trigger] self@.animals[i])
                        == before.animals[i],
                forall|i: int| 0 <= i < before.animals.len() ==> (#[trigger] self@.animals[i]).wf(),
            decreases self.animals.len() - index,
        {
            let mut animal: Animal = self.animals[index];
            animal.move_about(now);
            self.animals.set(index, animal);
            index += 1;
        }
    }
}

} // verus!
