//! One tick of the farm, phase by phase.

use vstd::prelude::*;
use crate::actions::Actions;
use crate::economy::accrued;
use crate::farm::interaction::{DropOutcome, PickOutcome};
use crate::farm::spawning::income;
use crate::farm::{Farm, FarmView};
use crate::geometry::Vec2;

verus! {

/// What a tick did that the world outside the farm has to follow.
#[derive(Clone, Copy, Debug, PartialEq, Eq, Structural)]
pub struct TickReport {
    /// What the press did.
    pub pick: PickOutcome,
    /// What the release did.
    pub drop: DropOutcome,
    /// Where the timer laid an egg, if it did.
    pub laid: Option<Vec2>,
}

impl FarmView {
    /// Whether `next` is what the state phase and then the move phase of a
    /// tick at `now` can make of the farm.
    pub open spec fn behaviour_phase(self, next: FarmView, now: i64) -> bool {
        exists|between: FarmView| #[trigger]
            self.state_phase(between, now) && between.move_phase(next, now)
    }

    /// The farm after the pointer's three phases of a tick at `now`: pick,
    /// drag and drop, in this order.
    pub open spec fn after_pointer(self, actions: Actions, now: i64) -> FarmView {
        self.after_pick(actions, now).after_drag(actions).after_drop(actions, now)
    }

    /// Whether `next` is what a tick at `now`, `delta` milliseconds long, can
    /// make of the farm, with an egg laid at `laid` if at all. The phases
    /// come in a fixed order: pick, drag and drop; the animals' states and
    /// their moves; the egg timer; the income.
    pub open spec fn tick_to(
        self,
        next: FarmView,
        actions: Actions,
        now: i64,
        delta: u32,
        laid: Option<Vec2>,
    ) -> bool {
        let handled = self.after_pointer(actions, now);
        let moved = FarmView { animals: next.animals, ..handled };
        let place = match laid {
            Some(position) => position,
            None => Vec2 { x: 0, y: 0 },
        };
        &&& handled.behaviour_phase(moved, now)
        &&& laid is Some == moved.spawn_due(delta)
        &&& next == moved.after_spawn(delta, place).after_collect(delta)
    }
}

impl FarmView {
    /// Every phase of a tick leaves the farm as a farm is at all times: no
    /// more eggs than the limit allows, at most one animal held, and
    /// everything inside the paddock. (A hatch needs room to count one more
    /// animal.)
    pub proof fn lemma_phases_keep_the_farm_well_formed(
        self,
        actions: Actions,
        now: i64,
        delta: u32,
        position: Vec2,
    )
        requires
            self.wf(),
        ensures
            self.animals.len() < usize::MAX ==> self.after_pick(actions, now).wf(),
            self.animals.len() < usize::MAX ==> self.after_pointer(actions, now).wf(),
            self.after_drag(actions).wf(),
            self.after_drop(actions, now).wf(),
            self.after_spawn(delta, position).wf(),
            self.after_collect(delta).wf(),
    {
        self.lemma_drag_keeps_the_farm_well_formed(actions);
        self.lemma_drop_keeps_the_farm_well_formed(actions, now);
        if self.animals.len() < usize::MAX {
            self.lemma_pick_keeps_the_farm_well_formed(actions, now);
            let picked = self.after_pick(actions, now);
            picked.lemma_drag_keeps_the_farm_well_formed(actions);
            picked.after_drag(actions).lemma_drop_keeps_the_farm_well_formed(actions, now);
        }
    }
}

impl FarmView {
    /// A whole tick leaves the farm as a farm is at all times.
    pub proof fn lemma_tick_keeps_the_farm_well_formed(
        self,
        next: FarmView,
        actions: Actions,
        now: i64,
        delta: u32,
        laid: Option<Vec2>,
    )
        requires
            self.wf(),
            self.animals.len() < usize::MAX,
            self.tick_to(next, actions, now, delta, laid),
        ensures
            next.wf(),
    {
        let place = match laid {
            Some(position) => position,
            None => Vec2 { x: 0, y: 0 },
        };
        self.lemma_phases_keep_the_farm_well_formed(actions, now, delta, place);
        let handled = self.after_pointer(actions, now);
        let moved = FarmView { animals: next.animals, ..handled };
        let between = choose|between: FarmView| #[trigger]
            handled.state_phase(between, now) && between.move_phase(moved, now);
        handled.lemma_behaviour_keeps_the_farm_well_formed(between, now);
        between.lemma_behaviour_keeps_the_farm_well_formed(moved, now);
        moved.lemma_phases_keep_the_farm_well_formed(actions, now, delta, place);
    }
}

impl FarmView {
    /// The purse never shrinks in a tick: the pointer's phases, the animals'
    /// phases and the egg timer leave it alone, and the income only adds to
    /// it. A tick pays for the animals that it leaves behind, so a merge
    /// earns as the merged animal from the tick in which it happens.
    pub proof fn lemma_purse_never_shrinks_in_a_tick(
        self,
        next: FarmView,
        actions: Actions,
        now: i64,
        delta: u32,
        position: Vec2,
    )
        ensures
            self.after_pick(actions, now).score == self.score,
            self.after_drag(actions).score == self.score,
            self.after_drop(actions, now).score == self.score,
            self.after_pointer(actions, now).score == self.score,
            self.state_phase(next, now) ==> next.score == self.score,
            self.move_phase(next, now) ==> next.score == self.score,
            self.after_spawn(delta, position).score == self.score,
            self.after_collect(delta).score.0 >= self.score.0,
            self.tick_to(next, actions, now, delta, Some(position)) || self.tick_to(
                next,
                actions,
                now,
                delta,
                None,
            ) ==> next.score.0 >= self.score.0 && next.score == accrued(
                self.score,
                income(next.animals),
                delta,
            ),
    {
    }
}

impl Farm {
    /// One tick at the time `now`, `delta` milliseconds after the last one,
    /// with the pointer of this tick.
    pub fn tick(&mut self, actions: &Actions, now: i64, delta: u32) -> (report: TickReport)
        requires
            old(self).wf(),
        ensures
            final(self).wf(),
            report.pick == old(self)@.pick_outcome(*actions),
            report.drop == old(self)@.after_pick(*actions, now).after_drag(*actions).drop_outcome(
                *actions,
            ),
            report.laid matches Some(position) ==> position.in_paddock(),
            old(self)@.tick_to(final(self)@, *actions, now, delta, report.laid),
            final(self)@.score == accrued(old(self)@.score, income(final(self)@.animals), delta),
            final(self)@.score.0 >= old(self)@.score.0,
    {
        let pick: PickOutcome = self.pick_up_animal(actions, now);
        self.move_picked_animal(actions);
        let drop: DropOutcome = self.drop_animal(actions, now);
        self.update_animal_state(now);
        self.move_animals(now);
        let laid: Option<Vec2> = self.spawn(delta);
        self.collect_money(delta);
        TickReport { pick, drop, laid }
    }
}

} // verus!
