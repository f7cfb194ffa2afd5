//! The rules of a small merge-farm game, on integers.
//!
//! Animals wander a bounded paddock, a pointer picks them up and drops them
//! onto their like to merge them into the next generation, eggs appear on a
//! timer and hatch at a press, and every animal earns money that buys
//! upgrades. Lengths are counted in thousandths of a pixel, times in
//! milliseconds and money in millionths of a coin, so that every rule is
//! exact.

pub mod actions;
pub mod animal;
pub mod chance;
pub mod clock;
pub mod economy;
pub mod farm;
pub mod geometry;

pub use actions::{process_actions, Actions, MouseInput, TouchInput};
pub use animal::{Animal, AnimalGeneration, AnimalState};
pub use clock::Clock;
pub use economy::{
    CurrentEggTime, CurrentEggs, CurrentMaxEggs, EggTimePrice, MaxEggPrice, Score, SpawnEggTimer,
};
pub use farm::frame::TickReport;
pub use farm::interaction::{AnimalEvent, DropOutcome, PickOutcome};
pub use farm::upgrades::update_spawner_timer;
pub use farm::{get_animal_in_reach, Egg, Farm};
pub use geometry::{Vec2, ANIMAL_SIZE, UI_WIDTH, UNIT, WINDOW_HEIGHT, WINDOW_WIDTH};
