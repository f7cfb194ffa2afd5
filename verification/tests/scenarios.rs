use shmoo_farm::{
    Actions, Animal, AnimalGeneration, AnimalState, CurrentEggTime, CurrentEggs, CurrentMaxEggs,
    DropOutcome, EggTimePrice, Farm, MaxEggPrice, PickOutcome, Score, SpawnEggTimer, Vec2,
};

fn chicken(x: i32, y: i32) -> Animal {
    Animal::new(0, Vec2::new(x, y))
}

fn pointer(pressed: bool, released: bool, x: i32, y: i32) -> Actions {
    Actions { just_pressed: pressed, just_released: released, position: Some(Vec2::new(x, y)) }
}

fn check_the_farm(farm: &Farm, purse_before: Score) {
    assert!(farm.is_wf());
    assert!(farm.current_eggs().0 <= farm.current_max_eggs().0);
    assert_eq!(farm.eggs().len(), farm.current_eggs().0 as usize);
    assert!(farm.animals().iter().filter(|animal| animal.picked).count() <= 1);
    assert!(farm.animals().iter().all(|animal| animal.is_wf()));
    assert!(farm.eggs().iter().all(|egg| egg.position.is_in_paddock()));
    assert!(farm.score().0 >= purse_before.0);
    assert_eq!(farm.timer().duration, farm.current_egg_time().0);
}

#[test]
fn an_egg_is_laid_after_ten_seconds_and_the_next_only_after_a_hatch() {
    let mut farm = Farm::new();
    assert_eq!(farm.current_max_eggs(), CurrentMaxEggs(1));
    assert_eq!(farm.current_egg_time(), CurrentEggTime(10_000));
    assert!(farm.spawn_at(1_000, Vec2::new(0, 0)));
    assert_eq!(
        farm.pick_up_animal(&pointer(true, false, 0, 0), 1_000),
        PickOutcome::Hatched { egg: 0 }
    );
    assert_eq!(farm.current_eggs(), CurrentEggs(0));
    assert_eq!(farm.timer(), SpawnEggTimer { elapsed: 0, duration: 10_000 });

    assert!(!farm.spawn_at(4_000, Vec2::new(10, 10)));
    assert!(!farm.spawn_at(5_999, Vec2::new(10, 10)));
    assert_eq!(farm.current_eggs(), CurrentEggs(0));
    assert!(farm.spawn_at(1, Vec2::new(10, 10)));
    assert_eq!(farm.current_eggs(), CurrentEggs(1));
    assert_eq!(farm.timer(), SpawnEggTimer { elapsed: 0, duration: 10_000 });

    assert!(!farm.spawn_at(10_000, Vec2::new(20, 20)));
    assert!(!farm.spawn_at(10_000, Vec2::new(20, 20)));
    assert_eq!(farm.current_eggs(), CurrentEggs(1));
    assert_eq!(farm.timer(), SpawnEggTimer { elapsed: 0, duration: 10_000 });

    assert_eq!(
        farm.pick_up_animal(&pointer(true, false, 10, 10), 30_000),
        PickOutcome::Hatched { egg: 0 }
    );
    assert_eq!(farm.current_eggs(), CurrentEggs(0));
    assert!(!farm.spawn_at(9_999, Vec2::new(20, 20)));
    assert!(farm.spawn_at(1, Vec2::new(20, 20)));
    assert_eq!(farm.current_eggs(), CurrentEggs(1));
}

#[test]
fn a_chicken_dropped_on_a_chicken_makes_one_duck_where_the_target_stood() {
    let mut farm = Farm::new();
    assert!(farm.add_animal(chicken(0, 0)));
    assert!(farm.add_animal(chicken(100_000, 50_000)));
    assert_eq!(
        farm.pick_up_animal(&pointer(true, false, 0, 0), 1_000),
        PickOutcome::Picked { animal: 0 }
    );
    farm.move_picked_animal(&pointer(false, false, 99_000, 51_000));
    assert_eq!(farm.animals()[0].position, Vec2::new(99_000, 51_000));
    let outcome = farm.drop_animal(&pointer(false, true, 99_000, 51_000), 5_000);
    assert_eq!(
        outcome,
        DropOutcome::Merged { picked: 0, target: 1, generation: AnimalGeneration::ChickenDuck }
    );
    assert_eq!(
        farm.animals().as_slice(),
        &[Animal {
            generation: AnimalGeneration::ChickenDuck,
            state: AnimalState::Idle { since: 5_000 },
            position: Vec2::new(100_000, 50_000),
            picked: false,
        }]
    );
}

#[test]
fn raising_the_egg_limit_costs_its_price_and_is_refused_to_a_purse_too_small() {
    let mut farm = Farm::new();
    farm.deposit(1_500_000_000);
    farm.buy_max_egg();
    assert_eq!(farm.score(), Score(500_000_000));
    assert_eq!(farm.current_max_eggs(), CurrentMaxEggs(2));
    assert_eq!(farm.max_egg_price(), MaxEggPrice(10_000_000_000));
    farm.buy_max_egg();
    assert_eq!(farm.score(), Score(500_000_000));
    assert_eq!(farm.current_max_eggs(), CurrentMaxEggs(2));
    assert_eq!(farm.max_egg_price(), MaxEggPrice(10_000_000_000));
}

#[test]
fn a_purse_that_holds_exactly_the_price_can_pay() {
    let mut farm = Farm::new();
    farm.deposit(999_999_999);
    farm.buy_max_egg();
    assert_eq!(farm.current_max_eggs(), CurrentMaxEggs(1));
    assert_eq!(farm.score(), Score(999_999_999));
    farm.deposit(1);
    farm.buy_max_egg();
    assert_eq!(farm.current_max_eggs(), CurrentMaxEggs(2));
    assert_eq!(farm.score(), Score(0));
    farm.deposit(9_999_999);
    farm.buy_faster_eggs();
    assert_eq!(farm.current_egg_time(), CurrentEggTime(10_000));
    farm.deposit(1);
    farm.buy_faster_eggs();
    assert_eq!(farm.current_egg_time(), CurrentEggTime(9_000));
    assert_eq!(farm.score(), Score(0));
}

#[test]
fn the_price_of_the_egg_limit_is_its_first_price_times_ten_for_each_purchase() {
    let mut farm = Farm::new();
    let mut expected: u128 = 1_000_000_000;
    let mut purchases: u8 = 0;
    while purchases < 11 {
        assert_eq!(farm.max_egg_price(), MaxEggPrice(expected));
        assert_eq!(farm.current_max_eggs(), CurrentMaxEggs(1 + purchases));
        farm.deposit(u64::MAX);
        farm.buy_max_egg();
        assert_eq!(farm.score().0 as u128, u64::MAX as u128 - expected);
        expected *= 10;
        purchases += 1;
    }
    assert_eq!(farm.max_egg_price(), MaxEggPrice(100_000_000_000_000_000_000));
    assert_eq!(farm.current_max_eggs(), CurrentMaxEggs(12));
    farm.deposit(u64::MAX);
    farm.buy_max_egg();
    assert_eq!(farm.score(), Score(u64::MAX));
    assert_eq!(farm.current_max_eggs(), CurrentMaxEggs(12));
    assert_eq!(farm.max_egg_price(), MaxEggPrice(100_000_000_000_000_000_000));
}

#[test]
fn the_time_between_eggs_is_bought_down_to_a_second_and_no_further() {
    let mut farm = Farm::new();
    let mut expected: u128 = 10_000_000;
    let mut time: u32 = 10_000;
    while time > 1_000 {
        assert_eq!(farm.egg_time_price(), EggTimePrice(expected));
        assert_eq!(farm.current_egg_time(), CurrentEggTime(time));
        farm.deposit(u64::MAX);
        farm.buy_faster_eggs();
        assert_eq!(farm.score().0 as u128, u64::MAX as u128 - expected);
        expected *= 10;
        time -= 1_000;
        assert_eq!(farm.timer().duration, time);
    }
    assert_eq!(farm.current_egg_time(), CurrentEggTime(1_000));
    assert_eq!(farm.egg_time_price(), EggTimePrice(10_000_000_000_000_000));
    farm.deposit(u64::MAX);
    farm.buy_faster_eggs();
    assert_eq!(farm.score(), Score(u64::MAX));
    assert_eq!(farm.current_egg_time(), CurrentEggTime(1_000));
    assert_eq!(farm.egg_time_price(), EggTimePrice(10_000_000_000_000_000));
}

#[test]
fn a_shorter_time_between_eggs_keeps_what_the_timer_has_run() {
    let mut farm = Farm::new();
    assert!(!farm.spawn_at(500, Vec2::new(0, 0)));
    farm.deposit(10_000_000);
    farm.buy_faster_eggs();
    assert_eq!(farm.timer(), SpawnEggTimer { elapsed: 9_500, duration: 9_000 });
    assert!(farm.spawn_at(0, Vec2::new(0, 0)));
    assert_eq!(farm.timer(), SpawnEggTimer { elapsed: 0, duration: 9_000 });
}

#[test]
fn buying_one_upgrade_leaves_the_other_alone() {
    let mut farm = Farm::new();
    farm.deposit(2_000_000_000);
    farm.buy_max_egg();
    assert_eq!(farm.egg_time_price(), EggTimePrice(10_000_000));
    assert_eq!(farm.current_egg_time(), CurrentEggTime(10_000));
    farm.buy_faster_eggs();
    assert_eq!(farm.max_egg_price(), MaxEggPrice(10_000_000_000));
    assert_eq!(farm.current_max_eggs(), CurrentMaxEggs(2));
    assert_eq!(farm.score(), Score(990_000_000));
}

#[test]
fn more_room_lets_more_eggs_lie() {
    let mut farm = Farm::new();
    farm.deposit(1_000_000_000);
    farm.buy_max_egg();
    assert!(farm.spawn_at(1_000, Vec2::new(0, 0)));
    assert!(farm.spawn_at(10_000, Vec2::new(50_000, 0)));
    assert!(!farm.spawn_at(10_000, Vec2::new(0, 0)));
    assert_eq!(farm.current_eggs(), CurrentEggs(2));
    assert_eq!(farm.eggs().len(), 2);
    assert_eq!(
        farm.pick_up_animal(&pointer(true, false, 49_000, 0), 1),
        PickOutcome::Hatched { egg: 1 }
    );
    assert_eq!(farm.eggs().len(), 1);
    assert_eq!(farm.eggs()[0].position, Vec2::new(0, 0));
}

#[test]
fn a_tick_that_merges_pays_for_the_merged_animal() {
    let mut held = chicken(0, 0);
    held.picked = true;
    let mut farm = Farm::new();
    assert!(farm.add_animal(held));
    assert!(farm.add_animal(Animal::new(0, Vec2::new(100_000, 0))));
    let report = farm.tick(&pointer(false, true, 100_000, 0), 500, 400);
    assert_eq!(report.pick, PickOutcome::Nothing);
    assert_eq!(
        report.drop,
        DropOutcome::Merged { picked: 0, target: 1, generation: AnimalGeneration::ChickenDuck }
    );
    assert_eq!(report.laid, None);
    assert_eq!(farm.animals().len(), 1);
    assert_eq!(farm.animals()[0].generation, AnimalGeneration::ChickenDuck);
    assert_eq!(farm.animals()[0].position, Vec2::new(100_000, 0));
    assert_eq!(farm.score(), Score(600_000));
    assert_eq!(farm.timer(), SpawnEggTimer { elapsed: 9_400, duration: 10_000 });
}

#[test]
fn a_tick_picks_drags_and_drops_in_this_order() {
    let mut farm = Farm::new();
    assert!(farm.add_animal(chicken(0, 0)));
    let both = Actions {
        just_pressed: true,
        just_released: true,
        position: Some(Vec2::new(20_000, 0)),
    };
    let report = farm.tick(&both, 100, 10);
    assert_eq!(report.pick, PickOutcome::Picked { animal: 0 });
    assert_eq!(report.drop, DropOutcome::Released { animal: 0 });
    assert_eq!(farm.animals()[0].position, Vec2::new(20_000, 0));
    assert!(!farm.animals()[0].picked);
    assert_eq!(farm.score(), Score(5_000));
}

#[test]
fn a_tick_hatches_an_egg_and_pays_for_the_chicken_at_once() {
    let mut farm = Farm::new();
    let first = farm.tick(&Actions::default(), 1_000, 1_000);
    let egg = match first.laid {
        Some(position) => position,
        None => panic!("the first egg is a second away"),
    };
    assert_eq!(farm.score(), Score(0));
    let report = farm.tick(&pointer(true, false, egg.x, egg.y), 1_016, 16);
    assert_eq!(report.pick, PickOutcome::Hatched { egg: 0 });
    assert_eq!(report.drop, DropOutcome::Nothing);
    assert_eq!(report.laid, None);
    assert_eq!(farm.animals().len(), 1);
    assert_eq!(farm.animals()[0], Animal::new(1_016, egg));
    assert_eq!(farm.score(), Score(8_000));
    assert_eq!(farm.current_eggs(), CurrentEggs(0));
    assert_eq!(farm.timer(), SpawnEggTimer { elapsed: 16, duration: 10_000 });
}

#[test]
fn the_farm_stays_well_formed_through_a_long_game() {
    let mut farm = Farm::new();
    let mut seed: u64 = 0x2545_f491_4f6c_dd1d;
    let mut now: i64 = 0;
    let mut round: u32 = 0;
    while round < 4_000 {
        seed = seed.wrapping_mul(6_364_136_223_846_793_005).wrapping_add(1_442_695_040_888_963_407);
        let x = ((seed >> 33) % 900_000) as i32 - 450_000;
        seed = seed.wrapping_mul(6_364_136_223_846_793_005).wrapping_add(1_442_695_040_888_963_407);
        let y = ((seed >> 33) % 700_000) as i32 - 350_000;
        seed = seed.wrapping_mul(6_364_136_223_846_793_005).wrapping_add(1_442_695_040_888_963_407);
        let choice = (seed >> 40) % 8;
        let target = if choice < 4 && !farm.eggs().is_empty() {
            farm.eggs()[0].position
        } else if choice < 6 && !farm.animals().is_empty() {
            farm.animals()[(seed >> 20) as usize % farm.animals().len()].position
        } else {
            Vec2::new(x, y)
        };
        let actions = Actions {
            just_pressed: choice % 2 == 0,
            just_released: choice % 3 == 0,
            position: if choice == 7 { None } else { Some(target) },
        };
        let before = farm.score();
        now += 700;
        farm.tick(&actions, now, 700);
        check_the_farm(&farm, before);
        if round % 50 == 0 {
            let purse = farm.score();
            farm.buy_max_egg();
            farm.buy_faster_eggs();
            assert!(farm.score().0 <= purse.0);
            check_the_farm(&farm, Score(0));
        }
        round += 1;
    }
    assert!(!farm.animals().is_empty());
    assert!(farm.score().0 > 0);
}
