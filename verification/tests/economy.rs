use shmoo_farm::economy::{
    is_price_after, COIN, EGG_TIME_BASE_PRICE, EGG_TIME_FLOOR, EGG_TIME_STEP,
    MAX_EGG_BASE_PRICE, PRICE_FACTOR, START_EGG_TIME, START_ELAPSED,
};
use shmoo_farm::{
    update_spawner_timer, CurrentEggTime, CurrentEggs, CurrentMaxEggs, EggTimePrice, MaxEggPrice,
    Score, SpawnEggTimer,
};

#[test]
fn the_counters_start_as_the_game_starts() {
    assert_eq!(CurrentEggs::default(), CurrentEggs(0));
    assert_eq!(CurrentMaxEggs::default(), CurrentMaxEggs(1));
    assert_eq!(CurrentEggTime::default(), CurrentEggTime(10_000));
    assert_eq!(Score::default(), Score(0));
    assert_eq!(MaxEggPrice::default(), MaxEggPrice(1000 * COIN as u128));
    assert_eq!(EggTimePrice::default(), EggTimePrice(10 * COIN as u128));
    assert_eq!(SpawnEggTimer::default(), SpawnEggTimer { elapsed: 9_000, duration: 10_000 });
}

#[test]
fn the_constants_of_the_economy_are_the_game_s() {
    assert_eq!(COIN, 1_000_000);
    assert_eq!(START_EGG_TIME, 10_000);
    assert_eq!(START_ELAPSED, 9_000);
    assert_eq!(EGG_TIME_STEP, 1_000);
    assert_eq!(EGG_TIME_FLOOR, 1_500);
    assert_eq!(MAX_EGG_BASE_PRICE, 1_000_000_000);
    assert_eq!(EGG_TIME_BASE_PRICE, 10_000_000);
    assert_eq!(PRICE_FACTOR, 10);
}

#[test]
fn a_timer_runs_up_to_its_duration() {
    let mut timer = SpawnEggTimer { elapsed: 0, duration: 10_000 };
    assert!(!timer.tick(4_000));
    assert_eq!(timer.elapsed, 4_000);
    assert!(!timer.tick(5_999));
    assert_eq!(timer.elapsed, 9_999);
    assert!(timer.tick(1));
    assert_eq!(timer, SpawnEggTimer { elapsed: 10_000, duration: 10_000 });
}

#[test]
fn a_timer_stops_at_its_duration() {
    let mut timer = SpawnEggTimer { elapsed: 9_000, duration: 10_000 };
    assert!(timer.tick(u32::MAX));
    assert_eq!(timer.elapsed, 10_000);
    let mut long = SpawnEggTimer { elapsed: u32::MAX, duration: u32::MAX };
    assert!(long.tick(u32::MAX));
    assert_eq!(long.elapsed, u32::MAX);
    let mut late = SpawnEggTimer { elapsed: u32::MAX - 1, duration: u32::MAX };
    assert!(!late.tick(0));
    assert!(late.tick(1));
}

#[test]
fn a_timer_that_has_run_past_a_shorter_duration_finishes_at_once() {
    let mut timer = SpawnEggTimer { elapsed: 9_500, duration: 10_000 };
    timer.set_duration(9_000);
    assert_eq!(timer, SpawnEggTimer { elapsed: 9_500, duration: 9_000 });
    assert!(timer.tick(0));
    assert_eq!(timer.elapsed, 9_000);
}

#[test]
fn reset_starts_the_timer_from_zero_and_keeps_the_duration() {
    let mut timer = SpawnEggTimer { elapsed: 9_500, duration: 10_000 };
    timer.reset();
    assert_eq!(timer, SpawnEggTimer { elapsed: 0, duration: 10_000 });
}

#[test]
fn update_spawner_timer_sets_the_duration_and_keeps_what_has_run() {
    let mut timer = SpawnEggTimer { elapsed: 4_321, duration: 10_000 };
    update_spawner_timer(&CurrentEggTime(7_000), &mut timer);
    assert_eq!(timer, SpawnEggTimer { elapsed: 4_321, duration: 7_000 });
}

#[test]
fn a_chicken_earns_half_a_coin_in_a_second() {
    let mut score = Score(0);
    score.accrue(500, 1000);
    assert_eq!(score, Score(500_000));
    score.accrue(92_000 + 500, 16);
    assert_eq!(score, Score(500_000 + 1_480_000));
}

#[test]
fn nothing_is_earned_in_no_time_or_by_nobody() {
    let mut score = Score(77);
    score.accrue(92_000, 0);
    assert_eq!(score, Score(77));
    score.accrue(0, 1000);
    assert_eq!(score, Score(77));
    score.accrue(u128::MAX, 0);
    assert_eq!(score, Score(77));
}

#[test]
fn the_purse_fills_up_to_what_it_can_hold() {
    let mut score = Score(u64::MAX - 10);
    score.accrue(1, 10);
    assert_eq!(score, Score(u64::MAX));
    let mut over = Score(u64::MAX - 10);
    over.accrue(1, 11);
    assert_eq!(over, Score(u64::MAX));
    let mut huge = Score(5);
    huge.accrue(u128::MAX, u32::MAX);
    assert_eq!(huge, Score(u64::MAX));
    let mut wide = Score(5);
    wide.accrue(u64::MAX as u128 + 1, 1);
    assert_eq!(wide, Score(u64::MAX));
    let mut full = Score(0);
    full.accrue(u64::MAX as u128, 1);
    assert_eq!(full, Score(u64::MAX));
}

#[test]
fn a_price_is_its_first_price_times_ten_for_each_purchase() {
    assert!(is_price_after(1_000_000_000, 1_000_000_000, 0));
    assert!(is_price_after(10_000_000_000, 1_000_000_000, 1));
    assert!(is_price_after(1_000_000_000_000_000, 10_000_000, 8));
    assert!(!is_price_after(1_000_000_000, 1_000_000_000, 1));
    assert!(!is_price_after(10_000_000_001, 1_000_000_000, 1));
    assert!(is_price_after(0, 0, u32::MAX));
    assert!(is_price_after(100_000_000_000_000_000_000_000_000_000_000_000_000, 1, 38));
    assert!(!is_price_after(u128::MAX, 1, 39));
    assert!(!is_price_after(u128::MAX, 1_000_000_000, 200));
}

#[test]
fn the_frame_clock_carries_what_a_frame_leaves_over() {
    let mut clock = shmoo_farm::Clock::default();
    assert_eq!(clock.advance(16_667), 16);
    assert_eq!(clock.carry, 667);
    assert_eq!(clock.advance(16_667), 17);
    assert_eq!(clock.carry, 334);
    assert_eq!(clock.advance(0), 0);
    assert_eq!(clock.carry, 334);
    assert_eq!(clock.advance(665), 0);
    assert_eq!(clock.carry, 999);
    assert_eq!(clock.advance(1), 1);
    assert_eq!(clock.carry, 0);
}

#[test]
fn the_frame_clock_counts_as_far_as_it_can() {
    let mut clock = shmoo_farm::Clock { carry: 999 };
    assert_eq!(clock.advance(u32::MAX as u64 * 1000), u32::MAX);
    assert_eq!(clock.carry, 999);
    assert_eq!(clock.advance(u32::MAX as u64 * 1000 + 1), u32::MAX);
    assert_eq!(clock.carry, 0);
    assert_eq!(clock.advance(u64::MAX), u32::MAX);
    assert_eq!(clock.carry, 0);
    let mut wide = shmoo_farm::Clock { carry: u32::MAX };
    assert_eq!(wide.advance(0), 4_294_967);
    assert_eq!(wide.carry, 295);
}
