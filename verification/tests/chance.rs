use shmoo_farm::chance::{
    axis_of, direction_from, hits, point_from, random_direction, random_point, spread_between,
};
use shmoo_farm::Vec2;

#[test]
fn a_chance_of_twenty_in_a_thousand_ends_at_its_fraction() {
    assert!(hits(0, 20));
    assert!(hits(335_544 * 256, 20));
    assert!(hits(335_544 * 256 + 255, 20));
    assert!(!hits(335_545 * 256, 20));
    assert!(!hits(u32::MAX, 20));
}

#[test]
fn a_chance_of_three_in_a_thousand_ends_at_its_fraction() {
    assert!(hits(50_331 * 256, 3));
    assert!(!hits(50_332 * 256, 3));
}

#[test]
fn a_chance_of_nothing_never_hits_and_a_sure_one_always() {
    assert!(!hits(0, 0));
    assert!(!hits(u32::MAX, 0));
    assert!(hits(0, 1000));
    assert!(hits(u32::MAX, 1000));
    assert!(hits(u32::MAX, u32::MAX));
}

#[test]
fn spread_goes_from_the_low_end_to_just_below_the_high_end() {
    assert_eq!(spread_between(0, -368_000, 168_000), -368_000);
    assert_eq!(spread_between(0x8000_0000, -368_000, 168_000), -100_000);
    assert_eq!(spread_between(u32::MAX, -368_000, 168_000), 167_999);
    assert_eq!(spread_between(0x4000_0000, 0, 1000), 250);
    assert_eq!(spread_between(u32::MAX, 7, 7), 7);
    assert_eq!(spread_between(u32::MAX, i32::MIN, i32::MAX), i32::MAX - 256);
}

#[test]
fn an_axis_runs_from_minus_one_to_just_below_one() {
    assert_eq!(axis_of(0), -8_388_608);
    assert_eq!(axis_of(0x8000_0000), 0);
    assert_eq!(axis_of(0x8000_0100), 1);
    assert_eq!(axis_of(u32::MAX), 8_388_607);
}

#[test]
fn a_direction_follows_from_its_two_draws() {
    assert_eq!(direction_from(0x8000_0000, 0x8000_0000), Vec2::new(1000, 0));
    assert_eq!(direction_from(u32::MAX, 0x8000_0000), Vec2::new(1000, 0));
    assert_eq!(direction_from(0, 0), Vec2::new(-707, -707));
    assert_eq!(direction_from(0x8000_0000, 0), Vec2::new(0, -1000));
    assert_eq!(direction_from(0x8000_0300, 0x8000_0400), Vec2::new(600, 800));
}

#[test]
fn a_point_follows_from_its_two_draws() {
    assert_eq!(point_from(0, 0), Vec2::new(-368_000, -268_000));
    assert_eq!(point_from(0x8000_0000, 0x8000_0000), Vec2::new(-100_000, 0));
    assert_eq!(point_from(u32::MAX, u32::MAX), Vec2::new(167_999, 267_999));
}

#[test]
fn random_directions_have_unit_length() {
    let mut seen_other_than_first = false;
    let first = random_direction();
    let mut round: u32 = 0;
    while round < 2000 {
        let direction = random_direction();
        assert!(direction.has_unit_length());
        if direction != first {
            seen_other_than_first = true;
        }
        round += 1;
    }
    assert!(seen_other_than_first);
}

#[test]
fn random_points_lie_in_the_paddock() {
    let mut seen_other_than_first = false;
    let first = random_point();
    let mut round: u32 = 0;
    while round < 2000 {
        let point = random_point();
        assert!(point.is_in_paddock());
        assert!(point.x < 168_000 && point.y < 268_000);
        if point != first {
            seen_other_than_first = true;
        }
        round += 1;
    }
    assert!(seen_other_than_first);
}
