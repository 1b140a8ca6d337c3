use racing_sim::resources::{game_not_over, GameOver, GameSpeed};
use racing_sim::systems::game_state::update_game_speed;

fn multiplier_after(elapsed: u64) -> u32 {
    let mut game_speed = GameSpeed::default();
    update_game_speed(&mut game_speed, elapsed);
    assert_eq!(game_speed.time_elapsed, elapsed);
    game_speed.multiplier
}

#[test]
fn default_game_speed_is_one() {
    let game_speed = GameSpeed::default();
    assert_eq!(game_speed.time_elapsed, 0);
    assert_eq!(game_speed.multiplier, 1000);
}

#[test]
fn multiplier_at_start_is_one() {
    assert_eq!(multiplier_after(0), 1000);
}

#[test]
fn multiplier_at_thirty_seconds_is_two() {
    assert_eq!(multiplier_after(30_000_000), 2000);
}

#[test]
fn multiplier_at_ninety_seconds_is_four() {
    assert_eq!(multiplier_after(90_000_000), 4000);
}

#[test]
fn multiplier_is_capped() {
    assert_eq!(multiplier_after(1_000_000_000), 4000);
    assert_eq!(multiplier_after(u64::MAX), 4000);
}

#[test]
fn multiplier_ramps_linearly() {
    assert_eq!(multiplier_after(15_000_000), 1500);
    assert_eq!(multiplier_after(45_000_000), 2500);
    assert_eq!(multiplier_after(89_999_999), 3999);
    assert_eq!(multiplier_after(29_999), 1000);
    assert_eq!(multiplier_after(30_000), 1001);
}

#[test]
fn elapsed_time_accumulates_over_ticks() {
    let mut game_speed = GameSpeed::default();
    for _ in 0..60 {
        update_game_speed(&mut game_speed, 500_000);
    }
    assert_eq!(game_speed.time_elapsed, 30_000_000);
    assert_eq!(game_speed.multiplier, 2000);
}

#[test]
fn multiplier_never_falls() {
    let mut game_speed = GameSpeed::default();
    let mut last = game_speed.multiplier;
    for step in 0..200u64 {
        update_game_speed(&mut game_speed, step * 7_919);
        assert!(game_speed.multiplier >= last);
        assert!(game_speed.multiplier >= 1000);
        assert!(game_speed.multiplier <= 4000);
        last = game_speed.multiplier;
    }
}

#[test]
fn elapsed_time_stops_at_the_largest_time() {
    let mut game_speed = GameSpeed { time_elapsed: u64::MAX - 5, multiplier: 4000 };
    update_game_speed(&mut game_speed, 10);
    assert_eq!(game_speed.time_elapsed, u64::MAX);
    assert_eq!(game_speed.multiplier, 4000);
}

#[test]
fn update_recomputes_a_stale_multiplier() {
    let mut game_speed = GameSpeed { time_elapsed: 60_000_000, multiplier: 1 };
    update_game_speed(&mut game_speed, 0);
    assert_eq!(game_speed.multiplier, 3000);
}

#[test]
fn game_not_over_is_the_negated_flag() {
    assert!(game_not_over(&GameOver(false)));
    assert!(!game_not_over(&GameOver(true)));
    assert!(game_not_over(&GameOver::default()));
}
