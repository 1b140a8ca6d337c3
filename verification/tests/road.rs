use racing_sim::components::{RoadLine, Vec2};
use racing_sim::registry::Registry;
use racing_sim::resources::GameSpeed;
use racing_sim::systems::road::{scroll_road_lines, spawn_road_lines};

fn line(x: i64, y: i64) -> RoadLine {
    RoadLine { position: Vec2::new(x, y), speed: 150 }
}

#[test]
fn a_lane_is_centred_and_evenly_spaced() {
    let mut registry = Registry::new();
    spawn_road_lines(&mut registry, -200_000, 4);
    assert_eq!(
        registry.road_lines,
        vec![
            line(-200_000, 300_000),
            line(-200_000, 150_000),
            line(-200_000, 0),
            line(-200_000, -150_000),
        ]
    );
}

#[test]
fn a_lane_of_ten() {
    let mut registry = Registry::new();
    spawn_road_lines(&mut registry, 0, 10);
    assert_eq!(registry.road_lines.len(), 10);
    for (i, road_line) in registry.road_lines.iter().enumerate() {
        assert_eq!(*road_line, line(0, 750_000 - 150_000 * i as i64));
    }
}

#[test]
fn a_lane_of_odd_count() {
    let mut registry = Registry::new();
    spawn_road_lines(&mut registry, 7, 3);
    assert_eq!(registry.road_lines, vec![line(7, 225_000), line(7, 75_000), line(7, -75_000)]);
}

#[test]
fn lanes_are_appended() {
    let mut registry = Registry::new();
    spawn_road_lines(&mut registry, 1, 1);
    spawn_road_lines(&mut registry, 2, 0);
    spawn_road_lines(&mut registry, 3, 2);
    assert_eq!(registry.road_lines, vec![line(1, 75_000), line(3, 150_000), line(3, 0)]);
    assert_eq!(registry.player, None);
    assert!(registry.enemies.is_empty());
}

#[test]
fn lines_scroll_down() {
    let mut registry = Registry::new();
    registry.road_lines = vec![line(0, 300_000), line(200_000, -100_000)];
    let game_speed = GameSpeed { time_elapsed: 30_000_000, multiplier: 2000 };
    scroll_road_lines(&mut registry, &game_speed, 100_000);
    assert_eq!(registry.road_lines, vec![line(0, 270_000), line(200_000, -130_000)]);
}

#[test]
fn lines_wrap_to_the_top() {
    let mut registry = Registry::new();
    registry.road_lines = vec![line(0, -340_000), line(0, -335_000), line(0, -600_000)];
    let game_speed = GameSpeed { time_elapsed: 0, multiplier: 1000 };
    scroll_road_lines(&mut registry, &game_speed, 100_000);
    assert_eq!(registry.road_lines, vec![line(0, 350_000), line(0, -350_000), line(0, 350_000)]);
}

#[test]
fn lines_wrap_after_the_longest_tick() {
    let mut registry = Registry::new();
    registry.road_lines = vec![line(0, 300_000)];
    let game_speed = GameSpeed { time_elapsed: 0, multiplier: 4000 };
    scroll_road_lines(&mut registry, &game_speed, u64::MAX);
    assert_eq!(registry.road_lines, vec![line(0, 350_000)]);
}
