use racing_sim::components::{CarType, CollisionBounds, Player, Vec2, Velocity};
use racing_sim::registry::Registry;
use racing_sim::systems::movement::{
    input_direction, isqrt, move_player, normalize, player_movement, Direction, PlayerInput,
};
use racing_sim::units::{shift, travel};

fn player_at(x: i64, y: i64, speed: u32) -> Player {
    Player {
        position: Vec2::new(x, y),
        velocity: Velocity { speed },
        car_type: CarType::Player,
        bounds: CollisionBounds { size: CarType::Player.collision_bounds() },
    }
}

fn registry_with(player: Player) -> Registry {
    let mut registry = Registry::new();
    registry.player = Some(player);
    registry
}

const NONE: PlayerInput = PlayerInput { left: false, right: false, boost: false };
const LEFT: PlayerInput = PlayerInput { left: true, right: false, boost: false };
const RIGHT: PlayerInput = PlayerInput { left: false, right: true, boost: false };

#[test]
fn player_near_the_right_edge_is_clamped() {
    let mut registry = registry_with(player_at(340_000, -200_000, 150));
    assert_eq!(shift(340_000, true, travel(150, 1000, 1_000_000)), 490_000);
    player_movement(&mut registry, &RIGHT, 1_000_000);
    let player = registry.player.unwrap();
    assert_eq!(player.position, Vec2::new(350_000, -200_000));
    assert_eq!(player.velocity.speed, 150);
}

#[test]
fn player_near_the_left_edge_is_clamped() {
    let mut registry = registry_with(player_at(-340_000, -200_000, 150));
    player_movement(&mut registry, &LEFT, 1_000_000);
    assert_eq!(registry.player.unwrap().position, Vec2::new(-350_000, -200_000));
}

#[test]
fn player_moves_by_speed_times_delta() {
    let mut registry = registry_with(player_at(0, -200_000, 150));
    player_movement(&mut registry, &RIGHT, 16_667);
    assert_eq!(registry.player.unwrap().position, Vec2::new(2_500, -200_000));
    player_movement(&mut registry, &LEFT, 500_000);
    assert_eq!(registry.player.unwrap().position, Vec2::new(-72_500, -200_000));
}

#[test]
fn player_without_input_stays() {
    let mut registry = registry_with(player_at(12_000, -200_000, 150));
    player_movement(&mut registry, &NONE, 1_000_000);
    assert_eq!(registry.player.unwrap(), player_at(12_000, -200_000, 150));
}

#[test]
fn left_and_right_cancel() {
    let both = PlayerInput { left: true, right: true, boost: false };
    assert_eq!(input_direction(&both), Direction { x: 0, y: 0 });
    let mut registry = registry_with(player_at(12_000, -200_000, 150));
    player_movement(&mut registry, &both, 1_000_000);
    assert_eq!(registry.player.unwrap().position, Vec2::new(12_000, -200_000));
}

#[test]
fn boost_raises_the_speed_for_good() {
    let boost_right = PlayerInput { left: false, right: true, boost: true };
    let mut registry = registry_with(player_at(0, -200_000, 150));
    player_movement(&mut registry, &boost_right, 1_000_000);
    let player = registry.player.unwrap();
    assert_eq!(player.velocity.speed, 160);
    assert_eq!(player.position.x, 160_000);
    player_movement(&mut registry, &NONE, 1_000_000);
    assert_eq!(registry.player.unwrap().velocity.speed, 160);
}

#[test]
fn boost_stops_at_the_largest_speed() {
    let boost = PlayerInput { left: false, right: false, boost: true };
    let mut registry = registry_with(player_at(0, -200_000, u32::MAX - 3));
    player_movement(&mut registry, &boost, 0);
    assert_eq!(registry.player.unwrap().velocity.speed, u32::MAX);
}

#[test]
fn clamping_keeps_the_speed() {
    let mut registry = registry_with(player_at(350_000, -200_000, 420));
    player_movement(&mut registry, &RIGHT, 1_000_000);
    let player = registry.player.unwrap();
    assert_eq!(player.position.x, 350_000);
    assert_eq!(player.velocity.speed, 420);
}

#[test]
fn player_stays_on_the_road_whatever_the_tick() {
    let deltas = [0u64, 1, 16_667, 1_000_000, 3_600_000_000, u64::MAX];
    let speeds = [0u32, 150, 100_000, u32::MAX];
    let inputs = [NONE, LEFT, RIGHT, PlayerInput { left: true, right: true, boost: true }];
    for delta in deltas {
        for speed in speeds {
            for input in inputs {
                let mut registry = registry_with(player_at(0, -200_000, speed));
                for _ in 0..4 {
                    player_movement(&mut registry, &input, delta);
                    let x = registry.player.unwrap().position.x;
                    assert!(-350_000 <= x && x <= 350_000);
                }
            }
        }
    }
}

#[test]
fn player_off_the_road_is_brought_back() {
    let mut registry = registry_with(player_at(900_000, -200_000, 150));
    player_movement(&mut registry, &NONE, 0);
    assert_eq!(registry.player.unwrap().position.x, 350_000);
}

#[test]
fn movement_without_player_does_nothing() {
    let mut registry = Registry::new();
    player_movement(&mut registry, &RIGHT, 1_000_000);
    assert_eq!(registry, Registry::new());
}

#[test]
fn steering_directions() {
    assert_eq!(input_direction(&NONE), Direction { x: 0, y: 0 });
    assert_eq!(input_direction(&LEFT), Direction { x: -200, y: 0 });
    assert_eq!(input_direction(&RIGHT), Direction { x: 200, y: 0 });
}

#[test]
fn normalize_along_an_axis_gives_length_one() {
    assert_eq!(normalize(Direction { x: 200, y: 0 }), Direction { x: 1000, y: 0 });
    assert_eq!(normalize(Direction { x: -200, y: 0 }), Direction { x: -1000, y: 0 });
    assert_eq!(normalize(Direction { x: 0, y: 7 }), Direction { x: 0, y: 1000 });
    assert_eq!(normalize(Direction { x: 0, y: i32::MIN }), Direction { x: 0, y: -1000 });
}

#[test]
fn normalize_zero_stays_zero() {
    assert_eq!(normalize(Direction { x: 0, y: 0 }), Direction { x: 0, y: 0 });
}

#[test]
fn normalize_diagonal() {
    assert_eq!(normalize(Direction { x: 200, y: 200 }), Direction { x: 707, y: 707 });
    assert_eq!(normalize(Direction { x: -200, y: 200 }), Direction { x: -707, y: 707 });
    assert_eq!(normalize(Direction { x: 3, y: -4 }), Direction { x: 600, y: -800 });
    assert_eq!(
        normalize(Direction { x: i32::MAX, y: i32::MIN }),
        Direction { x: 707, y: -707 }
    );
}

#[test]
fn normalized_length_is_at_most_one() {
    let values = [i32::MIN, -1000, -200, -3, -1, 0, 1, 2, 5, 200, 99_999, i32::MAX];
    for x in values {
        for y in values {
            let unit = normalize(Direction { x, y });
            let length = (unit.x as i64) * (unit.x as i64) + (unit.y as i64) * (unit.y as i64);
            assert!(length <= 1_000_000);
            if x != 0 || y != 0 {
                assert!(length > 996_000);
            }
        }
    }
}

#[test]
fn diagonal_motion_is_no_faster() {
    let mut player = player_at(0, -200_000, 150);
    move_player(&mut player, Direction { x: 200, y: 200 }, false, 1_000_000);
    assert_eq!(player.position, Vec2::new(106_050, -93_950));
    let dx: i128 = 106_050;
    let dy: i128 = 106_050;
    assert!(dx * dx + dy * dy <= 150_000 * 150_000);
}

#[test]
fn displacement_never_exceeds_speed_times_delta() {
    let values = [-200, -7, 0, 1, 200, 1234];
    for x in values {
        for y in values {
            for delta in [1u64, 16_667, 1_000_000, 12_345_678] {
                let unit = normalize(Direction { x, y });
                let across = travel(150, unit.x.unsigned_abs(), delta);
                let along = travel(150, unit.y.unsigned_abs(), delta);
                let reach = 150u128 * delta as u128;
                assert!(1_000_000 * (across * across + along * along) <= reach * reach);
            }
        }
    }
}

#[test]
fn vertical_motion_is_not_clamped() {
    let mut player = player_at(0, -200_000, 150);
    move_player(&mut player, Direction { x: 0, y: -1 }, false, 10_000_000);
    assert_eq!(player.position, Vec2::new(0, -1_700_000));
}

#[test]
fn isqrt_values() {
    assert_eq!(isqrt(0), 0);
    assert_eq!(isqrt(1), 1);
    assert_eq!(isqrt(3), 1);
    assert_eq!(isqrt(4), 2);
    assert_eq!(isqrt(499_999), 707);
    assert_eq!(isqrt(1_000_000), 1000);
    assert_eq!(isqrt(u64::MAX), 4_294_967_295);
}

#[test]
fn travel_and_shift_values() {
    assert_eq!(travel(200, 2000, 500_000), 200_000);
    assert_eq!(travel(150, 1000, 1), 0);
    assert_eq!(travel(150, 1000, 7), 1);
    assert_eq!(
        travel(u32::MAX, u32::MAX, u64::MAX),
        (u32::MAX as u128) * (u32::MAX as u128) * (u64::MAX as u128) / 1_000_000
    );
    assert_eq!(shift(10, true, 5), 15);
    assert_eq!(shift(10, false, 25), -15);
    assert_eq!(shift(i64::MAX - 1, true, 5), i64::MAX);
    assert_eq!(shift(i64::MIN + 1, false, u128::MAX), i64::MIN);
    assert_eq!(shift(-5, true, u128::MAX), i64::MAX);
}
