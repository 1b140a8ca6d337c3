use racing_sim::components::{CarType, CollisionBounds, Enemy, Vec2, Velocity};
use racing_sim::registry::Registry;
use racing_sim::resources::{EnemySpawnTimer, GameSpeed};
use racing_sim::systems::enemy::{
    cleanup_enemies, enemy_movement, spawn_enemy, spawn_enemy_over_time,
};

fn enemy_at(id: u64, x: i64, y: i64) -> Enemy {
    Enemy {
        id,
        position: Vec2::new(x, y),
        velocity: Velocity { speed: 200 },
        car_type: CarType::TealSedan,
        bounds: CollisionBounds { size: CarType::TealSedan.collision_bounds() },
    }
}

#[test]
fn car_types_by_enemy_index() {
    assert_eq!(CarType::from_enemy_index(1), CarType::GreyPickupTruck);
    assert_eq!(CarType::from_enemy_index(2), CarType::TealSedan);
    assert_eq!(CarType::from_enemy_index(3), CarType::YellowTaxi);
    assert_eq!(CarType::from_enemy_index(4), CarType::RedConvertible);
    assert_eq!(CarType::from_enemy_index(5), CarType::GreenHatchback);
    assert_eq!(CarType::from_enemy_index(6), CarType::RedSportscar);
}

#[test]
fn unknown_enemy_index_falls_back() {
    assert_eq!(CarType::from_enemy_index(0), CarType::TealSedan);
    assert_eq!(CarType::from_enemy_index(7), CarType::TealSedan);
    assert_eq!(CarType::from_enemy_index(u32::MAX), CarType::TealSedan);
}

#[test]
fn footprints_by_car_type() {
    assert_eq!(CarType::GreyPickupTruck.collision_bounds(), Vec2::new(56_000, 110_000));
    assert_eq!(CarType::TealSedan.collision_bounds(), Vec2::new(48_000, 95_000));
    assert_eq!(CarType::YellowTaxi.collision_bounds(), Vec2::new(48_000, 95_000));
    assert_eq!(CarType::RedConvertible.collision_bounds(), Vec2::new(44_000, 105_000));
    assert_eq!(CarType::GreenHatchback.collision_bounds(), Vec2::new(46_000, 85_000));
    assert_eq!(CarType::RedSportscar.collision_bounds(), Vec2::new(47_000, 100_000));
    assert_eq!(CarType::Player.collision_bounds(), Vec2::new(50_000, 120_000));
}

#[test]
fn asset_paths_by_car_type() {
    assert_eq!(CarType::GreyPickupTruck.asset_path(), "enemies/enemy1.png");
    assert_eq!(CarType::TealSedan.asset_path(), "enemies/enemy2.png");
    assert_eq!(CarType::YellowTaxi.asset_path(), "enemies/enemy3.png");
    assert_eq!(CarType::RedConvertible.asset_path(), "enemies/enemy4.png");
    assert_eq!(CarType::GreenHatchback.asset_path(), "enemies/enemy5.png");
    assert_eq!(CarType::RedSportscar.asset_path(), "enemies/enemy6.png");
    assert_eq!(CarType::Player.asset_path(), "player.png");
}

#[test]
fn spawn_creates_the_chosen_enemy() {
    let mut registry = Registry::new();
    assert_eq!(spawn_enemy(&mut registry, 4, -123_456), Some(0));
    assert_eq!(spawn_enemy(&mut registry, 9, 300_000), Some(1));
    assert_eq!(
        registry.enemies,
        vec![
            Enemy {
                id: 0,
                position: Vec2::new(-123_456, 350_000),
                velocity: Velocity { speed: 200 },
                car_type: CarType::RedConvertible,
                bounds: CollisionBounds { size: Vec2::new(44_000, 105_000) },
            },
            Enemy {
                id: 1,
                position: Vec2::new(300_000, 350_000),
                velocity: Velocity { speed: 200 },
                car_type: CarType::TealSedan,
                bounds: CollisionBounds { size: Vec2::new(48_000, 95_000) },
            },
        ]
    );
    assert_eq!(registry.next_enemy_id, 2);
    assert_eq!(registry.player, None);
    assert!(registry.road_lines.is_empty());
}

#[test]
fn spawn_stops_when_the_ids_are_used_up() {
    let mut registry = Registry::new();
    registry.next_enemy_id = u64::MAX - 1;
    assert_eq!(spawn_enemy(&mut registry, 1, 0), Some(u64::MAX - 1));
    assert_eq!(registry.next_enemy_id, u64::MAX);
    assert_eq!(spawn_enemy(&mut registry, 1, 0), None);
    assert_eq!(registry.enemies.len(), 1);
    assert_eq!(registry.next_enemy_id, u64::MAX);
}

#[test]
fn random_spawns_are_within_the_range() {
    let mut registry = Registry::new();
    let mut timer = EnemySpawnTimer::new(1_000_000);
    for tick in 0..400u64 {
        assert_eq!(spawn_enemy_over_time(&mut registry, &mut timer, 1_000_000), Some(tick));
    }
    assert_eq!(registry.enemies.len(), 400);
    for (place, enemy) in registry.enemies.iter().enumerate() {
        assert_eq!(enemy.id, place as u64);
        assert!(-300_000 <= enemy.position.x && enemy.position.x <= 300_000);
        assert_eq!(enemy.position.y, 350_000);
        assert_eq!(enemy.velocity.speed, 200);
        assert!(enemy.car_type != CarType::Player);
        assert_eq!(enemy.bounds.size, enemy.car_type.collision_bounds());
    }
}

#[test]
fn random_spawns_differ() {
    let mut registry = Registry::new();
    let mut timer = EnemySpawnTimer::new(1_000_000);
    for _ in 0..400 {
        spawn_enemy_over_time(&mut registry, &mut timer, 1_000_000);
    }
    let first = registry.enemies[0];
    assert!(registry.enemies.iter().any(|enemy| enemy.position.x != first.position.x));
    assert!(registry.enemies.iter().any(|enemy| enemy.car_type != first.car_type));
    assert!(registry.enemies.iter().any(|enemy| enemy.position.x != -300_000));
    assert!(registry.enemies.iter().any(|enemy| enemy.car_type != CarType::GreyPickupTruck));
}

#[test]
fn enemies_descend_by_speed_times_multiplier_times_delta() {
    let mut registry = Registry::new();
    registry.enemies = vec![enemy_at(0, 10_000, 350_000), enemy_at(1, -20_000, 0)];
    registry.enemies[1].velocity.speed = 50;
    registry.next_enemy_id = 2;
    let game_speed = GameSpeed { time_elapsed: 30_000_000, multiplier: 2000 };
    enemy_movement(&mut registry, &game_speed, 500_000);
    assert_eq!(registry.enemies[0].position, Vec2::new(10_000, 150_000));
    assert_eq!(registry.enemies[1].position, Vec2::new(-20_000, -50_000));
    assert_eq!(registry.enemies[0].id, 0);
    assert_eq!(registry.enemies[1].velocity.speed, 50);
    assert_eq!(registry.next_enemy_id, 2);
}

#[test]
fn enemies_stop_at_the_end_of_the_range() {
    let mut registry = Registry::new();
    registry.enemies = vec![enemy_at(0, 0, i64::MIN + 10)];
    let game_speed = GameSpeed { time_elapsed: 0, multiplier: 1000 };
    enemy_movement(&mut registry, &game_speed, 1_000_000);
    assert_eq!(registry.enemies[0].position.y, i64::MIN);
    let mut registry = Registry::new();
    registry.enemies = vec![enemy_at(0, 0, 0)];
    registry.enemies[0].velocity.speed = u32::MAX;
    let game_speed = GameSpeed { time_elapsed: 0, multiplier: u32::MAX };
    enemy_movement(&mut registry, &game_speed, u64::MAX);
    assert_eq!(registry.enemies[0].position.y, i64::MIN);
}

#[test]
fn cleanup_removes_enemies_below_the_playfield() {
    let mut registry = Registry::new();
    registry.enemies = vec![
        enemy_at(0, 0, -350_001),
        enemy_at(1, 0, -350_000),
        enemy_at(2, 0, 100_000),
        enemy_at(3, 0, i64::MIN),
        enemy_at(4, 0, -349_999),
    ];
    registry.next_enemy_id = 5;
    cleanup_enemies(&mut registry);
    assert_eq!(
        registry.enemies,
        vec![enemy_at(1, 0, -350_000), enemy_at(2, 0, 100_000), enemy_at(4, 0, -349_999)]
    );
    assert_eq!(registry.next_enemy_id, 5);
}

#[test]
fn cleanup_of_nothing() {
    let mut registry = Registry::new();
    cleanup_enemies(&mut registry);
    assert_eq!(registry, Registry::new());
}
