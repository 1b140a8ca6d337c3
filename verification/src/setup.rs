//! The entities that a game starts with.

use vstd::prelude::*;
use crate::components::{CarType, CollisionBounds, Player, Vec2, Velocity};
use crate::registry::{
    initial_player, Registry, RegistryView, PLAYER_START_SPEED, PLAYER_START_X, PLAYER_START_Y,
};
use crate::systems::road::{lane, spawn_road_lines};

verus! {

/// The horizontal positions of the three lanes of markers.
pub const LEFT_LANE_X: i64 = -200_000;

pub const MIDDLE_LANE_X: i64 = 0;

pub const RIGHT_LANE_X: i64 = 200_000;

/// The number of markers in each lane.
pub const LINES_PER_LANE: usize = 10;

/// The registry at the start of a game: three lanes of markers, the player
/// at the start position, no enemies.
pub open spec fn initial_registry() -> RegistryView {
    RegistryView {
        player: Some(initial_player()),
        enemies: Seq::empty(),
        road_lines: lane(LEFT_LANE_X, LINES_PER_LANE as nat) + lane(
            MIDDLE_LANE_X,
            LINES_PER_LANE as nat,
        ) + lane(RIGHT_LANE_X, LINES_PER_LANE as nat),
        next_enemy_id: 0,
    }
}

/// Builds the registry that a game starts with.
pub fn setup() -> (registry: Registry)
    ensures
        registry@ == initial_registry(),
        registry@.wf(),
{
    let mut registry = Registry::new();
    spawn_road_lines(&mut registry, LEFT_LANE_X, LINES_PER_LANE);
    spawn_road_lines(&mut registry, MIDDLE_LANE_X, LINES_PER_LANE);
    spawn_road_lines(&mut registry, RIGHT_LANE_X, LINES_PER_LANE);
    let player_car_type = CarType::Player;
    registry.player = Some(
        Player {
            position: Vec2::new(PLAYER_START_X, PLAYER_START_Y),
            velocity: Velocity { speed: PLAYER_START_SPEED },
            car_type: player_car_type,
            bounds: CollisionBounds { size: player_car_type.collision_bounds() },
        },
    );
    assert(registry@.road_lines =~= initial_registry().road_lines);
    assert(registry@.enemies =~= initial_registry().enemies);
    registry
}

} // verus!
