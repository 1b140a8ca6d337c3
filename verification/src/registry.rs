//! The entity registry: every live entity of the simulation, by kind.

use vstd::prelude::*;
use crate::components::{CarType, Enemy, Player, RoadLine, Vec2};

verus! {

/// Half the width of the road: the player's horizontal position stays
/// within this distance of the centre line.
pub const ROAD_BOUNDS: i64 = 350_000;

/// Enemies below this height have left the playfield.
pub const DESPAWN_Y: i64 = -350_000;

/// Where the player starts a round.
pub const PLAYER_START_X: i64 = 0;

pub const PLAYER_START_Y: i64 = -200_000;

/// The player's speed at the start of a round.
pub const PLAYER_START_SPEED: u32 = 150;

/// The live entities. Enemies stand in the order in which they spawned.
#[derive(Clone, Debug, PartialEq, Eq)]
pub struct Registry {
    pub player: Option<Player>,
    pub enemies: Vec<Enemy>,
    pub road_lines: Vec<RoadLine>,
    /// The id that the next enemy gets.
    pub next_enemy_id: u64,
}

/// The registry as mathematical values.
pub struct RegistryView {
    pub player: Option<Player>,
    pub enemies: Seq<Enemy>,
    pub road_lines: Seq<RoadLine>,
    pub next_enemy_id: u64,
}

impl View for Registry {
    type V = RegistryView;

    open spec fn view(&self) -> RegistryView {
        RegistryView {
            player: self.player,
            enemies: self.enemies@,
            road_lines: self.road_lines@,
            next_enemy_id: self.next_enemy_id,
        }
    }
}

/// A player as a round's rules allow it: the player's car with that car's
/// footprint, on the road.
pub open spec fn player_wf(player: Player) -> bool {
    &&& player.car_type == CarType::Player
    &&& player.bounds.size == player.car_type.spec_collision_bounds()
    &&& -ROAD_BOUNDS <= player.position.x <= ROAD_BOUNDS
}

/// An enemy as the rules allow it: an enemy car with that car's footprint.
pub open spec fn enemy_wf(enemy: Enemy) -> bool {
    &&& enemy.car_type != CarType::Player
    &&& enemy.bounds.size == enemy.car_type.spec_collision_bounds()
}

impl RegistryView {
    /// What holds of the registry throughout a game: the player, if there
    /// is one, and every enemy are as the rules allow them, and the enemies'
    /// ids rise along the list and lie below the next id.
    pub open spec fn wf(self) -> bool {
        &&& self.player is Some ==> player_wf(self.player->0)
        &&& forall|i: int| 0 <= i < self.enemies.len() ==> enemy_wf(#[trigger] self.enemies[i])
        &&& forall|i: int, j: int|
            0 <= i < j < self.enemies.len() ==> self.enemies[i].id < self.enemies[j].id
        &&& forall|i: int|
            0 <= i < self.enemies.len() ==> (#[trigger] self.enemies[i]).id < self.next_enemy_id
    }
}

impl Registry {
    /// A registry without entities.
    pub fn new() -> (registry: Registry)
        ensures
            registry@.player is None,
            registry@.enemies.len() == 0,
            registry@.road_lines.len() == 0,
            registry@.next_enemy_id == 0,
            registry@.wf(),
    {
        Registry { player: None, enemies: Vec::new(), road_lines: Vec::new(), next_enemy_id: 0 }
    }
}

/// The player at the start of a round.
pub open spec fn initial_player() -> Player {
    Player {
        position: Vec2 { x: PLAYER_START_X, y: PLAYER_START_Y },
        velocity: crate::components::Velocity { speed: PLAYER_START_SPEED },
        car_type: CarType::Player,
        bounds: crate::components::CollisionBounds {
            size: CarType::Player.spec_collision_bounds(),
        },
    }
}

} // verus!
