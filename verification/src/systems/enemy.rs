//! The oncoming cars: how they spawn, descend and leave.

use vstd::prelude::*;
use crate::components::{CarType, CollisionBounds, Enemy, Vec2, Velocity};
use crate::random::random_in_range;
use crate::registry::{enemy_wf, Registry, RegistryView, DESPAWN_Y};
use crate::resources::{EnemySpawnTimer, GameSpeed};
use crate::units::{distance_covered, shift, shifted, travel};

verus! {

/// The height at which enemies appear.
pub const ENEMY_SPAWN_Y: i64 = 350_000;

/// The speed at which enemies descend before the multiplier applies.
pub const ENEMY_SPEED: u32 = 200;

/// The number of enemy car models; their indices start at 1.
pub const ENEMY_KINDS: u32 = 6;

/// Enemies appear within this distance of the centre line.
pub const SPAWN_X_BOUND: i64 = 300_000;

/// The enemy that a spawn creates from the chosen model and position.
pub open spec fn new_enemy(id: u64, enemy_index: u32, x: i64) -> Enemy {
    let car_type = CarType::spec_from_enemy_index(enemy_index);
    Enemy {
        id,
        position: Vec2 { x, y: ENEMY_SPAWN_Y },
        velocity: Velocity { speed: ENEMY_SPEED },
        car_type,
        bounds: CollisionBounds { size: car_type.spec_collision_bounds() },
    }
}

/// The registry after a spawn: one enemy more, at the end of the list,
/// under the next id. Once the ids are used up, nothing spawns.
pub open spec fn spawned(registry: RegistryView, enemy_index: u32, x: i64) -> RegistryView {
    if registry.next_enemy_id == u64::MAX {
        registry
    } else {
        RegistryView {
            player: registry.player,
            enemies: registry.enemies.push(new_enemy(registry.next_enemy_id, enemy_index, x)),
            road_lines: registry.road_lines,
            next_enemy_id: (registry.next_enemy_id + 1) as u64,
        }
    }
}

/// The id of the enemy that a spawn creates, if it creates one.
pub open spec fn spawned_id(registry: RegistryView) -> Option<u64> {
    if registry.next_enemy_id == u64::MAX {
        None
    } else {
        Some(registry.next_enemy_id)
    }
}

/// Whether a chosen model and position are among those that the spawner
/// draws from.
pub open spec fn spawn_choice_in_range(enemy_index: u32, x: i64) -> bool {
    &&& 1 <= enemy_index <= ENEMY_KINDS
    &&& -SPAWN_X_BOUND <= x <= SPAWN_X_BOUND
}

/// Creates one enemy of the model that `enemy_index` selects at horizontal
/// position `x`, at the spawn height, and returns its id.
pub fn spawn_enemy(registry: &mut Registry, enemy_index: u32, x: i64) -> (id: Option<u64>)
    ensures
        final(registry)@ == spawned(old(registry)@, enemy_index, x),
        id == spawned_id(old(registry)@),
        old(registry)@.wf() ==> final(registry)@.wf(),
{
    if registry.next_enemy_id == u64::MAX {
        return None;
    }
    let id: u64 = registry.next_enemy_id;
    let car_type = CarType::from_enemy_index(enemy_index);
    let enemy = Enemy {
        id,
        position: Vec2::new(x, ENEMY_SPAWN_Y),
        velocity: Velocity { speed: ENEMY_SPEED },
        car_type,
        bounds: CollisionBounds { size: car_type.collision_bounds() },
    };
    registry.enemies.push(enemy);
    registry.next_enemy_id = id + 1;
    Some(id)
}

/// Ticks the spawn countdown by the frame's `delta`. When the tick
/// completes a period, draws an enemy model and a horizontal position at
/// random and spawns that enemy: at most one per tick.
pub fn spawn_enemy_over_time(
    registry: &mut Registry,
    timer: &mut EnemySpawnTimer,
    delta: u64,
) -> (id: Option<u64>)
    ensures
        final(timer)@ == old(timer)@.ticked(delta),
        !final(timer)@.finished ==> final(registry)@ == old(registry)@ && id is None,
        final(timer)@.finished ==> id == spawned_id(old(registry)@) && exists|
            enemy_index: u32,
            x: i64,
        |
            spawn_choice_in_range(enemy_index, x) && final(registry)@ == spawned(
                old(registry)@,
                enemy_index,
                x,
            ),
        old(registry)@.wf() ==> final(registry)@.wf(),
{
    if timer.tick(delta) {
        let enemy_index: u32 = random_in_range(1, ENEMY_KINDS as i64) as u32;
        let x: i64 = random_in_range(-SPAWN_X_BOUND, SPAWN_X_BOUND);
        let id = spawn_enemy(registry, enemy_index, x);
        assert(spawn_choice_in_range(enemy_index, x));
        id
    } else {
        None
    }
}

/// An enemy after descending for `delta` microseconds at `multiplier`
/// thousandths of its speed.
pub open spec fn descended(enemy: Enemy, multiplier: u32, delta: u64) -> Enemy {
    Enemy {
        id: enemy.id,
        position: Vec2 {
            x: enemy.position.x,
            y: shifted(
                enemy.position.y,
                false,
                distance_covered(enemy.velocity.speed, multiplier, delta),
            ),
        },
        velocity: enemy.velocity,
        car_type: enemy.car_type,
        bounds: enemy.bounds,
    }
}

/// The registry after every enemy has descended.
pub open spec fn after_enemy_movement(
    registry: RegistryView,
    multiplier: u32,
    delta: u64,
) -> RegistryView {
    RegistryView {
        player: registry.player,
        enemies: registry.enemies.map_values(|enemy: Enemy| descended(enemy, multiplier, delta)),
        road_lines: registry.road_lines,
        next_enemy_id: registry.next_enemy_id,
    }
}

/// Moves every enemy down by its speed times the multiplier times `delta`.
pub fn enemy_movement(registry: &mut Registry, game_speed: &GameSpeed, delta: u64)
    ensures
        final(registry)@ == after_enemy_movement(old(registry)@, game_speed.multiplier, delta),
        old(registry)@.wf() ==> final(registry)@.wf(),
{
    let count: usize = registry.enemies.len();
    let mut i: usize = 0;
    while i < count
        invariant
            i <= count,
            registry.enemies@.len() == count,
            old(registry).enemies@.len() == count,
            registry.player == old(registry).player,
            registry.road_lines == old(registry).road_lines,
            registry.next_enemy_id == old(registry).next_enemy_id,
            forall|j: int|
                0 <= j < i ==> registry.enemies@[j] == descended(
                    #[trigger] old(registry).enemies@[j],
                    game_speed.multiplier,
                    delta,
                ),
            forall|j: int| i <= j < count ==> registry.enemies@[j] == old(registry).enemies@[j],
        decreases count - i,
    {
        let mut enemy: Enemy = registry.enemies[i];
        let distance: u128 = travel(enemy.velocity.speed, game_speed.multiplier, delta);
        enemy.position.y = shift(enemy.position.y, false, distance);
        registry.enemies.set(i, enemy);
        i += 1;
    }
    proof {
        let before = old(registry)@.enemies;
        let after = registry@.enemies;
        assert forall|j: int| 0 <= j < count implies (#[trigger] after[j]).id == before[j].id
            && (enemy_wf(before[j]) ==> enemy_wf(after[j])) by {
            assert(after[j] == descended(before[j], game_speed.multiplier, delta));
        }
        assert(after =~= before.map_values(
            |enemy: Enemy| descended(enemy, game_speed.multiplier, delta),
        ));
    }
}

/// Whether an enemy is still on the playfield.
pub open spec fn on_playfield(enemy: Enemy) -> bool {
    enemy.position.y >= DESPAWN_Y
}

/// The registry without the enemies that have left the playfield.
pub open spec fn after_cleanup(registry: RegistryView) -> RegistryView {
    RegistryView {
        player: registry.player,
        enemies: registry.enemies.filter(|enemy: Enemy| on_playfield(enemy)),
        road_lines: registry.road_lines,
        next_enemy_id: registry.next_enemy_id,
    }
}

/// Removes every enemy that has passed below the playfield; the others stay
/// in their order.
pub fn cleanup_enemies(registry: &mut Registry)
    ensures
        final(registry)@ == after_cleanup(old(registry)@),
        forall|i: int|
            0 <= i < final(registry)@.enemies.len() ==> on_playfield(
                #[trigger] final(registry)@.enemies[i],
            ),
        old(registry)@.wf() ==> final(registry)@.wf(),
{
    let ghost keep = |enemy: Enemy| on_playfield(enemy);
    let count: usize = registry.enemies.len();
    let mut kept: Vec<Enemy> = Vec::new();
    let mut i: usize = 0;
    assert(registry.enemies@.take(0).filter(keep) =~= Seq::<Enemy>::empty()) by {
        reveal(Seq::filter);
    }
    while i < count
        invariant
            i <= count,
            registry.enemies@.len() == count,
            *registry == *old(registry),
            keep == (|enemy: Enemy| on_playfield(enemy)),
            kept@ == registry.enemies@.take(i as int).filter(keep),
        decreases count - i,
    {
        let enemy: Enemy = registry.enemies[i];
        proof {
            let before = registry.enemies@.take(i as int);
            let after = registry.enemies@.take(i + 1);
            assert(after.drop_last() =~= before);
            assert(after.last() == enemy);
            reveal(Seq::filter);
        }
        if enemy.position.y >= DESPAWN_Y {
            kept.push(enemy);
        }
        i += 1;
    }
    proof {
        assert(registry.enemies@.take(count as int) =~= registry.enemies@);
        lemma_filter_keeps_order(old(registry)@.enemies, keep);
        assert forall|i: int| 0 <= i < kept@.len() implies on_playfield(#[trigger] kept@[i]) by {
            old(registry)@.enemies.lemma_filter_pred(keep, i);
        }
    }
    registry.enemies = kept;
}

/// Each item of a filtered list stood in the list, and two of them stood
/// there in the same order.
pub proof fn lemma_filter_keeps_order<A>(items: Seq<A>, keep: spec_fn(A) -> bool)
    ensures
        forall|i: int|
            0 <= i < items.filter(keep).len() ==> exists|k: int|
                0 <= k < items.len() && items[k] == #[trigger] items.filter(keep)[i],
        forall|i: int, j: int|
            0 <= i < j < items.filter(keep).len() ==> exists|k: int, l: int|
                0 <= k < l < items.len() && items[k] == #[trigger] items.filter(keep)[i]
                    && items[l] == #[trigger] items.filter(keep)[j],
    decreases items.len(),
{
    reveal(Seq::filter);
    if items.len() > 0 {
        let rest = items.drop_last();
        lemma_filter_keeps_order(rest, keep);
        let out = items.filter(keep);
        let sub = rest.filter(keep);
        assert forall|i: int| 0 <= i < out.len() implies exists|k: int|
            0 <= k < items.len() && items[k] == #[trigger] out[i] by {
            if i < sub.len() {
                let k = choose|k: int| 0 <= k < rest.len() && rest[k] == sub[i];
                assert(items[k] == out[i]);
            } else {
                assert(items[items.len() - 1] == out[i]);
            }
        }
        assert forall|i: int, j: int| 0 <= i < j < out.len() implies exists|k: int, l: int|
            0 <= k < l < items.len() && items[k] == #[trigger] out[i] && items[l]
                == #[trigger] out[j] by {
            if j < sub.len() {
                let (k, l) = choose|k: int, l: int|
                    0 <= k < l < rest.len() && rest[k] == sub[i] && rest[l] == sub[j];
                assert(items[k] == out[i] && items[l] == out[j]);
            } else {
                let k = choose|k: int| 0 <= k < rest.len() && rest[k] == sub[i];
                assert(items[k] == out[i] && items[items.len() - 1] == out[j]);
            }
        }
    }
}

} // verus!
