//! Collision detection between the player and the oncoming cars.

use vstd::prelude::*;
use crate::components::{Enemy, Player, Vec2};
use crate::registry::{Registry, RegistryView};
use crate::resources::GameOver;

verus! {

/// Whether two axis-aligned rectangles overlap. Each is given by its centre
/// and its size. The edges are compared at twice their coordinates, so that
/// half an odd size loses nothing.
pub open spec fn aabb_overlap(pos1: Vec2, size1: Vec2, pos2: Vec2, size2: Vec2) -> bool {
    let left1 = 2 * pos1.x - size1.x;
    let right1 = 2 * pos1.x + size1.x;
    let top1 = 2 * pos1.y + size1.y;
    let bottom1 = 2 * pos1.y - size1.y;
    let left2 = 2 * pos2.x - size2.x;
    let right2 = 2 * pos2.x + size2.x;
    let top2 = 2 * pos2.y + size2.y;
    let bottom2 = 2 * pos2.y - size2.y;
    !(left1 >= right2 || right1 <= left2 || top1 <= bottom2 || bottom1 >= top2)
}

/// Tests two axis-aligned rectangles for overlap. Rectangles that only
/// touch along an edge do not overlap.
pub fn aabb_collision(pos1: Vec2, size1: Vec2, pos2: Vec2, size2: Vec2) -> (hit: bool)
    ensures
        hit == aabb_overlap(pos1, size1, pos2, size2),
{
    let left1: i128 = 2 * (pos1.x as i128) - (size1.x as i128);
    let right1: i128 = 2 * (pos1.x as i128) + (size1.x as i128);
    let top1: i128 = 2 * (pos1.y as i128) + (size1.y as i128);
    let bottom1: i128 = 2 * (pos1.y as i128) - (size1.y as i128);

    let left2: i128 = 2 * (pos2.x as i128) - (size2.x as i128);
    let right2: i128 = 2 * (pos2.x as i128) + (size2.x as i128);
    let top2: i128 = 2 * (pos2.y as i128) + (size2.y as i128);
    let bottom2: i128 = 2 * (pos2.y as i128) - (size2.y as i128);

    !(left1 >= right2 || right1 <= left2 || top1 <= bottom2 || bottom1 >= top2)
}

/// Overlap does not depend on the order of the two rectangles.
pub proof fn lemma_aabb_symmetric(pos1: Vec2, size1: Vec2, pos2: Vec2, size2: Vec2)
    ensures
        aabb_overlap(pos1, size1, pos2, size2) == aabb_overlap(pos2, size2, pos1, size1),
{
}

/// Rectangles whose centres lie further apart on one axis than half the sum
/// of their sizes on that axis do not overlap.
pub proof fn lemma_aabb_separated(pos1: Vec2, size1: Vec2, pos2: Vec2, size2: Vec2)
    requires
        2 * (pos1.x - pos2.x) > size1.x + size2.x || 2 * (pos2.x - pos1.x) > size1.x + size2.x
            || 2 * (pos1.y - pos2.y) > size1.y + size2.y || 2 * (pos2.y - pos1.y) > size1.y
            + size2.y,
    ensures
        !aabb_overlap(pos1, size1, pos2, size2),
{
}

/// Rectangles of positive size around one centre overlap.
pub proof fn lemma_aabb_same_centre(pos: Vec2, size1: Vec2, size2: Vec2)
    requires
        size1.x > 0,
        size1.y > 0,
        size2.x > 0,
        size2.y > 0,
    ensures
        aabb_overlap(pos, size1, pos, size2),
{
}

/// Whether the player's footprint overlaps an enemy's.
pub open spec fn hits(player: Player, enemy: Enemy) -> bool {
    aabb_overlap(player.position, player.bounds.size, enemy.position, enemy.bounds.size)
}

/// The place of the first enemy in the list that the player hits, if the
/// player hits any.
pub open spec fn first_hit(player: Player, enemies: Seq<Enemy>) -> Option<int>
    decreases enemies.len(),
{
    if enemies.len() == 0 {
        None
    } else {
        match first_hit(player, enemies.drop_last()) {
            Some(i) => Some(i),
            None => if hits(player, enemies.last()) {
                Some(enemies.len() - 1)
            } else {
                None
            },
        }
    }
}

/// `first_hit` names an enemy that the player hits and that stands behind
/// none that the player hits too; it names none only where the player hits
/// none.
pub proof fn lemma_first_hit(player: Player, enemies: Seq<Enemy>)
    ensures
        match first_hit(player, enemies) {
            Some(i) => {
                &&& 0 <= i < enemies.len()
                &&& hits(player, enemies[i])
                &&& forall|j: int| 0 <= j < i ==> !hits(player, #[trigger] enemies[j])
            },
            None => forall|j: int| 0 <= j < enemies.len() ==> !hits(player, #[trigger] enemies[j]),
        },
    decreases enemies.len(),
{
    if enemies.len() > 0 {
        let rest = enemies.drop_last();
        lemma_first_hit(player, rest);
        assert(forall|j: int| 0 <= j < rest.len() ==> rest[j] == enemies[j]);
    }
}

/// The point half way between two points; half a thousandth is rounded
/// down.
pub open spec fn midpoint(a: Vec2, b: Vec2) -> Vec2 {
    Vec2 { x: ((a.x + b.x) / 2) as i64, y: ((a.y + b.y) / 2) as i64 }
}

fn halfway(a: i64, b: i64) -> (half: i64)
    ensures
        half == (a + b) / 2,
{
    let raised: u128 = (a as i128 + b as i128 + 0x1_0000_0000_0000_0000) as u128;
    ((raised / 2) as i128 - 0x8000_0000_0000_0000) as i64
}

/// A collision of the player with an enemy.
#[derive(Clone, Copy, Debug, PartialEq, Eq, Structural)]
pub struct Collision {
    /// The enemy that was hit, as it stood at the moment of the collision.
    pub enemy: Enemy,
    /// Where to show the collision: half way between the two cars.
    pub position: Vec2,
}

/// The place in the list of the enemy that a collision check finds: the
/// first one that the player hits, while the round is active and there is a
/// player.
pub open spec fn collision_index(registry: RegistryView, game_over: bool) -> Option<int> {
    if game_over || registry.player is None {
        None
    } else {
        first_hit(registry.player->0, registry.enemies)
    }
}

/// The registry without the enemy at place `i`.
pub open spec fn without_enemy(registry: RegistryView, i: int) -> RegistryView {
    RegistryView {
        player: registry.player,
        enemies: registry.enemies.remove(i),
        road_lines: registry.road_lines,
        next_enemy_id: registry.next_enemy_id,
    }
}

/// The registry after a collision check: without the enemy that was hit, if
/// one was.
pub open spec fn after_collision(registry: RegistryView, game_over: bool) -> RegistryView {
    match collision_index(registry, game_over) {
        Some(i) => without_enemy(registry, i),
        None => registry,
    }
}

/// What a collision check reports: the enemy that was hit, and the point
/// half way between it and the player.
pub open spec fn collision_found(registry: RegistryView, game_over: bool) -> Option<Collision> {
    match collision_index(registry, game_over) {
        Some(i) => Some(
            Collision {
                enemy: registry.enemies[i],
                position: midpoint(registry.player->0.position, registry.enemies[i].position),
            },
        ),
        None => None,
    }
}

/// Tests the player against the enemies in their order. The first hit ends
/// the round: the round is marked over, the enemy leaves the registry, and
/// the collision is reported. Without a hit, and always while the round is
/// over or there is no player, nothing changes.
pub fn check_collision(registry: &mut Registry, game_over: &mut GameOver) -> (event: Option<
    Collision,
>)
    ensures
        final(registry)@ == after_collision(old(registry)@, old(game_over).0),
        event == collision_found(old(registry)@, old(game_over).0),
        final(game_over).0 == (old(game_over).0 || event is Some),
        old(registry)@.wf() ==> final(registry)@.wf(),
{
    if game_over.0 {
        return None;
    }
    let player: Player = match registry.player {
        Some(player) => player,
        None => {
            return None;
        },
    };
    let count: usize = registry.enemies.len();
    let mut i: usize = 0;
    while i < count
        invariant
            i <= count,
            registry.enemies@.len() == count,
            *registry == *old(registry),
            *game_over == *old(game_over),
            !game_over.0,
            registry.player == Some(player),
            first_hit(player, registry.enemies@.take(i as int)) is None,
        decreases count - i,
    {
        let enemy: Enemy = registry.enemies[i];
        proof {
            let upto = registry.enemies@.take(i + 1);
            assert(upto.drop_last() =~= registry.enemies@.take(i as int));
            assert(upto.last() == enemy);
        }
        if aabb_collision(player.position, player.bounds.size, enemy.position, enemy.bounds.size) {
            proof {
                lemma_first_hit_prefix(player, registry.enemies@, i as int);
                lemma_remove_keeps_order(registry.enemies@, i as int);
            }
            game_over.0 = true;
            registry.enemies.remove(i);
            let position = Vec2::new(
                halfway(player.position.x, enemy.position.x),
                halfway(player.position.y, enemy.position.y),
            );
            return Some(Collision { enemy, position });
        }
        i += 1;
    }
    proof {
        assert(registry.enemies@.take(count as int) =~= registry.enemies@);
    }
    None
}

/// A first hit within the first enemies of a list is the first hit of the
/// whole list.
pub proof fn lemma_first_hit_prefix(player: Player, enemies: Seq<Enemy>, i: int)
    requires
        0 <= i < enemies.len(),
        first_hit(player, enemies.take(i + 1)) == Some(i),
    ensures
        first_hit(player, enemies) == Some(i),
    decreases enemies.len(),
{
    if enemies.len() > i + 1 {
        let rest = enemies.drop_last();
        assert(rest.take(i + 1) =~= enemies.take(i + 1));
        lemma_first_hit_prefix(player, rest, i);
    } else {
        assert(enemies.take(i + 1) =~= enemies);
    }
}

/// Each item of a list without its item at place `i` stood in the list, and
/// two of them stood there in the same order.
pub proof fn lemma_remove_keeps_order<A>(items: Seq<A>, i: int)
    requires
        0 <= i < items.len(),
    ensures
        items.remove(i).len() == items.len() - 1,
        forall|j: int| 0 <= j < i ==> #[trigger] items.remove(i)[j] == items[j],
        forall|j: int| i <= j < items.len() - 1 ==> #[trigger] items.remove(i)[j] == items[j + 1],
{
}

} // verus!
