//! The lane markers: laid out in lanes, scrolling down, wrapping to the top.

use vstd::prelude::*;
use crate::components::{RoadLine, Vec2};
use crate::registry::{Registry, RegistryView, DESPAWN_Y};
use crate::resources::GameSpeed;
use crate::units::{distance_covered, shift, shifted, travel};

verus! {

/// The vertical distance between two markers of a lane.
pub const LINE_SPACING: i64 = 150_000;

/// The speed at which markers scroll before the multiplier applies.
pub const ROAD_LINE_SPEED: u32 = 150;

/// The height at which a marker that left the playfield comes back.
pub const ROAD_LINE_TOP: i64 = 350_000;

/// The most markers that one lane can be given: their positions must be
/// representable.
pub const MAX_LINES_PER_LANE: usize = 0xffff_ffff;

/// Marker number `i` of a lane of `count` markers at horizontal position
/// `x`: the lane is centred on the playfield, its first marker highest.
pub open spec fn lane_line(x: i64, count: nat, i: int) -> RoadLine {
    RoadLine {
        position: Vec2 { x, y: (count * LINE_SPACING / 2 - i * LINE_SPACING) as i64 },
        speed: ROAD_LINE_SPEED,
    }
}

/// A lane of `count` markers at horizontal position `x`.
pub open spec fn lane(x: i64, count: nat) -> Seq<RoadLine> {
    Seq::new(count, |i: int| lane_line(x, count, i))
}

/// The registry with one more lane of markers.
pub open spec fn with_lane(registry: RegistryView, x: i64, count: nat) -> RegistryView {
    RegistryView {
        player: registry.player,
        enemies: registry.enemies,
        road_lines: registry.road_lines + lane(x, count),
        next_enemy_id: registry.next_enemy_id,
    }
}

/// Adds a lane of `count` markers at horizontal position `x_position` to
/// the registry.
pub fn spawn_road_lines(registry: &mut Registry, x_position: i64, count: usize)
    requires
        count <= MAX_LINES_PER_LANE,
    ensures
        final(registry)@ == with_lane(old(registry)@, x_position, count as nat),
        old(registry)@.wf() ==> final(registry)@.wf(),
{
    let start_y: i64 = (count as i64) * LINE_SPACING / 2;
    let mut i: usize = 0;
    while i < count
        invariant
            i <= count <= MAX_LINES_PER_LANE,
            start_y == count * LINE_SPACING / 2,
            registry.player == old(registry).player,
            registry.enemies == old(registry).enemies,
            registry.next_enemy_id == old(registry).next_enemy_id,
            registry.road_lines@ == old(registry).road_lines@ + lane(
                x_position,
                count as nat,
            ).take(i as int),
        decreases count - i,
    {
        let y_position: i64 = start_y - (i as i64) * LINE_SPACING;
        registry.road_lines.push(
            RoadLine { position: Vec2::new(x_position, y_position), speed: ROAD_LINE_SPEED },
        );
        proof {
            let whole = lane(x_position, count as nat);
            assert(whole.take(i + 1) =~= whole.take(i as int).push(whole[i as int]));
            assert(registry.road_lines@ =~= old(registry).road_lines@ + whole.take(i + 1));
        }
        i += 1;
    }
    proof {
        let whole = lane(x_position, count as nat);
        assert(whole.take(count as int) =~= whole);
    }
}

/// A marker after scrolling for `delta` microseconds at `multiplier`
/// thousandths of its speed: it moves down, and comes back at the top once
/// it has left the playfield.
pub open spec fn scrolled(line: RoadLine, multiplier: u32, delta: u64) -> RoadLine {
    let y = shifted(line.position.y, false, distance_covered(line.speed, multiplier, delta));
    RoadLine {
        position: Vec2 {
            x: line.position.x,
            y: if y < DESPAWN_Y {
                ROAD_LINE_TOP
            } else {
                y
            },
        },
        speed: line.speed,
    }
}

/// The registry after every marker has scrolled.
pub open spec fn after_scroll(registry: RegistryView, multiplier: u32, delta: u64) -> RegistryView {
    RegistryView {
        player: registry.player,
        enemies: registry.enemies,
        road_lines: registry.road_lines.map_values(
            |line: RoadLine| scrolled(line, multiplier, delta),
        ),
        next_enemy_id: registry.next_enemy_id,
    }
}

/// Scrolls every marker down by its speed times the multiplier times
/// `delta`, and wraps those that left the playfield to the top.
pub fn scroll_road_lines(registry: &mut Registry, game_speed: &GameSpeed, delta: u64)
    ensures
        final(registry)@ == after_scroll(old(registry)@, game_speed.multiplier, delta),
        old(registry)@.wf() ==> final(registry)@.wf(),
{
    let count: usize = registry.road_lines.len();
    let mut i: usize = 0;
    while i < count
        invariant
            i <= count,
            registry.road_lines@.len() == count,
            old(registry).road_lines@.len() == count,
            registry.player == old(registry).player,
            registry.enemies == old(registry).enemies,
            registry.next_enemy_id == old(registry).next_enemy_id,
            forall|j: int|
                0 <= j < i ==> #[trigger] registry.road_lines@[j] == scrolled(
                    old(registry).road_lines@[j],
                    game_speed.multiplier,
                    delta,
                ),
            forall|j: int|
                i <= j < count ==> #[trigger] registry.road_lines@[j] == old(
                    registry,
                ).road_lines@[j],
        decreases count - i,
    {
        let mut line: RoadLine = registry.road_lines[i];
        let distance: u128 = travel(line.speed, game_speed.multiplier, delta);
        line.position.y = shift(line.position.y, false, distance);
        if line.position.y < DESPAWN_Y {
            line.position.y = ROAD_LINE_TOP;
        }
        registry.road_lines.set(i, line);
        i += 1;
    }
    proof {
        assert(registry@.road_lines =~= old(registry)@.road_lines.map_values(
            |line: RoadLine| scrolled(line, game_speed.multiplier, delta),
        ));
    }
}

} // verus!
