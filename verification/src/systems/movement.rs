//! The player's motion: input to direction, direction to displacement.

use vstd::prelude::*;
use crate::components::{Player, Vec2, Velocity};
use crate::registry::{Registry, RegistryView, ROAD_BOUNDS};
use crate::units::{distance_covered, shift, shifted, travel};

verus! {

/// What the player asks for during one tick.
#[derive(Clone, Copy, Debug, PartialEq, Eq, Structural)]
pub struct PlayerInput {
    pub left: bool,
    pub right: bool,
    /// Speeds the car up for good.
    pub boost: bool,
}

/// A direction on the road plane, in thousandths.
#[derive(Clone, Copy, Debug, PartialEq, Eq, Structural)]
pub struct Direction {
    pub x: i32,
    pub y: i32,
}

/// What one steering input adds to the direction, before it is normalized.
pub const STEER: i32 = 200;

/// What one tick of boost adds to the player's speed.
pub const BOOST: u32 = 10;

/// Whether `root` is the square root of `n`, rounded down.
pub open spec fn is_sqrt_floor(n: nat, root: nat) -> bool {
    root * root <= n < (root + 1) * (root + 1)
}

/// The square root of `n`, rounded down.
pub open spec fn sqrt_floor(n: nat) -> nat {
    choose|root: nat| is_sqrt_floor(n, root)
}

/// Every number has a rounded-down square root.
pub proof fn lemma_sqrt_floor_exists(n: nat)
    ensures
        is_sqrt_floor(n, sqrt_floor(n)),
    decreases n,
{
    if n == 0 {
        assert(is_sqrt_floor(0, 0)) by (nonlinear_arith);
    } else {
        lemma_sqrt_floor_exists((n - 1) as nat);
        let below = sqrt_floor((n - 1) as nat);
        if (below + 1) * (below + 1) <= n {
            assert((below + 1) * (below + 1) == n);
            assert(n < (below + 2) * (below + 2)) by (nonlinear_arith)
                requires
                    (below + 1) * (below + 1) == n,
            ;
            assert(is_sqrt_floor(n, below + 1));
        } else {
            assert(is_sqrt_floor(n, below));
        }
    }
}

/// At most one number is the rounded-down square root of `n`.
pub proof fn lemma_sqrt_floor_unique(n: nat, a: nat, b: nat)
    requires
        is_sqrt_floor(n, a),
        is_sqrt_floor(n, b),
    ensures
        a == b,
{
    if a < b {
        assert((a + 1) * (a + 1) <= b * b) by (nonlinear_arith)
            requires
                a + 1 <= b,
        ;
    }
    if b < a {
        assert((b + 1) * (b + 1) <= a * a) by (nonlinear_arith)
            requires
                b + 1 <= a,
        ;
    }
}

/// A number that is the rounded-down square root of `n` is `sqrt_floor(n)`.
pub proof fn lemma_sqrt_floor_is(n: nat, root: nat)
    requires
        is_sqrt_floor(n, root),
    ensures
        sqrt_floor(n) == root,
{
    lemma_sqrt_floor_unique(n, sqrt_floor(n), root);
}

/// Computes the square root of `n`, rounded down.
pub fn isqrt(n: u64) -> (root: u64)
    ensures
        is_sqrt_floor(n as nat, root as nat),
        root == sqrt_floor(n as nat),
        root <= 0xffff_ffff,
{
    let mut low: u64 = 0;
    let mut high: u64 = 0x1_0000_0000;
    assert(0x1_0000_0000 * 0x1_0000_0000 > n) by (nonlinear_arith)
        requires
            n <= 0xffff_ffff_ffff_ffff,
    ;
    while high - low > 1
        invariant
            low < high <= 0x1_0000_0000,
            low * low <= n < high * high,
        decreases high - low,
    {
        let mid: u64 = low + (high - low) / 2;
        assert(mid * mid <= 0xffff_ffff * 0xffff_ffff) by (nonlinear_arith)
            requires
                mid <= 0xffff_ffff,
        ;
        if mid * mid <= n {
            low = mid;
        } else {
            high = mid;
        }
    }
    proof {
        lemma_sqrt_floor_is(n as nat, low as nat);
    }
    low
}

/// One component of a direction after normalizing, given the other: its
/// share of a length of one thousand, with the component's sign. A fraction
/// is dropped.
pub open spec fn unit_component(c: i32, other: i32) -> int {
    if c == 0 {
        0
    } else {
        let share = sqrt_floor(((c * c * 1_000_000) / (c * c + other * other)) as nat);
        if c > 0 {
            share as int
        } else {
            -share
        }
    }
}

/// A direction brought to length one (a thousand thousandths, or just
/// under); the zero direction stays zero.
pub open spec fn normalized(direction: Direction) -> Direction {
    Direction {
        x: unit_component(direction.x, direction.y) as i32,
        y: unit_component(direction.y, direction.x) as i32,
    }
}

/// No component of a normalized direction is longer than one.
pub proof fn lemma_unit_component_bounds(c: i32, other: i32)
    ensures
        -1000 <= unit_component(c, other) <= 1000,
        c > 0 ==> unit_component(c, other) >= 0,
        c < 0 ==> unit_component(c, other) <= 0,
        c != 0 ==> unit_component(c, other) * unit_component(c, other) <= (c * c * 1_000_000) / (
        c * c + other * other),
        other == 0 && c > 0 ==> unit_component(c, other) == 1000,
        other == 0 && c < 0 ==> unit_component(c, other) == -1000,
{
    if c != 0 {
        let square = c * c;
        let length = c * c + other * other;
        assert(square > 0 && length >= square) by (nonlinear_arith)
            requires
                c != 0,
                square == c * c,
                length == c * c + other * other,
        ;
        let quotient = (square * 1_000_000) / length;
        assert(0 <= quotient <= 1_000_000) by (nonlinear_arith)
            requires
                0 < square <= length,
                quotient == (square * 1_000_000) / length,
        ;
        lemma_sqrt_floor_exists(quotient as nat);
        let share = sqrt_floor(quotient as nat);
        assert(share <= 1000) by (nonlinear_arith)
            requires
                share * share <= quotient,
                quotient <= 1_000_000,
        ;
        assert((-share) * (-share) == share * share) by (nonlinear_arith);
        if other == 0 {
            assert(quotient == 1_000_000) by (nonlinear_arith)
                requires
                    square > 0,
                    length == square,
                    quotient == (square * 1_000_000) / length,
            ;
            assert(is_sqrt_floor(1_000_000, 1000)) by (nonlinear_arith);
            lemma_sqrt_floor_is(1_000_000, 1000);
        }
    }
}

/// A normalized direction is no longer than one: the squares of its
/// components sum to at most the square of a thousand.
pub proof fn lemma_normalized_length(direction: Direction)
    ensures
        normalized(direction).x == unit_component(direction.x, direction.y),
        normalized(direction).y == unit_component(direction.y, direction.x),
        normalized(direction).x * normalized(direction).x + normalized(direction).y * normalized(
            direction,
        ).y <= 1_000_000,
{
    let x = direction.x;
    let y = direction.y;
    lemma_unit_component_bounds(x, y);
    lemma_unit_component_bounds(y, x);
    let ux = unit_component(x, y);
    let uy = unit_component(y, x);
    if x != 0 && y != 0 {
        let a = x * x;
        let b = y * y;
        assert(a > 0 && b > 0) by (nonlinear_arith)
            requires
                x != 0,
                y != 0,
                a == x * x,
                b == y * y,
        ;
        let qa = (a * 1_000_000) / (a + b);
        let qb = (b * 1_000_000) / (b + a);
        assert(qa + qb <= 1_000_000) by (nonlinear_arith)
            requires
                a > 0,
                b > 0,
                qa == (a * 1_000_000) / (a + b),
                qb == (b * 1_000_000) / (b + a),
        ;
    } else {
        assert(ux * ux <= 1_000_000 && uy * uy <= 1_000_000) by (nonlinear_arith)
            requires
                -1000 <= ux <= 1000,
                -1000 <= uy <= 1000,
        ;
        assert(x == 0 ==> ux * ux == 0);
        assert(y == 0 ==> uy * uy == 0);
    }
}

fn normalize_component(c: i32, other: i32) -> (unit: i32)
    ensures
        unit == unit_component(c, other),
        -1000 <= unit <= 1000,
{
    proof {
        lemma_unit_component_bounds(c, other);
    }
    if c == 0 {
        return 0;
    }
    let wide: i64 = c as i64;
    let wide_other: i64 = other as i64;
    assert(0 < wide * wide <= 0x4000_0000_0000_0000) by (nonlinear_arith)
        requires
            -0x8000_0000 <= wide <= 0x7fff_ffff,
            wide != 0,
    ;
    assert(0 <= wide_other * wide_other <= 0x4000_0000_0000_0000) by (nonlinear_arith)
        requires
            -0x8000_0000 <= wide_other <= 0x7fff_ffff,
    ;
    let square: u128 = (wide * wide) as u128;
    let length: u128 = square + (wide_other * wide_other) as u128;
    let quotient: u128 = square * 1_000_000 / length;
    assert(quotient <= 1_000_000) by (nonlinear_arith)
        requires
            0 < square <= length,
            quotient == (square * 1_000_000) / (length as int),
    ;
    let share: u64 = isqrt(quotient as u64);
    if c > 0 {
        share as i32
    } else {
        -(share as i32)
    }
}

/// Brings a direction to length one; the zero direction stays zero.
pub fn normalize(direction: Direction) -> (unit: Direction)
    ensures
        unit == normalized(direction),
        unit.x * unit.x + unit.y * unit.y <= 1_000_000,
{
    proof {
        lemma_normalized_length(direction);
    }
    Direction {
        x: normalize_component(direction.x, direction.y),
        y: normalize_component(direction.y, direction.x),
    }
}

/// The direction that the steering input asks for, before it is
/// normalized: left and right cancel each other.
pub open spec fn steering(input: PlayerInput) -> Direction {
    Direction {
        x: ((if input.right {
            STEER as int
        } else {
            0
        }) - (if input.left {
            STEER as int
        } else {
            0
        })) as i32,
        y: 0,
    }
}

/// Computes `steering`.
pub fn input_direction(input: &PlayerInput) -> (direction: Direction)
    ensures
        direction == steering(*input),
{
    let mut direction = Direction { x: 0, y: 0 };
    if input.left {
        direction.x = direction.x - STEER;
    }
    if input.right {
        direction.x = direction.x + STEER;
    }
    direction
}

/// The length of a component of a unit direction, in thousandths.
pub open spec fn share_of(component: i32) -> u32 {
    if component >= 0 {
        component as u32
    } else {
        (-component) as u32
    }
}

/// A horizontal position brought back onto the road.
pub open spec fn clamped_to_road(x: i64) -> i64 {
    if x < -ROAD_BOUNDS {
        (-ROAD_BOUNDS) as i64
    } else if x > ROAD_BOUNDS {
        ROAD_BOUNDS
    } else {
        x
    }
}

/// A position after `delta` microseconds at `speed` along the unit
/// direction `unit`, with the horizontal position clamped to the road
/// afterwards.
pub open spec fn advanced(position: Vec2, unit: Direction, speed: u32, delta: u64) -> Vec2 {
    Vec2 {
        x: clamped_to_road(
            shifted(position.x, unit.x > 0, distance_covered(speed, share_of(unit.x), delta)),
        ),
        y: shifted(position.y, unit.y > 0, distance_covered(speed, share_of(unit.y), delta)),
    }
}

/// The player's speed after one tick of boost; it stops at the largest
/// representable speed.
pub open spec fn boosted(speed: u32) -> u32 {
    if speed + BOOST > u32::MAX {
        u32::MAX
    } else {
        (speed + BOOST) as u32
    }
}

/// The player after one tick: boost raises the speed first, then the
/// normalized direction times the speed times `delta` moves the car, and the
/// car is put back onto the road.
pub open spec fn moved_player(player: Player, direction: Direction, boost: bool, delta: u64) -> Player {
    let speed = if boost {
        boosted(player.velocity.speed)
    } else {
        player.velocity.speed
    };
    Player {
        position: advanced(player.position, normalized(direction), speed, delta),
        velocity: Velocity { speed },
        car_type: player.car_type,
        bounds: player.bounds,
    }
}

fn share(component: i32) -> (length: u32)
    requires
        -1000 <= component <= 1000,
    ensures
        length == share_of(component),
{
    if component >= 0 {
        component as u32
    } else {
        (-component) as u32
    }
}

/// Moves the player for one tick along `direction`, which need not be
/// normalized; `boost` raises the speed for this tick and after.
pub fn move_player(player: &mut Player, direction: Direction, boost: bool, delta: u64)
    ensures
        *final(player) == moved_player(*old(player), direction, boost, delta),
        -ROAD_BOUNDS <= final(player).position.x <= ROAD_BOUNDS,
{
    if boost {
        player.velocity.speed = player.velocity.speed.saturating_add(BOOST);
    }
    let unit = normalize(direction);
    proof {
        lemma_unit_component_bounds(direction.x, direction.y);
        lemma_unit_component_bounds(direction.y, direction.x);
    }
    let speed: u32 = player.velocity.speed;
    let across: u128 = travel(speed, share(unit.x), delta);
    let along: u128 = travel(speed, share(unit.y), delta);
    let x: i64 = shift(player.position.x, unit.x > 0, across);
    let y: i64 = shift(player.position.y, unit.y > 0, along);
    player.position.x = if x < -ROAD_BOUNDS {
        -ROAD_BOUNDS
    } else if x > ROAD_BOUNDS {
        ROAD_BOUNDS
    } else {
        x
    };
    player.position.y = y;
}

/// The registry after the player has moved as the input asks.
pub open spec fn after_player_movement(
    registry: RegistryView,
    input: PlayerInput,
    delta: u64,
) -> RegistryView {
    RegistryView {
        player: match registry.player {
            Some(player) => Some(moved_player(player, steering(input), input.boost, delta)),
            None => None,
        },
        enemies: registry.enemies,
        road_lines: registry.road_lines,
        next_enemy_id: registry.next_enemy_id,
    }
}

/// Moves the player as the input asks. Without a player nothing happens.
pub fn player_movement(registry: &mut Registry, input: &PlayerInput, delta: u64)
    ensures
        final(registry)@ == after_player_movement(old(registry)@, *input, delta),
        final(registry)@.player is Some ==> {
            let x = final(registry)@.player->0.position.x;
            -ROAD_BOUNDS <= x <= ROAD_BOUNDS
        },
        old(registry)@.wf() ==> final(registry)@.wf(),
{
    match registry.player {
        Some(mut player) => {
            move_player(&mut player, input_direction(input), input.boost, delta);
            registry.player = Some(player);
        },
        None => {},
    }
}

/// Normalizing keeps steering from adding up: whatever the direction, the
/// distance covered in one tick is at most the speed times `delta`. With
/// the distance in thousandths of a unit and the speed times `delta` in
/// millionths, a million times the squared distance is at most the square
/// of speed times `delta`.
pub proof fn lemma_displacement_bounded(direction: Direction, speed: u32, delta: u64)
    ensures
        ({
            let unit = normalized(direction);
            let across = distance_covered(speed, share_of(unit.x), delta);
            let along = distance_covered(speed, share_of(unit.y), delta);
            1_000_000 * (across * across + along * along) <= (speed * delta) * (speed * delta)
        }),
{
    let unit = normalized(direction);
    lemma_normalized_length(direction);
    lemma_unit_component_bounds(direction.x, direction.y);
    lemma_unit_component_bounds(direction.y, direction.x);
    let sx = share_of(unit.x) as int;
    let sy = share_of(unit.y) as int;
    assert(sx * sx == unit.x * unit.x) by (nonlinear_arith)
        requires
            sx == unit.x || sx == -unit.x,
    ;
    assert(sy * sy == unit.y * unit.y) by (nonlinear_arith)
        requires
            sy == unit.y || sy == -unit.y,
    ;
    let reach = speed * delta;
    let across = distance_covered(speed, share_of(unit.x), delta) as int;
    let along = distance_covered(speed, share_of(unit.y), delta) as int;
    lemma_covered_square(speed, sx, delta);
    lemma_covered_square(speed, sy, delta);
    assert(1_000_000_000_000 * (across * across) + 1_000_000_000_000 * (along * along)
        <= 1_000_000 * (reach * reach)) by (nonlinear_arith)
        requires
            1_000_000_000_000 * (across * across) <= (sx * sx) * (reach * reach),
            1_000_000_000_000 * (along * along) <= (sy * sy) * (reach * reach),
            sx * sx + sy * sy <= 1_000_000,
            reach * reach >= 0,
    ;
}

proof fn lemma_covered_square(speed: u32, share: int, delta: u64)
    requires
        0 <= share <= 1000,
    ensures
        ({
            let covered = (speed * share * delta) / 1_000_000;
            1_000_000_000_000 * (covered * covered) <= (share * share) * ((speed * delta) * (speed
                * delta))
        }),
{
    let covered = (speed * share * delta) / 1_000_000;
    let reach = speed * delta;
    let whole = share * reach;
    assert(speed * share * delta == whole) by (nonlinear_arith)
        requires
            reach == speed * delta,
            whole == share * reach,
    ;
    assert(0 <= whole) by (nonlinear_arith)
        requires
            0 <= share,
            0 <= reach,
            whole == share * reach,
    ;
    let scaled = 1_000_000 * covered;
    assert(0 <= scaled <= whole);
    assert(scaled * scaled <= whole * whole) by (nonlinear_arith)
        requires
            0 <= scaled <= whole,
    ;
    assert(scaled * scaled == 1_000_000_000_000 * (covered * covered)) by (nonlinear_arith)
        requires
            scaled == 1_000_000 * covered,
    ;
    assert(whole * whole == (share * share) * (reach * reach)) by (nonlinear_arith)
        requires
            whole == share * reach,
    ;
}

} // verus!
