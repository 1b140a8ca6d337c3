//! A game: the registry and the shared state, and the tick that advances
//! them.

use vstd::prelude::*;
use crate::registry::{Registry, RegistryView, ROAD_BOUNDS};
use crate::resources::{multiplier_at, EnemySpawnTimer, GameOver, GameSpeed, TimerView};
use crate::setup::{initial_registry, setup};
use crate::components::Enemy;
use crate::systems::collision::{
    after_collision, check_collision, collision_found, collision_index, lemma_first_hit,
    lemma_remove_keeps_order, Collision,
};
use crate::systems::enemy::{
    after_cleanup, after_enemy_movement, cleanup_enemies, enemy_movement, on_playfield,
    spawn_choice_in_range, spawn_enemy, spawn_enemy_over_time, spawned, spawned_id,
};
use crate::systems::game_state::{elapsed_after, update_game_speed};
use crate::systems::movement::{after_player_movement, player_movement, PlayerInput};
use crate::systems::road::{after_scroll, scroll_road_lines};

verus! {

/// Everything that a round consists of.
#[derive(Clone, Debug, PartialEq, Eq)]
pub struct Game {
    pub registry: Registry,
    pub game_speed: GameSpeed,
    pub game_over: GameOver,
    pub spawn_timer: EnemySpawnTimer,
}

/// A game as mathematical values.
pub struct GameView {
    pub registry: RegistryView,
    pub game_speed: GameSpeed,
    pub game_over: bool,
    pub spawn_timer: TimerView,
}

impl View for Game {
    type V = GameView;

    open spec fn view(&self) -> GameView {
        GameView {
            registry: self.registry@,
            game_speed: self.game_speed,
            game_over: self.game_over.0,
            spawn_timer: self.spawn_timer@,
        }
    }
}

impl GameView {
    /// What holds of a game from its start on: the registry is well formed,
    /// the multiplier belongs to the elapsed time, and the countdown is
    /// within its period.
    pub open spec fn wf(self) -> bool {
        &&& self.registry.wf()
        &&& self.game_speed.wf()
        &&& self.spawn_timer.wf()
    }
}

/// What a tick tells the collaborators that draw and sound the game.
#[derive(Clone, Copy, Debug, PartialEq, Eq, Structural)]
pub struct TickReport {
    /// The id of the enemy that spawned during the tick.
    pub spawned: Option<u64>,
    /// The collision that ended the round during the tick.
    pub collision: Option<Collision>,
}

/// The game speed after a tick of `delta`.
pub open spec fn speed_after(game_speed: GameSpeed, delta: u64) -> GameSpeed {
    let time_elapsed = elapsed_after(game_speed.time_elapsed, delta);
    GameSpeed { time_elapsed, multiplier: multiplier_at(time_elapsed as nat) as u32 }
}

/// The registry of an active round after the motion, spawn and cleanup of a
/// tick, before the collision check. `multiplier` is the one that the tick
/// has just computed, `spawn` says whether the countdown completed, and
/// `enemy_index` and `x` are the model and position that a spawn uses.
pub open spec fn before_collision_check(
    registry: RegistryView,
    input: PlayerInput,
    multiplier: u32,
    delta: u64,
    spawn: bool,
    enemy_index: u32,
    x: i64,
) -> RegistryView {
    let moved = after_enemy_movement(
        after_player_movement(registry, input, delta),
        multiplier,
        delta,
    );
    let scrolled = after_scroll(moved, multiplier, delta);
    let filled = if spawn {
        spawned(scrolled, enemy_index, x)
    } else {
        scrolled
    };
    after_cleanup(filled)
}

/// The game after one tick. While the round is over, nothing changes.
/// Otherwise, in this order: the elapsed time and the multiplier advance;
/// the player moves and the enemies descend; the markers scroll; the
/// countdown ticks and, when it completes, one enemy spawns; the enemies
/// that left the playfield are removed; and the first collision of the
/// player with a remaining enemy ends the round.
pub open spec fn after_tick(
    game: GameView,
    input: PlayerInput,
    delta: u64,
    enemy_index: u32,
    x: i64,
) -> GameView {
    if game.game_over {
        game
    } else {
        let game_speed = speed_after(game.game_speed, delta);
        let spawn_timer = game.spawn_timer.ticked(delta);
        let registry = before_collision_check(
            game.registry,
            input,
            game_speed.multiplier,
            delta,
            spawn_timer.finished,
            enemy_index,
            x,
        );
        GameView {
            registry: after_collision(registry, false),
            game_speed,
            game_over: collision_found(registry, false) is Some,
            spawn_timer,
        }
    }
}

/// What the tick reports.
pub open spec fn report_of_tick(
    game: GameView,
    input: PlayerInput,
    delta: u64,
    enemy_index: u32,
    x: i64,
) -> TickReport {
    if game.game_over {
        TickReport { spawned: None, collision: None }
    } else {
        let game_speed = speed_after(game.game_speed, delta);
        let spawn_timer = game.spawn_timer.ticked(delta);
        let scrolled = after_scroll(
            after_enemy_movement(
                after_player_movement(game.registry, input, delta),
                game_speed.multiplier,
                delta,
            ),
            game_speed.multiplier,
            delta,
        );
        let registry = before_collision_check(
            game.registry,
            input,
            game_speed.multiplier,
            delta,
            spawn_timer.finished,
            enemy_index,
            x,
        );
        TickReport {
            spawned: if spawn_timer.finished {
                spawned_id(scrolled)
            } else {
                None
            },
            collision: collision_found(registry, false),
        }
    }
}

impl Game {
    /// A game at its start: the initial registry, no time elapsed, the
    /// round active, the countdown at the start of its first period.
    pub fn new() -> (game: Game)
        ensures
            game@.registry == initial_registry(),
            game@.game_speed == (GameSpeed { time_elapsed: 0, multiplier: 1000 }),
            !game@.game_over,
            game@.spawn_timer == (TimerView { interval: 1_000_000, elapsed: 0, finished: false }),
            game@.wf(),
    {
        Game {
            registry: setup(),
            game_speed: GameSpeed::default(),
            game_over: GameOver(false),
            spawn_timer: EnemySpawnTimer::default(),
        }
    }
}

/// The parts of a tick that come before the spawn.
fn advance(game: &mut Game, input: &PlayerInput, delta: u64)
    requires
        !old(game)@.game_over,
    ensures
        final(game)@.game_speed == speed_after(old(game)@.game_speed, delta),
        final(game)@.registry == after_scroll(
            after_enemy_movement(
                after_player_movement(old(game)@.registry, *input, delta),
                final(game)@.game_speed.multiplier,
                delta,
            ),
            final(game)@.game_speed.multiplier,
            delta,
        ),
        final(game)@.game_over == old(game)@.game_over,
        final(game).spawn_timer == old(game).spawn_timer,
        old(game)@.registry.wf() ==> final(game)@.registry.wf(),
{
    update_game_speed(&mut game.game_speed, delta);
    player_movement(&mut game.registry, input, delta);
    enemy_movement(&mut game.registry, &game.game_speed, delta);
    scroll_road_lines(&mut game.registry, &game.game_speed, delta);
}

/// The parts of a tick that come after the spawn.
fn conclude(game: &mut Game) -> (collision: Option<Collision>)
    requires
        !old(game)@.game_over,
    ensures
        final(game)@.registry == after_collision(after_cleanup(old(game)@.registry), false),
        collision == collision_found(after_cleanup(old(game)@.registry), false),
        final(game)@.game_over == (collision is Some),
        final(game)@.game_speed == old(game)@.game_speed,
        final(game).spawn_timer == old(game).spawn_timer,
        old(game)@.registry.wf() ==> final(game)@.registry.wf(),
{
    cleanup_enemies(&mut game.registry);
    check_collision(&mut game.registry, &mut game.game_over)
}

/// Advances the game by one tick of `delta` microseconds. If the countdown
/// completes during the tick, the enemy that spawns is of the model that
/// `enemy_index` selects and stands at horizontal position `x`.
pub fn tick_with(
    game: &mut Game,
    input: &PlayerInput,
    delta: u64,
    enemy_index: u32,
    x: i64,
) -> (report: TickReport)
    ensures
        final(game)@ == after_tick(old(game)@, *input, delta, enemy_index, x),
        report == report_of_tick(old(game)@, *input, delta, enemy_index, x),
        old(game)@.wf() ==> final(game)@.wf(),
{
    if game.game_over.0 {
        return TickReport { spawned: None, collision: None };
    }
    advance(game, input, delta);
    let id = if game.spawn_timer.tick(delta) {
        spawn_enemy(&mut game.registry, enemy_index, x)
    } else {
        None
    };
    let collision = conclude(game);
    TickReport { spawned: id, collision }
}

/// Advances the game by one tick of `delta` microseconds. If the countdown
/// completes during the tick, an enemy of a model and at a horizontal
/// position drawn at random spawns.
pub fn tick(game: &mut Game, input: &PlayerInput, delta: u64) -> (report: TickReport)
    ensures
        exists|enemy_index: u32, x: i64|
            spawn_choice_in_range(enemy_index, x) && final(game)@ == after_tick(
                old(game)@,
                *input,
                delta,
                enemy_index,
                x,
            ) && report == report_of_tick(old(game)@, *input, delta, enemy_index, x),
        old(game)@.wf() ==> final(game)@.wf(),
{
    if game.game_over.0 {
        assert(spawn_choice_in_range(1, 0));
        return TickReport { spawned: None, collision: None };
    }
    advance(game, input, delta);
    let ghost scrolled = game@.registry;
    let id = spawn_enemy_over_time(&mut game.registry, &mut game.spawn_timer, delta);
    let ghost filled = game@.registry;
    let collision = conclude(game);
    proof {
        if game@.spawn_timer.finished {
            let (enemy_index, x) = choose|enemy_index: u32, x: i64|
                spawn_choice_in_range(enemy_index, x) && filled == spawned(
                    scrolled,
                    enemy_index,
                    x,
                );
            assert(game@ == after_tick(old(game)@, *input, delta, enemy_index, x));
        } else {
            assert(spawn_choice_in_range(1, 0));
            assert(game@ == after_tick(old(game)@, *input, delta, 1, 0));
        }
    }
    TickReport { spawned: id, collision }
}

/// While the round is over, a tick changes nothing and reports nothing.
pub proof fn lemma_tick_frozen_when_over(
    game: GameView,
    input: PlayerInput,
    delta: u64,
    enemy_index: u32,
    x: i64,
)
    requires
        game.game_over,
    ensures
        after_tick(game, input, delta, enemy_index, x) == game,
        report_of_tick(game, input, delta, enemy_index, x) == (TickReport {
            spawned: None,
            collision: None,
        }),
{
}

/// After a tick the player is on the road, whatever the input and however
/// long the tick: a tick of an active round puts the player there wherever
/// the player was, and a tick of a finished round leaves the player there.
pub proof fn lemma_tick_keeps_player_on_road(
    game: GameView,
    input: PlayerInput,
    delta: u64,
    enemy_index: u32,
    x: i64,
)
    requires
        !game.game_over || game.registry.wf(),
    ensures
        ({
            let after = after_tick(game, input, delta, enemy_index, x);
            &&& after.registry.player is Some <==> game.registry.player is Some
            &&& after.registry.player is Some ==> -ROAD_BOUNDS
                <= after.registry.player->0.position.x <= ROAD_BOUNDS
        }),
{
}

/// After a tick of an active round no enemy below the playfield is left in
/// the registry, and the enemy of a collision that the tick reports was on
/// the playfield: the collision check sees the enemies only after the
/// cleanup.
pub proof fn lemma_tick_culls(
    game: GameView,
    input: PlayerInput,
    delta: u64,
    enemy_index: u32,
    x: i64,
)
    requires
        !game.game_over,
    ensures
        ({
            let after = after_tick(game, input, delta, enemy_index, x);
            let report = report_of_tick(game, input, delta, enemy_index, x);
            &&& forall|i: int|
                0 <= i < after.registry.enemies.len() ==> on_playfield(
                    #[trigger] after.registry.enemies[i],
                )
            &&& report.collision is Some ==> on_playfield(report.collision->0.enemy)
        }),
{
    let game_speed = speed_after(game.game_speed, delta);
    let spawn_timer = game.spawn_timer.ticked(delta);
    let scrolled = after_scroll(
        after_enemy_movement(
            after_player_movement(game.registry, input, delta),
            game_speed.multiplier,
            delta,
        ),
        game_speed.multiplier,
        delta,
    );
    let filled = if spawn_timer.finished {
        spawned(scrolled, enemy_index, x)
    } else {
        scrolled
    };
    let culled = after_cleanup(filled);
    let keep = |enemy: Enemy| on_playfield(enemy);
    assert forall|i: int| 0 <= i < culled.enemies.len() implies on_playfield(
        #[trigger] culled.enemies[i],
    ) by {
        filled.enemies.lemma_filter_pred(keep, i);
    }
    if culled.player is Some {
        lemma_first_hit(culled.player->0, culled.enemies);
    }
    match collision_index(culled, false) {
        Some(hit) => {
            lemma_remove_keeps_order(culled.enemies, hit);
        },
        None => {},
    }
}

/// A tick adds at most one enemy to the registry, however many periods of
/// the countdown it spans.
pub proof fn lemma_tick_spawns_at_most_one(
    game: GameView,
    input: PlayerInput,
    delta: u64,
    enemy_index: u32,
    x: i64,
)
    ensures
        after_tick(game, input, delta, enemy_index, x).registry.enemies.len()
            <= game.registry.enemies.len() + 1,
        !game.spawn_timer.ticked(delta).finished ==> after_tick(
            game,
            input,
            delta,
            enemy_index,
            x,
        ).registry.enemies.len() <= game.registry.enemies.len(),
{
    if !game.game_over {
        let game_speed = speed_after(game.game_speed, delta);
        let spawn_timer = game.spawn_timer.ticked(delta);
        let scrolled = after_scroll(
            after_enemy_movement(
                after_player_movement(game.registry, input, delta),
                game_speed.multiplier,
                delta,
            ),
            game_speed.multiplier,
            delta,
        );
        let filled = if spawn_timer.finished {
            spawned(scrolled, enemy_index, x)
        } else {
            scrolled
        };
        let culled = after_cleanup(filled);
        let keep = |enemy: Enemy| on_playfield(enemy);
        filled.enemies.lemma_filter_len(keep);
        if culled.player is Some {
            lemma_first_hit(culled.player->0, culled.enemies);
        }
        match collision_index(culled, false) {
            Some(hit) => {
                lemma_remove_keeps_order(culled.enemies, hit);
            },
            None => {},
        }
    }
}

} // verus!
