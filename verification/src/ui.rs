//! The end of a round: the statistics to show, and the restart.

use vstd::prelude::*;
use crate::components::{Player, Vec2, Velocity};
use crate::game::{Game, GameView};
use crate::registry::{
    RegistryView, PLAYER_START_SPEED, PLAYER_START_X, PLAYER_START_Y,
};
use crate::resources::{GameOver, GameSpeed, MICROS_PER_SECOND};

verus! {

/// Distance units that count as travelled per second of survival.
pub const DISTANCE_PER_SECOND: u64 = 50;

/// The statistics of a finished round.
#[derive(Clone, Copy, Debug, PartialEq, Eq, Structural)]
pub struct GameOverStats {
    /// Microseconds survived.
    pub survival_time: u64,
    /// The multiplier at the end, in thousandths.
    pub final_speed: u32,
    /// Whole distance units travelled: fifty per second survived.
    pub distance: i32,
}

/// The distance that counts as travelled after `survival_time`
/// microseconds, in whole units; it stops at the largest representable
/// number.
pub open spec fn distance_travelled(survival_time: u64) -> i32 {
    if survival_time / 20_000 > i32::MAX {
        i32::MAX
    } else {
        (survival_time / 20_000) as i32
    }
}

/// The statistics that belong to a game speed.
pub open spec fn stats_of(game_speed: GameSpeed) -> GameOverStats {
    GameOverStats {
        survival_time: game_speed.time_elapsed,
        final_speed: game_speed.multiplier,
        distance: distance_travelled(game_speed.time_elapsed),
    }
}

/// When the round has just ended, that is, `changed` says that the flag
/// was set since the last look and the round is over, returns the
/// statistics to display.
pub fn display_game_over_screen(
    changed: bool,
    game_over: &GameOver,
    game_speed: &GameSpeed,
) -> (stats: Option<GameOverStats>)
    ensures
        stats == if changed && game_over.0 {
            Some(stats_of(*game_speed))
        } else {
            None
        },
{
    if changed && game_over.0 {
        let survival_time: u64 = game_speed.time_elapsed;
        let units: u64 = survival_time / (MICROS_PER_SECOND / DISTANCE_PER_SECOND);
        let distance: i32 = if units > 0x7fff_ffff {
            i32::MAX
        } else {
            units as i32
        };
        Some(GameOverStats { survival_time, final_speed: game_speed.multiplier, distance })
    } else {
        None
    }
}

/// What the caller has to do after a look at the restart and quit
/// commands.
#[derive(Clone, Copy, Debug, PartialEq, Eq, Structural)]
pub enum RestartAction {
    /// Nothing: the round is active, or no command was given.
    Ignored,
    /// The round was restarted: hide the statistics.
    Restarted,
    /// End the process.
    Quit,
}

/// A player put back to the start of a round.
pub open spec fn reset_player(player: Player) -> Player {
    Player {
        position: Vec2 { x: PLAYER_START_X, y: PLAYER_START_Y },
        velocity: Velocity { speed: PLAYER_START_SPEED },
        car_type: player.car_type,
        bounds: player.bounds,
    }
}

/// A game at the start of a new round: no time elapsed, the multiplier at
/// 1.0x, the player back at the start, no enemies, the countdown at the
/// start of a full period, the round active. The markers stay where they
/// are.
pub open spec fn restarted(game: GameView) -> GameView {
    GameView {
        registry: RegistryView {
            player: match game.registry.player {
                Some(player) => Some(reset_player(player)),
                None => None,
            },
            enemies: Seq::empty(),
            road_lines: game.registry.road_lines,
            next_enemy_id: game.registry.next_enemy_id,
        },
        game_speed: GameSpeed { time_elapsed: 0, multiplier: 1000 },
        game_over: false,
        spawn_timer: game.spawn_timer.restarted(),
    }
}

/// What a look at the commands leads to: while the round is over, the
/// restart command restarts it, and otherwise the quit command quits.
pub open spec fn action_for(game_over: bool, restart: bool, quit: bool) -> RestartAction {
    if game_over && restart {
        RestartAction::Restarted
    } else if game_over && quit {
        RestartAction::Quit
    } else {
        RestartAction::Ignored
    }
}

/// Handles the restart and quit commands. They count only while the round
/// is over; the restart command comes first.
pub fn restart_game(game: &mut Game, restart: bool, quit: bool) -> (action: RestartAction)
    ensures
        action == action_for(old(game)@.game_over, restart, quit),
        final(game)@ == if action == RestartAction::Restarted {
            restarted(old(game)@)
        } else {
            old(game)@
        },
        old(game)@.wf() ==> final(game)@.wf(),
{
    if game.game_over.0 {
        if restart {
            game.game_over.0 = false;
            game.game_speed.time_elapsed = 0;
            game.game_speed.multiplier = 1000;
            match game.registry.player {
                Some(mut player) => {
                    player.position = Vec2::new(PLAYER_START_X, PLAYER_START_Y);
                    player.velocity.speed = PLAYER_START_SPEED;
                    game.registry.player = Some(player);
                },
                None => {},
            }
            game.registry.enemies.clear();
            game.spawn_timer.reset();
            assert(game@.registry.enemies =~= Seq::<crate::components::Enemy>::empty());
            return RestartAction::Restarted;
        } else if quit {
            return RestartAction::Quit;
        }
    }
    RestartAction::Ignored
}

/// A restart leaves nothing of the round before it: no time has elapsed,
/// the multiplier is 1.0x, no enemy is left, the player (if there is one)
/// is at the start position with the start speed, the countdown has its
/// full period ahead, and the round is active.
pub proof fn lemma_restart_is_fresh(game: GameView)
    ensures
        ({
            let after = restarted(game);
            &&& after.game_speed.time_elapsed == 0
            &&& after.game_speed.multiplier == 1000
            &&& after.registry.enemies.len() == 0
            &&& after.registry.player is Some <==> game.registry.player is Some
            &&& after.registry.player is Some ==> {
                &&& after.registry.player->0.position == (Vec2 { x: 0, y: PLAYER_START_Y })
                &&& after.registry.player->0.velocity.speed == 150
            }
            &&& after.spawn_timer.elapsed == 0
            &&& after.spawn_timer.interval == game.spawn_timer.interval
            &&& !after.spawn_timer.finished
            &&& !after.game_over
        }),
{
}

} // verus!
