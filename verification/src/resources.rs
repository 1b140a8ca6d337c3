//! Process-wide simulation state that the systems share.

use vstd::prelude::*;

verus! {

/// One second, in microseconds.
pub const MICROS_PER_SECOND: u64 = 1_000_000;

/// The multiplier 1.0x, in thousandths.
pub const BASE_MULTIPLIER: u32 = 1000;

/// The most that survival time can add to the multiplier, in thousandths.
pub const MAX_MULTIPLIER_BONUS: u32 = 3000;

/// Microseconds of survival that add one thousandth to the multiplier:
/// thirty seconds add 1.0x.
pub const MICROS_PER_MULTIPLIER_STEP: u64 = 30_000;

/// The speed multiplier, in thousandths, after `elapsed` microseconds of
/// active play: a linear ramp from 1.0x that reaches its cap of 4.0x at
/// ninety seconds.
pub open spec fn multiplier_at(elapsed: nat) -> nat {
    if elapsed / 30_000 <= 3000 {
        1000 + elapsed / 30_000
    } else {
        4000
    }
}

/// Elapsed survival time and the speed multiplier derived from it.
#[derive(Clone, Copy, Debug, PartialEq, Eq, Structural)]
pub struct GameSpeed {
    /// Microseconds of active play in this round.
    pub time_elapsed: u64,
    /// Thousandths; applied to road scrolling and enemy descent.
    pub multiplier: u32,
}

impl GameSpeed {
    /// The multiplier is the one that belongs to the elapsed time.
    pub open spec fn wf(self) -> bool {
        self.multiplier == multiplier_at(self.time_elapsed as nat)
    }
}

impl Default for GameSpeed {
    fn default() -> (speed: GameSpeed)
        ensures
            speed.time_elapsed == 0,
            speed.multiplier == 1000,
            speed.wf(),
    {
        GameSpeed { time_elapsed: 0, multiplier: BASE_MULTIPLIER }
    }
}

/// What a spawn countdown holds, in microseconds.
pub struct TimerView {
    /// Length of one period.
    pub interval: u64,
    /// Time into the current period.
    pub elapsed: u64,
    /// Whether the latest tick completed a period.
    pub finished: bool,
}

impl TimerView {
    /// The interval fits in nanoseconds, and the elapsed time lies within
    /// the period.
    pub open spec fn wf(self) -> bool {
        &&& self.interval <= MAX_TIMER_INTERVAL
        &&& self.elapsed <= self.interval
        &&& self.interval > 0 ==> self.elapsed < self.interval
    }

    /// The countdown after a tick of `delta`: it completes a period when
    /// the elapsed time reaches the interval, and keeps what is left over
    /// of the last, unfinished period. However many periods `delta` spans,
    /// the tick completes at most once. A countdown without length
    /// completes on every tick.
    pub open spec fn ticked(self, delta: u64) -> TimerView {
        let total = self.elapsed + delta;
        if total < self.interval {
            TimerView { interval: self.interval, elapsed: total as u64, finished: false }
        } else if self.interval == 0 {
            TimerView { interval: 0, elapsed: 0, finished: true }
        } else {
            TimerView {
                interval: self.interval,
                elapsed: (total % (self.interval as int)) as u64,
                finished: true,
            }
        }
    }

    /// The countdown at the start of a full period.
    pub open spec fn restarted(self) -> TimerView {
        TimerView { interval: self.interval, elapsed: 0, finished: false }
    }
}

/// The longest interval of a countdown: the most microseconds whose
/// nanoseconds fit in 64 bits.
pub const MAX_TIMER_INTERVAL: u64 = 18_446_744_073_709_551;

/// The interval between two enemy spawns: one second.
pub const ENEMY_SPAWN_INTERVAL: u64 = MICROS_PER_SECOND;

/// Runs a repeating `bevy::time::Timer` of length `interval` that stands at
/// `elapsed` through one `tick` of `delta` (all in microseconds), and
/// returns where it then stands and whether it is `finished`. As the
/// timer's source has it, the tick adds `delta` to the elapsed time; the
/// timer is finished when the sum has reached the interval, and then keeps
/// the remainder of the sum by the interval (nothing, where the interval is
/// zero).
#[verifier::external_body]
fn tick_repeating_timer(interval: u64, elapsed: u64, delta: u64) -> (after: (u64, bool))
    requires
        interval <= MAX_TIMER_INTERVAL,
        elapsed <= interval,
    ensures
        after.0 == (TimerView { interval, elapsed, finished: false }).ticked(delta).elapsed,
        after.1 == (TimerView { interval, elapsed, finished: false }).ticked(delta).finished,
{
    let period = std::time::Duration::from_micros(interval);
    let mut timer = bevy::time::Timer::new(period, bevy::time::TimerMode::Repeating);
    timer.set_elapsed(std::time::Duration::from_micros(elapsed));
    timer.tick(std::time::Duration::from_micros(delta));
    (timer.elapsed().as_micros() as u64, timer.finished())
}

/// The repeating countdown that paces enemy spawns.
#[derive(Clone, Copy, Debug, PartialEq, Eq)]
pub struct EnemySpawnTimer {
    interval: u64,
    elapsed: u64,
    finished: bool,
}

impl View for EnemySpawnTimer {
    type V = TimerView;

    closed spec fn view(&self) -> TimerView {
        TimerView { interval: self.interval, elapsed: self.elapsed, finished: self.finished }
    }
}

impl EnemySpawnTimer {
    #[verifier::type_invariant]
    spec fn inv(self) -> bool {
        self@.wf()
    }

    /// A countdown of the given interval, at the start of its first period.
    pub fn new(interval: u64) -> (timer: EnemySpawnTimer)
        requires
            interval <= MAX_TIMER_INTERVAL,
        ensures
            timer@ == (TimerView { interval, elapsed: 0, finished: false }),
            timer@.wf(),
    {
        EnemySpawnTimer { interval, elapsed: 0, finished: false }
    }

    /// Length of one period, in microseconds.
    pub fn interval(&self) -> (interval: u64)
        ensures
            interval == self@.interval,
            self@.wf(),
    {
        proof {
            use_type_invariant(self);
        }
        self.interval
    }

    /// Microseconds into the current period.
    pub fn elapsed(&self) -> (elapsed: u64)
        ensures
            elapsed == self@.elapsed,
    {
        self.elapsed
    }

    /// Whether the latest tick completed a period.
    pub fn just_finished(&self) -> (finished: bool)
        ensures
            finished == self@.finished,
    {
        self.finished
    }

    /// Advances the countdown by `delta` microseconds and says whether this
    /// tick completed a period.
    pub fn tick(&mut self, delta: u64) -> (finished: bool)
        ensures
            final(self)@ == old(self)@.ticked(delta),
            finished == old(self)@.ticked(delta).finished,
            old(self)@.wf(),
            final(self)@.wf(),
    {
        proof {
            use_type_invariant(&*self);
        }
        let (elapsed, finished) = tick_repeating_timer(self.interval, self.elapsed, delta);
        assert(elapsed <= self.interval && (self.interval > 0 ==> elapsed < self.interval)) by {
            if self.interval > 0 && self.elapsed + delta >= self.interval {
                vstd::arithmetic::div_mod::lemma_mod_bound(
                    self.elapsed + delta,
                    self.interval as int,
                );
            }
        }
        *self = EnemySpawnTimer { interval: self.interval, elapsed, finished };
        finished
    }

    /// Puts the countdown back to the start of a full period.
    pub fn reset(&mut self)
        ensures
            final(self)@ == old(self)@.restarted(),
            final(self)@.wf(),
    {
        proof {
            use_type_invariant(&*self);
        }
        *self = EnemySpawnTimer { interval: self.interval, elapsed: 0, finished: false };
    }
}

impl Default for EnemySpawnTimer {
    fn default() -> (timer: EnemySpawnTimer)
        ensures
            timer@ == (TimerView { interval: 1_000_000, elapsed: 0, finished: false }),
            timer@.wf(),
    {
        EnemySpawnTimer::new(ENEMY_SPAWN_INTERVAL)
    }
}

/// Whether the round has ended.
#[derive(Clone, Copy, Debug, PartialEq, Eq, Structural, Default)]
pub struct GameOver(pub bool);

/// Guard of the per-tick systems: they run only while the round is active.
pub fn game_not_over(game_over: &GameOver) -> (active: bool)
    ensures
        active == !game_over.0,
{
    !game_over.0
}

} // verus!
