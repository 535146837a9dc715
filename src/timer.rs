//! The repeating timer that paces pipe spawns. The timer itself is bevy's;
//! it counts elapsed time and reports when a period has run out. Beside it
//! the library keeps a ghost account of its elapsed time, period and last
//! outcome, which the trusted operations below keep up to date.
use vstd::prelude::*;
use bevy::time::{Timer, TimerMode};
use vstd::arithmetic::div_mod::lemma_small_mod;
use crate::units::PIPE_SPAWN_PERIOD;

verus! {

#[verifier::external_type_specification]
#[verifier::external_body]
pub struct ExTimer(Timer);

/// Time left over on a repeating timer after `sum` microseconds: `sum`
/// itself below one period, else what remains past whole periods.
pub open spec fn leftover(sum: nat, period: nat) -> nat {
    if sum < period {
        sum
    } else {
        sum % period
    }
}

/// Paces pipe spawns: one pair each time a period runs out.
pub struct PipeSpawnTimer {
    timer: Timer,
    elapsed: Ghost<nat>,
    period: Ghost<nat>,
    finished: Ghost<bool>,
}

impl PipeSpawnTimer {
    #[verifier::type_invariant]
    spec fn period_is_positive(self) -> bool {
        self.period@ > 0
    }

    /// Microseconds counted since the current period started.
    pub closed spec fn elapsed_micros(&self) -> nat {
        self.elapsed@
    }

    /// Length of a period, in microseconds.
    pub closed spec fn period_micros(&self) -> nat {
        self.period@
    }

    /// Whether the last tick ran a period out.
    pub closed spec fn last_finished(&self) -> bool {
        self.finished@
    }

    /// Relies on `bevy::time::Timer::new` with `TimerMode::Repeating`: a
    /// timer with no time elapsed that runs out every `period_micros`
    /// microseconds, and has not finished. The bound keeps the period's
    /// length in nanoseconds within a `u64`, as `Timer::tick` keeps the
    /// remainder.
    #[verifier::external_body]
    fn start_repeating(period_micros: u64) -> (r: PipeSpawnTimer)
        requires
            0 < period_micros <= u64::MAX / 1000,
        ensures
            r.elapsed_micros() == 0,
            r.period_micros() == period_micros,
            !r.last_finished(),
    {
        PipeSpawnTimer {
            timer: Timer::new(std::time::Duration::from_micros(period_micros), TimerMode::Repeating),
            elapsed: Ghost(0),
            period: Ghost(period_micros as nat),
            finished: Ghost(false),
        }
    }

    /// Relies on `bevy::time::Timer::tick` for an unpaused repeating timer:
    /// the elapsed time grows by `delta_micros`; the timer has finished when
    /// that sum reaches the period, and the elapsed time is then what is left
    /// over past whole periods.
    #[verifier::external_body]
    fn advance(&mut self, delta_micros: u64)
        ensures
            final(self).period_micros() == old(self).period_micros(),
            final(self).last_finished() == (old(self).elapsed_micros() + delta_micros
                >= old(self).period_micros()),
            final(self).elapsed_micros() == (old(self).elapsed_micros() + delta_micros) as nat
                % old(self).period_micros(),
    {
        self.timer.tick(std::time::Duration::from_micros(delta_micros));
    }

    /// Relies on `bevy::time::Timer::finished`: whether the last tick ran a
    /// period out.
    #[verifier::external_body]
    fn is_finished(&self) -> (r: bool)
        ensures
            r == self.last_finished(),
    {
        self.timer.finished()
    }

    /// Relies on `bevy::time::Timer::reset`: elapsed time back to zero and
    /// not finished, with the period kept.
    #[verifier::external_body]
    fn restart(&mut self)
        ensures
            final(self).elapsed_micros() == 0,
            final(self).period_micros() == old(self).period_micros(),
            !final(self).last_finished(),
    {
        self.timer.reset();
    }

    /// A timer that runs out every spawn period, starting from zero.
    pub fn new() -> (r: PipeSpawnTimer)
        ensures
            r.elapsed_micros() == 0,
            r.period_micros() == PIPE_SPAWN_PERIOD,
            !r.last_finished(),
    {
        Self::start_repeating(PIPE_SPAWN_PERIOD)
    }

    /// Adds `delta_micros` microseconds and says whether a period ran out
    /// during them; the elapsed time is then what is left over past whole
    /// periods.
    pub fn tick(&mut self, delta_micros: u64) -> (due: bool)
        ensures
            due == (old(self).elapsed_micros() + delta_micros >= old(self).period_micros()),
            final(self).elapsed_micros() == leftover(
                (old(self).elapsed_micros() + delta_micros) as nat,
                old(self).period_micros(),
            ),
            final(self).period_micros() == old(self).period_micros(),
            final(self).last_finished() == due,
    {
        proof {
            use_type_invariant(&*self);
            let sum = (self.elapsed_micros() + delta_micros) as nat;
            if sum < self.period_micros() {
                lemma_small_mod(sum, self.period_micros());
            }
        }
        self.advance(delta_micros);
        self.is_finished()
    }

    /// Starts the current period over.
    pub fn reset(&mut self)
        ensures
            final(self).elapsed_micros() == 0,
            final(self).period_micros() == old(self).period_micros(),
            !final(self).last_finished(),
    {
        self.restart();
    }
}

} // verus!
