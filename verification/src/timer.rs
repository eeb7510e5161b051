use vstd::prelude::*;

verus! {

/// A timer that drives the frames of one animated entity. It counts the
/// nanoseconds since it last reached its period.
#[derive(Clone, Copy, Debug, PartialEq, Eq, Structural)]
pub struct AnimationTimer {
    /// Length of one cycle.
    pub period: u64,
    /// Time gathered in the current cycle.
    pub elapsed: u64,
    /// Whether the timer starts over when it reaches its period.
    pub repeating: bool,
    /// Whether the period has been reached.
    pub finished: bool,
    /// How many periods the last tick completed.
    pub times_finished: u32,
}

/// What a tick of `delta` makes of a running timer: the time left in its
/// cycle and the number of periods completed. A repeating timer wraps round,
/// once for every whole period in the sum; a single-shot timer stops at its
/// period.
pub open spec fn advanced(period: u64, repeating: bool, elapsed: u64, delta: u64) -> (u64, u32) {
    let total = elapsed + delta;
    if total < period {
        (total as u64, 0u32)
    } else if repeating {
        ((total % (period as int)) as u64, (total / (period as int)) as u32)
    } else {
        (period, 1u32)
    }
}

/// Runs `bevy::core::Timer::tick` on a fresh, unpaused timer of the given
/// period that has been set to `elapsed`, and reads back its elapsed time
/// and `times_finished`.
///
/// Trusted: the engine adds `delta` to the elapsed time; short of the period
/// it reports no completion; at or beyond it a repeating timer keeps the
/// remainder and reports the quotient, which it stores in a `u32`, and a
/// single-shot timer is set to its period and reports 1. The engine divides
/// by the period, so a repeating timer needs a period above zero.
#[verifier::external_body]
fn advance(period: u64, repeating: bool, elapsed: u64, delta: u64) -> (r: (u64, u32))
    requires
        repeating ==> period > 0 && (elapsed + delta) / (period as int) <= u32::MAX,
    ensures
        r == advanced(period, repeating, elapsed, delta),
{
    let mut timer = bevy::core::Timer::new(std::time::Duration::from_nanos(period), repeating);
    timer.set_elapsed(std::time::Duration::from_nanos(elapsed));
    timer.tick(std::time::Duration::from_nanos(delta));
    (timer.elapsed().as_nanos() as u64, timer.times_finished())
}

impl AnimationTimer {
    /// A repeating timer divides by its period, which therefore is not zero.
    pub open spec fn wf(&self) -> bool {
        self.repeating ==> self.period > 0
    }

    /// Whether a tick of `delta` is within the timer's reach: a repeating
    /// timer counts the completed periods in 32 bits.
    pub open spec fn can_tick(&self, delta: u64) -> bool {
        self.repeating ==> (self.elapsed + delta) / (self.period as int) <= u32::MAX
    }

    /// The timer after a tick of `delta`. A single-shot timer that has
    /// finished stays where it is and reports no new completion.
    pub open spec fn ticked(&self, delta: u64) -> AnimationTimer {
        if !self.repeating && self.finished {
            AnimationTimer { times_finished: 0, ..*self }
        } else {
            let (elapsed, times) = advanced(self.period, self.repeating, self.elapsed, delta);
            AnimationTimer { elapsed: elapsed, finished: times > 0, times_finished: times, ..*self }
        }
    }

    /// Whether the last tick completed a period.
    pub open spec fn just_finished_spec(&self) -> bool {
        self.times_finished > 0
    }

    /// A timer of the given period with no time on it.
    pub fn new(period: u64, repeating: bool) -> (timer: AnimationTimer)
        ensures
            timer == (AnimationTimer {
                period: period,
                elapsed: 0,
                repeating: repeating,
                finished: false,
                times_finished: 0,
            }),
    {
        AnimationTimer { period, elapsed: 0, repeating, finished: false, times_finished: 0 }
    }

    /// Tells whether the timer is well formed.
    pub fn is_valid(&self) -> (ok: bool)
        ensures
            ok == self.wf(),
    {
        !self.repeating || self.period > 0
    }

    /// Tells whether a tick of `delta` is within the timer's reach.
    pub fn accepts(&self, delta: u64) -> (ok: bool)
        requires
            self.wf(),
        ensures
            ok == self.can_tick(delta),
    {
        if !self.repeating {
            return true;
        }
        let total: u128 = self.elapsed as u128 + delta as u128;
        total / (self.period as u128) <= u32::MAX as u128
    }

    /// Advances the timer by `delta`.
    pub fn tick(&mut self, delta: u64)
        requires
            old(self).wf(),
            old(self).can_tick(delta),
        ensures
            *final(self) == old(self).ticked(delta),
            final(self).wf(),
            final(self).repeating ==> final(self).elapsed < final(self).period,
    {
        if !self.repeating && self.finished {
            self.times_finished = 0;
        } else {
            let (elapsed, times): (u64, u32) = advance(
                self.period,
                self.repeating,
                self.elapsed,
                delta,
            );
            self.elapsed = elapsed;
            self.finished = times > 0;
            self.times_finished = times;
        }
    }

    /// Whether the last tick completed a period.
    pub fn just_finished(&self) -> (done: bool)
        ensures
            done == self.just_finished_spec(),
    {
        self.times_finished > 0
    }
}

} // verus!
