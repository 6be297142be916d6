//! The simulation clock: the speed multiplier, the pause flag and the
//! simulated time elapsed, over the caller's time type.
use vstd::prelude::*;
use crate::ops::{deterministic2, result2, total2};

verus! {

/// Simulated time per real time (`speed`), whether the simulation is
/// paused, and the simulated time elapsed since the start.
#[derive(Clone, Copy, Debug, PartialEq)]
pub struct SimClock<T> {
    pub speed: T,
    pub paused: bool,
    pub elapsed: T,
}

impl<T: Copy> SimClock<T> {
    /// A clock at the start: speed `one`, running, nothing elapsed.
    pub fn new(zero: T, one: T) -> (c: SimClock<T>)
        ensures
            c == (SimClock { speed: one, paused: false, elapsed: zero }),
    {
        SimClock { speed: one, paused: false, elapsed: zero }
    }

    /// Puts the clock back to its start, as when the simulation is entered
    /// anew.
    pub fn reset(&mut self, zero: T, one: T)
        ensures
            *final(self) == (SimClock { speed: one, paused: false, elapsed: zero }),
    {
        self.speed = one;
        self.paused = false;
        self.elapsed = zero;
    }

    /// Pauses or resumes the simulation.
    pub fn set_paused(&mut self, paused: bool)
        ensures
            *final(self) == (SimClock { paused, ..*old(self) }),
    {
        self.paused = paused;
    }

    /// One frame of `real_dt` real time: returns the step the integrator
    /// takes, `real_dt` times the speed, and adds it to the elapsed time
    /// unless the simulation is paused.
    pub fn tick<Mu: Fn(T, T) -> T, Pl: Fn(T, T) -> T>(&mut self, real_dt: T, times: Mu, plus: Pl) -> (dt: T)
        requires
            total2(times),
            total2(plus),
            deterministic2(times),
            deterministic2(plus),
        ensures
            dt == result2(times, real_dt, old(self).speed),
            final(self).speed == old(self).speed,
            final(self).paused == old(self).paused,
            old(self).paused ==> final(self).elapsed == old(self).elapsed,
            !old(self).paused ==> final(self).elapsed == result2(plus, old(self).elapsed, dt),
    {
        let dt = times(real_dt, self.speed);
        if !self.paused {
            self.elapsed = plus(self.elapsed, dt);
        }
        dt
    }
}

} // verus!
