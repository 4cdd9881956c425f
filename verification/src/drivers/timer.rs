//! A blocking countdown timer, modeled as the number of microseconds left on
//! the running countdown.  The high-speed USB enable protocol uses it for the
//! two fixed PHY stabilization delays.

use vstd::prelude::*;

use crate::trace::{HwOp, HwTrace};

verus! {

/// A countdown timer; `remaining_us` is how much of the started countdown is
/// left, zero when no countdown is running.
#[derive(Clone, Copy, Debug, PartialEq, Eq, Structural)]
pub struct Timer {
    pub remaining_us: u32,
}

impl Timer {
    /// A timer with no countdown running.
    pub fn new() -> (timer: Timer)
        ensures
            timer.remaining_us == 0,
    {
        Timer { remaining_us: 0 }
    }

    /// Starts a countdown of `us` microseconds.
    pub fn start(&mut self, us: u32, t: &mut HwTrace)
        ensures
            *final(self) == (Timer { remaining_us: us }),
            final(t).ops@ == old(t).ops@.push(HwOp::TimerStart { us }),
    {
        self.remaining_us = us;
        t.record(HwOp::TimerStart { us });
    }

    /// One tick of modeled time: reports whether the countdown is still
    /// running.
    pub fn tick(&mut self) -> (running: bool)
        ensures
            running == (old(self).remaining_us > 0),
            *final(self) == (Timer {
                remaining_us: if old(self).remaining_us > 0 {
                    (old(self).remaining_us - 1) as u32
                } else {
                    0
                },
            }),
    {
        if self.remaining_us > 0 {
            self.remaining_us = self.remaining_us - 1;
            true
        } else {
            false
        }
    }

    /// Blocks until the started countdown elapses.
    pub fn wait(&mut self, t: &mut HwTrace)
        ensures
            *final(self) == (Timer { remaining_us: 0 }),
            final(t).ops@ == old(t).ops@.push(HwOp::TimerElapsed),
    {
        loop
            ensures
                self.remaining_us == 0,
            decreases self.remaining_us,
        {
            let running = self.tick();
            if !running {
                break;
            }
        }
        t.record(HwOp::TimerElapsed);
    }
}

} // verus!
