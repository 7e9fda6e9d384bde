//! The two countdown timers.

use vstd::prelude::*;
use crate::machine::{set_reg, CPU, Machine};

verus! {

/// One tick of a countdown timer: it counts down to zero and stays there.
pub open spec fn tick(t: u8) -> u8 {
    if t > 0 { (t - 1) as u8 } else { 0 }
}

/// The machine after one tick of both timers.
pub open spec fn timers_ticked(s: Machine) -> Machine {
    Machine { delay_timer: tick(s.delay_timer), sound_timer: tick(s.sound_timer), ..s }
}

/// `Vx` = the delay timer.
pub open spec fn read_delay(s: Machine, x: int) -> Machine {
    set_reg(s, x, s.delay_timer)
}

/// The delay timer = `Vx`.
pub open spec fn set_delay(s: Machine, x: int) -> Machine {
    Machine { delay_timer: s.v_reg[x], ..s }
}

/// The sound timer = `Vx`.
pub open spec fn set_sound(s: Machine, x: int) -> Machine {
    Machine { sound_timer: s.v_reg[x], ..s }
}

impl CPU {
    /// Counts both timers down by one, stopping at zero.
    pub fn decrement_timers(&mut self)
        ensures
            final(self)@ == timers_ticked(old(self)@),
    {
        if self.delay_timer > 0 {
            self.delay_timer -= 1;
        }
        if self.sound_timer > 0 {
            self.sound_timer -= 1;
        }
    }

    /// `Fx07`: reads the delay timer into `Vx`.
    pub fn op_fx07(&mut self, x: usize)
        requires
            x < 16,
        ensures
            final(self)@ == read_delay(old(self)@, x as int),
    {
        self.v_reg[x] = self.delay_timer;
    }

    /// `Fx15`: sets the delay timer to `Vx`.
    pub fn op_fx15(&mut self, x: usize)
        requires
            x < 16,
        ensures
            final(self)@ == set_delay(old(self)@, x as int),
    {
        self.delay_timer = self.v_reg[x];
    }

    /// `Fx18`: sets the sound timer to `Vx`.
    pub fn op_fx18(&mut self, x: usize)
        requires
            x < 16,
        ensures
            final(self)@ == set_sound(old(self)@, x as int),
    {
        self.sound_timer = self.v_reg[x];
    }
}

} // verus!
