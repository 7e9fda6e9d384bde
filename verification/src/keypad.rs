//! Instructions that read the keypad.

use vstd::prelude::*;
use crate::control::skip_if;
use crate::machine::{set_reg, CPU, Machine};

verus! {

/// Skip the next instruction if the key named by `Vx` is held down.
pub open spec fn skip_if_key_down(s: Machine, x: int) -> Machine {
    skip_if(s, s.keys[s.v_reg[x] as int])
}

/// Skip the next instruction if the key named by `Vx` is not held down.
pub open spec fn skip_if_key_up(s: Machine, x: int) -> Machine {
    skip_if(s, !s.keys[s.v_reg[x] as int])
}

/// Whether a key release is latched and waits to be read.
pub open spec fn key_latched(s: Machine) -> bool {
    s.key_pressed.0
}

/// Wait for a key. With no release latched, the program counter steps back onto
/// this instruction, so that the next cycle runs it again. With one latched, its
/// key goes to `Vx` and the latch is emptied.
pub open spec fn wait_for_key(s: Machine, x: int) -> Machine {
    if key_latched(s) {
        Machine { key_pressed: (false, s.key_pressed.1), ..set_reg(s, x, s.key_pressed.1) }
    } else {
        Machine { pc: (s.pc - 2) as nat, ..s }
    }
}

impl CPU {
    /// `Ex9E`: skips the next instruction if the key `Vx` is down. `Vx` must name
    /// one of the sixteen keys.
    pub fn op_ex9e(&mut self, x: usize)
        requires
            x < 16,
            old(self).v_reg[x as int] < 16,
            old(self).pc + 2 <= usize::MAX,
        ensures
            final(self)@ == skip_if_key_down(old(self)@, x as int),
    {
        if self.keys[self.v_reg[x] as usize] {
            self.pc += 2;
        }
    }

    /// `ExA1`: skips the next instruction if the key `Vx` is up. `Vx` must name one
    /// of the sixteen keys.
    pub fn op_exa1(&mut self, x: usize)
        requires
            x < 16,
            old(self).v_reg[x as int] < 16,
            old(self).pc + 2 <= usize::MAX,
        ensures
            final(self)@ == skip_if_key_up(old(self)@, x as int),
    {
        if !self.keys[self.v_reg[x] as usize] {
            self.pc += 2;
        }
    }

    /// `Fx0A`: reads a latched key release into `Vx`, or, if there is none, steps
    /// the program counter back so that the instruction runs again.
    pub fn op_fx0a(&mut self, x: usize)
        requires
            x < 16,
            old(self).key_pressed.0 || old(self).pc >= 2,
        ensures
            final(self)@ == wait_for_key(old(self)@, x as int),
    {
        if !self.key_pressed.0 {
            self.pc -= 2;
        } else {
            self.v_reg[x] = self.key_pressed.1;
            self.key_pressed.0 = false;
        }
    }
}

} // verus!
