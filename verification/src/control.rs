//! Instructions that steer the program counter.

use vstd::prelude::*;
use crate::machine::{CPU, Machine};

verus! {

/// The machine with the program counter moved past one more instruction if `cond`.
pub open spec fn skip_if(s: Machine, cond: bool) -> Machine {
    if cond {
        Machine { pc: s.pc + 2, ..s }
    } else {
        s
    }
}

/// `pc = nnn`.
pub open spec fn jump(s: Machine, nnn: u16) -> Machine {
    Machine { pc: nnn as nat, ..s }
}

/// `pc = nnn + V0`.
pub open spec fn jump_with_offset(s: Machine, nnn: u16) -> Machine {
    Machine { pc: (nnn + s.v_reg[0]) as nat, ..s }
}

/// The program counter goes on the call stack, then `pc = nnn`.
pub open spec fn call(s: Machine, nnn: u16) -> Machine {
    Machine { pc: nnn as nat, stack: s.stack.push(s.pc as u16), ..s }
}

/// The program counter comes off the top of the call stack.
pub open spec fn ret(s: Machine) -> Machine {
    Machine { pc: s.stack.last() as nat, stack: s.stack.drop_last(), ..s }
}

/// Skip the next instruction if `Vx == nn`.
pub open spec fn skip_if_equal_immediate(s: Machine, x: int, nn: u8) -> Machine {
    skip_if(s, s.v_reg[x] == nn)
}

/// Skip the next instruction if `Vx != nn`.
pub open spec fn skip_if_not_equal_immediate(s: Machine, x: int, nn: u8) -> Machine {
    skip_if(s, s.v_reg[x] != nn)
}

/// Skip the next instruction if `Vx == Vy`.
pub open spec fn skip_if_equal(s: Machine, x: int, y: int) -> Machine {
    skip_if(s, s.v_reg[x] == s.v_reg[y])
}

/// Skip the next instruction if `Vx != Vy`.
pub open spec fn skip_if_not_equal(s: Machine, x: int, y: int) -> Machine {
    skip_if(s, s.v_reg[x] != s.v_reg[y])
}

impl CPU {
    /// `00EE`: returns from a subroutine. The call stack must not be empty.
    pub fn op_00ee(&mut self)
        requires
            old(self).stack@.len() > 0,
        ensures
            final(self)@ == ret(old(self)@),
    {
        if let Some(value) = self.stack.pop() {
            self.pc = value as usize;
        }
    }

    /// `1nnn`: jumps to `nnn`.
    pub fn op_1nnn(&mut self, nnn: u16)
        ensures
            final(self)@ == jump(old(self)@, nnn),
    {
        self.pc = nnn as usize;
    }

    /// `2nnn`: calls the subroutine at `nnn`. The program counter must fit the
    /// sixteen bits of a stack entry.
    pub fn op_2nnn(&mut self, nnn: u16)
        requires
            old(self).pc <= 0xFFFF,
        ensures
            final(self)@ == call(old(self)@, nnn),
    {
        self.stack.push(self.pc as u16);
        self.pc = nnn as usize;
    }

    /// `3xnn`: skips the next instruction if `Vx == nn`.
    pub fn op_3xnn(&mut self, x: usize, nn: u8)
        requires
            x < 16,
            old(self).pc + 2 <= usize::MAX,
        ensures
            final(self)@ == skip_if_equal_immediate(old(self)@, x as int, nn),
    {
        if self.v_reg[x] == nn {
            self.pc += 2;
        }
    }

    /// `4xnn`: skips the next instruction if `Vx != nn`.
    pub fn op_4xnn(&mut self, x: usize, nn: u8)
        requires
            x < 16,
            old(self).pc + 2 <= usize::MAX,
        ensures
            final(self)@ == skip_if_not_equal_immediate(old(self)@, x as int, nn),
    {
        if self.v_reg[x] != nn {
            self.pc += 2;
        }
    }

    /// `5xy0`: skips the next instruction if `Vx == Vy`.
    pub fn op_5xy0(&mut self, x: usize, y: usize)
        requires
            x < 16,
            y < 16,
            old(self).pc + 2 <= usize::MAX,
        ensures
            final(self)@ == skip_if_equal(old(self)@, x as int, y as int),
    {
        if self.v_reg[x] == self.v_reg[y] {
            self.pc += 2;
        }
    }

    /// `9xy0`: skips the next instruction if `Vx != Vy`.
    pub fn op_9xy0(&mut self, x: usize, y: usize)
        requires
            x < 16,
            y < 16,
            old(self).pc + 2 <= usize::MAX,
        ensures
            final(self)@ == skip_if_not_equal(old(self)@, x as int, y as int),
    {
        if self.v_reg[x] != self.v_reg[y] {
            self.pc += 2;
        }
    }

    /// `Bnnn`: jumps to `nnn + V0`.
    pub fn op_bnnn(&mut self, nnn: u16)
        ensures
            final(self)@ == jump_with_offset(old(self)@, nnn),
    {
        self.pc = nnn as usize + self.v_reg[0x0] as usize;
    }
}

} // verus!
