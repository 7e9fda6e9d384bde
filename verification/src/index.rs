//! Instructions that work through the index register.

use vstd::prelude::*;
use crate::machine::{set_flag, CPU, Machine};

verus! {

/// `I = nnn`.
pub open spec fn load_index(s: Machine, nnn: u16) -> Machine {
    Machine { i_reg: nnn, ..s }
}

/// `I += Vx`, modulo 65536; `VF` is 1 if the sum left the twelve-bit address range
/// that `I` was in before, else 0.
pub open spec fn add_to_index(s: Machine, x: int) -> Machine {
    let sum = ((s.i_reg + s.v_reg[x]) % 0x10000) as u16;
    set_flag(Machine { i_reg: sum, ..s }, s.i_reg <= 0xFFF && sum > 0xFFF)
}

/// `I` = the address of the glyph for `Vx`: five bytes to a glyph, from address 0.
pub open spec fn load_glyph_address(s: Machine, x: int) -> Machine {
    Machine { i_reg: (s.v_reg[x] * 5) as u16, ..s }
}

/// The decimal digits of `Vx` go to `I`, `I + 1` and `I + 2`: hundreds, tens, ones.
pub open spec fn store_bcd(s: Machine, x: int) -> Machine {
    let v = s.v_reg[x];
    let i = s.i_reg as int;
    Machine {
        memory: s.memory.update(i, v / 100).update(i + 1, (v % 100) / 10).update(i + 2, v % 10),
        ..s
    }
}

/// How many registers `Fx55` and `Fx65` move: `x` of them, `V0` up to but not
/// including `Vx`, except that `x = 0` moves `V0` alone.
pub open spec fn transfer_count(x: int) -> int {
    if x == 0 {
        1
    } else {
        x
    }
}

/// The first `transfer_count(x)` registers are copied to memory from `I` on.
pub open spec fn dump_registers(s: Machine, x: int) -> Machine {
    Machine {
        memory: Seq::new(
            4096,
            |a: int|
                if s.i_reg <= a < s.i_reg + transfer_count(x) {
                    s.v_reg[a - s.i_reg]
                } else {
                    s.memory[a]
                },
        ),
        ..s
    }
}

/// The first `transfer_count(x)` registers are filled from memory from `I` on.
pub open spec fn load_registers(s: Machine, x: int) -> Machine {
    Machine {
        v_reg: Seq::new(
            16,
            |k: int| if k < transfer_count(x) { s.memory[s.i_reg + k] } else { s.v_reg[k] },
        ),
        ..s
    }
}

impl CPU {
    /// `Annn`: sets `I` to `nnn`.
    pub fn op_annn(&mut self, nnn: u16)
        ensures
            final(self)@ == load_index(old(self)@, nnn),
    {
        self.i_reg = nnn;
    }

    /// `Fx1E`: adds `Vx` to `I`, wrapping at sixteen bits; `VF` becomes 1 if `I`
    /// went from at most `0xFFF` to above it, else 0.
    pub fn op_fx1e(&mut self, x: usize)
        requires
            x < 16,
        ensures
            final(self)@ == add_to_index(old(self)@, x as int),
    {
        let old_i = self.i_reg;
        let new_i = self.i_reg.wrapping_add(self.v_reg[x] as u16);
        self.i_reg = new_i;
        self.v_reg[0xF] = if new_i > 0xFFF && old_i <= 0xFFF { 1 } else { 0 };
    }

    /// `Fx29`: points `I` at the glyph for `Vx`.
    pub fn op_fx29(&mut self, x: usize)
        requires
            x < 16,
        ensures
            final(self)@ == load_glyph_address(old(self)@, x as int),
    {
        self.i_reg = (self.v_reg[x] as u16) * 5;
    }

    /// `Fx33`: stores the three decimal digits of `Vx` at `I`, `I + 1`, `I + 2`,
    /// which must be addresses in memory.
    pub fn op_fx33(&mut self, x: usize)
        requires
            x < 16,
            old(self).i_reg + 2 < 4096,
        ensures
            final(self)@ == store_bcd(old(self)@, x as int),
    {
        self.memory[self.i_reg as usize] = self.v_reg[x] / 100;
        self.memory[(self.i_reg + 1) as usize] = (self.v_reg[x] % 100) / 10;
        self.memory[(self.i_reg + 2) as usize] = self.v_reg[x] % 10;
    }

    /// `Fx55`: stores `V0` up to but not including `Vx` in memory from `I` on, or
    /// `V0` alone if `x` is 0. The addresses written must be in memory.
    pub fn op_fx55(&mut self, x: usize)
        requires
            x < 16,
            old(self).i_reg + transfer_count(x as int) <= 4096,
        ensures
            final(self)@ == dump_registers(old(self)@, x as int),
    {
        if x != 0 {
            let mut i: usize = 0;
            while i < x
                invariant
                    i <= x < 16,
                    self.i_reg + x <= 4096,
                    self@ == (Machine { memory: self@.memory, ..old(self)@ }),
                    forall|a: int|
                        0 <= a < 4096 ==> self.memory@[a] == if self.i_reg <= a < self.i_reg + i {
                            self.v_reg@[a - self.i_reg]
                        } else {
                            old(self).memory@[a]
                        },
                decreases x - i,
            {
                self.memory[self.i_reg as usize + i] = self.v_reg[i];
                i += 1;
            }
        } else {
            self.memory[self.i_reg as usize] = self.v_reg[0];
        }
        assert(self@.memory =~= dump_registers(old(self)@, x as int).memory);
    }

    /// `Fx65`: fills `V0` up to but not including `Vx` from memory from `I` on, or
    /// `V0` alone if `x` is 0. The addresses read must be in memory.
    pub fn op_f65(&mut self, x: usize)
        requires
            x < 16,
            old(self).i_reg + transfer_count(x as int) <= 4096,
        ensures
            final(self)@ == load_registers(old(self)@, x as int),
    {
        if x != 0 {
            let mut i: usize = 0;
            while i < x
                invariant
                    i <= x < 16,
                    self.i_reg + x <= 4096,
                    self@ == (Machine { v_reg: self@.v_reg, ..old(self)@ }),
                    forall|k: int|
                        0 <= k < 16 ==> self.v_reg@[k] == if k < i {
                            self.memory@[self.i_reg + k]
                        } else {
                            old(self).v_reg@[k]
                        },
                decreases x - i,
            {
                self.v_reg[i] = self.memory[self.i_reg as usize + i];
                i += 1;
            }
        } else {
            self.v_reg[0] = self.memory[self.i_reg as usize];
        }
        assert(self@.v_reg =~= load_registers(old(self)@, x as int).v_reg);
    }
}

} // verus!
