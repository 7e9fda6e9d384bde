//! Instructions that compute on the general registers.

use vstd::prelude::*;
use crate::machine::{set_flag, set_reg, wrap_byte, CPU, Machine};
use crate::rng::random_byte;

verus! {

/// `Vx = nn`.
pub open spec fn load_immediate(s: Machine, x: int, nn: u8) -> Machine {
    set_reg(s, x, nn)
}

/// `Vx += nn`, modulo 256; no flag.
pub open spec fn add_immediate(s: Machine, x: int, nn: u8) -> Machine {
    set_reg(s, x, wrap_byte(s.v_reg[x] + nn))
}

/// `Vx = Vy`.
pub open spec fn move_reg(s: Machine, x: int, y: int) -> Machine {
    set_reg(s, x, s.v_reg[y])
}

/// `Vx |= Vy`.
pub open spec fn or_regs(s: Machine, x: int, y: int) -> Machine {
    set_reg(s, x, s.v_reg[x] | s.v_reg[y])
}

/// `Vx &= Vy`.
pub open spec fn and_regs(s: Machine, x: int, y: int) -> Machine {
    set_reg(s, x, s.v_reg[x] & s.v_reg[y])
}

/// `Vx ^= Vy`.
pub open spec fn xor_regs(s: Machine, x: int, y: int) -> Machine {
    set_reg(s, x, s.v_reg[x] ^ s.v_reg[y])
}

/// `Vx += Vy`, modulo 256; `VF` is 1 if the sum passed 255, else 0.
pub open spec fn add_regs(s: Machine, x: int, y: int) -> Machine {
    let sum = s.v_reg[x] + s.v_reg[y];
    set_flag(set_reg(s, x, wrap_byte(sum)), sum > 255)
}

/// `Vx -= Vy`, modulo 256; `VF` is 1 if nothing was borrowed (`Vx >= Vy`), else 0.
pub open spec fn sub_regs(s: Machine, x: int, y: int) -> Machine {
    set_flag(set_reg(s, x, wrap_byte(s.v_reg[x] - s.v_reg[y])), s.v_reg[x] >= s.v_reg[y])
}

/// `Vx = Vy - Vx`, modulo 256; `VF` is 1 if nothing was borrowed (`Vy >= Vx`), else 0.
pub open spec fn sub_regs_reversed(s: Machine, x: int, y: int) -> Machine {
    set_flag(set_reg(s, x, wrap_byte(s.v_reg[y] - s.v_reg[x])), s.v_reg[y] >= s.v_reg[x])
}

/// `Vx` is halved in place; `VF` is the bit that fell off: bit 0 of the old `Vx`.
pub open spec fn shift_right(s: Machine, x: int) -> Machine {
    set_flag(set_reg(s, x, (s.v_reg[x] / 2) as u8), s.v_reg[x] % 2 == 1)
}

/// `Vx` is doubled in place, modulo 256; `VF` is the bit that fell off: bit 7 of
/// the old `Vx`.
pub open spec fn shift_left(s: Machine, x: int) -> Machine {
    set_flag(set_reg(s, x, wrap_byte(s.v_reg[x] * 2)), s.v_reg[x] >= 128)
}

/// `Vx = random & nn`, for the random byte `random`.
pub open spec fn load_random(s: Machine, x: int, nn: u8, random: u8) -> Machine {
    set_reg(s, x, random & nn)
}

impl CPU {
    /// `6xnn`: sets `Vx` to `nn`.
    pub fn op_6xnn(&mut self, x: usize, nn: u8)
        requires
            x < 16,
        ensures
            final(self)@ == load_immediate(old(self)@, x as int, nn),
    {
        self.v_reg[x] = nn;
    }

    /// `7xnn`: adds `nn` to `Vx`, wrapping, and leaves `VF` alone.
    pub fn op_7xnn(&mut self, x: usize, nn: u8)
        requires
            x < 16,
        ensures
            final(self)@ == add_immediate(old(self)@, x as int, nn),
    {
        self.v_reg[x] = self.v_reg[x].wrapping_add(nn);
    }

    /// `8xy0`: copies `Vy` to `Vx`.
    pub fn op_8xy0(&mut self, x: usize, y: usize)
        requires
            x < 16,
            y < 16,
        ensures
            final(self)@ == move_reg(old(self)@, x as int, y as int),
    {
        self.v_reg[x] = self.v_reg[y];
    }

    /// `8xy1`: ors `Vy` into `Vx`.
    pub fn op_8xy1(&mut self, x: usize, y: usize)
        requires
            x < 16,
            y < 16,
        ensures
            final(self)@ == or_regs(old(self)@, x as int, y as int),
    {
        self.v_reg[x] = self.v_reg[x] | self.v_reg[y];
    }

    /// `8xy2`: ands `Vy` into `Vx`.
    pub fn op_8xy2(&mut self, x: usize, y: usize)
        requires
            x < 16,
            y < 16,
        ensures
            final(self)@ == and_regs(old(self)@, x as int, y as int),
    {
        self.v_reg[x] = self.v_reg[x] & self.v_reg[y];
    }

    /// `8xy3`: xors `Vy` into `Vx`.
    pub fn op_8xy3(&mut self, x: usize, y: usize)
        requires
            x < 16,
            y < 16,
        ensures
            final(self)@ == xor_regs(old(self)@, x as int, y as int),
    {
        self.v_reg[x] = self.v_reg[x] ^ self.v_reg[y];
    }

    /// `8xy4`: adds `Vy` to `Vx`, wrapping; `VF` becomes the carry.
    pub fn op_8xy4(&mut self, x: usize, y: usize)
        requires
            x < 16,
            y < 16,
        ensures
            final(self)@ == add_regs(old(self)@, x as int, y as int),
    {
        let vx = self.v_reg[x];
        let vy = self.v_reg[y];
        let carry = vx as u16 + vy as u16 > 255;
        self.v_reg[x] = vx.wrapping_add(vy);
        self.v_reg[0xF] = if carry { 1 } else { 0 };
    }

    /// `8xy5`: subtracts `Vy` from `Vx`, wrapping; `VF` becomes 0 on a borrow, else 1.
    pub fn op_8xy5(&mut self, x: usize, y: usize)
        requires
            x < 16,
            y < 16,
        ensures
            final(self)@ == sub_regs(old(self)@, x as int, y as int),
    {
        let vy = self.v_reg[y];
        let vx = self.v_reg[x];
        let borrow = vx < vy;
        self.v_reg[x] = vx.wrapping_sub(vy);
        self.v_reg[0xF] = if borrow { 0 } else { 1 };
    }

    /// `8xy6`: shifts `Vx` right by one; `VF` becomes the bit shifted out.
    pub fn op_8xy6(&mut self, x: usize)
        requires
            x < 16,
        ensures
            final(self)@ == shift_right(old(self)@, x as int),
    {
        let vx = self.v_reg[x];
        assert(vx >> 1 == vx / 2 && (vx & 1 == 1 <==> vx % 2 == 1) && (vx & 1 == 0 || vx & 1
            == 1)) by (bit_vector);
        self.v_reg[x] = vx >> 1;
        self.v_reg[0xF] = vx & 1;
    }

    /// `8xy7`: sets `Vx` to `Vy - Vx`, wrapping; `VF` becomes 0 on a borrow, else 1.
    pub fn op_8xy7(&mut self, x: usize, y: usize)
        requires
            x < 16,
            y < 16,
        ensures
            final(self)@ == sub_regs_reversed(old(self)@, x as int, y as int),
    {
        let vy = self.v_reg[y];
        let vx = self.v_reg[x];
        let borrow = vy < vx;
        self.v_reg[x] = vy.wrapping_sub(vx);
        self.v_reg[0xF] = if borrow { 0 } else { 1 };
    }

    /// `8xyE`: shifts `Vx` left by one; `VF` becomes the bit shifted out.
    pub fn op_8xye(&mut self, x: usize)
        requires
            x < 16,
        ensures
            final(self)@ == shift_left(old(self)@, x as int),
    {
        let vx = self.v_reg[x];
        assert(vx << 1 == (vx * 2) % 256 && (vx >> 7 == 1 <==> vx >= 128) && (vx >> 7 == 0
            || vx >> 7 == 1)) by (bit_vector);
        self.v_reg[x] = vx << 1;
        self.v_reg[0xF] = vx >> 7;
    }

    /// `Cxnn` for a given random byte: sets `Vx` to `random & nn`.
    pub fn op_cxnn_with(&mut self, x: usize, nn: u8, random: u8)
        requires
            x < 16,
        ensures
            final(self)@ == load_random(old(self)@, x as int, nn, random),
    {
        self.v_reg[x] = random & nn;
    }

    /// `Cxnn`: draws a random byte and sets `Vx` to that byte masked by `nn`.
    pub fn op_cxnn(&mut self, x: usize, nn: u8)
        requires
            x < 16,
        ensures
            exists|random: u8| final(self)@ == load_random(old(self)@, x as int, nn, random),
    {
        let random_value = random_byte();
        self.op_cxnn_with(x, nn, random_value);
    }
}

} // verus!
