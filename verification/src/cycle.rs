//! The fetch-decode-execute cycle.

use vstd::prelude::*;
use crate::alu::{
    add_immediate, add_regs, and_regs, load_immediate, load_random, move_reg, or_regs,
    shift_left, shift_right, sub_regs, sub_regs_reversed, xor_regs,
};
use crate::control::{
    call, jump, jump_with_offset, ret, skip_if_equal, skip_if_equal_immediate,
    skip_if_not_equal, skip_if_not_equal_immediate,
};
use crate::decode::{decode, fields_of};
use crate::display::{clear_screen, draw_sprite};
use crate::index::{
    add_to_index, dump_registers, load_glyph_address, load_index, load_registers, store_bcd,
    transfer_count,
};
use crate::keypad::{skip_if_key_down, skip_if_key_up, wait_for_key};
use crate::machine::{CPU, Machine};
use crate::timers::{read_delay, set_delay, set_sound};

verus! {

/// What a cycle reports to the driver besides the change of state.
#[derive(Debug, Clone, Copy, PartialEq, Eq, Structural)]
pub enum Outcome {
    /// The instruction was carried out.
    Executed,
    /// The word is no instruction. It was passed over and nothing but the program
    /// counter moved.
    UnknownOpcode(u16),
}

/// Why a cycle cannot be run on a state: the program is malformed.
#[derive(Debug, Clone, Copy, PartialEq, Eq, Structural)]
pub enum Fault {
    /// The instruction, or an operand in memory, lies beyond the last address.
    AddressOverflow,
    /// A return with nothing on the call stack.
    StackUnderflow,
    /// A key test on a register that names none of the sixteen keys.
    KeyOutOfRange,
}

/// The instruction word at the program counter: two bytes, high byte first.
pub open spec fn opcode_at(s: Machine) -> u16 {
    (s.memory[s.pc as int] * 256 + s.memory[s.pc as int + 1]) as u16
}

/// The machine with the program counter moved past the instruction it is at.
pub open spec fn advanced(s: Machine) -> Machine {
    Machine { pc: s.pc + 2, ..s }
}

/// Group `0`: clear the screen, return, or nothing.
pub open spec fn execute_system(s: Machine, opcode: u16) -> Machine {
    let f = fields_of(opcode);
    if f.nn == 0xE0 {
        clear_screen(s)
    } else if f.nn == 0xEE {
        ret(s)
    } else {
        s
    }
}

/// Group `8`: register-to-register arithmetic, selected by the low nibble.
pub open spec fn execute_arithmetic(s: Machine, opcode: u16) -> Machine {
    let f = fields_of(opcode);
    let x = f.x as int;
    let y = f.y as int;
    if f.n == 0x0 {
        move_reg(s, x, y)
    } else if f.n == 0x1 {
        or_regs(s, x, y)
    } else if f.n == 0x2 {
        and_regs(s, x, y)
    } else if f.n == 0x3 {
        xor_regs(s, x, y)
    } else if f.n == 0x4 {
        add_regs(s, x, y)
    } else if f.n == 0x5 {
        sub_regs(s, x, y)
    } else if f.n == 0x6 {
        shift_right(s, x)
    } else if f.n == 0x7 {
        sub_regs_reversed(s, x, y)
    } else if f.n == 0xE {
        shift_left(s, x)
    } else {
        s
    }
}

/// Group `E`: the two key tests, selected by the low byte.
pub open spec fn execute_key_test(s: Machine, opcode: u16) -> Machine {
    let f = fields_of(opcode);
    if f.nn == 0x9E {
        skip_if_key_down(s, f.x as int)
    } else if f.nn == 0xA1 {
        skip_if_key_up(s, f.x as int)
    } else {
        s
    }
}

/// Group `F`: timers, key wait and memory transfers, selected by the low byte.
pub open spec fn execute_misc(s: Machine, opcode: u16) -> Machine {
    let f = fields_of(opcode);
    let x = f.x as int;
    if f.nn == 0x07 {
        read_delay(s, x)
    } else if f.nn == 0x15 {
        set_delay(s, x)
    } else if f.nn == 0x18 {
        set_sound(s, x)
    } else if f.nn == 0x1E {
        add_to_index(s, x)
    } else if f.nn == 0x0A {
        wait_for_key(s, x)
    } else if f.nn == 0x29 {
        load_glyph_address(s, x)
    } else if f.nn == 0x33 {
        store_bcd(s, x)
    } else if f.nn == 0x55 {
        dump_registers(s, x)
    } else if f.nn == 0x65 {
        load_registers(s, x)
    } else {
        s
    }
}

/// The machine after carrying out `opcode`, which was fetched already, so that
/// the program counter of `s` is past it. `random` is the byte that the random
/// instruction draws; no other instruction looks at it. A word that is no
/// instruction changes nothing.
pub open spec fn execute(s: Machine, opcode: u16, random: u8) -> Machine {
    let f = fields_of(opcode);
    let x = f.x as int;
    let y = f.y as int;
    if f.group == 0x0 {
        execute_system(s, opcode)
    } else if f.group == 0x1 {
        jump(s, f.nnn)
    } else if f.group == 0x2 {
        call(s, f.nnn)
    } else if f.group == 0x3 {
        skip_if_equal_immediate(s, x, f.nn)
    } else if f.group == 0x4 {
        skip_if_not_equal_immediate(s, x, f.nn)
    } else if f.group == 0x5 {
        skip_if_equal(s, x, y)
    } else if f.group == 0x6 {
        load_immediate(s, x, f.nn)
    } else if f.group == 0x7 {
        add_immediate(s, x, f.nn)
    } else if f.group == 0x8 {
        execute_arithmetic(s, opcode)
    } else if f.group == 0x9 {
        skip_if_not_equal(s, x, y)
    } else if f.group == 0xA {
        load_index(s, f.nnn)
    } else if f.group == 0xB {
        jump_with_offset(s, f.nnn)
    } else if f.group == 0xC {
        load_random(s, x, f.nn, random)
    } else if f.group == 0xD {
        draw_sprite(s, x, y, f.n as int)
    } else if f.group == 0xE {
        execute_key_test(s, opcode)
    } else {
        execute_misc(s, opcode)
    }
}

/// Whether `opcode` is an instruction of the machine.
pub open spec fn is_known(opcode: u16) -> bool {
    let f = fields_of(opcode);
    if f.group == 0x0 {
        f.nn == 0xE0 || f.nn == 0xEE
    } else if f.group == 0x8 {
        f.n <= 0x7 || f.n == 0xE
    } else if f.group == 0xE {
        f.nn == 0x9E || f.nn == 0xA1
    } else if f.group == 0xF {
        f.nn == 0x07 || f.nn == 0x0A || f.nn == 0x15 || f.nn == 0x18 || f.nn == 0x1E || f.nn
            == 0x29 || f.nn == 0x33 || f.nn == 0x55 || f.nn == 0x65
    } else {
        true
    }
}

/// What carrying out `opcode` reports.
pub open spec fn outcome_of(opcode: u16) -> Outcome {
    if is_known(opcode) {
        Outcome::Executed
    } else {
        Outcome::UnknownOpcode(opcode)
    }
}

/// Why `opcode` cannot be carried out on `s`, if it cannot: a return without a
/// caller, an operand beyond the end of memory, or a key that does not exist.
pub open spec fn opcode_fault(s: Machine, opcode: u16) -> Option<Fault> {
    let f = fields_of(opcode);
    if f.group == 0x0 && f.nn == 0xEE && s.stack.len() == 0 {
        Some(Fault::StackUnderflow)
    } else if f.group == 0xD && f.n > 0 && s.i_reg + f.n > 4096 {
        Some(Fault::AddressOverflow)
    } else if f.group == 0xE && (f.nn == 0x9E || f.nn == 0xA1) && s.v_reg[f.x as int] >= 16 {
        Some(Fault::KeyOutOfRange)
    } else if f.group == 0xF && f.nn == 0x33 && s.i_reg + 2 >= 4096 {
        Some(Fault::AddressOverflow)
    } else if f.group == 0xF && (f.nn == 0x55 || f.nn == 0x65) && s.i_reg + transfer_count(
        f.x as int,
    ) > 4096 {
        Some(Fault::AddressOverflow)
    } else {
        None
    }
}

/// Why the next cycle cannot be run on `s`, if it cannot: the instruction word
/// does not lie in memory, or the instruction itself is at fault.
pub open spec fn cycle_fault(s: Machine) -> Option<Fault> {
    if s.pc + 1 >= 4096 {
        Some(Fault::AddressOverflow)
    } else {
        opcode_fault(s, opcode_at(s))
    }
}

/// The machine after one cycle: the instruction at the program counter is fetched,
/// the program counter moves past it, and the instruction is carried out.
pub open spec fn step(s: Machine, random: u8) -> Machine {
    execute(advanced(s), opcode_at(s), random)
}

/// The machine after as many cycles as `randoms` is long, the `k`-th of them
/// drawing `randoms[k]` if it draws.
pub open spec fn run(s: Machine, randoms: Seq<u8>) -> Machine
    decreases randoms.len(),
{
    if randoms.len() == 0 {
        s
    } else {
        step(run(s, randoms.drop_last()), randoms.last())
    }
}

impl CPU {
    /// Reads the instruction word at the program counter and moves the program
    /// counter past it.
    pub fn fetch_opcode(&mut self) -> (opcode: u16)
        requires
            old(self).pc + 1 < 4096,
        ensures
            opcode == opcode_at(old(self)@),
            final(self)@ == advanced(old(self)@),
    {
        let hi = self.memory[self.pc] as u16;
        let lo = self.memory[self.pc + 1] as u16;
        self.pc += 2;
        assert((hi << 8) | lo == hi * 256 + lo) by (bit_vector)
            requires
                hi < 256,
                lo < 256,
        ;
        (hi << 8) | lo
    }

    /// Says why `opcode` cannot be carried out on this state, if it cannot.
    pub fn fault_of(&self, opcode: u16) -> (fault: Option<Fault>)
        ensures
            fault == opcode_fault(self@, opcode),
    {
        let f = decode(opcode);
        let i = self.i_reg as usize;
        if f.group == 0x0 && f.nn == 0xEE && self.stack.len() == 0 {
            Some(Fault::StackUnderflow)
        } else if f.group == 0xD && f.n > 0 && i + f.n as usize > 4096 {
            Some(Fault::AddressOverflow)
        } else if f.group == 0xE && (f.nn == 0x9E || f.nn == 0xA1) && self.v_reg[f.x] >= 16 {
            Some(Fault::KeyOutOfRange)
        } else if f.group == 0xF && f.nn == 0x33 && i + 2 >= 4096 {
            Some(Fault::AddressOverflow)
        } else if f.group == 0xF && (f.nn == 0x55 || f.nn == 0x65) && i + (if f.x == 0 {
            1
        } else {
            f.x
        }) > 4096 {
            Some(Fault::AddressOverflow)
        } else {
            None
        }
    }

    /// Says why the next cycle cannot be run on this state, if it cannot.
    pub fn pending_fault(&self) -> (fault: Option<Fault>)
        ensures
            fault == cycle_fault(self@),
    {
        if self.pc >= 4095 {
            return Some(Fault::AddressOverflow);
        }
        let hi = self.memory[self.pc] as u16;
        let lo = self.memory[self.pc + 1] as u16;
        assert((hi << 8) | lo == hi * 256 + lo) by (bit_vector)
            requires
                hi < 256,
                lo < 256,
        ;
        self.fault_of((hi << 8) | lo)
    }

    /// Carries out `opcode`, which was fetched from just before the program
    /// counter. A word that is no instruction is reported and changes nothing.
    /// The random instruction draws its byte here; every other instruction is
    /// determined by the state.
    pub fn execute_opcode(&mut self, opcode: u16) -> (outcome: Outcome)
        requires
            2 <= old(self).pc <= 0xFFFF,
            opcode_fault(old(self)@, opcode) is None,
        ensures
            outcome == outcome_of(opcode),
            exists|random: u8| final(self)@ == execute(old(self)@, opcode, random),
    {
        let f = decode(opcode);
        let x = f.x;
        let y = f.y;
        let nnn = f.nnn;
        let nn = f.nn;
        let n = f.n;
        let ghost random = 0u8;
        let mut outcome = Outcome::Executed;
        match f.group {
            0x0 => match nn {
                0xE0 => self.op_00e0(),
                0xEE => self.op_00ee(),
                _ => outcome = Outcome::UnknownOpcode(opcode),
            },
            0x1 => self.op_1nnn(nnn),
            0x2 => self.op_2nnn(nnn),
            0x3 => self.op_3xnn(x, nn),
            0x4 => self.op_4xnn(x, nn),
            0x5 => self.op_5xy0(x, y),
            0x6 => self.op_6xnn(x, nn),
            0x7 => self.op_7xnn(x, nn),
            0x8 => match n {
                0x0 => self.op_8xy0(x, y),
                0x1 => self.op_8xy1(x, y),
                0x2 => self.op_8xy2(x, y),
                0x3 => self.op_8xy3(x, y),
                0x4 => self.op_8xy4(x, y),
                0x5 => self.op_8xy5(x, y),
                0x6 => self.op_8xy6(x),
                0x7 => self.op_8xy7(x, y),
                0xE => self.op_8xye(x),
                _ => outcome = Outcome::UnknownOpcode(opcode),
            },
            0x9 => self.op_9xy0(x, y),
            0xA => self.op_annn(nnn),
            0xB => self.op_bnnn(nnn),
            0xC => {
                self.op_cxnn(x, nn);
                proof {
                    random = choose|random: u8|
                        self@ == load_random(old(self)@, x as int, nn, random);
                }
            },
            0xD => self.op_dxyn(x, y, n),
            0xE => match nn {
                0x9E => self.op_ex9e(x),
                0xA1 => self.op_exa1(x),
                _ => outcome = Outcome::UnknownOpcode(opcode),
            },
            0xF => match nn {
                0x07 => self.op_fx07(x),
                0x15 => self.op_fx15(x),
                0x18 => self.op_fx18(x),
                0x1E => self.op_fx1e(x),
                0x0A => self.op_fx0a(x),
                0x29 => self.op_fx29(x),
                0x33 => self.op_fx33(x),
                0x55 => self.op_fx55(x),
                0x65 => self.op_f65(x),
                _ => outcome = Outcome::UnknownOpcode(opcode),
            },
            _ => outcome = Outcome::UnknownOpcode(opcode),
        }
        assert(self@ == execute(old(self)@, opcode, random));
        outcome
    }

    /// Runs one cycle: fetches the instruction at the program counter and carries
    /// it out. The state must be one on which a cycle can be run.
    pub fn execute_cycle(&mut self) -> (outcome: Outcome)
        requires
            cycle_fault(old(self)@) is None,
        ensures
            outcome == outcome_of(opcode_at(old(self)@)),
            exists|random: u8| final(self)@ == step(old(self)@, random),
    {
        let opcode = self.fetch_opcode();
        let outcome = self.execute_opcode(opcode);
        proof {
            let random = choose|random: u8|
                self@ == execute(advanced(old(self)@), opcode, random);
            assert(self@ == step(old(self)@, random));
        }
        outcome
    }

    /// Runs one cycle if one can be run, and otherwise says why not and leaves the
    /// machine as it was.
    pub fn try_execute_cycle(&mut self) -> (r: Result<Outcome, Fault>)
        ensures
            match cycle_fault(old(self)@) {
                Some(fault) => r == Err::<Outcome, Fault>(fault) && final(self)@ == old(self)@,
                None => r == Ok::<Outcome, Fault>(outcome_of(opcode_at(old(self)@)))
                    && exists|random: u8| final(self)@ == step(old(self)@, random),
            },
    {
        match self.pending_fault() {
            Some(fault) => Err(fault),
            None => Ok(self.execute_cycle()),
        }
    }
}

} // verus!
