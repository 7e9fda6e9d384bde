//! The machine's state and its mathematical model.

use vstd::prelude::*;
use crate::font::with_font;

verus! {

/// Number of addressable bytes.
pub const MEMORY_SIZE: usize = 4096;

/// Address at which a program image starts, and the program counter of a fresh machine.
pub const PROGRAM_START: usize = 0x200;

/// Framebuffer width in pixels.
pub const WIDTH: usize = 64;

/// Framebuffer height in pixels.
pub const HEIGHT: usize = 32;

/// Number of general registers, `V0` to `VF`.
pub const REGISTERS: usize = 16;

/// Number of keys on the keypad.
pub const KEYS: usize = 16;

/// The machine as a mathematical value: what every contract of this crate speaks of.
pub struct Machine {
    pub memory: Seq<u8>,
    pub pc: nat,
    pub i_reg: u16,
    pub stack: Seq<u16>,
    pub delay_timer: u8,
    pub sound_timer: u8,
    pub v_reg: Seq<u8>,
    pub screen: Seq<Seq<bool>>,
    pub keys: Seq<bool>,
    pub key_pressed: (bool, u8),
}

/// The machine's state. All of it is open to the driver, which refreshes `keys` and
/// `key_pressed` and reads `screen_data` and `sound_timer`.
#[derive(Debug)]
pub struct CPU {
    pub memory: [u8; MEMORY_SIZE],
    pub pc: usize,
    pub i_reg: u16,
    pub stack: Vec<u16>,
    pub delay_timer: u8,
    pub sound_timer: u8,
    pub v_reg: [u8; REGISTERS],
    pub screen_data: [[bool; WIDTH]; HEIGHT],
    pub keys: [bool; KEYS],
    pub key_pressed: (bool, u8),
}

impl View for CPU {
    type V = Machine;

    open spec fn view(&self) -> Machine {
        Machine {
            memory: self.memory@,
            pc: self.pc as nat,
            i_reg: self.i_reg,
            stack: self.stack@,
            delay_timer: self.delay_timer,
            sound_timer: self.sound_timer,
            v_reg: self.v_reg@,
            screen: Seq::new(32, |r: int| self.screen_data@[r]@),
            keys: self.keys@,
            key_pressed: self.key_pressed,
        }
    }
}

/// What holds of the model of every `CPU`: the sizes of its parts.
pub open spec fn well_formed(s: Machine) -> bool {
    &&& s.memory.len() == 4096
    &&& s.v_reg.len() == 16
    &&& s.keys.len() == 16
    &&& s.screen.len() == 32
    &&& forall|r: int| 0 <= r < 32 ==> (#[trigger] s.screen[r]).len() == 64
}

/// The model of every `CPU` is well formed.
pub proof fn lemma_view_well_formed(cpu: CPU)
    ensures
        well_formed(cpu@),
{
}

/// The machine with register `x` holding `v`.
pub open spec fn set_reg(s: Machine, x: int, v: u8) -> Machine {
    Machine { v_reg: s.v_reg.update(x, v), ..s }
}

/// The machine with the flag register `VF` holding 1 if `flag`, else 0.
pub open spec fn set_flag(s: Machine, flag: bool) -> Machine {
    set_reg(s, 0xF, if flag { 1u8 } else { 0u8 })
}

/// `v` reduced to eight bits.
pub open spec fn wrap_byte(v: int) -> u8 {
    (v % 256) as u8
}

/// A framebuffer with every pixel off.
pub open spec fn blank_screen() -> Seq<Seq<bool>> {
    Seq::new(32, |r: int| Seq::new(64, |c: int| false))
}

/// The machine before any glyph or program is loaded: everything zero, the program
/// counter at the start of the program area.
pub open spec fn blank() -> Machine {
    Machine {
        memory: Seq::new(4096, |a: int| 0u8),
        pc: 0x200,
        i_reg: 0,
        stack: Seq::empty(),
        delay_timer: 0,
        sound_timer: 0,
        v_reg: Seq::new(16, |k: int| 0u8),
        screen: blank_screen(),
        keys: Seq::new(16, |k: int| false),
        key_pressed: (false, 0u8),
    }
}

/// The machine as `CPU::new` makes it: blank, with the glyph table in low memory.
pub open spec fn initial() -> Machine {
    with_font(blank())
}

impl CPU {
    /// A fresh machine, ready for a program to be loaded.
    pub fn new() -> (cpu: CPU)
        ensures
            cpu@ == initial(),
    {
        let mut cpu = CPU {
            memory: [0; MEMORY_SIZE],
            pc: PROGRAM_START,
            i_reg: 0,
            stack: Vec::new(),
            delay_timer: 0,
            sound_timer: 0,
            v_reg: [0; REGISTERS],
            screen_data: [[false; WIDTH]; HEIGHT],
            keys: [false; KEYS],
            key_pressed: (false, 0x0),
        };
        assert(cpu@.memory =~= blank().memory);
        assert(cpu@.v_reg =~= blank().v_reg);
        assert(cpu@.keys =~= blank().keys);
        assert(cpu@.screen =~~= blank().screen);
        cpu.load_fontset();
        cpu
    }
}

} // verus!
