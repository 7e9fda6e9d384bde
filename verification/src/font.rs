//! The built-in hexadecimal glyphs.

use vstd::prelude::*;
use crate::machine::{CPU, Machine};

verus! {

/// Bytes in the glyph table: sixteen glyphs of five rows each.
pub const FONT_SIZE: usize = 80;

/// The glyph table. Glyph `d` occupies bytes `5 * d .. 5 * d + 5`, top row first;
/// the high four bits of a byte are the row's pixels, left to right.
pub const FONTSET: [u8; FONT_SIZE] = [
    0xF0, 0x90, 0x90, 0x90, 0xF0,
    0x20, 0x60, 0x20, 0x20, 0x70,
    0xF0, 0x10, 0xF0, 0x80, 0xF0,
    0xF0, 0x10, 0xF0, 0x10, 0xF0,
    0x90, 0x90, 0xF0, 0x10, 0x10,
    0xF0, 0x80, 0xF0, 0x10, 0xF0,
    0xF0, 0x80, 0xF0, 0x90, 0xF0,
    0xF0, 0x10, 0x20, 0x40, 0x40,
    0xF0, 0x90, 0xF0, 0x90, 0xF0,
    0xF0, 0x90, 0xF0, 0x10, 0xF0,
    0xF0, 0x90, 0xF0, 0x90, 0x90,
    0xE0, 0x90, 0xE0, 0x90, 0xE0,
    0xF0, 0x80, 0x80, 0x80, 0xF0,
    0xE0, 0x90, 0x90, 0x90, 0xE0,
    0xF0, 0x80, 0xF0, 0x80, 0xF0,
    0xF0, 0x80, 0xF0, 0x80, 0x80,
];

/// The machine with the glyph table written over the first 80 bytes of memory.
pub open spec fn with_font(s: Machine) -> Machine {
    Machine {
        memory: Seq::new(4096, |a: int| if a < FONT_SIZE { FONTSET@[a] } else { s.memory[a] }),
        ..s
    }
}

impl CPU {
    /// Writes the glyph table to addresses `0x000..0x050` and leaves the rest alone.
    pub fn load_fontset(&mut self)
        ensures
            final(self)@ == with_font(old(self)@),
    {
        let mut a: usize = 0;
        while a < FONT_SIZE
            invariant
                a <= FONT_SIZE,
                forall|k: int| 0 <= k < a ==> self.memory@[k] == FONTSET@[k],
                forall|k: int| a <= k < 4096 ==> self.memory@[k] == old(self).memory@[k],
                self@ == (Machine { memory: self@.memory, ..old(self)@ }),
            decreases FONT_SIZE - a,
        {
            self.memory[a] = FONTSET[a];
            a += 1;
        }
        assert(self@.memory =~= with_font(old(self)@).memory);
    }
}

} // verus!
