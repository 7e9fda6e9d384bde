//! Splitting an instruction word into its fields.

use vstd::prelude::*;

verus! {

/// The fields of an instruction word `gxyn`, where `nn` is `yn` and `nnn` is `xyn`.
#[derive(Debug, Clone, Copy, PartialEq, Eq, Structural)]
pub struct Fields {
    /// The top nibble, which selects the instruction group.
    pub group: u8,
    /// The second nibble: a register index.
    pub x: usize,
    /// The third nibble: a register index.
    pub y: usize,
    /// The low nibble.
    pub n: u8,
    /// The low byte.
    pub nn: u8,
    /// The low twelve bits: an address.
    pub nnn: u16,
}

/// The fields of `opcode`, by place value.
pub open spec fn fields_of(opcode: u16) -> Fields {
    Fields {
        group: (opcode / 4096) as u8,
        x: ((opcode / 256) % 16) as usize,
        y: ((opcode / 16) % 16) as usize,
        n: (opcode % 16) as u8,
        nn: (opcode % 256) as u8,
        nnn: opcode % 4096,
    }
}

/// Extracts the fields of an instruction word.
pub fn decode(opcode: u16) -> (f: Fields)
    ensures
        f == fields_of(opcode),
        f.group < 16,
        f.x < 16,
        f.y < 16,
        f.n < 16,
        f.nnn < 4096,
{
    let group = ((opcode & 0xF000) >> 12) as u8;
    let x = ((opcode & 0x0F00) >> 8) as usize;
    let y = ((opcode & 0x00F0) >> 4) as usize;
    let nnn = opcode & 0x0FFF;
    let nn = (opcode & 0x00FF) as u8;
    let n = (opcode & 0x000F) as u8;
    assert((opcode & 0xF000) >> 12 == opcode / 4096 && opcode / 4096 < 16) by (bit_vector);
    assert((opcode & 0x0F00) >> 8 == (opcode / 256) % 16) by (bit_vector);
    assert((opcode & 0x00F0) >> 4 == (opcode / 16) % 16) by (bit_vector);
    assert(opcode & 0x0FFF == opcode % 4096) by (bit_vector);
    assert(opcode & 0x00FF == opcode % 256) by (bit_vector);
    assert(opcode & 0x000F == opcode % 16) by (bit_vector);
    Fields { group, x, y, n, nn, nnn }
}

} // verus!
