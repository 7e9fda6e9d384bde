//! Placing a program image in memory.

use vstd::prelude::*;
use crate::machine::{CPU, Machine, MEMORY_SIZE, PROGRAM_START};

verus! {

/// Why a program image was not loaded.
#[derive(Debug, Clone, Copy, PartialEq, Eq, Structural)]
pub enum LoadError {
    /// The image does not fit between the program start and the end of memory.
    TooLarge,
    /// The image could not be read from where it is kept. The machine itself never
    /// reports this: it is for the code that fetches the bytes.
    Io,
}

/// Whether an image of `len` bytes fits between the program start and the end of memory.
pub open spec fn program_fits(len: nat) -> bool {
    PROGRAM_START + len <= MEMORY_SIZE
}

/// The machine with `bytes` written from address `0x200` on.
pub open spec fn with_program(s: Machine, bytes: Seq<u8>) -> Machine {
    Machine {
        memory: Seq::new(
            4096,
            |a: int| if 0x200 <= a < 0x200 + bytes.len() { bytes[a - 0x200] } else { s.memory[a] },
        ),
        ..s
    }
}

impl CPU {
    /// Copies a program image to address `0x200` and up. An image that does not fit
    /// is refused and the machine is left as it was.
    pub fn load_program(&mut self, bytes: &[u8]) -> (r: Result<(), LoadError>)
        ensures
            program_fits(bytes@.len()) ==> r == Ok::<(), LoadError>(()) && final(self)@
                == with_program(old(self)@, bytes@),
            !program_fits(bytes@.len()) ==> r == Err::<(), LoadError>(LoadError::TooLarge)
                && final(self)@ == old(self)@,
    {
        let len = bytes.len();
        if len > MEMORY_SIZE - PROGRAM_START {
            return Err(LoadError::TooLarge);
        }
        let mut k: usize = 0;
        while k < len
            invariant
                k <= len == bytes@.len(),
                len <= 4096 - 0x200,
                forall|a: int| 0x200 <= a < 0x200 + k ==> self.memory@[a] == bytes@[a - 0x200],
                forall|a: int|
                    0 <= a < 4096 && !(0x200 <= a < 0x200 + k) ==> self.memory@[a] == old(
                        self,
                    ).memory@[a],
                self@ == (Machine { memory: self@.memory, ..old(self)@ }),
            decreases len - k,
        {
            self.memory[PROGRAM_START + k] = bytes[k];
            k += 1;
        }
        assert(self@.memory =~= with_program(old(self)@, bytes@).memory);
        Ok(())
    }
}

} // verus!
