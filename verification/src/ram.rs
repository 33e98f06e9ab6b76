//! The 4096-byte main memory.

use vstd::prelude::*;

verus! {

/// Number of addressable bytes.
pub const MEMORY_SIZE: usize = 4096;

/// Address at which program images are placed and execution starts.
pub const PROGRAM_START: u16 = 0x200;

/// The cell that a 16-bit address selects: addresses wrap around modulo the memory size.
pub open spec fn cell_of(addr: int) -> int {
    addr % 4096
}

/// Flat byte-addressable memory. Every address is reduced modulo 4096, so no
/// access can fall outside the store.
pub struct Ram {
    cells: [u8; 4096],
}

impl View for Ram {
    type V = Seq<u8>;

    closed spec fn view(&self) -> Seq<u8> {
        self.cells@
    }
}

impl Ram {
    /// Every memory has 4096 cells.
    pub proof fn lemma_size(&self)
        ensures
            self@.len() == 4096,
    {
    }

    /// A memory of 4096 zero bytes.
    pub fn new() -> (ram: Ram)
        ensures
            ram@ == Seq::new(4096, |a: int| 0u8),
    {
        Ram { cells: [0; 4096] }
    }

    /// The byte in the cell that `addr` selects.
    pub fn read_byte(&self, addr: u16) -> (value: u8)
        ensures
            self@.len() == 4096,
            value == self@[cell_of(addr as int)],
    {
        self.cells[(addr % 4096) as usize]
    }

    /// Stores `value` in the cell that `addr` selects and leaves every other cell as it was.
    pub fn write_byte(&mut self, addr: u16, value: u8)
        ensures
            final(self)@.len() == 4096,
            final(self)@ == old(self)@.update(cell_of(addr as int), value),
    {
        self.cells[(addr % 4096) as usize] = value;
    }
}

} // verus!
