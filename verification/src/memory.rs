//! The memory bus: a flat array of 65536 bytes, addressed by 16-bit words.

use vstd::prelude::*;

verus! {

/// The number of cells: one for each 16-bit address.
pub const MEMORY_SIZE: usize = 0x1_0000;

/// A flat, byte-addressable memory of exactly `MEMORY_SIZE` cells.
pub struct Memory {
    cells: [u8; 0x1_0000],
}

impl View for Memory {
    type V = Seq<u8>;

    closed spec fn view(&self) -> Seq<u8> {
        self.cells@
    }
}

impl Memory {
    /// Every memory has one cell for each address, whatever was written.
    pub proof fn lemma_size(self)
        ensures
            self@.len() == MEMORY_SIZE,
    {
    }

    /// A memory with every cell zero.
    pub fn new() -> (memory: Memory)
        ensures
            memory@ == Seq::new(MEMORY_SIZE as nat, |i: int| 0u8),
    {
        let memory = Memory { cells: [0u8; 0x1_0000] };
        assert(memory@ =~= Seq::new(MEMORY_SIZE as nat, |i: int| 0u8));
        memory
    }

    /// The byte in the cell at `address`.
    pub fn read(&self, address: u16) -> (value: u8)
        ensures
            value == self@[address as int],
    {
        self.cells[address as usize]
    }

    /// Overwrites the cell at `address`; every other cell keeps its byte.
    pub fn write(&mut self, address: u16, value: u8)
        ensures
            final(self)@ == old(self)@.update(address as int, value),
    {
        self.cells[address as usize] = value;
    }
}

} // verus!
