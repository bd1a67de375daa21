use vstd::prelude::*;

verus! {

/// Number of addressable bytes: every `u16` address is valid.
pub const MEMORY_SIZE: usize = 0x10000;

/// A flat 64 KiB byte store, read and written by 16-bit address.
pub struct MemoryBus {
    memory: Vec<u8>,
}

impl View for MemoryBus {
    type V = Seq<u8>;

    closed spec fn view(&self) -> Seq<u8> {
        self.memory@
    }
}

impl MemoryBus {
    /// The store holds exactly one byte per 16-bit address.
    pub open spec fn wf(&self) -> bool {
        self@.len() == MEMORY_SIZE
    }

    pub fn new() -> (r: MemoryBus)
        ensures
            r.wf(),
            forall|i: int| 0 <= i < MEMORY_SIZE ==> r@[i] == 0,
    {
        let mut memory: Vec<u8> = Vec::new();
        while memory.len() < MEMORY_SIZE
            invariant
                memory@.len() <= MEMORY_SIZE,
                forall|i: int| 0 <= i < memory@.len() ==> memory@[i] == 0,
            decreases MEMORY_SIZE - memory@.len(),
        {
            memory.push(0);
        }
        MemoryBus { memory }
    }

    pub fn read_byte(&self, address: u16) -> (r: u8)
        requires
            self.wf(),
        ensures
            r == self@[address as int],
    {
        self.memory[address as usize]
    }

    pub fn write_byte(&mut self, address: u16, value: u8)
        requires
            old(self).wf(),
        ensures
            final(self)@ == old(self)@.update(address as int, value),
    {
        self.memory.set(address as usize, value);
    }
}

} // verus!
