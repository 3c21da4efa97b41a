use vstd::prelude::*;

verus! {

/// A flat 64 KiB address space with no mapping: every address is a plain
/// byte of its own.
pub struct MemoryBus {
    pub memory: Vec<u8>,
}

impl MemoryBus {
    pub open spec fn wf(self) -> bool {
        self.memory.len() == 0x10000
    }

    /// All 64 KiB cleared.
    pub fn new() -> (r: Self)
        ensures
            r.wf(),
            r.memory@ == Seq::new(0x10000, |i: int| 0u8),
    {
        MemoryBus { memory: vec![0u8; 0x10000] }
    }

    pub fn write(&mut self, address: u16, value: u8)
        requires
            old(self).wf(),
        ensures
            final(self).wf(),
            final(self).memory@ == old(self).memory@.update(address as int, value),
    {
        self.memory.set(address as usize, value);
    }

    pub fn read(&self, address: u16) -> (r: u8)
        requires
            self.wf(),
        ensures
            r == self.memory@[address as int],
    {
        self.memory[address as usize]
    }
}

/// Reading an address right after writing it gives back the byte written;
/// every other address reads as before.
pub proof fn lemma_memory_read_after_write(bus: MemoryBus, after: MemoryBus, address: u16, other: u16, value: u8)
    requires
        bus.wf(),
        after.memory@ == bus.memory@.update(address as int, value),
    ensures
        after.wf(),
        after.memory@[address as int] == value,
        other != address ==> after.memory@[other as int] == bus.memory@[other as int],
{
}

} // verus!
