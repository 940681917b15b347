use vstd::prelude::*;

use crate::registers::word;

verus! {

/// Number of addressable bytes.
pub const MEMORY_SIZE: usize = 0x10000;

/// Address of the interrupt-enable byte (IE).
pub const IE_ADDRESS: u16 = 0xFFFF;

/// Address of the interrupt-flag byte (IF).
pub const IF_ADDRESS: u16 = 0xFF0F;

/// The byte-oriented memory bus: one byte for each 16-bit address.
pub struct Bus {
    memory: Vec<u8>,
}

impl View for Bus {
    type V = Seq<u8>;

    closed spec fn view(&self) -> Seq<u8> {
        self.memory@
    }
}

/// The byte after `address`, wrapping at the top of the address space.
pub open spec fn next_address(address: u16) -> u16 {
    ((address as int + 1) % 0x10000) as u16
}

impl Bus {
    /// Every address holds a byte.
    pub open spec fn wf(&self) -> bool {
        self@.len() == 0x10000
    }

    /// A bus whose every byte is zero.
    pub fn new() -> (r: Bus)
        ensures
            r.wf(),
            forall|i: int| 0 <= i < 0x10000 ==> r@[i] == 0,
    {
        let mut memory: Vec<u8> = Vec::new();
        while memory.len() < MEMORY_SIZE
            invariant
                memory@.len() <= 0x10000,
                forall|i: int| 0 <= i < memory@.len() ==> memory@[i] == 0,
            decreases 0x10000 - memory@.len(),
        {
            memory.push(0);
        }
        Bus { memory }
    }

    /// A bus holding `rom` from address 0 on (at most the lower 32 KiB), zero elsewhere.
    pub fn with_rom(rom: &Vec<u8>) -> (r: Bus)
        ensures
            r.wf(),
            forall|i: int| 0 <= i < 0x8000 && i < rom@.len() ==> r@[i] == rom@[i],
            forall|i: int| 0 <= i < 0x10000 && !(i < 0x8000 && i < rom@.len()) ==> r@[i] == 0,
    {
        let mut memory: Vec<u8> = Vec::new();
        while memory.len() < MEMORY_SIZE
            invariant
                memory@.len() <= 0x10000,
                forall|i: int|
                    0 <= i < memory@.len() ==> memory@[i] == (if i < 0x8000 && i < rom@.len() {
                        rom@[i]
                    } else {
                        0
                    }),
            decreases 0x10000 - memory@.len(),
        {
            let i = memory.len();
            if i < 0x8000 && i < rom.len() {
                memory.push(rom[i]);
            } else {
                memory.push(0);
            }
        }
        Bus { memory }
    }

    pub fn mem_read(&self, address: u16) -> (r: u8)
        requires
            self.wf(),
        ensures
            r == self@[address as int],
    {
        self.memory[address as usize]
    }

    pub fn mem_write(&mut self, address: u16, data: u8)
        requires
            old(self).wf(),
        ensures
            final(self)@ == old(self)@.update(address as int, data),
            final(self).wf(),
    {
        self.memory.set(address as usize, data);
    }

    /// Reads a little-endian word: the byte at `address` is the low half.
    pub fn mem_read_16(&self, address: u16) -> (r: u16)
        requires
            self.wf(),
        ensures
            r == word(self@[next_address(address) as int], self@[address as int]),
    {
        let lo = self.mem_read(address);
        let hi = self.mem_read(address.wrapping_add(1));
        hi as u16 * 256 + lo as u16
    }

    /// Writes a little-endian word: the low half at `address`, the high half after it.
    pub fn mem_write_16(&mut self, address: u16, data: u16)
        requires
            old(self).wf(),
        ensures
            final(self)@ == old(self)@.update(address as int, (data % 256) as u8).update(
                next_address(address) as int,
                (data / 256) as u8,
            ),
            final(self).wf(),
    {
        self.mem_write(address, (data % 256) as u8);
        self.mem_write(address.wrapping_add(1), (data / 256) as u8);
    }
}

} // verus!
