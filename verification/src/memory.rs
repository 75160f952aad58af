//! Flat byte-addressable storage of a fixed size.
use crate::types::{fits, load, store_at, zeros, Size};
use vstd::prelude::*;

verus! {

/// A zero-initialised block of bytes whose length is fixed at construction.
pub struct Memory {
    ram: Vec<u8>,
}

impl View for Memory {
    type V = Seq<u8>;

    closed spec fn view(&self) -> Seq<u8> {
        self.ram@
    }
}

impl Memory {
    /// Number of bytes in a memory made by `Memory::default()`.
    pub const DEFAULT_SIZE: usize = 0xFFFF;

    /// A memory of `size` bytes, all zero.
    pub fn new(size: usize) -> (mem: Self)
        ensures
            mem@ == zeros(size as nat),
    {
        let ram: Vec<u8> = vec![0u8; size];
        assert(ram@ =~= zeros(size as nat));
        Self { ram }
    }

    /// Number of bytes in the memory.
    pub fn size(&self) -> (n: usize)
        ensures
            n == self@.len(),
    {
        self.ram.len()
    }

    /// Writes `data` at `addr`: its low byte for `Size::Byte`, its low two
    /// bytes, low byte first, for `Size::Word`.
    pub fn write(&mut self, size: Size, addr: usize, data: usize)
        requires
            fits(old(self)@.len() as int, size, addr as int),
        ensures
            final(self)@ == store_at(old(self)@, size, addr as int, data as int),
    {
        match size {
            Size::Byte => self.write_byte(addr, data),
            Size::Word => self.write_word(addr, data),
        }
    }

    fn write_byte(&mut self, addr: usize, data: usize)
        requires
            addr < old(self)@.len(),
        ensures
            final(self)@ == old(self)@.update(addr as int, (data % 256) as u8),
    {
        self.ram[addr] = (data % 256) as u8;
    }

    fn write_word(&mut self, addr: usize, data: usize)
        requires
            addr + 1 < old(self)@.len(),
        ensures
            final(self)@ == old(self)@.update(addr as int, (data % 256) as u8).update(
                addr + 1,
                ((data / 256) % 256) as u8,
            ),
    {
        proof {
            vstd::std_specs::vec::axiom_spec_len(&self.ram);
        }
        self.ram[addr] = (data % 256) as u8;
        self.ram[addr + 1] = ((data / 256) % 256) as u8;
    }

    /// Reads the byte at `addr`, or the little-endian word at `addr` and
    /// `addr + 1`.
    pub fn read(&self, size: Size, addr: usize) -> (value: usize)
        requires
            fits(self@.len() as int, size, addr as int),
        ensures
            value == load(self@, size, addr as int),
    {
        match size {
            Size::Byte => self.read_byte(addr),
            Size::Word => self.read_word(addr),
        }
    }

    fn read_byte(&self, addr: usize) -> (value: usize)
        requires
            addr < self@.len(),
        ensures
            value == self@[addr as int],
    {
        self.ram[addr] as usize
    }

    fn read_word(&self, addr: usize) -> (value: usize)
        requires
            addr + 1 < self@.len(),
        ensures
            value == self@[addr as int] + 256 * self@[addr + 1],
    {
        proof {
            vstd::std_specs::vec::axiom_spec_len(&self.ram);
        }
        self.ram[addr] as usize + 256 * (self.ram[addr + 1] as usize)
    }
}

impl Default for Memory {
    /// A memory of `Memory::DEFAULT_SIZE` zero bytes.
    fn default() -> (mem: Self)
        ensures
            mem@ == zeros(Memory::DEFAULT_SIZE as nat),
    {
        Self::new(Memory::DEFAULT_SIZE)
    }
}

} // verus!
