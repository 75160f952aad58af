//! The bus: routes every access of the 16-bit address space to the cartridge
//! ROM, the working memory or the cartridge RAM, and counts cycles.
use crate::cartridge::{Cartridge, CartridgeView};
use crate::memory::Memory;
use crate::types::{fits, load, store_at, zeros, Size};
use vstd::prelude::*;

verus! {

/// First address of ROM bank 0.
pub const ROM_BANK_00: usize = 0x0000;

/// Last address of ROM bank 0.
pub const ROM_BANK_00_END: usize = 0x3FFF;

/// First address of working memory bank 0.
pub const WRAM_00: usize = 0xC000;

/// Last address of working memory bank 0.
pub const WRAM_00_END: usize = 0xCFFF;

/// First address of working memory bank 1, which the cartridge RAM backs.
pub const WRAM_01: usize = 0xD000;

/// Last address of working memory bank 1.
pub const WRAM_01_END: usize = 0xDFFF;

/// The store that an address is routed to.
#[derive(Clone, Copy, Debug, PartialEq, Eq, Structural)]
pub enum Region {
    /// Cartridge ROM: read-only.
    Rom,
    /// Working memory bank 0.
    Wram0,
    /// Working memory bank 1: the cartridge RAM.
    Wram1,
    /// No store: reads give 0 and writes are dropped.
    Unmapped,
}

/// The region that `addr` is routed to.
pub open spec fn region_of(addr: int) -> Region {
    if ROM_BANK_00 <= addr <= ROM_BANK_00_END {
        Region::Rom
    } else if WRAM_00 <= addr <= WRAM_00_END {
        Region::Wram0
    } else if WRAM_01 <= addr <= WRAM_01_END {
        Region::Wram1
    } else {
        Region::Unmapped
    }
}

/// What a bus holds, as plain values.
pub struct BusView {
    /// Bytes of the working memory.
    pub mem: Seq<u8>,
    /// The cartridge.
    pub cart: CartridgeView,
    /// Cycles counted so far.
    pub cycles: usize,
}

impl BusView {
    /// Whether a read of width `size` at `addr` reaches a store: the address
    /// lies in a mapped range and every byte of the access is backed.
    pub open spec fn readable(self, size: Size, addr: int) -> bool {
        match region_of(addr) {
            Region::Rom => fits(self.cart.rom.len() as int, size, addr - ROM_BANK_00),
            Region::Wram0 => fits(self.mem.len() as int, size, addr - WRAM_00),
            Region::Wram1 => fits(self.cart.ram.len() as int, size, addr - WRAM_01),
            Region::Unmapped => false,
        }
    }

    /// Whether a write of width `size` at `addr` reaches a store. ROM is
    /// never written.
    pub open spec fn writable(self, size: Size, addr: int) -> bool {
        region_of(addr) != Region::Rom && self.readable(size, addr)
    }

    /// The value that a read of width `size` at `addr` gives: what the store
    /// behind the address holds, or 0 where the read reaches no store.
    pub open spec fn read(self, size: Size, addr: int) -> int {
        if !self.readable(size, addr) {
            0
        } else {
            match region_of(addr) {
                Region::Rom => load(self.cart.rom, size, addr - ROM_BANK_00),
                Region::Wram0 => load(self.mem, size, addr - WRAM_00),
                _ => load(self.cart.ram, size, addr - WRAM_01),
            }
        }
    }

    /// The bus after a write of `data` with width `size` at `addr`: the store
    /// behind the address changes, or nothing where the write reaches none.
    pub open spec fn write(self, size: Size, addr: int, data: int) -> BusView {
        if !self.writable(size, addr) {
            self
        } else {
            match region_of(addr) {
                Region::Wram0 => BusView {
                    mem: store_at(self.mem, size, addr - WRAM_00, data),
                    ..self
                },
                _ => BusView {
                    cart: CartridgeView {
                        ram: store_at(self.cart.ram, size, addr - WRAM_01, data),
                        ..self.cart
                    },
                    ..self
                },
            }
        }
    }

    /// The bus after `times` more cycles.
    pub open spec fn tick(self, times: int) -> BusView {
        BusView { cycles: (self.cycles + times) as usize, ..self }
    }
}

/// An access outside every mapped range is tolerated: a read gives 0 and a
/// write changes nothing, whatever the width and the data.
pub proof fn unmapped_is_tolerated(bus: BusView, size: Size, addr: int, data: int)
    requires
        region_of(addr) == Region::Unmapped,
    ensures
        bus.read(size, addr) == 0,
        bus.write(size, addr, data) == bus,
{
}

/// ROM is read-only: a write to an address of the ROM range changes nothing.
pub proof fn rom_is_read_only(bus: BusView, size: Size, addr: int, data: int)
    requires
        region_of(addr) == Region::Rom,
    ensures
        bus.write(size, addr, data) == bus,
{
}

/// A write that reaches a store reads back at the same address and width,
/// cut to the width.
pub proof fn write_reads_back(bus: BusView, size: Size, addr: int, data: int)
    requires
        bus.writable(size, addr),
        0 <= data,
    ensures
        bus.write(size, addr, data).read(size, addr) == match size {
            Size::Byte => data % 256,
            Size::Word => data % 0x10000,
        },
{
}

/// The bus of one machine: its working memory, its cartridge and its cycle
/// counter.
pub struct Bus {
    pub mem: Memory,
    pub rom: Cartridge,
    pub cycles: usize,
}

impl View for Bus {
    type V = BusView;

    open spec fn view(&self) -> BusView {
        BusView { mem: self.mem@, cart: self.rom@, cycles: self.cycles }
    }
}

/// Whether an access of width `size` at `offset` lies inside a store of
/// `len` bytes.
fn within(len: usize, size: Size, offset: usize) -> (inside: bool)
    ensures
        inside == fits(len as int, size, offset as int),
{
    match size {
        Size::Byte => offset < len,
        Size::Word => offset < len && offset + 1 < len,
    }
}

impl Bus {
    /// A bus with zeroed working memory, no cycles counted, and the given
    /// cartridge, or the default cartridge where none is given.
    pub fn new(cart: Option<Cartridge>) -> (bus: Self)
        ensures
            bus@.mem == zeros(Memory::DEFAULT_SIZE as nat),
            bus@.cycles == 0,
            cart matches Some(c) ==> bus@.cart == c@,
            cart is None ==> bus@.cart == Cartridge::default_view(),
    {
        let rom = match cart {
            Some(c) => c,
            None => Cartridge::default(),
        };
        Self { mem: Memory::default(), rom, cycles: 0 }
    }

    /// The region that `addr` is routed to.
    pub fn region(addr: usize) -> (region: Region)
        ensures
            region == region_of(addr as int),
    {
        if addr <= ROM_BANK_00_END {
            Region::Rom
        } else if WRAM_00 <= addr && addr <= WRAM_00_END {
            Region::Wram0
        } else if WRAM_01 <= addr && addr <= WRAM_01_END {
            Region::Wram1
        } else {
            Region::Unmapped
        }
    }

    /// Whether a read of width `size` at `addr` reaches a store. Where it
    /// does not, `read` gives 0.
    pub fn readable(&self, size: Size, addr: usize) -> (reaches: bool)
        ensures
            reaches == self@.readable(size, addr as int),
    {
        match Self::region(addr) {
            Region::Rom => within(self.rom.rom.len(), size, addr),
            Region::Wram0 => within(self.mem.size(), size, addr - WRAM_00),
            Region::Wram1 => within(self.rom.ram.size(), size, addr - WRAM_01),
            Region::Unmapped => false,
        }
    }

    /// Whether a write of width `size` at `addr` reaches a store. Where it
    /// does not, `write` changes nothing.
    pub fn writable(&self, size: Size, addr: usize) -> (reaches: bool)
        ensures
            reaches == self@.writable(size, addr as int),
    {
        match Self::region(addr) {
            Region::Rom => false,
            _ => self.readable(size, addr),
        }
    }

    /// Reads the byte or little-endian word at `addr` from the store that
    /// the address is routed to. A read that reaches no store gives 0.
    pub fn read(&self, size: Size, addr: usize) -> (value: usize)
        ensures
            value == self@.read(size, addr as int),
            !self@.readable(size, addr as int) ==> value == 0,
    {
        if !self.readable(size, addr) {
            return 0;
        }
        match Self::region(addr) {
            Region::Rom => self.rom.read(size, addr),
            Region::Wram0 => self.mem.read(size, addr - WRAM_00),
            _ => self.rom.ram.read(size, addr - WRAM_01),
        }
    }

    /// Writes the low byte or the low little-endian word of `data` at `addr`
    /// into the store that the address is routed to. A write to ROM or to an
    /// address that reaches no store changes nothing.
    pub fn write(&mut self, size: Size, addr: usize, data: usize)
        ensures
            final(self)@ == old(self)@.write(size, addr as int, data as int),
            !old(self)@.writable(size, addr as int) ==> *final(self) == *old(self),
    {
        if !self.writable(size, addr) {
            return ;
        }
        match Self::region(addr) {
            Region::Wram0 => self.mem.write(size, addr - WRAM_00, data),
            _ => self.rom.ram.write(size, addr - WRAM_01, data),
        }
    }

    /// Counts `times` more cycles and changes nothing else.
    pub fn tick(&mut self, times: usize)
        requires
            old(self).cycles + times <= usize::MAX,
        ensures
            final(self).cycles == old(self).cycles + times,
            final(self).mem == old(self).mem,
            final(self).rom == old(self).rom,
            final(self)@ == old(self)@.tick(times as int),
    {
        self.cycles = self.cycles + times;
    }
}

impl Default for Bus {
    /// A bus with the default cartridge.
    fn default() -> (bus: Self)
        ensures
            bus@.mem == zeros(Memory::DEFAULT_SIZE as nat),
            bus@.cycles == 0,
            bus@.cart == Cartridge::default_view(),
    {
        Self::new(None)
    }
}

} // verus!
