//! Access widths shared by the memory, the cartridge and the bus.
use vstd::prelude::*;

verus! {

/// Width of one access to a byte-addressable store.
#[derive(Clone, Copy, Debug, PartialEq, Eq, Structural)]
pub enum Size {
    /// One byte.
    Byte,
    /// Two consecutive bytes, low byte first.
    Word,
}

impl Size {
    /// Number of bytes that one access of this width touches.
    pub open spec fn width(self) -> int {
        match self {
            Size::Byte => 1,
            Size::Word => 2,
        }
    }
}

/// The value that a little-endian read of width `size` at `addr` finds in
/// `store`: the byte itself, or `low + 256 * high` for a word.
pub open spec fn load(store: Seq<u8>, size: Size, addr: int) -> int
    recommends
        0 <= addr,
        addr + size.width() <= store.len(),
{
    match size {
        Size::Byte => store[addr] as int,
        Size::Word => store[addr] as int + 256 * (store[addr + 1] as int),
    }
}

/// The store after a little-endian write of `data` with width `size` at
/// `addr`. Bits of `data` above the width are dropped.
pub open spec fn store_at(store: Seq<u8>, size: Size, addr: int, data: int) -> Seq<u8>
    recommends
        0 <= addr,
        addr + size.width() <= store.len(),
        0 <= data,
{
    match size {
        Size::Byte => store.update(addr, (data % 256) as u8),
        Size::Word => store.update(addr, (data % 256) as u8).update(
            addr + 1,
            ((data / 256) % 256) as u8,
        ),
    }
}

/// A store of `len` zero bytes.
pub open spec fn zeros(len: nat) -> Seq<u8> {
    Seq::new(len, |i: int| 0u8)
}

/// Whether an access of width `size` at `addr` lies wholly inside a store of
/// `len` bytes.
pub open spec fn fits(len: int, size: Size, addr: int) -> bool {
    0 <= addr && addr + size.width() <= len
}

/// A word that was written reads back little-endian: the byte at `addr` is
/// the low byte of `data`, the byte at `addr + 1` is its high byte, and the
/// word at `addr` is `data` cut to sixteen bits.
pub proof fn word_reads_back(store: Seq<u8>, addr: int, data: int)
    requires
        fits(store.len() as int, Size::Word, addr),
        0 <= data,
    ensures
        load(store_at(store, Size::Word, addr, data), Size::Byte, addr) == data % 256,
        load(store_at(store, Size::Word, addr, data), Size::Byte, addr + 1) == (data / 256) % 256,
        load(store_at(store, Size::Word, addr, data), Size::Word, addr) == data % 0x10000,
{
}

/// A byte that was written reads back as the low byte of `data`.
pub proof fn byte_reads_back(store: Seq<u8>, addr: int, data: int)
    requires
        fits(store.len() as int, Size::Byte, addr),
        0 <= data,
    ensures
        load(store_at(store, Size::Byte, addr, data), Size::Byte, addr) == data % 256,
{
}

/// A write keeps the length of the store and every byte outside the access.
pub proof fn write_is_local(store: Seq<u8>, size: Size, addr: int, data: int, other: int)
    requires
        fits(store.len() as int, size, addr),
        0 <= other < store.len(),
        other < addr || other >= addr + size.width(),
    ensures
        store_at(store, size, addr, data).len() == store.len(),
        store_at(store, size, addr, data)[other] == store[other],
{
}

} // verus!
