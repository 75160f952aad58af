//! A cartridge: the ROM image, the header fields read from it, and the RAM
//! that the header's RAM-size code asks for.
use crate::memory::Memory;
use crate::types::{fits, load, zeros, Size};
use vstd::prelude::*;
use vstd::slice::slice_to_vec;
use vstd::utf8::{decode_utf8, valid_utf8};

verus! {

/// Least number of bytes in a ROM image: the header ends at `0x14F`.
pub const HEADER_END: usize = 0x150;

/// First byte of the title field.
pub const TITLE_START: usize = 0x134;

/// One past the last byte of the title field.
pub const TITLE_END: usize = 0x143;

/// Why a ROM image was not accepted.
#[derive(Clone, Copy, Debug, PartialEq, Eq, Structural)]
pub enum CartridgeError {
    /// The title field is not text: its bytes are no well-formed UTF-8.
    InvalidTitle,
    /// The RAM-size code at `0x149` is none of the six known codes.
    InvalidRamSize { code: u8 },
}

/// Number of RAM bytes that a RAM-size code stands for, if the code is known.
/// The codes are not in order of size: code 4 is 128 KiB and code 5 is 64 KiB.
pub open spec fn ram_bytes(code: u8) -> Option<usize> {
    if code == 0 {
        Some(0usize)
    } else if code == 1 {
        Some(0x800usize)
    } else if code == 2 {
        Some(0x2000usize)
    } else if code == 3 {
        Some(0x8000usize)
    } else if code == 4 {
        Some(0x20000usize)
    } else if code == 5 {
        Some(0x10000usize)
    } else {
        None
    }
}

/// `bytes` without its leading zero bytes.
pub open spec fn trim_start(bytes: Seq<u8>) -> Seq<u8>
    decreases bytes.len(),
{
    if bytes.len() > 0 && bytes[0] == 0 {
        trim_start(bytes.drop_first())
    } else {
        bytes
    }
}

/// `bytes` without its trailing zero bytes.
pub open spec fn trim_end(bytes: Seq<u8>) -> Seq<u8>
    decreases bytes.len(),
{
    if bytes.len() > 0 && bytes.last() == 0 {
        trim_end(bytes.drop_last())
    } else {
        bytes
    }
}

/// The bytes of the title field of `rom`, without the zero bytes that pad it
/// at either end.
pub open spec fn title_bytes(rom: Seq<u8>) -> Seq<u8> {
    trim_end(trim_start(rom.subrange(TITLE_START as int, TITLE_END as int)))
}

/// The 16-bit value stored high byte first at `at` and `at + 1`.
pub open spec fn big_endian(rom: Seq<u8>, at: int) -> u16 {
    (256 * rom[at] + rom[at + 1]) as u16
}

/// What a cartridge holds, as plain values.
pub struct CartridgeView {
    pub title: Seq<char>,
    pub cgb_flag: u8,
    pub sgb_flag: u8,
    pub cartridge_type: u8,
    pub rom_size: u8,
    pub ram_size: u8,
    pub destination_code: u8,
    pub old_licensee_code: u8,
    pub new_licensee_code: u16,
    pub mask_rom_version_number: u8,
    pub header_checksum: u8,
    pub global_checksum: u16,
    pub rom: Seq<u8>,
    pub ram: Seq<u8>,
}

/// Whether `rom` is long enough to hold a whole header.
pub open spec fn has_header(rom: Seq<u8>) -> bool {
    rom.len() >= HEADER_END
}

/// The cartridge that the ROM image `rom` describes, with `ram_len` zero
/// bytes of RAM.
pub open spec fn parsed(rom: Seq<u8>, ram_len: usize) -> CartridgeView {
    CartridgeView {
        title: decode_utf8(title_bytes(rom)),
        cgb_flag: rom[0x143],
        sgb_flag: rom[0x146],
        cartridge_type: rom[0x147],
        rom_size: rom[0x148],
        ram_size: rom[0x149],
        destination_code: rom[0x14A],
        old_licensee_code: rom[0x14B],
        new_licensee_code: big_endian(rom, 0x144),
        mask_rom_version_number: rom[0x14C],
        header_checksum: rom[0x14D],
        global_checksum: big_endian(rom, 0x14E),
        rom,
        ram: zeros(ram_len as nat),
    }
}

/// What loading `rom` gives: the parsed cartridge with fresh RAM of the size
/// that the code at `0x149` stands for, or the error for a title that is not
/// text, or else the error for an unknown code.
pub open spec fn load_result(rom: Seq<u8>) -> Result<CartridgeView, CartridgeError> {
    if !valid_utf8(title_bytes(rom)) {
        Err(CartridgeError::InvalidTitle)
    } else {
        match ram_bytes(rom[0x149]) {
            Some(ram_len) => Ok(parsed(rom, ram_len)),
            None => Err(CartridgeError::InvalidRamSize { code: rom[0x149] }),
        }
    }
}

/// A cartridge: its header fields, its ROM image and its RAM.
pub struct Cartridge {
    pub title: String,
    pub cgb_flag: u8,
    pub sgb_flag: u8,
    pub cartridge_type: u8,
    pub rom_size: u8,
    pub ram_size: u8,
    pub destination_code: u8,
    pub old_licensee_code: u8,
    pub new_licensee_code: u16,
    pub mask_rom_version_number: u8,
    pub header_checksum: u8,
    pub global_checksum: u16,
    pub rom: Vec<u8>,
    pub ram: Memory,
}

impl View for Cartridge {
    type V = CartridgeView;

    open spec fn view(&self) -> CartridgeView {
        CartridgeView {
            title: self.title@,
            cgb_flag: self.cgb_flag,
            sgb_flag: self.sgb_flag,
            cartridge_type: self.cartridge_type,
            rom_size: self.rom_size,
            ram_size: self.ram_size,
            destination_code: self.destination_code,
            old_licensee_code: self.old_licensee_code,
            new_licensee_code: self.new_licensee_code,
            mask_rom_version_number: self.mask_rom_version_number,
            header_checksum: self.header_checksum,
            global_checksum: self.global_checksum,
            rom: self.rom@,
            ram: self.ram@,
        }
    }
}

impl CartridgeView {
    /// Whether the header fields are those of the ROM image and the RAM has
    /// the size that the RAM-size code stands for: what loading establishes.
    pub open spec fn consistent(self) -> bool {
        &&& has_header(self.rom)
        &&& valid_utf8(title_bytes(self.rom))
        &&& ram_bytes(self.ram_size) == Some(self.ram.len() as usize)
        &&& self == (CartridgeView { ram: self.ram, ..parsed(self.rom, 0) })
    }
}

/// Text that a byte string encodes in UTF-8, through `String::from_utf8`:
/// `Some` exactly for well-formed input, and then the characters it encodes.
#[verifier::external_body]
fn text_of(bytes: Vec<u8>) -> (text: Option<String>)
    ensures
        text is Some <==> valid_utf8(bytes@),
        text matches Some(s) ==> s@ == decode_utf8(bytes@),
{
    match String::from_utf8(bytes) {
        Ok(s) => Some(s),
        Err(_) => None,
    }
}

/// Leading zero bytes can be dropped one index at a time.
proof fn trim_start_skips(bytes: Seq<u8>, from: int)
    requires
        0 <= from <= bytes.len(),
        forall|i: int| 0 <= i < from ==> bytes[i] == 0,
    ensures
        trim_start(bytes) == trim_start(bytes.subrange(from, bytes.len() as int)),
    decreases from,
{
    if from == 0 {
        assert(bytes.subrange(0, bytes.len() as int) =~= bytes);
    } else {
        let rest = bytes.drop_first();
        trim_start_skips(rest, from - 1);
        assert(rest.subrange(from - 1, rest.len() as int) =~= bytes.subrange(
            from,
            bytes.len() as int,
        ));
    }
}

/// Trailing zero bytes can be dropped one index at a time.
proof fn trim_end_skips(bytes: Seq<u8>, to: int)
    requires
        0 <= to <= bytes.len(),
        forall|i: int| to <= i < bytes.len() ==> bytes[i] == 0,
    ensures
        trim_end(bytes) == trim_end(bytes.subrange(0, to)),
    decreases bytes.len() - to,
{
    if to == bytes.len() {
        assert(bytes.subrange(0, to) =~= bytes);
    } else {
        let rest = bytes.drop_last();
        trim_end_skips(rest, to);
        assert(rest.subrange(0, to) =~= bytes.subrange(0, to));
    }
}

/// Copies the title field of `rom` without its zero padding.
fn title_of(rom: &[u8]) -> (title: Vec<u8>)
    requires
        rom@.len() >= HEADER_END,
    ensures
        title@ == title_bytes(rom@),
{
    let ghost field = rom@.subrange(TITLE_START as int, TITLE_END as int);
    let mut start: usize = TITLE_START;
    while start < TITLE_END && rom[start] == 0
        invariant
            TITLE_START <= start <= TITLE_END,
            rom@.len() >= HEADER_END,
            forall|i: int| TITLE_START <= i < start ==> rom@[i] == 0,
        decreases TITLE_END - start,
    {
        start += 1;
    }
    let mut end: usize = TITLE_END;
    while end > start && rom[end - 1] == 0
        invariant
            start <= end <= TITLE_END,
            rom@.len() >= HEADER_END,
            forall|i: int| end <= i < TITLE_END ==> rom@[i] == 0,
        decreases end - start,
    {
        end -= 1;
    }
    let mut title: Vec<u8> = Vec::new();
    let mut at: usize = start;
    while at < end
        invariant
            start <= at <= end <= TITLE_END,
            rom@.len() >= HEADER_END,
            title@ == rom@.subrange(start as int, at as int),
        decreases end - at,
    {
        title.push(rom[at]);
        at += 1;
        assert(title@ =~= rom@.subrange(start as int, at as int));
    }
    proof {
        let head = field.subrange(start - TITLE_START, field.len() as int);
        assert(head =~= rom@.subrange(start as int, TITLE_END as int));
        trim_start_skips(field, start - TITLE_START);
        assert(trim_start(head) == head);
        trim_end_skips(head, end - start);
        assert(head.subrange(0, end - start) =~= title@);
        assert(trim_end(title@) == title@);
    }
    title
}

impl Cartridge {
    /// What the default cartridge holds: the cartridge of a ROM image of
    /// `HEADER_END` zero bytes, with no RAM.
    pub open spec fn default_view() -> CartridgeView {
        parsed(zeros(HEADER_END as nat), 0)
    }

    /// Loads a ROM image: reads the header fields at their fixed offsets,
    /// keeps a copy of the image, and allocates zeroed RAM of the size that
    /// the RAM-size code stands for. A title that is not text and an unknown
    /// RAM-size code are errors.
    pub fn new(rom: &[u8]) -> (loaded: Result<Self, CartridgeError>)
        requires
            has_header(rom@),
        ensures
            loaded is Ok <==> load_result(rom@) is Ok,
            loaded matches Ok(cart) ==> load_result(rom@) == Ok::<CartridgeView, CartridgeError>(
                cart@,
            ) && cart@.consistent(),
            loaded matches Err(e) ==> load_result(rom@) == Err::<CartridgeView, CartridgeError>(e),
    {
        let title = match text_of(title_of(rom)) {
            Some(title) => title,
            None => { return Err(CartridgeError::InvalidTitle); },
        };
        let code = rom[0x149];
        let ram_len: usize = match code {
            0x00 => 0,
            0x01 => 2 * 1024,
            0x02 => 8 * 1024,
            0x03 => 32 * 1024,
            0x04 => 128 * 1024,
            0x05 => 64 * 1024,
            _ => { return Err(CartridgeError::InvalidRamSize { code }); },
        };
        Ok(
            Self {
                title,
                cgb_flag: rom[0x143],
                sgb_flag: rom[0x146],
                cartridge_type: rom[0x147],
                rom_size: rom[0x148],
                ram_size: code,
                destination_code: rom[0x14A],
                old_licensee_code: rom[0x14B],
                new_licensee_code: (rom[0x144] as u16) * 256 + (rom[0x145] as u16),
                mask_rom_version_number: rom[0x14C],
                header_checksum: rom[0x14D],
                global_checksum: (rom[0x14E] as u16) * 256 + (rom[0x14F] as u16),
                rom: slice_to_vec(rom),
                ram: Memory::new(ram_len),
            },
        )
    }

    /// Reads the byte at `addr` of the ROM image, or the little-endian word
    /// at `addr` and `addr + 1`.
    pub fn read(&self, size: Size, addr: usize) -> (value: usize)
        requires
            fits(self.rom@.len() as int, size, addr as int),
        ensures
            value == load(self.rom@, size, addr as int),
    {
        proof {
            vstd::std_specs::vec::axiom_spec_len(&self.rom);
        }
        match size {
            Size::Byte => self.rom[addr] as usize,
            Size::Word => self.rom[addr] as usize + 256 * (self.rom[addr + 1] as usize),
        }
    }

    /// Replaces the whole cartridge by the one that `rom` describes. On an
    /// error the cartridge is left as it was.
    pub fn load_new_rom(&mut self, rom: &[u8]) -> (loaded: Result<(), CartridgeError>)
        requires
            has_header(rom@),
        ensures
            loaded is Ok <==> load_result(rom@) is Ok,
            loaded is Ok ==> load_result(rom@) == Ok::<CartridgeView, CartridgeError>(final(self)@)
                && final(self)@.consistent(),
            loaded matches Err(e) ==> load_result(rom@) == Err::<CartridgeView, CartridgeError>(e)
                && *final(self) == *old(self),
    {
        match Self::new(rom) {
            Ok(cart) => {
                *self = cart;
                Ok(())
            },
            Err(e) => Err(e),
        }
    }
}

impl Default for Cartridge {
    /// The cartridge of a ROM image of `HEADER_END` zero bytes: an empty
    /// title, every header field zero, no RAM.
    fn default() -> (cart: Self)
        ensures
            cart@ == Cartridge::default_view(),
            cart@.consistent(),
    {
        let rom: Vec<u8> = vec![0u8; HEADER_END];
        proof {
            let zeros = zeros(HEADER_END as nat);
            assert(rom@ =~= zeros);
            let field = zeros.subrange(TITLE_START as int, TITLE_END as int);
            trim_start_skips(field, field.len() as int);
            assert(field.subrange(field.len() as int, field.len() as int) =~= Seq::<u8>::empty());
            assert(trim_start(Seq::<u8>::empty()) == Seq::<u8>::empty());
            assert(trim_end(Seq::<u8>::empty()) == Seq::<u8>::empty());
            assert(title_bytes(zeros) == Seq::<u8>::empty());
            assert(valid_utf8(Seq::<u8>::empty()));
        }
        match Self::new(rom.as_slice()) {
            Ok(cart) => cart,
            Err(_) => unreached(),
        }
    }
}

} // verus!
