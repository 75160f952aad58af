//! The register file: eight byte registers, their 16-bit pair views, the stack
//! pointer, and the four flags kept in the high nibble of `F`.
use vstd::prelude::*;

verus! {

/// Names of the 16-bit views of the register file.
#[derive(Clone, Copy, Debug, PartialEq, Eq, Structural)]
pub enum WordReg {
    AF,
    BC,
    DE,
    HL,
    SP,
}

/// Names of the 8-bit registers.
#[derive(Clone, Copy, Debug, PartialEq, Eq, Structural)]
pub enum ByteReg {
    A,
    B,
    C,
    D,
    E,
    F,
    H,
    L,
}

/// Bit of `F` that holds the Zero flag.
pub const ZERO: u8 = 0x80;

/// Bit of `F` that holds the Subtract flag.
pub const SUBTRACT: u8 = 0x40;

/// Bit of `F` that holds the Half-Carry flag.
pub const HALF_CARRY: u8 = 0x20;

/// Bit of `F` that holds the Carry flag.
pub const CARRY: u8 = 0x10;

/// The 16-bit value whose high byte is `high` and whose low byte is `low`.
pub open spec fn pair(high: u8, low: u8) -> u16 {
    (256 * high + low) as u16
}

/// High byte of a 16-bit value.
pub open spec fn high_byte(value: u16) -> u8 {
    (value / 256) as u8
}

/// Low byte of a 16-bit value.
pub open spec fn low_byte(value: u16) -> u8 {
    (value % 256) as u8
}

/// Whether `mask` names one of the four flag bits.
pub open spec fn is_flag(mask: u8) -> bool {
    mask == ZERO || mask == SUBTRACT || mask == HALF_CARRY || mask == CARRY
}

/// The flag byte `f` with the bits of `mask` set if `on` holds and cleared
/// if it does not; every other bit is as in `f`.
pub open spec fn with_flag(f: u8, mask: u8, on: bool) -> u8 {
    if on {
        f | mask
    } else {
        f & !mask
    }
}

/// Whether some bit of `mask` is set in the flag byte `f`.
pub open spec fn has_flag(f: u8, mask: u8) -> bool {
    f & mask != 0
}

/// The flag byte that holds exactly the given Zero, Subtract, Half-Carry and
/// Carry flags, with a zero low nibble.
pub open spec fn flag_byte(zero: bool, subtract: bool, half_carry: bool, carry: bool) -> u8 {
    ((if zero { 0x80int } else { 0 }) + (if subtract { 0x40int } else { 0 }) + (if half_carry {
        0x20int
    } else {
        0
    }) + (if carry { 0x10int } else { 0 })) as u8
}

/// The register file. Every field may be read and written directly; the
/// accessors below give the pair views and the flag updates.
#[derive(Clone, Copy, Debug, PartialEq, Eq, Structural)]
pub struct Registers {
    pub a: u8,
    pub b: u8,
    pub c: u8,
    pub d: u8,
    pub e: u8,
    pub f: u8,
    pub h: u8,
    pub l: u8,
    pub sp: u16,
}

impl Registers {
    /// Value of the byte register `breg`.
    pub open spec fn byte(self, breg: ByteReg) -> u8 {
        match breg {
            ByteReg::A => self.a,
            ByteReg::B => self.b,
            ByteReg::C => self.c,
            ByteReg::D => self.d,
            ByteReg::E => self.e,
            ByteReg::F => self.f,
            ByteReg::H => self.h,
            ByteReg::L => self.l,
        }
    }

    /// The register file with `breg` replaced by `data`.
    pub open spec fn with_byte(self, breg: ByteReg, data: u8) -> Registers {
        match breg {
            ByteReg::A => Registers { a: data, ..self },
            ByteReg::B => Registers { b: data, ..self },
            ByteReg::C => Registers { c: data, ..self },
            ByteReg::D => Registers { d: data, ..self },
            ByteReg::E => Registers { e: data, ..self },
            ByteReg::F => Registers { f: data, ..self },
            ByteReg::H => Registers { h: data, ..self },
            ByteReg::L => Registers { l: data, ..self },
        }
    }

    /// Value of the 16-bit view `wreg`: the pair of its two byte registers,
    /// or the stack pointer.
    pub open spec fn word(self, wreg: WordReg) -> u16 {
        match wreg {
            WordReg::AF => pair(self.a, self.f),
            WordReg::BC => pair(self.b, self.c),
            WordReg::DE => pair(self.d, self.e),
            WordReg::HL => pair(self.h, self.l),
            WordReg::SP => self.sp,
        }
    }

    /// The register file with the 16-bit view `wreg` replaced by `data`:
    /// both byte registers of a pair change together.
    pub open spec fn with_word(self, wreg: WordReg, data: u16) -> Registers {
        match wreg {
            WordReg::AF => Registers { a: high_byte(data), f: low_byte(data), ..self },
            WordReg::BC => Registers { b: high_byte(data), c: low_byte(data), ..self },
            WordReg::DE => Registers { d: high_byte(data), e: low_byte(data), ..self },
            WordReg::HL => Registers { h: high_byte(data), l: low_byte(data), ..self },
            WordReg::SP => Registers { sp: data, ..self },
        }
    }

    /// The register file with `F` replaced by `f`.
    pub open spec fn with_f(self, f: u8) -> Registers {
        Registers { f, ..self }
    }

    /// Whether the Carry flag is set.
    pub open spec fn carry(self) -> bool {
        has_flag(self.f, CARRY)
    }

    /// The register file with every register zero.
    pub open spec fn default_value() -> Registers {
        Registers { a: 0, b: 0, c: 0, d: 0, e: 0, f: 0, h: 0, l: 0, sp: 0 }
    }

    /// A register file with every register zero.
    pub fn new() -> (regs: Self)
        ensures
            regs == Registers::default_value(),
    {
        Self { a: 0, b: 0, c: 0, d: 0, e: 0, f: 0, h: 0, l: 0, sp: 0 }
    }

    /// Reads a 16-bit view: `(high << 8) | low` of a pair, or `SP`.
    pub fn get_word(&self, wreg: WordReg) -> (value: u16)
        ensures
            value == self.word(wreg),
    {
        match wreg {
            WordReg::AF => join(self.a, self.f),
            WordReg::BC => join(self.b, self.c),
            WordReg::DE => join(self.d, self.e),
            WordReg::HL => join(self.h, self.l),
            WordReg::SP => self.sp,
        }
    }

    /// Writes a 16-bit view: the high byte of `data` goes to the first
    /// register of the pair and the low byte to the second, or `data` to `SP`.
    pub fn set_word(&mut self, wreg: WordReg, data: u16)
        ensures
            *final(self) == old(self).with_word(wreg, data),
    {
        let (high, low) = split(data);
        match wreg {
            WordReg::AF => {
                self.a = high;
                self.f = low;
            },
            WordReg::BC => {
                self.b = high;
                self.c = low;
            },
            WordReg::DE => {
                self.d = high;
                self.e = low;
            },
            WordReg::HL => {
                self.h = high;
                self.l = low;
            },
            WordReg::SP => self.sp = data,
        }
    }

    /// Reads one byte register.
    pub fn get_byte(&self, breg: ByteReg) -> (value: u8)
        ensures
            value == self.byte(breg),
    {
        match breg {
            ByteReg::A => self.a,
            ByteReg::B => self.b,
            ByteReg::C => self.c,
            ByteReg::D => self.d,
            ByteReg::E => self.e,
            ByteReg::F => self.f,
            ByteReg::H => self.h,
            ByteReg::L => self.l,
        }
    }

    /// Writes one byte register.
    pub fn set_byte(&mut self, breg: ByteReg, data: u8)
        ensures
            *final(self) == old(self).with_byte(breg, data),
    {
        match breg {
            ByteReg::A => self.a = data,
            ByteReg::B => self.b = data,
            ByteReg::C => self.c = data,
            ByteReg::D => self.d = data,
            ByteReg::E => self.e = data,
            ByteReg::F => self.f = data,
            ByteReg::H => self.h = data,
            ByteReg::L => self.l = data,
        }
    }

    /// Sets the Zero flag if `data` is zero and clears it otherwise.
    pub fn check_zero(&mut self, data: u8)
        ensures
            *final(self) == old(self).with_f(with_flag(old(self).f, ZERO, data == 0)),
    {
        if data == 0 {
            self.f |= ZERO;
        } else {
            self.f &= !ZERO;
        }
    }

    /// Sets the Subtract flag if `data` holds and clears it otherwise.
    pub fn subtract(&mut self, data: bool)
        ensures
            *final(self) == old(self).with_f(with_flag(old(self).f, SUBTRACT, data)),
    {
        if data {
            self.f |= SUBTRACT;
        } else {
            self.f &= !SUBTRACT;
        }
    }

    /// Sets the Half-Carry flag if the intermediate `data` exceeds `0xF` and
    /// clears it otherwise. `data` is the nibble-level result before it is
    /// cut to four bits.
    pub fn check_half_carry(&mut self, data: u16)
        ensures
            *final(self) == old(self).with_f(with_flag(old(self).f, HALF_CARRY, data > 0xf)),
    {
        if data > 0xf {
            self.f |= HALF_CARRY;
        } else {
            self.f &= !HALF_CARRY;
        }
    }

    /// Sets the Carry flag if the intermediate `data` exceeds `0xFF` and
    /// clears it otherwise. `data` is the byte-level result before it is cut
    /// to eight bits.
    pub fn check_carry(&mut self, data: u16)
        ensures
            *final(self) == old(self).with_f(with_flag(old(self).f, CARRY, data > 0xff)),
    {
        if data > 0xff {
            self.f |= CARRY;
        } else {
            self.f &= !CARRY;
        }
    }

    /// Whether the Carry flag is set.
    pub fn get_carry(&self) -> (set: bool)
        ensures
            set == self.carry(),
    {
        self.f & CARRY != 0
    }

    /// Overwrites `F` with `data`.
    pub fn set_flags(&mut self, data: u8)
        ensures
            *final(self) == old(self).with_f(data),
    {
        self.f = data;
    }

    /// Sets the stack pointer to `data`.
    pub fn push_word(&mut self, data: u16)
        ensures
            *final(self) == old(self).with_word(WordReg::SP, data),
    {
        self.set_word(WordReg::SP, data);
    }
}

impl Default for Registers {
    /// A register file with every register zero.
    fn default() -> (regs: Self)
        ensures
            regs == Registers::default_value(),
    {
        Self::new()
    }
}

/// A pair view reads back what was written to it, and the two byte registers
/// of the pair hold the high and the low byte of the written value.
pub proof fn word_round_trip(regs: Registers, wreg: WordReg, data: u16)
    ensures
        regs.with_word(wreg, data).word(wreg) == data,
        wreg == WordReg::AF ==> regs.with_word(wreg, data).a == high_byte(data)
            && regs.with_word(wreg, data).f == low_byte(data),
        wreg == WordReg::BC ==> regs.with_word(wreg, data).b == high_byte(data)
            && regs.with_word(wreg, data).c == low_byte(data),
        wreg == WordReg::DE ==> regs.with_word(wreg, data).d == high_byte(data)
            && regs.with_word(wreg, data).e == low_byte(data),
        wreg == WordReg::HL ==> regs.with_word(wreg, data).h == high_byte(data)
            && regs.with_word(wreg, data).l == low_byte(data),
        wreg == WordReg::SP ==> regs.with_word(wreg, data).sp == data,
{
}

/// Writing a pair view the value it already has changes nothing.
pub proof fn word_write_back(regs: Registers, wreg: WordReg)
    ensures
        regs.with_word(wreg, regs.word(wreg)) == regs,
{
}

/// The arithmetic reading of a pair agrees with the bitwise one: a pair is
/// `(high << 8) | low`, its high byte is `value >> 8` and its low byte is
/// `value & 0xFF`.
pub proof fn pair_is_shift_or(high: u8, low: u8, value: u16)
    ensures
        pair(high, low) == ((high as u16) << 8) | (low as u16),
        high_byte(value) == value >> 8,
        low_byte(value) == value & 0xff,
{
    assert(((high as u16) << 8) | (low as u16) == 256 * high + low) by (bit_vector);
    assert(value >> 8 == value / 256 && value & 0xff == value % 256) by (bit_vector);
}

/// Updating one flag gives that flag the new value and leaves the other three
/// flags and the low nibble of the flag byte as they were.
pub proof fn flag_update_reads(f: u8, mask: u8, on: bool)
    requires
        is_flag(mask),
    ensures
        has_flag(with_flag(f, mask, on), mask) == on,
        forall|other: u8|
            is_flag(other) && other != mask ==> #[trigger] has_flag(with_flag(f, mask, on), other)
                == has_flag(f, other),
        with_flag(f, mask, on) & 0x0f == f & 0x0f,
{
    assert(mask == 0x80 || mask == 0x40 || mask == 0x20 || mask == 0x10 ==> ((f | mask) & mask
        != 0) && ((f & !mask) & mask == 0) && ((f | mask) & 0x0f == f & 0x0f) && ((f & !mask)
        & 0x0f == f & 0x0f)) by (bit_vector);
    assert forall|other: u8| is_flag(other) && other != mask implies #[trigger] has_flag(
        with_flag(f, mask, on),
        other,
    ) == has_flag(f, other) by {
        assert((mask == 0x80 || mask == 0x40 || mask == 0x20 || mask == 0x10) && (other == 0x80
            || other == 0x40 || other == 0x20 || other == 0x10) && other != mask ==> ((f | mask)
            & other == f & other) && ((f & !mask) & other == f & other)) by (bit_vector);
    }
}

/// A flag byte built from four flags holds exactly those flags, and its low
/// nibble is zero.
pub proof fn flag_byte_reads(zero: bool, subtract: bool, half_carry: bool, carry: bool)
    ensures
        has_flag(flag_byte(zero, subtract, half_carry, carry), ZERO) == zero,
        has_flag(flag_byte(zero, subtract, half_carry, carry), SUBTRACT) == subtract,
        has_flag(flag_byte(zero, subtract, half_carry, carry), HALF_CARRY) == half_carry,
        has_flag(flag_byte(zero, subtract, half_carry, carry), CARRY) == carry,
        flag_byte(zero, subtract, half_carry, carry) & 0x0f == 0,
{
    let f = flag_byte(zero, subtract, half_carry, carry);
    assert(f % 16 == 0 ==> (f & 0x80 != 0 <==> f >= 0x80) && (f & 0x40 != 0 <==> f % 0x80 >= 0x40)
        && (f & 0x20 != 0 <==> f % 0x40 >= 0x20) && (f & 0x10 != 0 <==> f % 0x20 >= 0x10) && f
        & 0x0f == 0) by (bit_vector);
}

/// Clearing the flag byte and then updating the four flags one after the
/// other gives the flag byte built from the four values.
pub proof fn flag_byte_from_updates(zero: bool, subtract: bool, half_carry: bool, carry: bool)
    ensures
        with_flag(
            with_flag(with_flag(with_flag(0, ZERO, zero), SUBTRACT, subtract), HALF_CARRY, half_carry),
            CARRY,
            carry,
        ) == flag_byte(zero, subtract, half_carry, carry),
{
    assert(0u8 & 0x0f == 0) by (bit_vector);
    flag_updates_on_clean_byte(0, zero, subtract, half_carry, carry);
}

/// On a flag byte whose low nibble is zero, updating all four flags gives the
/// flag byte built from the four values, whatever the byte held before.
pub proof fn flag_updates_on_clean_byte(
    f: u8,
    zero: bool,
    subtract: bool,
    half_carry: bool,
    carry: bool,
)
    requires
        f & 0x0f == 0,
    ensures
        with_flag(
            with_flag(with_flag(with_flag(f, ZERO, zero), SUBTRACT, subtract), HALF_CARRY, half_carry),
            CARRY,
            carry,
        ) == flag_byte(zero, subtract, half_carry, carry),
{
    let z: u8 = if zero { 0x80 } else { 0 };
    let n: u8 = if subtract { 0x40 } else { 0 };
    let h: u8 = if half_carry { 0x20 } else { 0 };
    let c: u8 = if carry { 0x10 } else { 0 };
    assert(f & 0x0f == 0 && (z == 0x80 || z == 0) && (n == 0x40 || n == 0) && (h == 0x20 || h == 0)
        && (c == 0x10 || c == 0) ==> ((((f & !0x80u8) | z) & !0x40u8 | n) & !0x20u8 | h) & !0x10u8
        | c == z + n + h + c) by (bit_vector);
    assert(forall|g: u8| #![auto] g | 0 == g) by (bit_vector);
    assert(forall|g: u8, m: u8| #![auto] (g & !m) | m == g | m) by (bit_vector);
}

/// Writing a flag byte that holds Half-Carry alone or no flag at all, and then
/// updating Zero, gives the flag byte built from Zero and that Half-Carry.
pub proof fn zero_after_pattern(zero: bool)
    ensures
        with_flag(0, ZERO, zero) == flag_byte(zero, false, false, false),
        with_flag(HALF_CARRY, ZERO, zero) == flag_byte(zero, false, true, false),
{
    assert(0u8 | 0x80 == 0x80 && 0u8 & !0x80u8 == 0 && 0x20u8 | 0x80 == 0xA0 && 0x20u8 & !0x80u8
        == 0x20) by (bit_vector);
}

/// Clearing the flag byte and then updating Half-Carry and Carry gives the
/// flag byte built from those two, with Zero and Subtract clear.
pub proof fn carries_after_clear(half_carry: bool, carry: bool)
    ensures
        with_flag(with_flag(0, HALF_CARRY, half_carry), CARRY, carry) == flag_byte(
            false,
            false,
            half_carry,
            carry,
        ),
{
    assert(0u8 & !0x80u8 == 0 && 0u8 & !0x40u8 == 0) by (bit_vector);
    flag_byte_from_updates(false, false, half_carry, carry);
}

/// Joins two bytes into the 16-bit value `(high << 8) | low`.
fn join(high: u8, low: u8) -> (value: u16)
    ensures
        value == pair(high, low),
{
    proof {
        pair_is_shift_or(high, low, 0);
    }
    ((high as u16) << 8) | (low as u16)
}

/// Splits a 16-bit value into its high and low byte.
fn split(value: u16) -> (bytes: (u8, u8))
    ensures
        bytes.0 == high_byte(value),
        bytes.1 == low_byte(value),
{
    proof {
        pair_is_shift_or(0, 0, value);
    }
    ((value >> 8) as u8, (value & 0xff) as u8)
}

} // verus!
