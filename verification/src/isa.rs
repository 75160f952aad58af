//! The instruction set as mathematics: what each instruction is, how an
//! opcode byte selects one, and what one instruction does to the machine.
//! The engine is verified against these definitions.
use crate::bus::BusView;
use crate::registers::{
    flag_byte, with_flag, ByteReg, Registers, WordReg, CARRY, HALF_CARRY, SUBTRACT, ZERO,
};
use crate::types::Size;
use vstd::prelude::*;

verus! {

/// An 8-bit location that an instruction reads and writes.
#[derive(Clone, Copy, Debug, PartialEq, Eq, Structural)]
pub enum Place {
    /// A byte register.
    Reg(ByteReg),
    /// The byte at the address held in `HL`.
    AtHl,
}

/// Where an instruction takes an 8-bit operand from.
#[derive(Clone, Copy, Debug, PartialEq, Eq, Structural)]
pub enum Operand {
    /// A byte register.
    Reg(ByteReg),
    /// The byte at the address held in `HL`.
    AtHl,
    /// The byte that follows the opcode.
    Imm,
}

/// The eight operations of the 8-bit arithmetic and logic group.
#[derive(Clone, Copy, Debug, PartialEq, Eq, Structural)]
pub enum AluOp {
    Add,
    Adc,
    Sub,
    Sbc,
    And,
    Xor,
    Or,
    Cp,
}

/// One instruction, decoded.
#[derive(Clone, Copy, Debug, PartialEq, Eq, Structural)]
pub enum Instr {
    /// 8-bit arithmetic or logic on `A` and an operand.
    Alu(AluOp, Operand),
    /// 8-bit increment.
    Inc(Place),
    /// 8-bit decrement.
    Dec(Place),
    /// 16-bit increment.
    IncWord(WordReg),
    /// 16-bit decrement.
    DecWord(WordReg),
    /// 16-bit add into `HL`.
    AddHl(WordReg),
    /// Add the signed immediate byte to `SP`.
    AddSp,
    /// Copy an operand into a place.
    Load(Place, Operand),
    /// Load `A` from the byte at `HL`, then step `HL` up (`true`) or down.
    LoadAStep(bool),
    /// Store `A` to the byte at `HL`, then step `HL` up (`true`) or down.
    StoreAStep(bool),
    /// Test one bit.
    TestBit(u8, Place),
    /// Clear one bit.
    ResetBit(u8, Place),
    /// Set one bit.
    SetBit(u8, Place),
    /// Exchange the two nibbles.
    Swap(Place),
    /// Rotate left through Carry.
    Rl(Place),
}

impl Place {
    /// Whether an instruction can name the place: `F` is no operand of any
    /// instruction.
    pub open spec fn well_formed(self) -> bool {
        self != Place::Reg(ByteReg::F)
    }
}

impl Operand {
    /// Whether an instruction can name the operand: `F` is no operand of
    /// any instruction.
    pub open spec fn well_formed(self) -> bool {
        self != Operand::Reg(ByteReg::F)
    }
}

impl Instr {
    /// Whether the instruction is one that an opcode can select: it names
    /// bits 0 to 7 only, never the register `F`, never the pair `AF`, and it
    /// does not load the byte at `HL` from itself.
    pub open spec fn well_formed(self) -> bool {
        match self {
            Instr::Alu(_, src) => src.well_formed(),
            Instr::Inc(place) | Instr::Dec(place) | Instr::Swap(place) | Instr::Rl(place) =>
                place.well_formed(),
            Instr::IncWord(wreg) | Instr::DecWord(wreg) | Instr::AddHl(wreg) => wreg
                != WordReg::AF,
            Instr::Load(dst, src) => dst.well_formed() && src.well_formed() && !(dst is AtHl
                && src is AtHl),
            Instr::TestBit(bit, place) | Instr::ResetBit(bit, place) | Instr::SetBit(bit, place) =>
                bit < 8 && place.well_formed(),
            _ => true,
        }
    }
}

/// The dispatch table that an opcode byte is looked up in.
#[derive(Clone, Copy, Debug, PartialEq, Eq, Structural)]
pub enum Table {
    /// The base table, indexed by the first byte of an instruction.
    Main,
    /// The bit and shift table, indexed by the byte after the `0xCB` prefix.
    Extended,
}

/// The report of a step that met an opcode without a handler.
#[derive(Clone, Copy, Debug, PartialEq, Eq, Structural)]
pub struct IllegalOpcode {
    /// The offending byte.
    pub opcode: u8,
    /// The table in which the byte has no entry.
    pub table: Table,
}

/// The opcode that leads to the extended table.
pub const PREFIX: u8 = 0xCB;

/// The place that a 3-bit operand field names: `B C D E H L (HL) A`.
pub open spec fn place_of(field: int) -> Place {
    if field == 0 {
        Place::Reg(ByteReg::B)
    } else if field == 1 {
        Place::Reg(ByteReg::C)
    } else if field == 2 {
        Place::Reg(ByteReg::D)
    } else if field == 3 {
        Place::Reg(ByteReg::E)
    } else if field == 4 {
        Place::Reg(ByteReg::H)
    } else if field == 5 {
        Place::Reg(ByteReg::L)
    } else if field == 6 {
        Place::AtHl
    } else {
        Place::Reg(ByteReg::A)
    }
}

/// A place, read as an operand.
pub open spec fn operand_of(place: Place) -> Operand {
    match place {
        Place::Reg(r) => Operand::Reg(r),
        Place::AtHl => Operand::AtHl,
    }
}

/// The operation that a 3-bit operation field names:
/// `ADD ADC SUB SBC AND XOR OR CP`.
pub open spec fn alu_of(field: int) -> AluOp {
    if field == 0 {
        AluOp::Add
    } else if field == 1 {
        AluOp::Adc
    } else if field == 2 {
        AluOp::Sub
    } else if field == 3 {
        AluOp::Sbc
    } else if field == 4 {
        AluOp::And
    } else if field == 5 {
        AluOp::Xor
    } else if field == 6 {
        AluOp::Or
    } else {
        AluOp::Cp
    }
}

/// The 16-bit register that a 2-bit pair field names: `BC DE HL SP`.
pub open spec fn pair_of(field: int) -> WordReg {
    if field == 0 {
        WordReg::BC
    } else if field == 1 {
        WordReg::DE
    } else if field == 2 {
        WordReg::HL
    } else {
        WordReg::SP
    }
}

/// The instruction that `op` selects in the main table, if it has an entry.
/// The prefix byte is no entry of its own: see `Machine::step`.
pub open spec fn decode_main(op: u8) -> Option<Instr> {
    if op == 0x76 || op == PREFIX {
        None
    } else if 0x40 <= op < 0x80 {
        Some(Instr::Load(place_of((op as int / 8) % 8), operand_of(place_of(op as int % 8))))
    } else if 0x80 <= op < 0xC0 {
        Some(Instr::Alu(alu_of((op as int / 8) % 8), operand_of(place_of(op as int % 8))))
    } else if op >= 0xC0 {
        if op % 8 == 6 {
            Some(Instr::Alu(alu_of((op as int / 8) % 8), Operand::Imm))
        } else if op == 0xE8 {
            Some(Instr::AddSp)
        } else {
            None
        }
    } else if op % 8 == 4 {
        Some(Instr::Inc(place_of(op as int / 8)))
    } else if op % 8 == 5 {
        Some(Instr::Dec(place_of(op as int / 8)))
    } else if op % 8 == 6 {
        Some(Instr::Load(place_of(op as int / 8), Operand::Imm))
    } else if op % 16 == 3 {
        Some(Instr::IncWord(pair_of(op as int / 16)))
    } else if op % 16 == 0xB {
        Some(Instr::DecWord(pair_of(op as int / 16)))
    } else if op % 16 == 9 {
        Some(Instr::AddHl(pair_of(op as int / 16)))
    } else if op == 0x22 {
        Some(Instr::StoreAStep(true))
    } else if op == 0x2A {
        Some(Instr::LoadAStep(true))
    } else if op == 0x32 {
        Some(Instr::StoreAStep(false))
    } else if op == 0x3A {
        Some(Instr::LoadAStep(false))
    } else {
        None
    }
}

/// The instruction that `op` selects in the extended table, if it has an
/// entry.
pub open spec fn decode_extended(op: u8) -> Option<Instr> {
    if 0x10 <= op < 0x18 {
        Some(Instr::Rl(place_of(op as int % 8)))
    } else if 0x30 <= op < 0x38 {
        Some(Instr::Swap(place_of(op as int % 8)))
    } else if 0x40 <= op < 0x80 {
        Some(Instr::TestBit(((op as int / 8) % 8) as u8, place_of(op as int % 8)))
    } else if 0x80 <= op < 0xC0 {
        Some(Instr::ResetBit(((op as int / 8) % 8) as u8, place_of(op as int % 8)))
    } else if op >= 0xC0 {
        Some(Instr::SetBit(((op as int / 8) % 8) as u8, place_of(op as int % 8)))
    } else {
        None
    }
}

/// The fixed number of cycles that an instruction costs.
pub open spec fn cost(instr: Instr) -> int {
    match instr {
        Instr::Alu(_, src) => if src is Reg { 4 } else { 8 },
        Instr::Inc(p) | Instr::Dec(p) => if p is AtHl { 12 } else { 4 },
        Instr::IncWord(_) | Instr::DecWord(_) | Instr::AddHl(_) => 8,
        Instr::AddSp => 16,
        Instr::Load(dst, src) => if dst is AtHl && src is Imm {
            12
        } else if dst is AtHl || !(src is Reg) {
            8
        } else {
            4
        },
        Instr::LoadAStep(_) | Instr::StoreAStep(_) => 8,
        Instr::TestBit(_, p) => if p is AtHl { 12 } else { 8 },
        Instr::ResetBit(_, p) | Instr::SetBit(_, p) | Instr::Swap(p) | Instr::Rl(p) => if p is AtHl {
            16
        } else {
            8
        },
    }
}

/// Whether an instruction leaves the flag register as it is.
pub open spec fn keeps_flags(instr: Instr) -> bool {
    match instr {
        Instr::IncWord(_) | Instr::DecWord(_) | Instr::Load(_, _) | Instr::LoadAStep(_)
        | Instr::StoreAStep(_) | Instr::ResetBit(_, _) | Instr::SetBit(_, _) => true,
        _ => false,
    }
}

/// The result and the flag byte of an 8-bit add of `a`, `b` and a carry-in.
/// Half-Carry and Carry come from the sums before they are cut to four and
/// eight bits.
pub open spec fn add8(a: u8, b: u8, carry_in: bool) -> (u8, u8) {
    let c: int = if carry_in { 1 } else { 0 };
    let result = ((a + b + c) % 256) as u8;
    (result, flag_byte(result == 0, false, a % 16 + b % 16 + c > 15, a + b + c > 255))
}

/// The result and the flag byte of an 8-bit subtraction of `b` and a
/// carry-in from `a`. Half-Carry and Carry are the borrows out of bit 3 and
/// bit 7.
pub open spec fn sub8(a: u8, b: u8, carry_in: bool) -> (u8, u8) {
    let c: int = if carry_in { 1 } else { 0 };
    let result = ((a - b - c) % 256) as u8;
    (result, flag_byte(result == 0, true, a % 16 < b % 16 + c, a < b + c))
}

/// The new accumulator and the new flag byte of an operation of the 8-bit
/// arithmetic and logic group on the accumulator `a`, the operand `b` and
/// the Carry flag before the operation.
pub open spec fn alu(op: AluOp, a: u8, b: u8, carry: bool) -> (u8, u8) {
    match op {
        AluOp::Add => add8(a, b, false),
        AluOp::Adc => add8(a, b, carry),
        AluOp::Sub => sub8(a, b, false),
        AluOp::Sbc => sub8(a, b, carry),
        AluOp::And => (a & b, flag_byte(a & b == 0, false, true, false)),
        AluOp::Xor => (a ^ b, flag_byte(a ^ b == 0, false, false, false)),
        AluOp::Or => (a | b, flag_byte(a | b == 0, false, false, false)),
        AluOp::Cp => (a, sub8(a, b, false).1),
    }
}

/// The value after an 8-bit increment or decrement, with wraparound.
pub open spec fn stepped(value: u8, up: bool) -> u8 {
    if up {
        ((value + 1) % 256) as u8
    } else {
        ((value - 1) % 256) as u8
    }
}

/// The flag byte after an 8-bit increment or decrement of `value`: Zero and
/// Half-Carry are recomputed, Subtract tells the direction, and every other
/// bit of `f`, Carry among them, stays.
pub open spec fn stepped_flags(f: u8, value: u8, up: bool) -> u8 {
    with_flag(
        with_flag(with_flag(f, ZERO, stepped(value, up) == 0), SUBTRACT, !up),
        HALF_CARRY,
        if up {
            value % 16 == 15
        } else {
            value % 16 == 0
        },
    )
}

/// A 16-bit value plus `delta`, with wraparound.
pub open spec fn wrap16(value: u16, delta: int) -> u16 {
    ((value + delta) % 0x10000) as u16
}

/// The flag byte after the 16-bit add of `x` and `y`: Subtract is cleared,
/// Half-Carry and Carry are the carries out of bit 11 and bit 15, and every
/// other bit of `f`, Zero among them, stays.
pub open spec fn add16_flags(f: u8, x: u16, y: u16) -> u8 {
    with_flag(
        with_flag(with_flag(f, SUBTRACT, false), HALF_CARRY, x % 0x1000 + y % 0x1000 > 0xFFF),
        CARRY,
        x + y > 0xFFFF,
    )
}

/// The signed value of a byte read as two's complement.
pub open spec fn signed(byte: u8) -> int {
    if byte < 128 {
        byte as int
    } else {
        byte - 256
    }
}

/// The flag byte after adding the immediate `n` to `sp`: Zero and Subtract
/// are cleared, Half-Carry and Carry come from adding `n` to the low byte.
pub open spec fn add_sp_flags(sp: u16, n: u8) -> u8 {
    flag_byte(false, false, sp % 16 + n % 16 > 15, sp % 256 + n > 255)
}

/// Whether bit `bit` of `value` is set.
pub open spec fn bit_set(value: u8, bit: u8) -> bool {
    value & (1u8 << bit) != 0
}

/// The flag byte after the test of bit `bit` of `value`: Zero is set exactly
/// if the bit is clear, Subtract is cleared, Half-Carry is set, and every
/// other bit of `f`, Carry among them, stays.
pub open spec fn tested_flags(f: u8, value: u8, bit: u8) -> u8 {
    with_flag(with_flag(with_flag(f, ZERO, !bit_set(value, bit)), SUBTRACT, false), HALF_CARRY, true)
}

/// `value` with its two nibbles exchanged.
pub open spec fn swapped(value: u8) -> u8 {
    ((value % 16) * 16 + value / 16) as u8
}

/// `value` shifted left by one with `carry_in` as the new bit 0.
pub open spec fn rotated_left(value: u8, carry_in: bool) -> u8 {
    ((2 * value + if carry_in { 1int } else { 0 }) % 256) as u8
}

/// The whole machine, as plain values.
pub struct Machine {
    /// The register file.
    pub reg: Registers,
    /// The bus with its stores.
    pub bus: BusView,
    /// The program counter.
    pub pc: u16,
}

impl Machine {
    /// The byte that a read at `addr` gives.
    pub open spec fn read8(self, addr: u16) -> u8 {
        self.bus.read(Size::Byte, addr as int) as u8
    }

    /// The machine after a write of `value` at `addr`.
    pub open spec fn write8(self, addr: u16, value: u8) -> Machine {
        Machine { bus: self.bus.write(Size::Byte, addr as int, value as int), ..self }
    }

    /// The machine with the program counter moved `n` bytes on, with
    /// wraparound.
    pub open spec fn skip(self, n: int) -> Machine {
        Machine { pc: wrap16(self.pc, n), ..self }
    }

    /// The machine with `n` more cycles counted.
    pub open spec fn tick(self, n: int) -> Machine {
        Machine { bus: self.bus.tick(n), ..self }
    }

    /// The machine with another register file.
    pub open spec fn with_reg(self, reg: Registers) -> Machine {
        Machine { reg, ..self }
    }

    /// The address held in `HL`.
    pub open spec fn hl(self) -> u16 {
        self.reg.word(WordReg::HL)
    }

    /// The value at a place.
    pub open spec fn get(self, place: Place) -> u8 {
        match place {
            Place::Reg(r) => self.reg.byte(r),
            Place::AtHl => self.read8(self.hl()),
        }
    }

    /// The machine with `value` put at a place.
    pub open spec fn put(self, place: Place, value: u8) -> Machine {
        match place {
            Place::Reg(r) => self.with_reg(self.reg.with_byte(r, value)),
            Place::AtHl => self.write8(self.hl(), value),
        }
    }

    /// The value of an operand. An immediate is the byte at the program
    /// counter.
    pub open spec fn operand(self, src: Operand) -> u8 {
        match src {
            Operand::Reg(r) => self.reg.byte(r),
            Operand::AtHl => self.read8(self.hl()),
            Operand::Imm => self.read8(self.pc),
        }
    }

    /// The machine after an operand was taken: an immediate moves the
    /// program counter past its byte.
    pub open spec fn past(self, src: Operand) -> Machine {
        match src {
            Operand::Imm => self.skip(1),
            _ => self,
        }
    }

    /// The machine after an operation of the 8-bit arithmetic and logic
    /// group on `A` and an operand.
    pub open spec fn alu_step(self, op: AluOp, src: Operand) -> Machine {
        let out = alu(op, self.reg.a, self.operand(src), self.reg.carry());
        self.past(src).with_reg(Registers { a: out.0, f: out.1, ..self.reg })
    }

    /// The machine after an 8-bit increment (`up`) or decrement of a place.
    pub open spec fn stepped(self, place: Place, up: bool) -> Machine {
        self.put(place, stepped(self.get(place), up)).step_flagged(self.get(place), up)
    }

    /// The machine after a 16-bit increment (`up`) or decrement. The flags
    /// stay.
    pub open spec fn word_stepped(self, wreg: WordReg, up: bool) -> Machine {
        self.with_reg(
            self.reg.with_word(wreg, wrap16(self.reg.word(wreg), if up { 1 } else { -1 })),
        )
    }

    /// The machine after the 16-bit add of a register into `HL`.
    pub open spec fn add_hl(self, wreg: WordReg) -> Machine {
        self.with_reg(
            self.reg.with_word(WordReg::HL, wrap16(self.hl(), self.reg.word(wreg) as int)).with_f(
                add16_flags(self.reg.f, self.hl(), self.reg.word(wreg)),
            ),
        )
    }

    /// The machine after the add of the signed immediate byte to `SP`.
    pub open spec fn add_sp(self) -> Machine {
        let n = self.read8(self.pc);
        self.skip(1).with_reg(
            Registers {
                sp: wrap16(self.reg.sp, signed(n)),
                f: add_sp_flags(self.reg.sp, n),
                ..self.reg
            },
        )
    }

    /// The machine after the copy of an operand into a place. The flags
    /// stay.
    pub open spec fn load(self, dst: Place, src: Operand) -> Machine {
        self.past(src).put(dst, self.operand(src))
    }

    /// The machine after `A` was loaded from the byte at `HL` and `HL` was
    /// stepped up or down.
    pub open spec fn load_a_step(self, up: bool) -> Machine {
        self.with_reg(
            self.reg.with_byte(ByteReg::A, self.read8(self.hl())).with_word(
                WordReg::HL,
                wrap16(self.hl(), if up { 1 } else { -1 }),
            ),
        )
    }

    /// The machine after `A` was stored to the byte at `HL` and `HL` was
    /// stepped up or down.
    pub open spec fn store_a_step(self, up: bool) -> Machine {
        self.write8(self.hl(), self.reg.a).with_reg(
            self.reg.with_word(WordReg::HL, wrap16(self.hl(), if up { 1 } else { -1 })),
        )
    }

    /// The machine after the test of one bit of a place: only the flags
    /// change.
    pub open spec fn test_bit(self, bit: u8, place: Place) -> Machine {
        self.flagged(tested_flags(self.reg.f, self.get(place), bit))
    }

    /// The machine after one bit of a place was cleared. The flags stay.
    pub open spec fn reset_bit(self, bit: u8, place: Place) -> Machine {
        self.put(place, self.get(place) & !(1u8 << bit))
    }

    /// The machine after one bit of a place was set. The flags stay.
    pub open spec fn set_bit(self, bit: u8, place: Place) -> Machine {
        self.put(place, self.get(place) | (1u8 << bit))
    }

    /// The machine after the nibbles of a place were exchanged. Zero follows
    /// the result, the other flags are clear.
    pub open spec fn swap(self, place: Place) -> Machine {
        self.put(place, swapped(self.get(place))).flagged(
            flag_byte(swapped(self.get(place)) == 0, false, false, false),
        )
    }

    /// The machine after a place was rotated left through Carry: the old
    /// Carry enters at bit 0, the old bit 7 becomes Carry, Zero follows the
    /// result, Subtract and Half-Carry are clear.
    pub open spec fn rl(self, place: Place) -> Machine {
        let result = rotated_left(self.get(place), self.reg.carry());
        self.put(place, result).flagged(
            flag_byte(result == 0, false, false, self.get(place) >= 128),
        )
    }

    /// What an instruction does to the machine, the cycle count apart. The
    /// program counter stands behind the opcode.
    #[verifier::opaque]
    pub open spec fn apply(self, instr: Instr) -> Machine {
        match instr {
            Instr::Alu(op, src) => self.alu_step(op, src),
            Instr::Inc(place) => self.stepped(place, true),
            Instr::Dec(place) => self.stepped(place, false),
            Instr::IncWord(wreg) => self.word_stepped(wreg, true),
            Instr::DecWord(wreg) => self.word_stepped(wreg, false),
            Instr::AddHl(wreg) => self.add_hl(wreg),
            Instr::AddSp => self.add_sp(),
            Instr::Load(dst, src) => self.load(dst, src),
            Instr::LoadAStep(up) => self.load_a_step(up),
            Instr::StoreAStep(up) => self.store_a_step(up),
            Instr::TestBit(bit, place) => self.test_bit(bit, place),
            Instr::ResetBit(bit, place) => self.reset_bit(bit, place),
            Instr::SetBit(bit, place) => self.set_bit(bit, place),
            Instr::Swap(place) => self.swap(place),
            Instr::Rl(place) => self.rl(place),
        }
    }

    /// The machine with another flag byte.
    pub open spec fn flagged(self, f: u8) -> Machine {
        self.with_reg(self.reg.with_f(f))
    }

    /// The machine with the flags of an 8-bit increment or decrement of
    /// `value` written over its flag byte.
    pub open spec fn step_flagged(self, value: u8, up: bool) -> Machine {
        self.flagged(stepped_flags(self.reg.f, value, up))
    }

    /// What executing an instruction does: its effect, and its fixed cost
    /// counted once.
    pub open spec fn run(self, instr: Instr) -> Machine {
        self.apply(instr).tick(cost(instr))
    }

    /// The opcode byte at the program counter.
    pub open spec fn opcode(self) -> u8 {
        self.read8(self.pc)
    }

    /// The instruction that the next step selects, if the opcode bytes at
    /// the program counter have an entry in their table.
    pub open spec fn selected(self) -> Option<Instr> {
        if self.opcode() == PREFIX {
            decode_extended(self.skip(1).opcode())
        } else {
            decode_main(self.opcode())
        }
    }

    /// The machine after the handler that a table lookup selected has run:
    /// the instruction executed, or nothing changed where the lookup found
    /// no entry.
    pub open spec fn after(self, found: Option<Instr>) -> Machine {
        match found {
            Some(instr) => self.run(instr),
            None => self,
        }
    }

    /// The machine after one step. The opcode byte is fetched and looked up
    /// in the main table; behind the prefix byte a second byte is fetched
    /// and looked up in the extended table. An opcode without an entry
    /// leaves the machine with only the program counter moved past the bytes
    /// fetched.
    pub open spec fn step(self) -> Machine {
        if self.opcode() == PREFIX {
            self.skip(1).skip(1).after(decode_extended(self.skip(1).opcode()))
        } else {
            self.skip(1).after(decode_main(self.opcode()))
        }
    }

    /// What one step reports: success, or the opcode that has no entry and
    /// the table it was looked up in.
    pub open spec fn outcome(self) -> Result<(), IllegalOpcode> {
        if self.opcode() == PREFIX {
            report(decode_extended(self.skip(1).opcode()), self.skip(1).opcode(), Table::Extended)
        } else {
            report(decode_main(self.opcode()), self.opcode(), Table::Main)
        }
    }
}

/// What a table lookup reports: success where it found an entry, the opcode
/// and the table where it found none.
pub open spec fn report(found: Option<Instr>, opcode: u8, table: Table) -> Result<
    (),
    IllegalOpcode,
> {
    match found {
        Some(_) => Ok(()),
        None => Err(IllegalOpcode { opcode, table }),
    }
}

/// Whatever an opcode selects, in either table, is well-formed.
pub proof fn decoding_is_well_formed(op: u8)
    ensures
        decode_main(op) matches Some(instr) ==> instr.well_formed(),
        decode_extended(op) matches Some(instr) ==> instr.well_formed(),
{
}

} // verus!
